//! Notification events: who is told, about what, and by whose doing.

use crate::ident::UserId;
use vstd::prelude::*;
use vstd::string::*;

verus! {

/// The kinds of notification.
#[derive(Clone, Copy, Debug, PartialEq, Eq, Structural)]
pub enum NotificationType {
    CommentReply,
    NewComment,
    PostLike,
    FollowerUpdate,
    SystemMessage,
}

/// One notification event. It lives from the write that causes it to its
/// delivery and is stored nowhere.
#[derive(Debug, PartialEq, Eq)]
pub struct NotificationPayload {
    pub recipient_id: UserId,
    pub notification_type: NotificationType,
    /// The object the notification is about.
    pub object_id: i64,
    /// A second object that gives context, if any.
    pub related_object_id: Option<i64>,
    /// Who triggered the notification.
    pub actor_id: UserId,
    /// Human-readable text.
    pub content: String,
}

/// The mathematical content of a [`NotificationPayload`].
pub struct NotificationPayloadView {
    pub recipient_id: UserId,
    pub notification_type: NotificationType,
    pub object_id: i64,
    pub related_object_id: Option<i64>,
    pub actor_id: UserId,
    pub content: Seq<char>,
}

impl View for NotificationPayload {
    type V = NotificationPayloadView;

    open spec fn view(&self) -> NotificationPayloadView {
        NotificationPayloadView {
            recipient_id: self.recipient_id,
            notification_type: self.notification_type,
            object_id: self.object_id,
            related_object_id: self.related_object_id,
            actor_id: self.actor_id,
            content: self.content@,
        }
    }
}

impl Clone for NotificationPayload {
    fn clone(&self) -> (r: Self)
        ensures
            r@ == self@,
    {
        NotificationPayload {
            recipient_id: self.recipient_id,
            notification_type: self.notification_type,
            object_id: self.object_id,
            related_object_id: self.related_object_id,
            actor_id: self.actor_id,
            content: self.content.clone(),
        }
    }
}

/// The notification that tells `recipient` of a reply: it is about the new
/// comment, points to the post, and names the replier as the actor.
pub open spec fn reply_notice(
    recipient: UserId,
    comment_id: i64,
    post_id: i64,
    actor: UserId,
) -> NotificationPayloadView {
    NotificationPayloadView {
        recipient_id: recipient,
        notification_type: NotificationType::CommentReply,
        object_id: comment_id,
        related_object_id: Some(post_id),
        actor_id: actor,
        content: "You have a new reply to your comment."@,
    }
}

/// The notification that tells the post's author of a new comment.
pub open spec fn new_comment_notice(
    recipient: UserId,
    comment_id: i64,
    post_id: i64,
    actor: UserId,
) -> NotificationPayloadView {
    NotificationPayloadView {
        recipient_id: recipient,
        notification_type: NotificationType::NewComment,
        object_id: comment_id,
        related_object_id: Some(post_id),
        actor_id: actor,
        content: "New comment on your post"@,
    }
}

impl NotificationPayload {
    /// Builds the notification of a reply for the parent comment's author.
    pub fn reply(recipient: UserId, comment_id: i64, post_id: i64, actor: UserId) -> (r:
        NotificationPayload)
        ensures
            r@ == reply_notice(recipient, comment_id, post_id, actor),
    {
        NotificationPayload {
            recipient_id: recipient,
            notification_type: NotificationType::CommentReply,
            object_id: comment_id,
            related_object_id: Some(post_id),
            actor_id: actor,
            content: String::from_str("You have a new reply to your comment."),
        }
    }

    /// Builds the notification of a new comment for the post's author.
    pub fn new_comment(recipient: UserId, comment_id: i64, post_id: i64, actor: UserId) -> (r:
        NotificationPayload)
        ensures
            r@ == new_comment_notice(recipient, comment_id, post_id, actor),
    {
        NotificationPayload {
            recipient_id: recipient,
            notification_type: NotificationType::NewComment,
            object_id: comment_id,
            related_object_id: Some(post_id),
            actor_id: actor,
            content: String::from_str("New comment on your post"),
        }
    }
}

} // verus!
