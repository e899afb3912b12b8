use blog_backend::ident::UserId;

#[test]
fn test_notification_channel_format() {
    let user_id = UserId::parse("123e4567-e89b-12d3-a456-426614174000").unwrap();
    let channel_name = blog_backend::cache::facade::notification_channel(&user_id);
    assert_eq!(
        channel_name,
        "notifications:user:123e4567-e89b-12d3-a456-426614174000"
    );
}

#[test]
fn user_ids_are_written_hyphenated_and_lowercase() {
    assert_eq!(
        UserId { value: 0x123e4567_e89b_12d3_a456_426614174000 }.to_text(),
        "123e4567-e89b-12d3-a456-426614174000"
    );
    assert_eq!(UserId { value: 0 }.to_text(), "00000000-0000-0000-0000-000000000000");
    assert_eq!(UserId { value: u128::MAX }.to_text(), "ffffffff-ffff-ffff-ffff-ffffffffffff");
    assert_eq!(
        UserId { value: 0x0123456789abcdef_fedcba9876543210 }.to_text(),
        "01234567-89ab-cdef-fedc-ba9876543210"
    );
}

#[test]
fn user_ids_agree_with_the_uuid_crate() {
    for value in [1u128, 0xdead_beef, 1 << 64, (1 << 127) + 12345, u128::MAX - 1] {
        assert_eq!(UserId { value }.to_text(), uuid::Uuid::from_u128(value).to_string());
    }
}

#[test]
fn user_ids_are_read_back_from_their_text() {
    for value in [0u128, 1, 0x123e4567_e89b_12d3_a456_426614174000, u128::MAX] {
        let text = UserId { value }.to_text();
        assert_eq!(UserId::parse(&text), Ok(UserId { value }));
    }
    assert_eq!(
        UserId::parse("123E4567E89B12D3A456426614174000"),
        Ok(UserId { value: 0x123e4567_e89b_12d3_a456_426614174000 })
    );
}

#[test]
fn text_that_is_no_user_id_is_refused_with_the_parser_message() {
    let message = UserId::parse("not-a-uuid").unwrap_err();
    assert_eq!(message, uuid::Uuid::parse_str("not-a-uuid").unwrap_err().to_string());
    assert!(!message.is_empty());
    assert!(UserId::parse("").is_err());
}
