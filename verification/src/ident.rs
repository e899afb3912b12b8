//! User identities. A user is known by a 128-bit identifier whose text form
//! is the usual hyphenated UUID.

use vstd::prelude::*;

verus! {

/// The identity of a user: the 128-bit value of their UUID.
#[derive(Clone, Copy, Debug, PartialEq, Eq, Hash, Structural)]
pub struct UserId {
    pub value: u128,
}

/// The lowercase hexadecimal digit for `d`, `0 <= d < 16`.
pub open spec fn hex_char(d: int) -> char {
    if d == 0 {
        '0'
    } else if d == 1 {
        '1'
    } else if d == 2 {
        '2'
    } else if d == 3 {
        '3'
    } else if d == 4 {
        '4'
    } else if d == 5 {
        '5'
    } else if d == 6 {
        '6'
    } else if d == 7 {
        '7'
    } else if d == 8 {
        '8'
    } else if d == 9 {
        '9'
    } else if d == 10 {
        'a'
    } else if d == 11 {
        'b'
    } else if d == 12 {
        'c'
    } else if d == 13 {
        'd'
    } else if d == 14 {
        'e'
    } else {
        'f'
    }
}

/// Sixteen to the power `e`.
pub open spec fn sixteen_to(e: nat) -> nat
    decreases e,
{
    if e == 0 {
        1
    } else {
        16 * sixteen_to((e - 1) as nat)
    }
}

/// The `k`-th of the 32 hexadecimal digits of `value`, counted from the most
/// significant one.
pub open spec fn nibble(value: u128, k: int) -> int {
    ((value as int) / (sixteen_to((31 - k) as nat) as int)) % 16
}

/// The 32 lowercase hexadecimal digits of `value`, most significant first.
pub open spec fn simple_hex(value: u128) -> Seq<char> {
    Seq::new(32, |k: int| hex_char(nibble(value, k)))
}

/// The 36-character hyphenated form, grouped 8-4-4-4-12.
pub open spec fn hyphenated(value: u128) -> Seq<char> {
    let s = simple_hex(value);
    s.subrange(0, 8) + seq!['-'] + s.subrange(8, 12) + seq!['-'] + s.subrange(12, 16) + seq!['-']
        + s.subrange(16, 20) + seq!['-'] + s.subrange(20, 32)
}

/// Different hexadecimal digits are written with different characters.
pub proof fn lemma_hex_chars_differ(a: int, b: int)
    requires
        0 <= a < 16,
        0 <= b < 16,
    ensures
        hex_char(a) == hex_char(b) ==> a == b,
{
}

/// The `k`-th digit of the 32 stands at this place of the hyphenated form.
pub open spec fn place_of(k: int) -> int {
    if k < 8 {
        k
    } else if k < 12 {
        k + 1
    } else if k < 16 {
        k + 2
    } else if k < 20 {
        k + 3
    } else {
        k + 4
    }
}

proof fn lemma_hyphenated_digit(value: u128, k: int)
    requires
        0 <= k < 32,
    ensures
        hyphenated(value).len() == 36,
        hyphenated(value)[place_of(k)] == hex_char(nibble(value, k)),
{
}

proof fn lemma_leading_digits(a: u128, b: u128, k: int)
    requires
        0 <= k < 32,
        forall|j: int| 0 <= j < 32 ==> nibble(a, j) == nibble(b, j),
    ensures
        (a as int) / (sixteen_to((31 - k) as nat) as int) == (b as int) / (sixteen_to(
            (31 - k) as nat,
        ) as int),
        sixteen_to((31 - k) as nat) > 0,
    decreases k,
{
    let unit = sixteen_to((31 - k) as nat) as int;
    lemma_sixteen_to_positive((31 - k) as nat);
    if k == 0 {
        reveal_with_fuel(sixteen_to, 33);
        assert(sixteen_to(32) == 0x1_0000_0000_0000_0000_0000_0000_0000_0000int);
        assert(sixteen_to(32) == 16 * unit);
        vstd::arithmetic::div_mod::lemma_div_denominator(a as int, unit, 16);
        vstd::arithmetic::div_mod::lemma_div_denominator(b as int, unit, 16);
        assert((a as int) / (unit * 16) == 0) by {
            vstd::arithmetic::div_mod::lemma_basic_div(a as int, unit * 16);
        }
        assert((b as int) / (unit * 16) == 0) by {
            vstd::arithmetic::div_mod::lemma_basic_div(b as int, unit * 16);
        }
        vstd::arithmetic::div_mod::lemma_fundamental_div_mod((a as int) / unit, 16);
        vstd::arithmetic::div_mod::lemma_fundamental_div_mod((b as int) / unit, 16);
        assert(nibble(a, 0) == nibble(b, 0));
    } else {
        lemma_leading_digits(a, b, k - 1);
        let above = sixteen_to((32 - k) as nat) as int;
        assert(above == 16 * unit);
        vstd::arithmetic::div_mod::lemma_div_denominator(a as int, unit, 16);
        vstd::arithmetic::div_mod::lemma_div_denominator(b as int, unit, 16);
        assert(unit * 16 == above);
        vstd::arithmetic::div_mod::lemma_fundamental_div_mod((a as int) / unit, 16);
        vstd::arithmetic::div_mod::lemma_fundamental_div_mod((b as int) / unit, 16);
        assert(nibble(a, k) == nibble(b, k));
    }
}

proof fn lemma_sixteen_to_positive(e: nat)
    ensures
        sixteen_to(e) > 0,
    decreases e,
{
    if e > 0 {
        lemma_sixteen_to_positive((e - 1) as nat);
    }
}

/// Different identifiers have different texts.
pub proof fn lemma_texts_differ(a: UserId, b: UserId)
    requires
        a.text() == b.text(),
    ensures
        a == b,
{
    assert forall|j: int| 0 <= j < 32 implies nibble(a.value, j) == nibble(b.value, j) by {
        lemma_hyphenated_digit(a.value, j);
        lemma_hyphenated_digit(b.value, j);
        lemma_sixteen_to_positive((31 - j) as nat);
        lemma_hex_chars_differ(nibble(a.value, j), nibble(b.value, j));
    }
    lemma_leading_digits(a.value, b.value, 31);
    assert(sixteen_to(0) == 1);
    assert((a.value as int) / 1 == a.value as int);
    assert((b.value as int) / 1 == b.value as int);
    assert(a.value == b.value);
}

/// What `Uuid::parse_str` makes of a text: the 128-bit value, or the message
/// of the error it reports.
pub uninterp spec fn parsed_uuid(text: Seq<char>) -> Result<u128, Seq<char>>;

/// `Uuid::from_u128` followed by the UUID's `Display`, which writes the
/// big-endian bytes as lowercase hexadecimal with hyphens after the 8th,
/// 12th, 16th and 20th digit.
#[verifier::external_body]
fn uuid_to_text(value: u128) -> (r: String)
    ensures
        r@ == hyphenated(value),
{
    uuid::Uuid::from_u128(value).to_string()
}

/// `Uuid::parse_str`, with the UUID handed back as its 128-bit value and an
/// error as its message. The outcome depends on the text alone.
#[verifier::external_body]
fn uuid_from_text(text: &str) -> (r: Result<u128, String>)
    ensures
        r is Ok == parsed_uuid(text@) is Ok,
        r is Ok ==> r->Ok_0 == parsed_uuid(text@)->Ok_0,
        r is Err ==> r->Err_0@ == parsed_uuid(text@)->Err_0,
{
    match uuid::Uuid::parse_str(text) {
        Ok(id) => Ok(id.as_u128()),
        Err(e) => Err(e.to_string()),
    }
}

impl UserId {
    /// The hyphenated text of this identifier.
    pub open spec fn text(self) -> Seq<char> {
        hyphenated(self.value)
    }

    /// Renders the identifier as hyphenated lowercase text.
    pub fn to_text(&self) -> (r: String)
        ensures
            r@ == self.text(),
    {
        uuid_to_text(self.value)
    }

    /// Reads an identifier from text; on failure the parser's message is
    /// returned.
    pub fn parse(text: &str) -> (r: Result<UserId, String>)
        ensures
            r is Ok == parsed_uuid(text@) is Ok,
            r is Ok ==> r->Ok_0.value == parsed_uuid(text@)->Ok_0,
            r is Err ==> r->Err_0@ == parsed_uuid(text@)->Err_0,
    {
        match uuid_from_text(text) {
            Ok(value) => Ok(UserId { value }),
            Err(message) => Err(message),
        }
    }
}

} // verus!
