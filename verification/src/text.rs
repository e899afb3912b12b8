//! Text helpers: decimal rendering, comparison, and the few string
//! operations that are taken from outside this crate.

use vstd::prelude::*;
use vstd::string::*;

verus! {

/// The character that stands for the decimal digit `d`.
pub open spec fn digit_char(d: int) -> char {
    if d == 0 {
        '0'
    } else if d == 1 {
        '1'
    } else if d == 2 {
        '2'
    } else if d == 3 {
        '3'
    } else if d == 4 {
        '4'
    } else if d == 5 {
        '5'
    } else if d == 6 {
        '6'
    } else if d == 7 {
        '7'
    } else if d == 8 {
        '8'
    } else {
        '9'
    }
}

/// The decimal digits of `n`, most significant first, without leading zeros.
pub open spec fn digits(n: nat) -> Seq<char>
    decreases n,
{
    if n < 10 {
        seq![digit_char(n as int)]
    } else {
        digits(n / 10).push(digit_char((n % 10) as int))
    }
}

/// The decimal rendering of an integer, with a leading `-` when negative.
pub open spec fn decimal(n: int) -> Seq<char> {
    if n < 0 {
        seq!['-'] + digits((-n) as nat)
    } else {
        digits(n as nat)
    }
}

fn digit_text(d: u64) -> (r: &'static str)
    requires
        d < 10,
    ensures
        r@ == seq![digit_char(d as int)],
{
    proof {
        reveal_strlit("0");
        reveal_strlit("1");
        reveal_strlit("2");
        reveal_strlit("3");
        reveal_strlit("4");
        reveal_strlit("5");
        reveal_strlit("6");
        reveal_strlit("7");
        reveal_strlit("8");
        reveal_strlit("9");
    }
    let r = if d == 0 {
        "0"
    } else if d == 1 {
        "1"
    } else if d == 2 {
        "2"
    } else if d == 3 {
        "3"
    } else if d == 4 {
        "4"
    } else if d == 5 {
        "5"
    } else if d == 6 {
        "6"
    } else if d == 7 {
        "7"
    } else if d == 8 {
        "8"
    } else {
        "9"
    };
    assert(r@ =~= seq![digit_char(d as int)]);
    r
}

fn append_digits(out: &mut String, n: u64)
    ensures
        final(out)@ == old(out)@ + digits(n as nat),
    decreases n,
{
    if n >= 10 {
        append_digits(out, n / 10);
    }
    out.append(digit_text(n % 10));
    assert(out@ =~= old(out)@ + digits(n as nat));
}

/// Appends the decimal rendering of `n` to `out`.
pub fn append_decimal(out: &mut String, n: i64)
    ensures
        final(out)@ == old(out)@ + decimal(n as int),
{
    if n < 0 {
        proof {
            reveal_strlit("-");
        }
        out.append("-");
        let magnitude: u64 = if n == i64::MIN {
            9223372036854775808u64
        } else {
            (-n) as u64
        };
        append_digits(out, magnitude);
        assert(out@ =~= old(out)@ + decimal(n as int));
    } else {
        append_digits(out, n as u64);
    }
}

/// The decimal rendering of `n` as an owned string.
pub fn decimal_text(n: i64) -> (r: String)
    ensures
        r@ == decimal(n as int),
{
    let mut out = String::new();
    append_decimal(&mut out, n);
    assert(out@ =~= decimal(n as int));
    out
}

/// `prefix` followed by the decimal rendering of `n`.
pub fn prefixed_decimal(prefix: &str, n: i64) -> (r: String)
    ensures
        r@ == prefix@ + decimal(n as int),
{
    let mut out = String::from_str(prefix);
    append_decimal(&mut out, n);
    out
}

/// Different digits are written with different characters, and none of
/// them is a minus sign.
pub proof fn lemma_digit_chars_differ(a: int, b: int)
    requires
        0 <= a < 10,
        0 <= b < 10,
    ensures
        digit_char(a) == digit_char(b) ==> a == b,
        digit_char(a) != '-',
{
}

proof fn lemma_digits_len(n: nat)
    ensures
        digits(n).len() >= 1,
        n >= 10 ==> digits(n).len() >= 2,
        digits(n)[0] != '-',
    decreases n,
{
    if n >= 10 {
        lemma_digits_len(n / 10);
    }
}

proof fn lemma_digits_differ(a: nat, b: nat)
    requires
        digits(a) == digits(b),
    ensures
        a == b,
    decreases a,
{
    lemma_digits_len(a);
    lemma_digits_len(b);
    if a >= 10 {
        let front_a = digits(a / 10);
        let front_b = digits(b / 10);
        assert(digits(a).drop_last() =~= front_a);
        assert(digits(b).drop_last() =~= front_b);
        assert(digits(a).last() == digit_char((a % 10) as int));
        assert(digits(b).last() == digit_char((b % 10) as int));
        lemma_digits_differ(a / 10, b / 10);
        lemma_digit_chars_differ((a % 10) as int, (b % 10) as int);
    } else {
        assert(digits(a)[0] == digit_char(a as int));
        assert(digits(b)[0] == digit_char(b as int));
        lemma_digit_chars_differ(a as int, b as int);
    }
}

/// Different numbers have different decimal renderings.
pub proof fn lemma_decimals_differ(a: int, b: int)
    requires
        decimal(a) == decimal(b),
    ensures
        a == b,
{
    if a < 0 {
        lemma_digits_len((-a) as nat);
        if b < 0 {
            assert(decimal(a).subrange(1, decimal(a).len() as int) =~= digits((-a) as nat));
            assert(decimal(b).subrange(1, decimal(b).len() as int) =~= digits((-b) as nat));
            lemma_digits_differ((-a) as nat, (-b) as nat);
        } else {
            lemma_digits_len(b as nat);
            assert(decimal(a)[0] == '-');
        }
    } else {
        lemma_digits_len(a as nat);
        if b < 0 {
            assert(decimal(b)[0] == '-');
        } else {
            lemma_digits_differ(a as nat, b as nat);
        }
    }
}

/// Whether two texts hold the same characters.
pub fn same_text(a: &str, b: &str) -> (r: bool)
    ensures
        r == (a@ == b@),
{
    let x = String::from_str(a);
    let y = String::from_str(b);
    x == y
}

/// The number of characters in a text.
pub fn char_count(text: &str) -> (r: usize)
    ensures
        r == text@.len(),
{
    text.unicode_len()
}

/// What is left of a text once leading and trailing whitespace is removed,
/// whitespace being what Unicode's `White_Space` property says it is.
pub uninterp spec fn trimmed(text: Seq<char>) -> Seq<char>;

/// `str::trim` of the standard library. The result is whatever that method
/// returns for the text; this crate only ever asks whether it is empty.
#[verifier::external_body]
pub(crate) fn trim(text: &str) -> (r: &str)
    ensures
        r@ == trimmed(text@),
{
    text.trim()
}

/// The lowercase form of a text under Unicode's case mapping.
pub uninterp spec fn lowercase(text: Seq<char>) -> Seq<char>;

/// `str::to_lowercase` of the standard library. The result is whatever that
/// method returns for the text.
#[verifier::external_body]
pub(crate) fn to_lowercase(text: &str) -> (r: String)
    ensures
        r@ == lowercase(text@),
{
    text.to_lowercase()
}

/// What one character becomes when text is made safe for HTML: the six
/// characters `& < > " ' /` turn into entities, every other character stays.
pub open spec fn escaped_char(c: char) -> Seq<char> {
    if c == '&' {
        seq!['&', 'a', 'm', 'p', ';']
    } else if c == '<' {
        seq!['&', 'l', 't', ';']
    } else if c == '>' {
        seq!['&', 'g', 't', ';']
    } else if c == '"' {
        seq!['&', 'q', 'u', 'o', 't', ';']
    } else if c == '\'' {
        seq!['&', '#', 'x', '2', '7', ';']
    } else if c == '/' {
        seq!['&', '#', 'x', '2', 'F', ';']
    } else {
        seq![c]
    }
}

/// A text with each character replaced by [`escaped_char`] of it.
pub open spec fn escaped(text: Seq<char>) -> Seq<char>
    decreases text.len(),
{
    if text.len() == 0 {
        Seq::<char>::empty()
    } else {
        escaped(text.drop_last()) + escaped_char(text.last())
    }
}

/// `html_escape::encode_safe`. That function walks the text once and
/// replaces `&`, `<`, `>`, `"`, `'` and `/` by `&amp;`, `&lt;`, `&gt;`,
/// `&quot;`, `&#x27;` and `&#x2F;`, copying everything else; the contract
/// says exactly that.
#[verifier::external_body]
pub(crate) fn escape_html(text: &str) -> (r: String)
    ensures
        r@ == escaped(text@),
{
    html_escape::encode_safe(text).into_owned()
}

} // verus!
