//! Text: numbers in decimal, padding, and the beginnings of long texts.

use vstd::prelude::*;
use vstd::utf8::*;

verus! {

/// The decimal digit of a number below ten.
pub open spec fn digit(n: nat) -> char {
    "0123456789"@[n as int]
}

/// A natural number in decimal, without leading zeros.
pub open spec fn decimal_text(n: nat) -> Seq<char>
    decreases n,
{
    if n < 10 {
        seq![digit(n)]
    } else {
        decimal_text(n / 10).push(digit(n % 10))
    }
}

/// An integer in decimal, with a minus sign where it is negative.
pub open spec fn integer_text(n: int) -> Seq<char> {
    if n < 0 {
        "-"@ + decimal_text((-n) as nat)
    } else {
        decimal_text(n as nat)
    }
}

/// That many spaces.
pub open spec fn spaces(n: nat) -> Seq<char> {
    Seq::new(n, |i: int| ' ')
}

/// The text at the right end of a field of that width; a longer text stands as it is.
pub open spec fn right_aligned(text: Seq<char>, width: nat) -> Seq<char> {
    if text.len() < width {
        spaces((width - text.len()) as nat) + text
    } else {
        text
    }
}

/// The text at the left end of a field of that width; a longer text stands as it is.
pub open spec fn left_aligned(text: Seq<char>, width: nat) -> Seq<char> {
    if text.len() < width {
        text + spaces((width - text.len()) as nat)
    } else {
        text
    }
}

/// The first characters of a text, at most that many.
pub open spec fn beginning(text: Seq<char>, most: nat) -> Seq<char> {
    if text.len() <= most {
        text
    } else {
        text.take(most as int)
    }
}

/// The character has the Unicode property `White_Space`.
pub open spec fn is_white_space(c: char) -> bool {
    ||| '\u{9}' <= c <= '\u{d}'
    ||| c == '\u{20}'
    ||| c == '\u{85}'
    ||| c == '\u{a0}'
    ||| c == '\u{1680}'
    ||| '\u{2000}' <= c <= '\u{200a}'
    ||| c == '\u{2028}'
    ||| c == '\u{2029}'
    ||| c == '\u{202f}'
    ||| c == '\u{205f}'
    ||| c == '\u{3000}'
}

/// The text holds nothing but white space.
pub open spec fn is_blank(text: Seq<char>) -> bool {
    forall|i: int| 0 <= i < text.len() ==> is_white_space(#[trigger] text[i])
}

/// The text that bytes stand for, with replacement characters for what is no UTF-8.
pub uninterp spec fn lossy_text(bytes: Seq<u8>) -> Seq<char>;

/// Bytes that are UTF-8 stand for the text that they encode.
pub open spec fn reads_utf8(bytes: Seq<u8>) -> bool {
    valid_utf8(bytes) ==> lossy_text(bytes) == decode_utf8(bytes)
}

/// Calls `String::from_utf8_lossy`. Claimed: the text is a function of the bytes, and where they
/// are UTF-8 it is the text that they encode.
#[verifier::external_body]
pub(crate) fn lossy(bytes: &Vec<u8>) -> (r: String)
    ensures
        r@ == lossy_text(bytes@),
        valid_utf8(bytes@) ==> r@ == decode_utf8(bytes@),
{
    String::from_utf8_lossy(bytes).into_owned()
}

/// Tells whether two texts are the same.
pub fn same(a: &str, b: &str) -> (r: bool)
    ensures
        r == (a@ == b@),
{
    a.to_owned() == b.to_owned()
}

/// Tells whether a character is white space.
pub fn white_space(c: char) -> (r: bool)
    ensures
        r == is_white_space(c),
{
    ('\u{9}' <= c && c <= '\u{d}') || c == '\u{20}' || c == '\u{85}' || c == '\u{a0}' || c
        == '\u{1680}' || ('\u{2000}' <= c && c <= '\u{200a}') || c == '\u{2028}' || c == '\u{2029}'
        || c == '\u{202f}' || c == '\u{205f}' || c == '\u{3000}'
}

/// Tells whether a text holds nothing but white space.
pub fn blank(text: &str) -> (r: bool)
    ensures
        r == is_blank(text@),
{
    for c in it: text.chars()
        invariant
            it.seq() == text@,
            forall|i: int| 0 <= i < it.index() ==> is_white_space(#[trigger] text@[i]),
    {
        if !white_space(c) {
            assert(c == text@[it.index()]);
            return false;
        }
    }
    true
}

/// Writes a natural number in decimal.
pub fn decimal(n: u64) -> (r: String)
    ensures
        r@ == decimal_text(n as nat),
    decreases n,
{
    let last: usize = (n % 10) as usize;
    let mut r = if n < 10 {
        String::new()
    } else {
        decimal(n / 10)
    };
    proof {
        reveal_strlit("0123456789");
    }
    r.append("0123456789".substring_char(last, last + 1));
    assert(r@ == decimal_text(n as nat)) by {
        assert("0123456789"@.subrange(last as int, last + 1) =~= seq![digit(n as nat % 10)]);
    }
    r
}

/// Writes an integer in decimal.
pub fn integer(n: i64) -> (r: String)
    ensures
        r@ == integer_text(n as int),
{
    if n == i64::MIN {
        let mut r = "-".to_owned();
        r.append(decimal(9223372036854775808).as_str());
        r
    } else if n < 0 {
        let mut r = "-".to_owned();
        r.append(decimal((-n) as u64).as_str());
        r
    } else {
        decimal(n as u64)
    }
}

proof fn lemma_digit_injective(a: nat, b: nat)
    requires
        a < 10,
        b < 10,
        digit(a) == digit(b),
    ensures
        a == b,
{
    reveal_strlit("0123456789");
}

proof fn lemma_decimal_text_digits(n: nat)
    ensures
        decimal_text(n).len() > 0,
        decimal_text(n).last() == digit(n % 10),
        decimal_text(n)[0] != '-',
        n >= 10 ==> decimal_text(n).drop_last() == decimal_text(n / 10),
        n >= 10 <==> decimal_text(n).len() > 1,
    decreases n,
{
    reveal_strlit("0123456789");
    if n >= 10 {
        lemma_decimal_text_digits(n / 10);
        assert(decimal_text(n).drop_last() =~= decimal_text(n / 10));
    }
}

proof fn lemma_decimal_text_injective(a: nat, b: nat)
    requires
        decimal_text(a) == decimal_text(b),
    ensures
        a == b,
    decreases a,
{
    lemma_decimal_text_digits(a);
    lemma_decimal_text_digits(b);
    lemma_digit_injective(a % 10, b % 10);
    if a >= 10 {
        lemma_decimal_text_injective(a / 10, b / 10);
    }
}

/// Different integers are written differently.
pub(crate) proof fn lemma_integer_text_injective(a: int, b: int)
    requires
        integer_text(a) == integer_text(b),
    ensures
        a == b,
{
    reveal_strlit("-");
    if a < 0 {
        lemma_decimal_text_digits((-a) as nat);
        assert(integer_text(a)[0] == '-');
        assert(decimal_text((-a) as nat) =~= integer_text(a).skip(1));
    } else {
        lemma_decimal_text_digits(a as nat);
    }
    if b < 0 {
        lemma_decimal_text_digits((-b) as nat);
        assert(integer_text(b)[0] == '-');
        assert(decimal_text((-b) as nat) =~= integer_text(b).skip(1));
    } else {
        lemma_decimal_text_digits(b as nat);
    }
    if a < 0 {
        lemma_decimal_text_injective((-a) as nat, (-b) as nat);
    } else {
        lemma_decimal_text_injective(a as nat, b as nat);
    }
}

/// Writes that many spaces.
fn blanks(n: usize) -> (r: String)
    ensures
        r@ == spaces(n as nat),
{
    let mut r = String::new();
    let mut i: usize = 0;
    while i < n
        invariant
            i <= n,
            r@ == spaces(i as nat),
        decreases n - i,
    {
        proof {
            reveal_strlit(" ");
            assert(spaces(i as nat) + " "@ =~= spaces((i + 1) as nat));
        }
        r.append(" ");
        i = i + 1;
    }
    r
}

/// Puts a text at the right end of a field of that width.
pub fn align_right(text: &str, width: usize) -> (r: String)
    ensures
        r@ == right_aligned(text@, width as nat),
{
    let len = text.unicode_len();
    if len < width {
        let mut r = blanks(width - len);
        r.append(text);
        r
    } else {
        text.to_owned()
    }
}

/// Puts a text at the left end of a field of that width.
pub fn align_left(text: &str, width: usize) -> (r: String)
    ensures
        r@ == left_aligned(text@, width as nat),
{
    let len = text.unicode_len();
    let mut r = text.to_owned();
    if len < width {
        r.append(blanks(width - len).as_str());
    }
    r
}

/// Takes the first characters of a text, at most that many.
pub fn begin(text: &str, most: usize) -> (r: String)
    ensures
        r@ == beginning(text@, most as nat),
{
    let len = text.unicode_len();
    if len <= most {
        text.to_owned()
    } else {
        text.substring_char(0, most).to_owned()
    }
}

} // verus!
