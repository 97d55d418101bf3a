//! Small helpers on text.
use vstd::prelude::*;
use vstd::std_specs::iter::IteratorSpec;
use vstd::string::*;

verus! {

pub open spec fn digit(value: u8) -> char {
    match value {
        0 => '0',
        1 => '1',
        2 => '2',
        3 => '3',
        4 => '4',
        5 => '5',
        6 => '6',
        7 => '7',
        8 => '8',
        _ => '9',
    }
}

/// A number written in decimal, without leading zeros.
pub open spec fn decimal(value: nat) -> Seq<char>
    decreases value,
{
    if value < 10 {
        seq![digit(value as u8)]
    } else {
        decimal(value / 10).push(digit((value % 10) as u8))
    }
}

fn digit_text(value: u64) -> (text: &'static str)
    requires
        value < 10,
    ensures
        text@ == seq![digit(value as u8)],
{
    proof {
        reveal_strlit("0");
        reveal_strlit("1");
        reveal_strlit("2");
        reveal_strlit("3");
        reveal_strlit("4");
        reveal_strlit("5");
        reveal_strlit("6");
        reveal_strlit("7");
        reveal_strlit("8");
        reveal_strlit("9");
    }
    let text = match value {
        0 => "0",
        1 => "1",
        2 => "2",
        3 => "3",
        4 => "4",
        5 => "5",
        6 => "6",
        7 => "7",
        8 => "8",
        _ => "9",
    };
    assert(text@ =~= seq![digit(value as u8)]);
    text
}

/// Writes a number in decimal.
pub fn decimal_text(value: u64) -> (text: String)
    ensures
        text@ == decimal(value as nat),
    decreases value,
{
    if value < 10 {
        digit_text(value).to_owned()
    } else {
        let text = decimal_text(value / 10).concat(digit_text(value % 10));
        assert(text@ =~= decimal(value as nat));
        text
    }
}

/// The characters of a text.
pub fn chars_of(text: &str) -> (chars: Vec<char>)
    ensures
        chars@ == text@,
{
    broadcast use vstd::string::group_string_axioms;

    let mut rest = text.chars();
    let mut chars: Vec<char> = Vec::new();
    loop
        invariant
            chars@ + rest.remaining() == text@,
        decreases text@.len() - chars@.len(),
    {
        match rest.next() {
            Some(next) => {
                chars.push(next);
                proof {
                    assert(chars@ + rest.remaining() =~= text@);
                }
            },
            None => {
                proof {
                    assert(chars@ =~= text@);
                }
                return chars;
            },
        }
    }
}

/// Whether two texts are the same.
pub fn same_text(a: &str, b: &str) -> (same: bool)
    ensures
        same == (a@ == b@),
{
    let left = chars_of(a);
    let right = chars_of(b);
    same_chars(&left, &right)
}

fn same_chars(left: &Vec<char>, right: &Vec<char>) -> (same: bool)
    ensures
        same == (left@ == right@),
{
    if left.len() != right.len() {
        return false;
    }
    let mut i: usize = 0;
    while i < left.len()
        invariant
            i <= left.len(),
            left.len() == right.len(),
            forall|k: int| 0 <= k < i ==> left@[k] == right@[k],
        decreases left.len() - i,
    {
        if left[i] != right[i] {
            return false;
        }
        i = i + 1;
    }
    proof {
        assert(left@ =~= right@);
    }
    true
}

pub open spec fn spec_starts_with(text: Seq<char>, prefix: Seq<char>) -> bool {
    prefix.len() <= text.len() && text.take(prefix.len() as int) == prefix
}

/// Whether a text begins with another.
pub fn starts_with(text: &str, prefix: &str) -> (begins: bool)
    ensures
        begins == spec_starts_with(text@, prefix@),
{
    let whole = chars_of(text);
    let head = chars_of(prefix);
    if head.len() > whole.len() {
        return false;
    }
    let mut i: usize = 0;
    while i < head.len()
        invariant
            i <= head.len() <= whole.len(),
            whole@ == text@,
            head@ == prefix@,
            forall|k: int| 0 <= k < i ==> whole@[k] == head@[k],
        decreases head.len() - i,
    {
        if whole[i] != head[i] {
            proof {
                assert(text@.take(prefix@.len() as int)[i as int] == whole@[i as int]);
            }
            return false;
        }
        i = i + 1;
    }
    proof {
        assert(text@.take(prefix@.len() as int) =~= prefix@);
    }
    true
}

/// Characters with the Unicode property White_Space.
pub open spec fn white_space(c: char) -> bool {
    ||| '\u{9}' <= c <= '\u{d}'
    ||| c == ' '
    ||| c == '\u{85}'
    ||| c == '\u{a0}'
    ||| c == '\u{1680}'
    ||| '\u{2000}' <= c <= '\u{200a}'
    ||| c == '\u{2028}'
    ||| c == '\u{2029}'
    ||| c == '\u{202f}'
    ||| c == '\u{205f}'
    ||| c == '\u{3000}'
}

/// Whether nothing of a text remains once white space is trimmed off.
pub open spec fn blank(text: Seq<char>) -> bool {
    forall|i: int| 0 <= i < text.len() ==> white_space(#[trigger] text[i])
}

pub fn is_blank(text: &str) -> (empty: bool)
    ensures
        empty == blank(text@),
{
    let chars = chars_of(text);
    let mut i: usize = 0;
    while i < chars.len()
        invariant
            i <= chars.len(),
            chars@ == text@,
            forall|k: int| 0 <= k < i ==> white_space(#[trigger] text@[k]),
        decreases chars.len() - i,
    {
        let c: char = chars[i];
        let space = ('\u{9}' <= c && c <= '\u{d}') || c == ' ' || c == '\u{85}' || c == '\u{a0}' || c
            == '\u{1680}' || ('\u{2000}' <= c && c <= '\u{200a}') || c == '\u{2028}' || c
            == '\u{2029}' || c == '\u{202f}' || c == '\u{205f}' || c == '\u{3000}';
        if !space {
            proof {
                assert(!white_space(text@[i as int]));
            }
            return false;
        }
        i = i + 1;
    }
    true
}

pub open spec fn ascii_alphanumeric(c: char) -> bool {
    ('0' <= c <= '9') || ('a' <= c <= 'z') || ('A' <= c <= 'Z')
}

pub open spec fn all_ascii_alphanumeric(text: Seq<char>) -> bool {
    forall|i: int| 0 <= i < text.len() ==> ascii_alphanumeric(#[trigger] text[i])
}

pub fn is_ascii_alphanumeric(text: &str) -> (plain: bool)
    ensures
        plain == all_ascii_alphanumeric(text@),
{
    let chars = chars_of(text);
    let mut i: usize = 0;
    while i < chars.len()
        invariant
            i <= chars.len(),
            chars@ == text@,
            forall|k: int| 0 <= k < i ==> ascii_alphanumeric(#[trigger] text@[k]),
        decreases chars.len() - i,
    {
        let c: char = chars[i];
        let plain = ('0' <= c && c <= '9') || ('a' <= c && c <= 'z') || ('A' <= c && c <= 'Z');
        if !plain {
            proof {
                assert(!ascii_alphanumeric(text@[i as int]));
            }
            return false;
        }
        i = i + 1;
    }
    true
}

/// The lower case form of an ASCII letter; any other character is its own.
pub open spec fn lower_char(c: char) -> char {
    if 'A' <= c <= 'Z' {
        ((c as u8) + 32) as u8 as char
    } else {
        c
    }
}

pub open spec fn lower(text: Seq<char>) -> Seq<char> {
    text.map_values(|c: char| lower_char(c))
}

/// `str::to_ascii_lowercase` maps the letters A to Z to a to z and leaves every
/// other character as it is.
#[verifier::external_body]
pub(crate) fn ascii_lowercase(text: &str) -> (lowered: String)
    ensures
        lowered@ == lower(text@),
{
    text.to_ascii_lowercase()
}

/// The number that a row of digits stands for.
pub open spec fn number_of(digits: Seq<char>) -> int
    decreases digits.len(),
{
    if digits.len() == 0 {
        0
    } else {
        10 * number_of(digits.drop_last()) + (digits.last() as int - '0' as int)
    }
}

/// A number is written in digits that stand for it, without leading zeros.
pub proof fn numbers_are_written_in_digits(value: nat)
    ensures
        number_of(decimal(value)) == value,
        forall|i: int| 0 <= i < decimal(value).len() ==> '0' <= #[trigger] decimal(value)[i] <= '9',
        decimal(value).len() >= 1,
        value >= 1 ==> decimal(value)[0] != '0',
        value < 10 <==> decimal(value).len() == 1,
    decreases value,
{
    if value >= 10 {
        numbers_are_written_in_digits(value / 10);
        let front = decimal(value / 10);
        assert(decimal(value).drop_last() =~= front);
        assert forall|i: int| 0 <= i < decimal(value).len() implies '0' <= #[trigger] decimal(
            value,
        )[i] <= '9' by {
            if i < front.len() {
                assert(decimal(value)[i] == front[i]);
            }
        }
        assert(decimal(value)[0] == front[0]);
    } else {
        assert(decimal(value).drop_last() =~= Seq::empty());
        reveal_with_fuel(number_of, 2);
    }
}

/// A text begins with another exactly when it is that other one with something
/// behind it.
pub proof fn beginnings_are_followed_by_the_rest(text: Seq<char>, prefix: Seq<char>)
    ensures
        spec_starts_with(text, prefix) <==> exists|rest: Seq<char>| text == #[trigger] (prefix + rest),
{
    if spec_starts_with(text, prefix) {
        let rest = text.skip(prefix.len() as int);
        assert(text =~= prefix + rest);
    }
    if exists|rest: Seq<char>| text == #[trigger] (prefix + rest) {
        let rest = choose|rest: Seq<char>| text == #[trigger] (prefix + rest);
        assert(text.take(prefix.len() as int) =~= prefix);
    }
}

/// Letters from A to Z lie 32 before their lower case form; every other character is
/// left alone, so that putting a text into lower case twice is putting it once.
pub proof fn lower_case_is_reached_at_once(text: Seq<char>, i: int)
    requires
        0 <= i < text.len(),
    ensures
        lower(text).len() == text.len(),
        'A' <= text[i] <= 'Z' ==> lower(text)[i] as int == text[i] as int + 32,
        !('A' <= text[i] <= 'Z') ==> lower(text)[i] == text[i],
        lower(lower(text)) == lower(text),
{
    assert(lower(lower(text)) =~= lower(text));
}

/// An empty text is blank, and so is one of spaces, tabs and line ends; a text with a
/// letter or digit in it is not.
pub proof fn letters_are_not_blank(text: Seq<char>)
    ensures
        text.len() == 0 ==> blank(text),
        (exists|i: int| 0 <= i < text.len() && ascii_alphanumeric(#[trigger] text[i])) ==> !blank(
            text,
        ),
        (forall|i: int|
            0 <= i < text.len() ==> #[trigger] text[i] == ' ' || text[i] == '\t' || text[i] == '\n'
                || text[i] == '\r') ==> blank(text),
{
}

} // verus!
