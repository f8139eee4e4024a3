//! Small text helpers: decimal numerals, blank strings and joined messages.

use vstd::prelude::*;
use vstd::string::StringExecFns;

verus! {

/// The character that stands for the digit `d`.
pub open spec fn digit_char(d: nat) -> char {
    if d == 0 {
        '0'
    } else if d == 1 {
        '1'
    } else if d == 2 {
        '2'
    } else if d == 3 {
        '3'
    } else if d == 4 {
        '4'
    } else if d == 5 {
        '5'
    } else if d == 6 {
        '6'
    } else if d == 7 {
        '7'
    } else if d == 8 {
        '8'
    } else {
        '9'
    }
}

/// The decimal numeral of `n`, without leading zeros.
pub open spec fn decimal(n: nat) -> Seq<char>
    decreases n,
{
    if n < 10 {
        seq![digit_char(n)]
    } else {
        decimal(n / 10).push(digit_char(n % 10))
    }
}

/// Whether `c` has the Unicode property `White_Space`.
pub open spec fn is_whitespace(c: char) -> bool {
    let code = c as u32;
    ||| 0x09 <= code <= 0x0D
    ||| code == 0x20
    ||| code == 0x85
    ||| code == 0xA0
    ||| code == 0x1680
    ||| 0x2000 <= code <= 0x200A
    ||| code == 0x2028
    ||| code == 0x2029
    ||| code == 0x202F
    ||| code == 0x205F
    ||| code == 0x3000
}

/// Whether nothing is left of `text` once white space is trimmed from both
/// ends, which is to say that it holds nothing but white space.
pub open spec fn is_blank(text: Seq<char>) -> bool {
    forall|i: int| 0 <= i < text.len() ==> is_whitespace(#[trigger] text[i])
}

/// How one character is written on a single line: a line feed as `\n`, a
/// carriage return as `\r`, a backslash doubled, every other character as
/// it is.
pub open spec fn escaped_char(c: char) -> Seq<char> {
    if c == '\n' {
        "\\n"@
    } else if c == '\r' {
        "\\r"@
    } else if c == '\\' {
        "\\\\"@
    } else {
        seq![c]
    }
}

/// A text written on a single line: each character in its escaped form.
pub open spec fn escaped(text: Seq<char>) -> Seq<char>
    decreases text.len(),
{
    if text.len() == 0 {
        Seq::empty()
    } else {
        escaped(text.drop_last()) + escaped_char(text.last())
    }
}

/// An escaped text holds neither a line feed nor a carriage return.
pub proof fn lemma_escaped_is_single_line(text: Seq<char>)
    ensures
        !escaped(text).contains('\n'),
        !escaped(text).contains('\r'),
    decreases text.len(),
{
    if text.len() > 0 {
        lemma_escaped_is_single_line(text.drop_last());
        reveal_strlit("\\n");
        reveal_strlit("\\r");
        reveal_strlit("\\\\");
        let head = escaped(text.drop_last());
        let tail = escaped_char(text.last());
        assert forall|i: int| 0 <= i < (head + tail).len() implies (head + tail)[i] != '\n' && (
        head + tail)[i] != '\r' by {
            if i < head.len() {
                assert(head.contains(head[i]));
            } else {
                assert((head + tail)[i] == tail[i - head.len()]);
            }
        }
    }
}

/// A text without line feeds, carriage returns and backslashes is its own
/// escaped form.
pub proof fn lemma_plain_text_is_unchanged(text: Seq<char>)
    requires
        !text.contains('\n'),
        !text.contains('\r'),
        !text.contains('\\'),
    ensures
        escaped(text) == text,
    decreases text.len(),
{
    if text.len() > 0 {
        let before = text.drop_last();
        assert forall|i: int| 0 <= i < before.len() implies before[i] != '\n' && before[i] != '\r'
            && before[i] != '\\' by {
            assert(before[i] == text[i]);
            assert(text.contains(text[i]));
        }
        lemma_plain_text_is_unchanged(before);
        assert(text.contains(text[text.len() - 1]));
        assert(escaped(text) =~= text);
    }
}

fn digit_text(d: usize) -> (text: &'static str)
    requires
        d < 10,
    ensures
        text@ == seq![digit_char(d as nat)],
{
    proof {
        reveal_strlit("0");
        reveal_strlit("1");
        reveal_strlit("2");
        reveal_strlit("3");
        reveal_strlit("4");
        reveal_strlit("5");
        reveal_strlit("6");
        reveal_strlit("7");
        reveal_strlit("8");
        reveal_strlit("9");
    }
    let text = if d == 0 {
        "0"
    } else if d == 1 {
        "1"
    } else if d == 2 {
        "2"
    } else if d == 3 {
        "3"
    } else if d == 4 {
        "4"
    } else if d == 5 {
        "5"
    } else if d == 6 {
        "6"
    } else if d == 7 {
        "7"
    } else if d == 8 {
        "8"
    } else {
        "9"
    };
    assert(text@ =~= seq![digit_char(d as nat)]);
    text
}

/// Writes `n` as a decimal numeral.
pub fn decimal_text(n: usize) -> (text: String)
    ensures
        text@ == decimal(n as nat),
    decreases n,
{
    if n < 10 {
        String::from_str(digit_text(n))
    } else {
        let mut text = decimal_text(n / 10);
        text.append(digit_text(n % 10));
        assert(text@ =~= decimal(n as nat));
        text
    }
}

/// Says whether `c` is white space.
pub fn char_is_whitespace(c: char) -> (white: bool)
    ensures
        white == is_whitespace(c),
{
    let code: u32 = c as u32;
    (0x09 <= code && code <= 0x0D) || code == 0x20 || code == 0x85 || code == 0xA0 || code
        == 0x1680 || (0x2000 <= code && code <= 0x200A) || code == 0x2028 || code == 0x2029 || code
        == 0x202F || code == 0x205F || code == 0x3000
}

/// Says whether `text` holds nothing but white space.
pub fn text_is_blank(text: &str) -> (blank: bool)
    ensures
        blank == is_blank(text@),
{
    let n = text.unicode_len();
    let mut i: usize = 0;
    while i < n
        invariant
            n == text@.len(),
            i <= n,
            forall|j: int| 0 <= j < i ==> is_whitespace(#[trigger] text@[j]),
        decreases n - i,
    {
        if !char_is_whitespace(text.get_char(i)) {
            return false;
        }
        i += 1;
    }
    true
}

/// Writes `text` on a single line: a line feed as `\n`, a carriage return as
/// `\r`, a backslash doubled, every other character as it is.
pub fn escape_text(text: &str) -> (line: String)
    ensures
        line@ == escaped(text@),
        !line@.contains('\n'),
{
    let n = text.unicode_len();
    let mut line = String::new();
    let mut i: usize = 0;
    while i < n
        invariant
            n == text@.len(),
            i <= n,
            line@ == escaped(text@.take(i as int)),
        decreases n - i,
    {
        let c = text.get_char(i);
        proof {
            let seen = text@.take(i + 1);
            assert(seen.drop_last() == text@.take(i as int));
            assert(seen.last() == c);
        }
        if c == '\n' {
            line.append("\\n");
        } else if c == '\r' {
            line.append("\\r");
        } else if c == '\\' {
            line.append("\\\\");
        } else {
            line.append(text.substring_char(i, i + 1));
            assert(text@.subrange(i as int, i + 1) =~= seq![c]);
        }
        i += 1;
    }
    proof {
        assert(text@.take(i as int) == text@);
        lemma_escaped_is_single_line(text@);
    }
    line
}

/// Joins two texts.
pub fn join(head: &str, tail: &str) -> (text: String)
    ensures
        text@ == head@ + tail@,
{
    let mut text = String::from_str(head);
    text.append(tail);
    text
}

} // verus!
