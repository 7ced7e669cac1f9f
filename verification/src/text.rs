//! Measures of text that bounds on displayed copy are stated in.

use vstd::prelude::*;
use vstd::utf8::encode_utf8;

verus! {

/// The character has the Unicode property `White_Space`.
pub open spec fn is_white_space(c: char) -> bool {
    let code = c as u32;
    ||| 0x09 <= code <= 0x0d
    ||| code == 0x20
    ||| code == 0x85
    ||| code == 0xa0
    ||| code == 0x1680
    ||| 0x2000 <= code <= 0x200a
    ||| code == 0x2028
    ||| code == 0x2029
    ||| code == 0x202f
    ||| code == 0x205f
    ||| code == 0x3000
}

/// The character has the Unicode general category `Cc`.
pub open spec fn is_control_code(c: char) -> bool {
    let code = c as u32;
    code <= 0x1f || 0x7f <= code <= 0x9f
}

/// `char::is_whitespace` tells whether a character has the Unicode property `White_Space`.
pub assume_specification[ char::is_whitespace ](c: char) -> (yes: bool)
    ensures
        yes == is_white_space(c),
;

/// `char::is_control` tells whether a character has the Unicode general category `Cc`.
pub assume_specification[ char::is_control ](c: char) -> (yes: bool)
    ensures
        yes == is_control_code(c),
;

/// Nothing is left of the text once white space is trimmed from its ends.
pub open spec fn blank(s: Seq<char>) -> bool {
    forall|i: int| 0 <= i < s.len() ==> is_white_space(#[trigger] s[i])
}

/// Some character of the text is a control code.
pub open spec fn has_control_code(s: Seq<char>) -> bool {
    exists|i: int| 0 <= i < s.len() && is_control_code(#[trigger] s[i])
}

/// The number of bytes that the text takes up in UTF-8.
pub open spec fn byte_len(s: Seq<char>) -> nat {
    encode_utf8(s).len()
}

/// The number of lines: each ends with a line feed, the last one possibly without.
pub open spec fn line_count(s: Seq<char>) -> nat {
    let line_feeds = s.filter(|c: char| c == '\n').len();
    if s.len() > 0 && s.last() != '\n' {
        line_feeds + 1
    } else {
        line_feeds
    }
}

/// Whether nothing is left of the text once white space is trimmed from its ends.
pub fn is_blank(text: &str) -> (yes: bool)
    ensures
        yes == blank(text@),
{
    for c in chars: text.chars()
        invariant
            chars.seq() == text@,
            forall|i: int| 0 <= i < chars.index() ==> is_white_space(#[trigger] text@[i]),
    {
        if !c.is_whitespace() {
            return false;
        }
    }
    true
}

/// Whether some character of the text is a control code.
pub fn contains_control_code(text: &str) -> (yes: bool)
    ensures
        yes == has_control_code(text@),
{
    for c in chars: text.chars()
        invariant
            chars.seq() == text@,
            forall|i: int| 0 <= i < chars.index() ==> !is_control_code(#[trigger] text@[i]),
    {
        if c.is_control() {
            assert(is_control_code(text@[chars.index() as int]));
            return true;
        }
    }
    false
}

/// The number of bytes that the text takes up in UTF-8.
pub fn utf8_len(text: &str) -> (len: usize)
    ensures
        len == byte_len(text@),
{
    text.as_bytes().len()
}

/// No character takes up less than a byte.
proof fn lemma_bytes_cover_chars(s: Seq<char>)
    ensures
        s.len() <= byte_len(s),
    decreases s.len(),
{
    if s.len() > 0 {
        lemma_bytes_cover_chars(s.drop_first());
    }
}

/// The number of lines of the text.
pub fn count_lines(text: &str) -> (lines: usize)
    ensures
        lines == line_count(text@),
{
    let bytes: usize = utf8_len(text);
    proof {
        lemma_bytes_cover_chars(text@);
    }
    let ghost is_line_feed = |c: char| c == '\n';
    let mut line_feeds: usize = 0;
    let mut line_open: bool = false;
    reveal(Seq::filter);
    assert(text@.take(0).filter(is_line_feed).len() == 0);
    for c in chars: text.chars()
        invariant
            chars.seq() == text@,
            text@.len() <= bytes,
            is_line_feed == (|c: char| c == '\n'),
            line_feeds == text@.take(chars.index() as int).filter(is_line_feed).len(),
            line_open == (chars.index() > 0 && text@[chars.index() - 1] != '\n'),
            line_feeds + (if line_open { 1int } else { 0 }) <= chars.index(),
    {
        proof {
            reveal(Seq::filter);
            let i = chars.index() as int;
            assert(text@.take(i + 1).drop_last() =~= text@.take(i));
        }
        if c == '\n' {
            line_feeds = line_feeds + 1;
            line_open = false;
        } else {
            line_open = true;
        }
    }
    assert(text@.take(text@.len() as int) =~= text@);
    if line_open {
        line_feeds + 1
    } else {
        line_feeds
    }
}

/// No character takes up more than four bytes.
pub proof fn lemma_bytes_bounded(s: Seq<char>)
    ensures
        byte_len(s) <= 4 * s.len(),
    decreases s.len(),
{
    if s.len() > 0 {
        lemma_bytes_bounded(s.drop_first());
    }
}

/// Text without a line feed is at most one line.
pub proof fn lemma_single_line(s: Seq<char>)
    requires
        forall|i: int| 0 <= i < s.len() ==> #[trigger] s[i] != '\n',
    ensures
        line_count(s) <= 1,
    decreases s.len(),
{
    reveal(Seq::filter);
    if s.len() > 0 {
        lemma_single_line(s.drop_last());
        let rest = s.drop_last();
        if rest.len() > 0 {
            assert(rest.last() == s[s.len() - 2]);
        }
    }
}

/// Text is blank when each of its characters is white space; so no text is blank that holds another
/// character anywhere.
pub proof fn law_blank_is_all_white_space(s: Seq<char>)
    ensures
        blank(s) <==> forall|i: int| 0 <= i < s.len() ==> is_white_space(#[trigger] s[i]),
        s.len() == 0 ==> blank(s),
{
}

/// Text holds a control code when one of its characters, wherever it stands, is one.
pub proof fn law_control_code_anywhere_counts(s: Seq<char>)
    ensures
        has_control_code(s) <==> exists|i: int| 0 <= i < s.len() && is_control_code(#[trigger] s[i]),
{
}

/// The length of text in bytes is that of its UTF-8 form. It adds up over the characters, each of
/// which takes up one to four bytes.
pub proof fn law_byte_len(s: Seq<char>)
    ensures
        byte_len(s) == encode_utf8(s).len(),
        s.len() <= byte_len(s) <= 4 * s.len(),
        s.len() > 0 ==> byte_len(s) == byte_len(seq![s[0]]) + byte_len(s.drop_first()),
{
    lemma_bytes_cover_chars(s);
    lemma_bytes_bounded(s);
    if s.len() > 0 {
        assert(seq![s[0]].drop_first() =~= Seq::<char>::empty());
        assert(encode_utf8(seq![s[0]]) =~= vstd::utf8::encode_scalar(s[0] as u32)) by {
            assert(encode_utf8(Seq::<char>::empty()) =~= Seq::<u8>::empty());
        }
    }
}

proof fn lemma_line_feeds_of_joined(a: Seq<char>, b: Seq<char>)
    ensures
        (a + b).filter(|c: char| c == '\n').len() == a.filter(|c: char| c == '\n').len() + b.filter(
            |c: char| c == '\n',
        ).len(),
    decreases b.len(),
{
    reveal(Seq::filter);
    if b.len() == 0 {
        assert(a + b =~= a);
    } else {
        assert((a + b).drop_last() =~= a + b.drop_last());
        lemma_line_feeds_of_joined(a, b.drop_last());
    }
}

proof fn lemma_no_line_feeds(s: Seq<char>)
    requires
        forall|i: int| 0 <= i < s.len() ==> #[trigger] s[i] != '\n',
    ensures
        s.filter(|c: char| c == '\n').len() == 0,
    decreases s.len(),
{
    reveal(Seq::filter);
    if s.len() > 0 {
        lemma_no_line_feeds(s.drop_last());
    }
}

/// Lines are counted one by one: empty text has none, text without a line feed is one line, and
/// what ends with its first line feed is one line more than what follows.
pub proof fn law_lines_one_by_one(line: Seq<char>, rest: Seq<char>)
    requires
        forall|i: int| 0 <= i < line.len() ==> #[trigger] line[i] != '\n',
    ensures
        line_count(line) == if line.len() == 0 {
            0nat
        } else {
            1nat
        },
        line_count(line.push('\n') + rest) == 1 + line_count(rest),
{
    lemma_no_line_feeds(line);
    lemma_line_feeds_of_joined(line.push('\n'), rest);
    reveal(Seq::filter);
    assert(line.push('\n').drop_last() =~= line);
    let whole = line.push('\n') + rest;
    if line.len() > 0 {
        assert(line.last() == line[line.len() - 1]);
    }
    if rest.len() > 0 {
        assert(whole.last() == rest.last());
    } else {
        assert(whole.last() == '\n');
    }
}

} // verus!
