//! String literals in generated source text.
//!
//! A text is written between double quotes. The double quote, the backslash,
//! the line feed, the carriage return, the tab and the null character are
//! written as a backslash and one more character; every other character stands
//! for itself. [`literal_value`] says what such a literal reads as, and
//! [`lemma_literal_reads_back`] that every text reads back from the literal
//! that [`string_literal`] writes for it.
//!
//! This is the part of the grammar of string literals that the crate writes.
//! Escapes by code (`\x41`, `\u{41}`) and line continuations are not read.
use vstd::prelude::*;

verus! {

/// The character after the backslash in the written form of `c`, where `c` is
/// written with a backslash.
pub open spec fn escape_mark(c: char) -> Option<char> {
    if c == '"' {
        Some('"')
    } else if c == '\\' {
        Some('\\')
    } else if c == '\n' {
        Some('n')
    } else if c == '\r' {
        Some('r')
    } else if c == '\t' {
        Some('t')
    } else if c == '\0' {
        Some('0')
    } else {
        None
    }
}

/// The character that a backslash followed by `mark` stands for, if any.
pub open spec fn escape_value(mark: char) -> Option<char> {
    if mark == '"' {
        Some('"')
    } else if mark == '\\' {
        Some('\\')
    } else if mark == 'n' {
        Some('\n')
    } else if mark == 'r' {
        Some('\r')
    } else if mark == 't' {
        Some('\t')
    } else if mark == '0' {
        Some('\0')
    } else if mark == '\'' {
        Some('\'')
    } else {
        None
    }
}

/// One character as it is written inside a literal.
pub open spec fn escaped(c: char) -> Seq<char> {
    match escape_mark(c) {
        Some(mark) => seq!['\\', mark],
        None => seq![c],
    }
}

/// A text as it is written inside a literal: its characters, each as it is
/// written, in order.
pub open spec fn escaped_text(text: Seq<char>) -> Seq<char>
    decreases text.len(),
{
    if text.len() == 0 {
        Seq::empty()
    } else {
        escaped(text[0]) + escaped_text(text.drop_first())
    }
}

/// The string literal for a text.
pub open spec fn literal_text(text: Seq<char>) -> Seq<char> {
    seq!['"'] + escaped_text(text) + seq!['"']
}

/// What stands between the quotes of a literal reads as, or `None` where it
/// is not well formed: where a double quote or a carriage return stands
/// unescaped, or a backslash is followed by nothing or by a character that is
/// not the mark of an escape.
pub open spec fn body_value(body: Seq<char>) -> Option<Seq<char>>
    decreases body.len(),
{
    if body.len() == 0 {
        Some(Seq::empty())
    } else if body[0] == '\\' {
        if body.len() >= 2 && escape_value(body[1]) is Some {
            match body_value(body.skip(2)) {
                Some(rest) => Some(seq![escape_value(body[1])->0] + rest),
                None => None,
            }
        } else {
            None
        }
    } else if body[0] == '"' || body[0] == '\r' {
        None
    } else {
        match body_value(body.drop_first()) {
            Some(rest) => Some(seq![body[0]] + rest),
            None => None,
        }
    }
}

/// The text that a string literal reads as, or `None` where `literal` is no
/// string literal.
pub open spec fn literal_value(literal: Seq<char>) -> Option<Seq<char>> {
    if literal.len() >= 2 && literal[0] == '"' && literal.last() == '"' {
        body_value(literal.subrange(1, literal.len() - 1))
    } else {
        None
    }
}

/// Writing a text with one more character at its end adds that character's
/// written form at the end.
proof fn lemma_escaped_push(text: Seq<char>, c: char)
    ensures
        escaped_text(text.push(c)) == escaped_text(text) + escaped(c),
    decreases text.len(),
{
    if text.len() == 0 {
        let one = text.push(c);
        assert(one.drop_first() =~= Seq::<char>::empty());
        assert(escaped_text(one.drop_first()) =~= Seq::<char>::empty());
        assert(escaped_text(one) == escaped(one[0]) + escaped_text(one.drop_first()));
        assert(escaped_text(one) =~= escaped(c));
        assert(escaped_text(text) + escaped(c) =~= escaped(c));
    } else {
        let rest = text.drop_first();
        lemma_escaped_push(rest, c);
        assert(text.push(c).drop_first() =~= rest.push(c));
        assert(escaped(text[0]) + (escaped_text(rest) + escaped(c)) =~= (escaped(text[0])
            + escaped_text(rest)) + escaped(c));
    }
}

/// What is written for a text reads as that text.
proof fn lemma_body_reads_back(text: Seq<char>)
    ensures
        body_value(escaped_text(text)) == Some(text),
    decreases text.len(),
{
    if text.len() > 0 {
        let c = text[0];
        let rest = text.drop_first();
        let body = escaped_text(text);
        lemma_body_reads_back(rest);
        assert(text =~= seq![c] + rest);
        match escape_mark(c) {
            Some(mark) => {
                assert(body[0] == '\\');
                assert(body[1] == mark);
                assert(escape_value(mark) == Some(c));
                assert(body.skip(2) =~= escaped_text(rest));
            },
            None => {
                assert(body[0] == c);
                assert(body.drop_first() =~= escaped_text(rest));
            },
        }
    }
}

/// Every text reads back from its literal: the literal that is written for a
/// text is a string literal, and its value is that text.
pub proof fn lemma_literal_reads_back(text: Seq<char>)
    ensures
        literal_value(literal_text(text)) == Some(text),
{
    let literal = literal_text(text);
    lemma_body_reads_back(text);
    assert(literal.subrange(1, literal.len() - 1) =~= escaped_text(text));
}

/// The written form of a character that is written with a backslash, or
/// `None` for a character that stands for itself.
fn escape_of(c: char) -> (out: Option<&'static str>)
    ensures
        match out {
            Some(text) => escape_mark(c) matches Some(mark) && text@ == seq!['\\', mark],
            None => escape_mark(c) is None,
        },
{
    proof {
        reveal_strlit("\\\"");
        reveal_strlit("\\\\");
        reveal_strlit("\\n");
        reveal_strlit("\\r");
        reveal_strlit("\\t");
        reveal_strlit("\\0");
    }
    let out = if c == '"' {
        Some("\\\"")
    } else if c == '\\' {
        Some("\\\\")
    } else if c == '\n' {
        Some("\\n")
    } else if c == '\r' {
        Some("\\r")
    } else if c == '\t' {
        Some("\\t")
    } else if c == '\0' {
        Some("\\0")
    } else {
        None
    };
    assert(out matches Some(text) ==> text@ =~= seq!['\\', escape_mark(c)->0]);
    out
}

/// Writes the string literal for a text.
pub fn string_literal(text: &str) -> (out: String)
    ensures
        out@ == literal_text(text@),
{
    let len = text.unicode_len();
    let mut out = String::from_str("\"");
    proof {
        reveal_strlit("\"");
        assert(out@ =~= seq!['"'] + escaped_text(text@.take(0)));
    }
    let mut i: usize = 0;
    while i < len
        invariant
            i <= len,
            len == text@.len(),
            out@ == seq!['"'] + escaped_text(text@.take(i as int)),
        decreases len - i,
    {
        let c = text.get_char(i);
        let ghost before = text@.take(i as int);
        proof {
            lemma_escaped_push(before, c);
            assert(text@.take(i + 1) =~= before.push(c));
        }
        match escape_of(c) {
            Some(written) => out.append(written),
            None => {
                out.append(text.substring_char(i, i + 1));
                assert(text@.subrange(i as int, i + 1) =~= seq![c]);
            },
        }
        assert(out@ =~= seq!['"'] + escaped_text(text@.take(i + 1)));
        i += 1;
    }
    out.append("\"");
    proof {
        assert(text@.take(len as int) =~= text@);
    }
    out
}

} // verus!
