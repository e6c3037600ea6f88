//! Telling statements apart.

use regex::Regex;
use vstd::prelude::*;

verus! {

/// The pattern of a statement that uploads a file: after any white space and comments, the
/// word `put`.
pub const PUT_PATTERN: &'static str =
    r"(?i)^(?:\s|/\*(?:[^*]|\*+[^*/])*\*+/|--[^\n]*\n)*put\s+";

/// Whether a character has Unicode's property `White_Space`.
pub open spec fn is_whitespace(c: char) -> bool {
    ||| '\u{9}' <= c <= '\u{d}'
    ||| c == ' '
    ||| c == '\u{85}'
    ||| c == '\u{a0}'
    ||| c == '\u{1680}'
    ||| '\u{2000}' <= c <= '\u{200a}'
    ||| c == '\u{2028}'
    ||| c == '\u{2029}'
    ||| c == '\u{202f}'
    ||| c == '\u{205f}'
    ||| c == '\u{3000}'
}

/// Whether `*/` stands at an index.
pub open spec fn closes_at(s: Seq<char>, i: int) -> bool {
    s[i] == '*' && s[i + 1] == '/'
}

/// Whether a text is a comment between `/*` and the first `*/` after it.
pub open spec fn is_block_comment(s: Seq<char>) -> bool {
    &&& s.len() >= 4
    &&& s[0] == '/' && s[1] == '*'
    &&& closes_at(s, s.len() - 2)
    &&& forall|i: int| 2 <= i < s.len() - 2 ==> !#[trigger] closes_at(s, i)
}

/// Whether a text is a comment from `--` to the end of its line.
pub open spec fn is_line_comment(s: Seq<char>) -> bool {
    &&& s.len() >= 3
    &&& s[0] == '-' && s[1] == '-'
    &&& s.last() == '\n'
    &&& forall|i: int| 2 <= i < s.len() - 1 ==> #[trigger] s[i] != '\n'
}

/// Whether a text is one character of white space or one comment.
pub open spec fn is_blank(s: Seq<char>) -> bool {
    ||| s.len() == 1 && is_whitespace(s[0])
    ||| is_block_comment(s)
    ||| is_line_comment(s)
}

/// Whether a text begins with the word `put`, in any case, and white space.
pub open spec fn begins_with_put(s: Seq<char>) -> bool {
    &&& s.len() >= 4
    &&& s[0] == 'p' || s[0] == 'P'
    &&& s[1] == 'u' || s[1] == 'U'
    &&& s[2] == 't' || s[2] == 'T'
    &&& is_whitespace(s[3])
}

/// Whether a statement uploads a file: after white space and comments, or none, it begins with
/// the word `put`.
pub open spec fn is_put(s: Seq<char>) -> bool
    decreases s.len(),
{
    begins_with_put(s) || exists|n: int|
        0 < n <= s.len() && #[trigger] is_blank(s.take(n)) && is_put(s.skip(n))
}

/// Searches a text with a `Regex` of [`PUT_PATTERN`]. Trusted: by the syntax of such patterns
/// it matches exactly where the text begins with any number of white space characters, of
/// comments between `/*` and the next `*/`, and of comments from `--` to the end of the line,
/// then `put` in any case, then white space.
#[verifier::external_body]
fn regex_is_match(pattern: &str, text: &str) -> (found: bool)
    requires
        pattern@ == PUT_PATTERN@,
    ensures
        found == is_put(text@),
{
    Regex::new(pattern).unwrap().is_match(text)
}

/// Whether a statement uploads a file.
pub fn is_put_statement(sql: &str) -> (put: bool)
    ensures
        put == is_put(sql@),
{
    regex_is_match(PUT_PATTERN, sql)
}

// ---------------------------------------------------------------------------
// Laws
// ---------------------------------------------------------------------------

/// A text has at most one blank in front.
proof fn lemma_blank_is_unique(text: Seq<char>, m: int, n: int)
    requires
        0 < m <= n <= text.len(),
        is_blank(text.take(m)),
        is_blank(text.take(n)),
    ensures
        m == n,
{
    if m < n {
        let short = text.take(m);
        let long = text.take(n);
        assert(short[0] == long[0]);
        if is_block_comment(short) {
            assert(short[1] == long[1]);
            assert(short[m - 2] == long[m - 2]);
            assert(short[m - 1] == long[m - 1]);
            assert(closes_at(long, m - 2));
        } else if is_line_comment(short) {
            assert(short[1] == long[1]);
            assert(long[m - 1] == '\n');
        }
    }
}

/// White space and comments in front of a statement make no difference.
pub proof fn law_leading_blank_is_skipped(blank: Seq<char>, sql: Seq<char>)
    requires
        is_blank(blank),
    ensures
        is_put(blank + sql) <==> is_put(sql),
{
    let text = blank + sql;
    let m = blank.len() as int;
    assert(text.take(m) =~= blank);
    assert(text.skip(m) =~= sql);
    assert(text[0] == blank[0]);
    if is_put(text) {
        let n = choose|n: int|
            0 < n <= text.len() && #[trigger] is_blank(text.take(n)) && is_put(text.skip(n));
        if m <= n {
            lemma_blank_is_unique(text, m, n);
        } else {
            lemma_blank_is_unique(text, n, m);
        }
    }
}

/// Any amount of white space in front of a statement makes no difference.
pub proof fn law_leading_white_space_is_skipped(space: Seq<char>, sql: Seq<char>)
    requires
        forall|i: int| 0 <= i < space.len() ==> is_whitespace(#[trigger] space[i]),
    ensures
        is_put(space + sql) <==> is_put(sql),
    decreases space.len(),
{
    if space.len() == 0 {
        assert(space + sql =~= sql);
    } else {
        let rest = space.drop_first();
        assert forall|i: int| 0 <= i < rest.len() implies is_whitespace(#[trigger] rest[i]) by {
            assert(rest[i] == space[i + 1]);
        }
        law_leading_white_space_is_skipped(rest, sql);
        assert(is_blank(seq![space[0]]));
        law_leading_blank_is_skipped(seq![space[0]], rest + sql);
        assert(seq![space[0]] + (rest + sql) =~= space + sql);
    }
}

/// A statement that begins with neither white space, nor a comment, nor the word `put` and
/// white space uploads nothing.
pub proof fn law_other_words_upload_nothing(sql: Seq<char>)
    requires
        !begins_with_put(sql),
        sql.len() > 0 ==> !is_whitespace(sql[0]),
        sql.len() > 1 ==> !(sql[0] == '/' && sql[1] == '*') && !(sql[0] == '-' && sql[1] == '-'),
    ensures
        !is_put(sql),
{
    if is_put(sql) {
        let n = choose|n: int|
            0 < n <= sql.len() && #[trigger] is_blank(sql.take(n)) && is_put(sql.skip(n));
        assert(sql[0] == sql.take(n)[0]);
        if n > 1 {
            assert(sql[1] == sql.take(n)[1]);
        }
    }
}

/// Whether two characters are the same but for the case of an ASCII letter.
pub open spec fn same_but_for_case(a: char, b: char) -> bool {
    ||| a == b
    ||| 'a' <= a <= 'z' && b as int == a as int - 32
    ||| 'A' <= a <= 'Z' && b as int == a as int + 32
}

proof fn lemma_blank_in_any_case(blank: Seq<char>, other: Seq<char>)
    requires
        is_blank(blank),
        blank.len() == other.len(),
        forall|i: int| 0 <= i < blank.len() ==> same_but_for_case(#[trigger] blank[i], other[i]),
    ensures
        is_blank(other),
{
    let len = blank.len() as int;
    assert(same_but_for_case(blank[0], other[0]));
    assert(same_but_for_case(blank[len - 1], other[len - 1]));
    if is_block_comment(blank) {
        assert(same_but_for_case(blank[1], other[1]));
        assert(same_but_for_case(blank[len - 2], other[len - 2]));
        assert forall|i: int| 2 <= i < len - 2 implies !#[trigger] closes_at(other, i) by {
            assert(!closes_at(blank, i));
            assert(same_but_for_case(blank[i], other[i]));
            assert(same_but_for_case(blank[i + 1], other[i + 1]));
        }
    } else if is_line_comment(blank) {
        assert(same_but_for_case(blank[1], other[1]));
        assert forall|i: int| 2 <= i < len - 1 implies #[trigger] other[i] != '\n' by {
            assert(same_but_for_case(blank[i], other[i]));
        }
    }
}

/// Upper and lower case make no difference.
pub proof fn law_case_makes_no_difference(sql: Seq<char>, other: Seq<char>)
    requires
        sql.len() == other.len(),
        forall|i: int| 0 <= i < sql.len() ==> same_but_for_case(#[trigger] sql[i], other[i]),
        is_put(sql),
    ensures
        is_put(other),
    decreases sql.len(),
{
    if begins_with_put(sql) {
        assert(same_but_for_case(sql[0], other[0]));
        assert(same_but_for_case(sql[1], other[1]));
        assert(same_but_for_case(sql[2], other[2]));
        assert(same_but_for_case(sql[3], other[3]));
    } else {
        let n = choose|n: int|
            0 < n <= sql.len() && #[trigger] is_blank(sql.take(n)) && is_put(sql.skip(n));
        assert forall|i: int| 0 <= i < n implies same_but_for_case(
            #[trigger] sql.take(n)[i],
            other.take(n)[i],
        ) by {
            assert(sql.take(n)[i] == sql[i]);
        }
        lemma_blank_in_any_case(sql.take(n), other.take(n));
        assert forall|i: int| 0 <= i < sql.skip(n).len() implies same_but_for_case(
            #[trigger] sql.skip(n)[i],
            other.skip(n)[i],
        ) by {
            assert(sql.skip(n)[i] == sql[i + n]);
        }
        law_case_makes_no_difference(sql.skip(n), other.skip(n));
    }
}

/// White space is what Unicode gives the property `White_Space`.
pub proof fn law_white_space_is_that_of_unicode(c: char)
    ensures
        is_whitespace(c) <==> {
            let code = c as int;
            ||| 0x9 <= code <= 0xd
            ||| code == 0x20 || code == 0x85 || code == 0xa0 || code == 0x1680
            ||| 0x2000 <= code <= 0x200a
            ||| code == 0x2028 || code == 0x2029 || code == 0x202f || code == 0x205f
            ||| code == 0x3000
        },
{
}

/// The word `put`, in any case, with white space after it, uploads, whatever follows; a
/// statement that begins with a visible character and neither with that word nor with a
/// comment does not.
pub proof fn law_the_word_decides(sql: Seq<char>)
    requires
        sql.len() > 0,
        !is_whitespace(sql[0]),
        sql.len() > 1 ==> !(sql[0] == '/' && sql[1] == '*') && !(sql[0] == '-' && sql[1] == '-'),
    ensures
        is_put(sql) <==> {
            &&& sql.len() > 3
            &&& sql[0] == 'p' || sql[0] == 'P'
            &&& sql[1] == 'u' || sql[1] == 'U'
            &&& sql[2] == 't' || sql[2] == 'T'
            &&& is_whitespace(sql[3])
        },
{
    if !begins_with_put(sql) {
        law_other_words_upload_nothing(sql);
    }
}

/// A comment between `/*` and the first `*/` after it makes no difference in front of a
/// statement, be it on several lines; nor does one from `--` to the end of its line.
pub proof fn law_comments_are_skipped(body: Seq<char>, line: Seq<char>, sql: Seq<char>)
    requires
        forall|i: int|
            0 <= i < body.len() - 1 ==> !(#[trigger] body[i] == '*' && body[i + 1] == '/'),
        forall|i: int| 0 <= i < line.len() ==> #[trigger] line[i] != '\n',
    ensures
        is_put(seq!['/', '*'] + body + seq!['*', '/'] + sql) <==> is_put(sql),
        is_put(seq!['-', '-'] + line + seq!['\n'] + sql) <==> is_put(sql),
{
    let block = seq!['/', '*'] + body + seq!['*', '/'];
    assert forall|i: int| 2 <= i < block.len() - 2 implies !#[trigger] closes_at(block, i) by {
        assert(block[i] == body[i - 2]);
        if i < block.len() - 3 {
            assert(block[i + 1] == body[i - 1]);
        }
    }
    assert(is_block_comment(block));
    law_leading_blank_is_skipped(block, sql);
    let comment = seq!['-', '-'] + line + seq!['\n'];
    assert forall|i: int| 2 <= i < comment.len() - 1 implies #[trigger] comment[i] != '\n' by {
        assert(comment[i] == line[i - 2]);
    }
    assert(is_line_comment(comment));
    law_leading_blank_is_skipped(comment, sql);
}

/// A comment that is not closed hides whatever follows.
pub proof fn law_open_comments_upload_nothing(sql: Seq<char>)
    requires
        sql.len() > 1,
        sql[0] == '/' && sql[1] == '*' && (forall|i: int|
            2 <= i < sql.len() - 1 ==> !(#[trigger] sql[i] == '*' && sql[i + 1] == '/'))
            || sql[0] == '-' && sql[1] == '-' && (forall|i: int|
            2 <= i < sql.len() ==> #[trigger] sql[i] != '\n'),
    ensures
        !is_put(sql),
{
    if is_put(sql) {
        let n = choose|n: int|
            0 < n <= sql.len() && #[trigger] is_blank(sql.take(n)) && is_put(sql.skip(n));
        let blank = sql.take(n);
        assert(blank[0] == sql[0]);
        if is_block_comment(blank) {
            assert(closes_at(blank, n - 2));
            assert(sql[n - 2] == blank[n - 2] && sql[n - 1] == blank[n - 1]);
        } else if is_line_comment(blank) {
            assert(blank[1] == sql[1]);
            assert(sql[n - 1] == blank[n - 1]);
        }
    }
}

} // verus!
