//! XML text escaping: an exact specification of entity replacement, an
//! executable form that relies on quick-xml, and the well-formedness
//! lemma that escaped text carries no raw markup characters.
use vstd::prelude::*;
use crate::text::{contains_seq, occurs_at, string_to_chars};

verus! {

/// The entity replacement for one character, as quick-xml's `escape` performs it.
pub open spec fn xml_escape_char(c: char) -> Seq<char> {
    if c == '<' {
        "&lt;"@
    } else if c == '>' {
        "&gt;"@
    } else if c == '&' {
        "&amp;"@
    } else if c == '\'' {
        "&apos;"@
    } else if c == '"' {
        "&quot;"@
    } else if c == '\r' {
        "&#13;"@
    } else {
        seq![c]
    }
}

/// The full escaping of a character sequence.
pub open spec fn xml_escape_seq(s: Seq<char>) -> Seq<char>
    decreases s.len(),
{
    if s.len() == 0 {
        Seq::empty()
    } else {
        xml_escape_char(s[0]) + xml_escape_seq(s.drop_first())
    }
}

/// Relies on quick_xml::escape::escape: replaces `<`, `>`, `&`, `'`, `"`
/// and `\r` with their XML entities and leaves every other character as is.
#[verifier::external_body]
pub fn xml_escape(s: &str) -> (r: String)
    ensures
        r@ == xml_escape_seq(s@),
{
    quick_xml::escape::escape(s).into_owned()
}

/// Escapes a string and hands the result back as characters.
pub fn xml_escape_chars(s: &str) -> (r: Vec<char>)
    ensures
        r@ == xml_escape_seq(s@),
{
    let escaped = xml_escape(s);
    string_to_chars(escaped.as_str())
}

/// True iff the text holds none of the raw markup characters.
pub open spec fn no_raw_markup(s: Seq<char>) -> bool {
    forall|i: int|
        0 <= i < s.len() ==> s[i] != '<' && s[i] != '>' && s[i] != '"' && s[i] != '\''
}

/// Escaped text never holds a raw `<`, `>`, `"` or `'`: whatever the
/// original text was, inserting its escaped form between tags or inside a
/// quoted attribute value leaves the document well-formed.
pub proof fn lemma_escape_no_raw_markup(s: Seq<char>)
    ensures
        no_raw_markup(xml_escape_seq(s)),
    decreases s.len(),
{
    reveal_strlit("&lt;");
    reveal_strlit("&gt;");
    reveal_strlit("&amp;");
    reveal_strlit("&apos;");
    reveal_strlit("&quot;");
    reveal_strlit("&#13;");
    if s.len() == 0 {
    } else {
        lemma_escape_no_raw_markup(s.drop_first());
        let head = xml_escape_char(s[0]);
        let rest = xml_escape_seq(s.drop_first());
        assert(no_raw_markup(head));
        assert forall|i: int| 0 <= i < (head + rest).len() implies (head + rest)[i] != '<' && (head
            + rest)[i] != '>' && (head + rest)[i] != '"' && (head + rest)[i] != '\'' by {
            if i < head.len() {
                assert((head + rest)[i] == head[i]);
            } else {
                assert((head + rest)[i] == rest[i - head.len()]);
            }
        }
    }
}

/// Escaping distributes over concatenation.
pub proof fn lemma_escape_concat(a: Seq<char>, b: Seq<char>)
    ensures
        xml_escape_seq(a + b) == xml_escape_seq(a) + xml_escape_seq(b),
    decreases a.len(),
{
    if a.len() == 0 {
        assert(a + b =~= b);
        assert(xml_escape_seq(a) + xml_escape_seq(b) =~= xml_escape_seq(b));
    } else {
        assert((a + b).drop_first() =~= a.drop_first() + b);
        lemma_escape_concat(a.drop_first(), b);
        assert(xml_escape_char((a + b)[0]) + (xml_escape_seq(a.drop_first()) + xml_escape_seq(b))
            =~= (xml_escape_char(a[0]) + xml_escape_seq(a.drop_first())) + xml_escape_seq(b));
    }
}

/// True iff `needle`, read from index `j` on, matches `hay` read from `at + j` on.
pub open spec fn prefix_matches_from(hay: Seq<char>, needle: Seq<char>, at: int, j: int) -> bool
    decreases needle.len() - j when 0 <= j <= needle.len() && 0 <= at && at + needle.len() <= hay.len()
{
    j >= needle.len() || (hay[at + j] == needle[j] && prefix_matches_from(hay, needle, at, j + 1))
}

/// `prefix_matches_from` at `j` matches exactly the characters from `j` on.
proof fn lemma_prefix_matches(hay: Seq<char>, needle: Seq<char>, at: int, j: int)
    requires
        0 <= at,
        0 <= j <= needle.len(),
        at + needle.len() <= hay.len(),
    ensures
        prefix_matches_from(hay, needle, at, j) <==> (forall|k: int|
            j <= k < needle.len() ==> hay[at + k] == needle[k]),
    decreases needle.len() - j,
{
    if j < needle.len() {
        lemma_prefix_matches(hay, needle, at, j + 1);
    }
}

/// A full prefix match at a position is exactly an occurrence there.
pub proof fn lemma_prefix_matches_occurs(hay: Seq<char>, needle: Seq<char>, at: int)
    requires
        0 <= at,
        at + needle.len() <= hay.len(),
    ensures
        prefix_matches_from(hay, needle, at, 0) <==> occurs_at(hay, needle, at),
{
    lemma_prefix_matches(hay, needle, at, 0);
    if prefix_matches_from(hay, needle, at, 0) {
        assert(hay.subrange(at, at + needle.len()) =~= needle);
    } else {
        if occurs_at(hay, needle, at) {
            let m = choose|m: int|
                0 <= m < needle.len() && hay[at + m] != needle[m];
            assert(hay.subrange(at, at + needle.len())[m] == needle[m]);
        }
    }
}

} // verus!
