//! Turning a post's HTML content into plain text: entities decoded, then tags removed.
use vstd::prelude::*;

use crate::relay::RelayError;

verus! {

#[verifier::external_type_specification]
#[verifier::external_body]
pub struct ExDecodeError(html_entities::DecodeError);

/// The text that `html_entities` decodes `s` into, or `None` where it refuses `s`.
pub uninterp spec fn html_decoded(s: Seq<char>) -> Option<Seq<char>>;

/// Relies on `html_entities::decode_html_entities`: it replaces each entity by the
/// characters it stands for, fails on one it cannot read, and copies text that holds
/// no `&` as it is.
#[verifier::external_body]
fn decode_entities(s: &str) -> (r: Result<String, html_entities::DecodeError>)
    ensures
        r is Ok ==> html_decoded(s@) == Some(r->Ok_0@),
        r is Err ==> html_decoded(s@) is None,
        !s@.contains('&') ==> r is Ok && r->Ok_0@ == s@,
{
    html_entities::decode_html_entities(s)
}

/// The pattern of a tag: `<`, one or more characters other than `>`, then `>`.
pub open spec fn tag_pattern() -> Seq<char> {
    seq!['<', '[', '^', '>', ']', '+', '>']
}

/// Index of the first `>` of `s` at or after `i`; `s.len()` when there is none.
pub open spec fn close_from(s: Seq<char>, i: int) -> int
    decreases s.len() - i,
{
    if i >= s.len() {
        s.len() as int
    } else if s[i] == '>' {
        i
    } else {
        close_from(s, i + 1)
    }
}

/// Length of the tag that `s` opens with; 0 when `s` does not open with a tag.
pub open spec fn opening_tag_len(s: Seq<char>) -> int {
    if s.len() > 0 && s[0] == '<' && 2 <= close_from(s, 1) < s.len() {
        close_from(s, 1) + 1
    } else {
        0
    }
}

/// `s` with every tag removed, scanning from the left and resuming after each tag.
pub open spec fn without_tags(s: Seq<char>) -> Seq<char>
    decreases s.len(),
{
    if s.len() == 0 {
        s
    } else if opening_tag_len(s) > 0 {
        without_tags(s.subrange(opening_tag_len(s), s.len() as int))
    } else {
        seq![s[0]] + without_tags(s.drop_first())
    }
}

/// `s` holds a tag somewhere: a `<`, then a `>` with at least one character between
/// them and no `>` among those.
pub open spec fn has_tag(s: Seq<char>) -> bool {
    exists|i: int, j: int|
        0 <= i && i + 2 <= j < s.len() && #[trigger] s[i] == '<' && #[trigger] s[j] == '>'
            && forall|k: int| i < k < j ==> s[k] != '>'
}

/// `s` is nothing but tags, one after another.
pub open spec fn tags_only(s: Seq<char>) -> bool
    decreases s.len(),
{
    if s.len() == 0 {
        true
    } else if opening_tag_len(s) > 0 {
        tags_only(s.subrange(opening_tag_len(s), s.len() as int))
    } else {
        false
    }
}

proof fn lemma_close_from(s: Seq<char>, i: int)
    requires
        0 <= i <= s.len(),
    ensures
        i <= close_from(s, i) <= s.len(),
        close_from(s, i) < s.len() ==> s[close_from(s, i)] == '>',
        forall|k: int| i <= k < close_from(s, i) ==> s[k] != '>',
    decreases s.len() - i,
{
    if i < s.len() && s[i] != '>' {
        lemma_close_from(s, i + 1);
    }
}

/// Text without tags is left as it is by tag removal.
pub proof fn lemma_untagged_unchanged(s: Seq<char>)
    requires
        !has_tag(s),
    ensures
        without_tags(s) == s,
    decreases s.len(),
{
    if s.len() > 0 {
        lemma_close_from(s, 1);
        let c = close_from(s, 1);
        if opening_tag_len(s) > 0 {
            assert(s[0] == '<' && s[c] == '>');
            assert(has_tag(s));
        }
        let t = s.drop_first();
        if has_tag(t) {
            let (i, j) = choose|i: int, j: int|
                0 <= i && i + 2 <= j < t.len() && #[trigger] t[i] == '<' && #[trigger] t[j] == '>'
                    && forall|k: int| i < k < j ==> t[k] != '>';
            assert(s[i + 1] == '<' && s[j + 1] == '>');
            assert forall|k: int| i + 1 < k < j + 1 implies s[k] != '>' by {
                assert(s[k] == t[k - 1]);
            }
            assert(has_tag(s));
        }
        lemma_untagged_unchanged(t);
        assert(seq![s[0]] + t =~= s);
    }
}

/// Text made of tags alone is left empty by tag removal.
pub proof fn lemma_tags_only_vanish(s: Seq<char>)
    requires
        tags_only(s),
    ensures
        without_tags(s).len() == 0,
    decreases s.len(),
{
    if s.len() > 0 {
        lemma_tags_only_vanish(s.subrange(opening_tag_len(s), s.len() as int));
    }
}

/// Relies on `regex::Regex::new` and `Regex::replace_all`: the tag pattern compiles,
/// and replacing its leftmost non-overlapping matches by the empty string leaves
/// `without_tags` of the text.
#[verifier::external_body]
fn replace_matches(pattern: &str, text: &str, replacement: &str) -> (r: String)
    requires
        pattern@ == tag_pattern(),
        replacement@.len() == 0,
    ensures
        r@ == without_tags(text@),
{
    regex::Regex::new(pattern).unwrap().replace_all(text, replacement).into_owned()
}

/// The plain text of `content`: its entities decoded, then its tags removed.
pub open spec fn sanitized(content: Seq<char>) -> Option<Seq<char>> {
    match html_decoded(content) {
        Some(d) => Some(without_tags(d)),
        None => None,
    }
}

/// Turns a post's HTML content into plain text.
pub fn sanitize(content: &str) -> (r: Result<String, RelayError>)
    ensures
        match sanitized(content@) {
            Some(t) => r matches Ok(s) && s@ == t,
            None => r == Err::<String, RelayError>(RelayError::Decode),
        },
        !content@.contains('&') ==> (r matches Ok(s) && s@ == without_tags(content@)),
        !content@.contains('&') && !has_tag(content@) ==> (r matches Ok(s) && s@ == content@),
{
    match decode_entities(content) {
        Ok(decoded) => {
            let pattern: &str = "<[^>]+>";
            proof {
                reveal_strlit("<[^>]+>");
                reveal_strlit("");
                assert(pattern@ =~= tag_pattern());
            }
            proof {
                if !content@.contains('&') && !has_tag(content@) {
                    lemma_untagged_unchanged(content@);
                }
            }
            Ok(replace_matches(pattern, decoded.as_str(), ""))
        },
        Err(_) => Err(RelayError::Decode),
    }
}

} // verus!
