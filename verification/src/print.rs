//! Helpers for printing package-manifest data: the cleaned author list.
//!
//! Each author entry may carry a bracketed e-mail address. The entry is
//! cleaned by stripping every bracketed segment, trimming surrounding white
//! space, and the cleaned entries are joined with `"; "`.

use vstd::prelude::*;

verus! {

/// Manifest fields the helpers can find missing or unusable.
#[derive(Clone, Copy, Debug, PartialEq, Eq, Structural)]
pub enum ManifestError {
    /// The authors list yields no text.
    Authors,
}

/// What stripping bracketed segments from `s` returns.
pub uninterp spec fn email_stripped(s: Seq<char>) -> Seq<char>;

/// Relies on regex::Regex::replace_all with the fixed pattern `<(.*?)>`:
/// every non-overlapping bracketed segment, chosen leftmost and shortest, is
/// replaced by nothing. The result depends on the input text alone.
#[verifier::external_body]
fn strip_email(s: &str) -> (r: String)
    ensures
        r@ == email_stripped(s@),
{
    let re = regex::Regex::new("<(.*?)>").unwrap();
    re.replace_all(s, "").into_owned()
}

/// Whether the character counts as white space.
pub uninterp spec fn white_space(c: char) -> bool;

/// Relies on char::is_whitespace: whether `c` has the Unicode white-space
/// property; a property of the character alone.
#[verifier::external_body]
fn is_white_space(c: char) -> (b: bool)
    ensures
        b == white_space(c),
{
    c.is_whitespace()
}

/// `s` with leading and trailing white space removed.
pub open spec fn trimmed(s: Seq<char>) -> Seq<char>
    decreases s.len(),
{
    if s.len() == 0 {
        s
    } else if white_space(s[0]) {
        trimmed(s.subrange(1, s.len() as int))
    } else if white_space(s[s.len() - 1]) {
        trimmed(s.subrange(0, s.len() - 1))
    } else {
        s
    }
}

/// A subrange that keeps exactly the non-white-space core of `s` is what
/// trimming yields.
proof fn lemma_trimmed_subrange(s: Seq<char>, start: int, end: int)
    requires
        0 <= start <= end <= s.len(),
        forall|k: int| 0 <= k < start ==> white_space(#[trigger] s[k]),
        forall|k: int| end <= k < s.len() ==> white_space(#[trigger] s[k]),
        start < end ==> !white_space(s[start]) && !white_space(s[end - 1]),
    ensures
        trimmed(s) == s.subrange(start, end),
    decreases s.len(),
{
    if s.len() == 0 {
        assert(trimmed(s) =~= s.subrange(start, end));
    } else if start == end {
        // The whole string is white space.
        assert(white_space(s[0]));
        let tail = s.subrange(1, s.len() as int);
        lemma_trimmed_subrange(tail, 0, 0);
        assert(trimmed(s) =~= s.subrange(start, end));
    } else if start > 0 {
        assert(white_space(s[0]));
        let tail = s.subrange(1, s.len() as int);
        lemma_trimmed_subrange(tail, start - 1, end - 1);
        assert(tail.subrange(start - 1, end - 1) =~= s.subrange(start, end));
    } else if end < s.len() {
        assert(white_space(s[s.len() - 1]));
        assert(!white_space(s[0]));
        let head = s.subrange(0, s.len() - 1);
        lemma_trimmed_subrange(head, start, end);
        assert(head.subrange(start, end) =~= s.subrange(start, end));
    } else {
        assert(!white_space(s[0]));
        assert(!white_space(s[s.len() - 1]));
        assert(trimmed(s) == s);
        assert(s.subrange(start, end) =~= s);
    }
}

/// Removes leading and trailing white space.
pub fn trim_str(s: &str) -> (r: String)
    ensures
        r@ == trimmed(s@),
{
    let len = s.unicode_len();
    let mut start: usize = 0;
    let mut end: usize = len;
    while start < end
        invariant_except_break
            0 <= start <= end <= len,
            len == s@.len(),
            forall|k: int| 0 <= k < start ==> white_space(#[trigger] s@[k]),
        ensures
            0 <= start <= end <= len,
            len == s@.len(),
            forall|k: int| 0 <= k < start ==> white_space(#[trigger] s@[k]),
            start < end ==> !white_space(s@[start as int]),
        decreases end - start,
    {
        let c = s.get_char(start);
        if is_white_space(c) {
            start = start + 1;
        } else {
            break ;
        }
    }
    while end > start
        invariant_except_break
            0 <= start <= end <= len,
            len == s@.len(),
            forall|k: int| 0 <= k < start ==> white_space(#[trigger] s@[k]),
            start < end ==> !white_space(s@[start as int]),
            forall|k: int| end <= k < len ==> white_space(#[trigger] s@[k]),
        ensures
            0 <= start <= end <= len,
            len == s@.len(),
            forall|k: int| 0 <= k < start ==> white_space(#[trigger] s@[k]),
            start < end ==> !white_space(s@[start as int]),
            forall|k: int| end <= k < len ==> white_space(#[trigger] s@[k]),
            start < end ==> !white_space(s@[end - 1]),
        decreases end - start,
    {
        let c = s.get_char(end - 1);
        if is_white_space(c) {
            end = end - 1;
        } else {
            break ;
        }
    }
    let mid = s.substring_char(start, end);
    proof {
        lemma_trimmed_subrange(s@, start as int, end as int);
    }
    mid.to_owned()
}

/// The parts joined with `"; "` between them.
pub open spec fn joined(parts: Seq<Seq<char>>) -> Seq<char>
    decreases parts.len(),
{
    if parts.len() == 0 {
        Seq::empty()
    } else if parts.len() == 1 {
        parts[0]
    } else {
        joined(parts.drop_last()) + seq![';', ' '] + parts.last()
    }
}

/// Joins the parts with `"; "` between them.
fn join_parts(parts: &Vec<String>) -> (r: String)
    ensures
        r@ == joined(parts@.map_values(|p: String| p@)),
{
    let ghost views = parts@.map_values(|p: String| p@);
    let mut out = String::new();
    let mut i: usize = 0;
    while i < parts.len()
        invariant
            i <= parts@.len(),
            views == parts@.map_values(|p: String| p@),
            out@ == joined(views.subrange(0, i as int)),
        decreases parts@.len() - i,
    {
        if i > 0 {
            out.append("; ");
        }
        out.append(parts[i].as_str());
        proof {
            reveal_strlit("; ");
            let prefix = views.subrange(0, i + 1);
            assert(prefix.drop_last() =~= views.subrange(0, i as int));
            assert(prefix.last() == views[i as int]);
            if i == 0 {
                assert(out@ =~= joined(prefix));
            } else {
                assert("; "@ =~= seq![';', ' ']);
                assert(out@ =~= joined(prefix));
            }
        }
        i = i + 1;
    }
    proof {
        assert(views.subrange(0, views.len() as int) =~= views);
    }
    out
}

/// The cleaned author list: each entry with bracketed segments stripped and
/// surrounding white space removed, joined with `"; "`.
pub open spec fn spec_authors(names: Seq<Seq<char>>) -> Seq<char> {
    joined(names.map_values(|n: Seq<char>| trimmed(email_stripped(n))))
}

/// Renders the author list of a package manifest: strips each author's
/// bracketed e-mail, trims white space, and joins the entries with `"; "`.
/// Fails exactly when the cleaned list yields no text at all.
pub fn authors(names: &Vec<String>) -> (r: Result<String, ManifestError>)
    ensures
        ({
            let cleaned = spec_authors(names@.map_values(|n: String| n@));
            if cleaned.len() == 0 {
                r == Result::<String, ManifestError>::Err(ManifestError::Authors)
            } else {
                r matches Ok(s) && s@ == cleaned
            }
        }),
{
    let ghost name_views = names@.map_values(|n: String| n@);
    let mut cleaned: Vec<String> = Vec::new();
    let mut i: usize = 0;
    while i < names.len()
        invariant
            i <= names@.len(),
            name_views == names@.map_values(|n: String| n@),
            cleaned@.len() == i,
            forall|j: int|
                0 <= j < i ==> (#[trigger] cleaned@[j])@ == trimmed(
                    email_stripped(name_views[j]),
                ),
        decreases names@.len() - i,
    {
        let stripped = strip_email(names[i].as_str());
        let t = trim_str(stripped.as_str());
        proof {
            assert(name_views[i as int] == names@[i as int]@);
        }
        cleaned.push(t);
        i = i + 1;
    }
    proof {
        assert(cleaned@.map_values(|p: String| p@) =~= name_views.map_values(
            |n: Seq<char>| trimmed(email_stripped(n)),
        ));
    }
    let out = join_parts(&cleaned);
    if out.as_str().is_empty() {
        Err(ManifestError::Authors)
    } else {
        Ok(out)
    }
}

} // verus!
