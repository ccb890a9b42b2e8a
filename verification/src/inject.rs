//! Content injection: splicing a payload into HTML immediately before the
//! first closing-body marker `</body>`. Content without the marker is
//! returned unchanged, so malformed or partial HTML is still served.

use vstd::prelude::*;

use crate::errors::ServeError;

verus! {

/// The literal closing-body marker `</body>` as a character sequence.
pub open spec fn marker() -> Seq<char> {
    seq!['<', '/', 'b', 'o', 'd', 'y', '>']
}

/// The marker occurs in `c` starting at position `i`.
pub open spec fn marker_at(c: Seq<char>, i: int) -> bool {
    0 <= i && i + 7 <= c.len() && c.subrange(i, i + 7) == marker()
}

/// `c` contains the marker somewhere.
pub open spec fn has_marker(c: Seq<char>) -> bool {
    exists|i: int| marker_at(c, i)
}

/// Position of the first marker occurrence at or after `i`, or -1 if none.
pub open spec fn find_marker_from(c: Seq<char>, i: int) -> int
    decreases c.len() - i,
{
    if i + 7 > c.len() {
        -1
    } else if marker_at(c, i) {
        i
    } else {
        find_marker_from(c, i + 1)
    }
}

/// Position of the first marker occurrence in `c`, or -1 if none.
pub open spec fn find_marker(c: Seq<char>) -> int {
    find_marker_from(c, 0)
}

/// The result of injection: `c` with `p` inserted immediately before the
/// first marker occurrence, or `c` itself when there is no marker.
pub open spec fn inject_spec(c: Seq<char>, p: Seq<char>) -> Seq<char> {
    if find_marker(c) < 0 {
        c
    } else {
        c.subrange(0, find_marker(c)) + p + c.subrange(find_marker(c), c.len() as int)
    }
}

/// `find_marker_from(c, i)` is -1 exactly when no marker occurs at or after
/// `i`; otherwise it is the least marker position at or after `i`.
pub proof fn lemma_find_marker_from(c: Seq<char>, i: int)
    requires
        0 <= i,
    ensures
        find_marker_from(c, i) == -1 ==> forall|j: int| i <= j ==> !marker_at(c, j),
        find_marker_from(c, i) != -1 ==> i <= find_marker_from(c, i)
            && marker_at(c, find_marker_from(c, i))
            && forall|j: int| i <= j < find_marker_from(c, i) ==> !marker_at(c, j),
    decreases c.len() - i,
{
    if i + 7 > c.len() {
        assert forall|j: int| i <= j implies !marker_at(c, j) by {
            assert(j + 7 > c.len());
        }
    } else if marker_at(c, i) {
    } else {
        lemma_find_marker_from(c, i + 1);
    }
}

/// Law: injection leaves content without a closing-body marker unchanged.
pub proof fn lemma_inject_no_marker(c: Seq<char>, p: Seq<char>)
    requires
        !has_marker(c),
    ensures
        inject_spec(c, p) == c,
{
    lemma_find_marker_from(c, 0);
}

/// Law: when content holds a closing-body marker, the payload is inserted
/// exactly once, immediately before the first marker; the content before
/// and after the insertion point is unchanged, and the marker follows the
/// payload directly in the result.
pub proof fn lemma_inject_at_first_marker(c: Seq<char>, p: Seq<char>)
    requires
        has_marker(c),
    ensures
        ({
            let i = find_marker(c);
            let r = inject_spec(c, p);
            &&& 0 <= i
            &&& marker_at(c, i)
            &&& forall|j: int| 0 <= j < i ==> !marker_at(c, j)
            &&& r.len() == c.len() + p.len()
            &&& r.subrange(0, i) == c.subrange(0, i)
            &&& r.subrange(i, i + p.len()) == p
            &&& r.subrange(i + p.len(), r.len() as int) == c.subrange(i, c.len() as int)
            &&& marker_at(r, i + p.len())
        }),
{
    lemma_find_marker_from(c, 0);
    let i = find_marker(c);
    let r = inject_spec(c, p);
    assert(r.subrange(0, i) =~= c.subrange(0, i));
    assert(r.subrange(i, i + p.len()) =~= p);
    assert(r.subrange(i + p.len(), r.len() as int) =~= c.subrange(i, c.len() as int));
    assert(r.subrange(i + p.len(), i + p.len() + 7) =~= c.subrange(i, i + 7));
}

/// Law: in content with several closing-body markers, every marker at or
/// after the first stands in the result too, shifted by the payload length:
/// markers past the insertion point are untouched.
pub proof fn lemma_inject_later_markers(c: Seq<char>, p: Seq<char>, j: int)
    requires
        has_marker(c),
        find_marker(c) <= j,
        marker_at(c, j),
    ensures
        marker_at(inject_spec(c, p), j + p.len()),
{
    lemma_find_marker_from(c, 0);
    let i = find_marker(c);
    let r = inject_spec(c, p);
    assert(r.subrange(j + p.len(), j + p.len() + 7) =~= c.subrange(j, j + 7));
}

/// Checks whether the marker occurs in `content` at character position `i`.
fn marker_matches_at(content: &str, i: usize) -> (b: bool)
    requires
        i + 7 <= content@.len(),
        i + 7 <= usize::MAX,
    ensures
        b == marker_at(content@, i as int),
{
    let b = content.get_char(i) == '<' && content.get_char(i + 1) == '/'
        && content.get_char(i + 2) == 'b' && content.get_char(i + 3) == 'o'
        && content.get_char(i + 4) == 'd' && content.get_char(i + 5) == 'y'
        && content.get_char(i + 6) == '>';
    proof {
        let c = content@;
        let s = c.subrange(i as int, i as int + 7);
        assert(marker()[0] == '<' && marker()[1] == '/' && marker()[2] == 'b'
            && marker()[3] == 'o' && marker()[4] == 'd' && marker()[5] == 'y'
            && marker()[6] == '>');
        assert(s[0] == c[i as int] && s[1] == c[i + 1] && s[2] == c[i + 2]
            && s[3] == c[i + 3] && s[4] == c[i + 4] && s[5] == c[i + 5]
            && s[6] == c[i + 6]);
        if b {
            assert(s =~= marker());
        } else {
            assert(s != marker());
        }
    }
    b
}

/// Finds the first marker occurrence in `content`, if any.
fn find_marker_in(content: &str) -> (r: Option<usize>)
    ensures
        match r {
            Some(i) => find_marker(content@) == i as int,
            None => find_marker(content@) == -1,
        },
{
    let n = content.unicode_len();
    if n < 7 {
        return None;
    }
    let mut i: usize = 0;
    while i <= n - 7
        invariant
            n == content@.len(),
            7 <= n,
            i <= n,
            find_marker(content@) == find_marker_from(content@, i as int),
        decreases n - i,
    {
        if marker_matches_at(content, i) {
            return Some(i);
        }
        i = i + 1;
    }
    None
}

/// Returns `content` with `payload` inserted immediately before the first
/// occurrence of the closing-body marker, or `content` unchanged when the
/// marker is absent. Never fails: the marker is a fixed literal, so no
/// structural error can arise while locating it.
pub fn inject_before_the_end_of_body(content: &str, payload: &str) -> (r: Result<
    String,
    ServeError,
>)
    ensures
        r is Ok,
        r matches Ok(s) ==> s@ == inject_spec(content@, payload@),
{
    match find_marker_in(content) {
        None => Ok(content.to_owned()),
        Some(i) => {
            proof {
                lemma_find_marker_from(content@, 0);
            }
            let n = content.unicode_len();
            let mut out = content.substring_char(0, i).to_owned();
            out.append(payload);
            out.append(content.substring_char(i, n));
            Ok(out)
        },
    }
}

} // verus!
