//! Path resolution: turning the absolute path of a changed file into a
//! location relative to the watched root.
//!
//! A location is a `context` (the relative folder, possibly empty) and a
//! `name` (the filename, never empty and never containing a separator).
//! Resolution is purely lexical: the path must extend the root by a
//! separator and at least one further character, and the name is whatever
//! follows the last separator of the relative part.

use vstd::prelude::*;
use vstd::string::StrSliceExecFns;
use vstd::string::StringExecFns;

verus! {

/// Why a path could not be resolved against the watched root.
#[derive(Clone, Copy, Debug, PartialEq, Eq, Structural)]
pub enum PathResolutionError {
    /// The path does not lie under the watched root.
    OutsideRoot,
    /// The path is the root itself: there is no segment beyond the root.
    NoParent,
    /// The relative part is empty, begins with an empty segment, ends in a
    /// separator, or its final segment is a directory marker (`.` or `..`),
    /// so it names no plain file.
    NoFilename,
    /// The path is not representable as text.
    InvalidEncoding,
}

/// A resolved location under the watched root: the relative folder used as
/// routing context (empty for a file directly under the root) and the
/// filename.
#[derive(Debug)]
pub struct RelativeLocation {
    pub context: String,
    pub name: String,
}

/// The path strictly extends the root by a separator: `root + "/" + rest`.
pub open spec fn path_under_root(path: Seq<char>, root: Seq<char>) -> bool {
    &&& path.len() > root.len()
    &&& path.subrange(0, root.len() as int) == root
    &&& path[root.len() as int] == '/'
}

/// The part of the path after the root and its separator.
pub open spec fn relative_part(path: Seq<char>, root: Seq<char>) -> Seq<char>
    recommends
        path_under_root(path, root),
{
    path.subrange(root.len() as int + 1, path.len() as int)
}

/// The index just after the last separator of `rel`, or 0 when `rel` has no
/// separator: the point where the filename starts.
pub open spec fn cut_index(rel: Seq<char>) -> int
    decreases rel.len(),
{
    if rel.len() == 0 {
        0
    } else if rel[rel.len() - 1] == '/' {
        rel.len() as int
    } else {
        cut_index(rel.drop_last())
    }
}

/// The filename part of a relative path: everything after its last
/// separator.
pub open spec fn name_part(rel: Seq<char>) -> Seq<char> {
    rel.subrange(cut_index(rel), rel.len() as int)
}

/// The context part of a relative path: everything before its last
/// separator, empty when there is none.
pub open spec fn context_part(rel: Seq<char>) -> Seq<char> {
    if cut_index(rel) == 0 {
        Seq::empty()
    } else {
        rel.subrange(0, cut_index(rel) - 1)
    }
}

/// Joining a context and a name back into a relative path.
pub open spec fn joined(context: Seq<char>, name: Seq<char>) -> Seq<char> {
    if context.len() == 0 {
        name
    } else {
        context + seq!['/'] + name
    }
}

/// A path resolves successfully exactly when it lies under the root and its
/// relative part names a file: non-empty, not beginning with a further
/// separator, not ending in one, and with a final segment that is a real
/// filename rather than a directory marker (`.` or `..`).
pub open spec fn resolvable(path: Seq<char>, root: Seq<char>) -> bool {
    &&& path_under_root(path, root)
    &&& relative_part(path, root).len() > 0
    &&& relative_part(path, root)[0] != '/'
    &&& relative_part(path, root).last() != '/'
    &&& name_part(relative_part(path, root)) != seq!['.']
    &&& name_part(relative_part(path, root)) != seq!['.', '.']
}

/// The error an unresolvable path resolves to: the root itself has no
/// parent segment, a path elsewhere is outside the root, and a path under
/// the root whose relative part is degenerate names no file.
pub open spec fn resolution_error(path: Seq<char>, root: Seq<char>) -> PathResolutionError
    recommends
        !resolvable(path, root),
{
    if path == root {
        PathResolutionError::NoParent
    } else if !path_under_root(path, root) {
        PathResolutionError::OutsideRoot
    } else {
        PathResolutionError::NoFilename
    }
}

/// `context` and `name` are a valid split of `rel`: they join back to it,
/// and the name is a non-empty final segment.
pub open spec fn splits_relative(rel: Seq<char>, context: Seq<char>, name: Seq<char>) -> bool {
    &&& joined(context, name) == rel
    &&& name.len() > 0
    &&& forall|i: int| 0 <= i < name.len() ==> name[i] != '/'
}

/// The cut is the only position that sits right after a separator (or at
/// the start) with no separator anywhere behind it.
proof fn lemma_cut_position_unique(rel: Seq<char>, position: int)
    requires
        0 <= position <= rel.len(),
        position == 0 || rel[position - 1] == '/',
        forall|i: int| position <= i < rel.len() ==> rel[i] != '/',
    ensures
        position == cut_index(rel),
{
    lemma_cut_index_bounds(rel);
    let cut = cut_index(rel);
    if position < cut {
        assert(rel[cut - 1] == '/');
    } else if cut < position {
        assert(rel[position - 1] == '/');
    }
}

proof fn lemma_cut_index_bounds(rel: Seq<char>)
    ensures
        0 <= cut_index(rel) <= rel.len(),
        cut_index(rel) > 0 ==> rel[cut_index(rel) - 1] == '/',
        forall|i: int| cut_index(rel) <= i < rel.len() ==> rel[i] != '/',
    decreases rel.len(),
{
    if rel.len() == 0 {
    } else if rel[rel.len() - 1] == '/' {
    } else {
        lemma_cut_index_bounds(rel.drop_last());
        assert forall|i: int| cut_index(rel) <= i < rel.len() implies rel[i] != '/' by {
            if i < rel.len() - 1 {
                assert(rel.drop_last()[i] == rel[i]);
            }
        }
    }
}

/// The spec split is a valid split whenever the relative path names a file.
proof fn lemma_spec_split_valid(rel: Seq<char>)
    requires
        rel.len() > 0,
        rel[0] != '/',
        rel.last() != '/',
    ensures
        splits_relative(rel, context_part(rel), name_part(rel)),
{
    lemma_cut_index_bounds(rel);
    let cut = cut_index(rel);
    assert(cut < rel.len()) by {
        if cut == rel.len() {
            assert(rel[cut - 1] == '/');
        }
    }
    if cut == 0 {
        assert(joined(context_part(rel), name_part(rel)) =~= rel);
    } else {
        // A cut of 1 would put a separator at the front of the relative
        // part, which is excluded, so the context is non-empty.
        assert(cut != 1) by {
            if cut == 1 {
                assert(rel[0] == '/');
            }
        }
        assert(context_part(rel).len() > 0);
        assert(joined(context_part(rel), name_part(rel)) =~= rel);
    }
}

/// A relative path that names a file splits into a context and a name in
/// only one way: the resolved location is fully determined by the path.
pub proof fn lemma_split_unique(
    rel: Seq<char>,
    context_a: Seq<char>,
    name_a: Seq<char>,
    context_b: Seq<char>,
    name_b: Seq<char>,
)
    requires
        splits_relative(rel, context_a, name_a),
        splits_relative(rel, context_b, name_b),
    ensures
        context_a == context_b,
        name_a == name_b,
{
    if context_a.len() == 0 && context_b.len() == 0 {
        assert(name_a =~= name_b);
        assert(context_a =~= context_b);
    } else if context_a.len() == 0 {
        // rel itself is the slash-free name_a, yet context_b's separator
        // would have to appear inside it.
        assert(rel == context_b + seq!['/'] + name_b);
        assert(rel[context_b.len() as int] == '/');
        assert(name_a[context_b.len() as int] == '/');
    } else if context_b.len() == 0 {
        assert(rel == context_a + seq!['/'] + name_a);
        assert(rel[context_a.len() as int] == '/');
        assert(name_b[context_a.len() as int] == '/');
    } else {
        assert(rel == context_a + seq!['/'] + name_a);
        assert(rel == context_b + seq!['/'] + name_b);
        if context_a.len() < context_b.len() {
            // context_b's separator would fall inside the slash-free name_a.
            assert(rel[context_b.len() as int] == '/');
            assert(context_b.len() < rel.len());
            assert(name_a[context_b.len() - context_a.len() - 1] == '/');
        } else if context_b.len() < context_a.len() {
            assert(rel[context_a.len() as int] == '/');
            assert(context_a.len() < rel.len());
            assert(name_b[context_a.len() - context_b.len() - 1] == '/');
        } else {
            assert(rel.len() == context_a.len() + 1 + name_a.len());
            assert(rel.len() == context_b.len() + 1 + name_b.len());
            assert forall|i: int| 0 <= i < context_a.len() implies context_a[i] == context_b[i] by {
                assert((context_a + seq!['/'] + name_a)[i] == context_a[i]);
                assert((context_b + seq!['/'] + name_b)[i] == context_b[i]);
            }
            assert(context_a =~= context_b);
            assert forall|j: int| 0 <= j < name_a.len() implies name_a[j] == name_b[j] by {
                assert((context_a + seq!['/'] + name_a)[context_a.len() + 1 + j] == name_a[j]);
                assert((context_b + seq!['/'] + name_b)[context_b.len() + 1 + j] == name_b[j]);
            }
            assert(name_a =~= name_b);
        }
    }
}

/// Resolution reconstructs the path it was given: for any resolvable path,
/// joining the watched root, a separator, and the resolved context and name
/// yields the original absolute path again.
pub proof fn lemma_resolution_round_trip(path: Seq<char>, root: Seq<char>)
    requires
        resolvable(path, root),
    ensures
        root + seq!['/'] + joined(
            context_part(relative_part(path, root)),
            name_part(relative_part(path, root)),
        ) == path,
{
    let rel = relative_part(path, root);
    lemma_spec_split_valid(rel);
    assert(root + seq!['/'] + rel =~= path);
}

/// Character-wise equality of two text slices.
pub(crate) fn text_eq(a: &str, b: &str) -> (equal: bool)
    ensures
        equal == (a@ == b@),
{
    let a_len: usize = a.unicode_len();
    let b_len: usize = b.unicode_len();
    if a_len != b_len {
        return false;
    }
    let mut i: usize = 0;
    while i < a_len
        invariant
            i <= a_len,
            a_len == a@.len(),
            b_len == b@.len(),
            a_len == b_len,
            forall|k: int| 0 <= k < i ==> a@[k] == b@[k],
        decreases a_len - i,
    {
        if a.get_char(i) != b.get_char(i) {
            return false;
        }
        i = i + 1;
    }
    proof {
        assert(a@ =~= b@);
    }
    true
}

/// Resolves the absolute path of a changed file against the watched root.
///
/// Succeeds exactly when the path lies strictly under the root and ends in
/// a real filename — a directory marker (`.` or `..`) as the final segment
/// names no file and fails like a missing one. The location returned is
/// the unique split of the relative part at its last separator, so the
/// original path can be reconstructed from the root, the context and the
/// name.
pub fn resolve(path: &str, root: &str) -> (outcome: Result<
    RelativeLocation,
    PathResolutionError,
>)
    ensures
        outcome is Ok <==> resolvable(path@, root@),
        ((outcome matches Err(e) && e == PathResolutionError::NoParent) <==> path@ == root@),
        ((outcome matches Err(e) && e == PathResolutionError::OutsideRoot) <==> (path@ != root@
            && !path_under_root(path@, root@))),
        ((outcome matches Err(e) && e == PathResolutionError::NoFilename) <==> (path_under_root(
            path@,
            root@,
        ) && !resolvable(path@, root@))),
        !resolvable(path@, root@) ==> outcome == Err::<RelativeLocation, PathResolutionError>(
            resolution_error(path@, root@),
        ),
        outcome matches Ok(location) ==> {
            &&& location.context@ == context_part(relative_part(path@, root@))
            &&& location.name@ == name_part(relative_part(path@, root@))
            &&& location.name@.len() > 0
            &&& forall|i: int| 0 <= i < location.name@.len() ==> location.name@[i] != '/'
            &&& path@ == root@ + seq!['/'] + joined(location.context@, location.name@)
        },
{
    let path_len: usize = path.unicode_len();
    let root_len: usize = root.unicode_len();
    if text_eq(path, root) {
        return Err(PathResolutionError::NoParent);
    }
    if path_len <= root_len {
        return Err(PathResolutionError::OutsideRoot);
    }
    let prefix = path.substring_char(0, root_len);
    if !text_eq(prefix, root) || path.get_char(root_len) != '/' {
        return Err(PathResolutionError::OutsideRoot);
    }
    let ghost rel = relative_part(path@, root@);
    if path_len == root_len + 1 {
        assert(rel.len() == 0);
        return Err(PathResolutionError::NoFilename);
    }
    if path.get_char(path_len - 1) == '/' {
        assert(rel.last() == '/');
        return Err(PathResolutionError::NoFilename);
    }
    if path.get_char(root_len + 1) == '/' {
        assert(rel[0] == '/');
        return Err(PathResolutionError::NoFilename);
    }
    assert(rel.len() > 0 && rel[0] != '/' && rel.last() != '/');

    // Find the position just after the last separator of the relative part.
    let start: usize = root_len + 1;
    let mut cut: usize = start;
    let mut j: usize = start;
    while j < path_len
        invariant
            start == root@.len() + 1,
            start <= cut <= j <= path_len,
            path_len == path@.len(),
            path_under_root(path@, root@),
            path@[start as int] != '/',
            cut != start + 1,
            path@[cut - 1] == '/',
            forall|k: int| cut <= k < j ==> path@[k] != '/',
        decreases path_len - j,
    {
        if path.get_char(j) == '/' {
            cut = j + 1;
        }
        j = j + 1;
    }
    assert(cut < path_len) by {
        if cut == path_len {
            assert(path@[path_len - 1] == '/');
            assert(rel.last() == '/');
        }
    }
    let ghost c = cut as int - start as int;
    proof {
        if c > 0 {
            assert(rel[c - 1] == path@[cut - 1]);
        }
        assert forall|i: int| c <= i < rel.len() implies rel[i] != '/' by {
            assert(rel[i] == path@[start + i]);
        }
        lemma_cut_position_unique(rel, c);
    }
    let name = String::from_str(path.substring_char(cut, path_len));
    proof {
        assert(name@ =~= name_part(rel));
        reveal_strlit(".");
        reveal_strlit("..");
        assert("."@ =~= seq!['.']);
        assert(".."@ =~= seq!['.', '.']);
    }
    if text_eq(name.as_str(), ".") || text_eq(name.as_str(), "..") {
        assert(name_part(rel) == seq!['.'] || name_part(rel) == seq!['.', '.']);
        return Err(PathResolutionError::NoFilename);
    }
    assert(name_part(rel) != seq!['.'] && name_part(rel) != seq!['.', '.']);
    let context = if cut == start {
        String::new()
    } else {
        String::from_str(path.substring_char(start, cut - 1))
    };
    proof {
        assert(joined(context@, name@) =~= rel);
        assert(splits_relative(rel, context@, name@));
        lemma_spec_split_valid(rel);
        lemma_split_unique(rel, context@, name@, context_part(rel), name_part(rel));
        assert(path@ =~= root@ + seq!['/'] + rel);
    }
    Ok(RelativeLocation { context, name })
}

/// Reconstructs the absolute path a location was resolved from: the watched
/// root, a separator, and the relative path joined back together.
pub fn location_path(root: &str, location: &RelativeLocation) -> (full: String)
    ensures
        full@ == root@ + seq!['/'] + joined(location.context@, location.name@),
{
    proof {
        reveal_strlit("/");
    }
    let mut full = String::from_str(root);
    full.append("/");
    if location.context.as_str().unicode_len() > 0 {
        full.append(location.context.as_str());
        full.append("/");
    }
    full.append(location.name.as_str());
    proof {
        assert(full@ =~= root@ + seq!['/'] + joined(location.context@, location.name@));
    }
    full
}

} // verus!
