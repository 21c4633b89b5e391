//! Path canonicalization: the component-by-component walk that resolves
//! symlinks and `.`/`..` against a backend's entry table.
//!
//! The walk is specified by [`resolve_path_spec`] over the ghost entry
//! table of the backend, and the executable resolver is proved against it:
//! whenever resolution returns a path, it is exactly the path the
//! specification names, and for a backend whose queries are total the
//! whole outcome — including which of the two errors comes back on which
//! input — is pinned down.

use vstd::prelude::*;

use crate::error::FsError;
use crate::model::{EntrySpec, FsState};
use crate::path::{lex_step, lexical_normalize, normalize_spec, CompView, Component, VfsPath};
use crate::traits::fs_link::FsLink;
use crate::traits::fs_read::FsRead;

verus! {

/// Maximum depth of symlink dereferences in one resolution, the loop
/// detection bound: exceeding it is reported as a symlink loop.
pub const MAX_SYMLINK_DEPTH: usize = 40;

/// The two errors resolution itself raises, in ghost form: a missing
/// component, carrying the offending path, or a symlink loop, carrying
/// the path that was being resolved when the depth bound was exceeded.
pub enum ResolveErr {
    /// A component does not exist.
    NotFound(Seq<CompView>),
    /// The symlink depth bound was exceeded.
    Loop(Seq<CompView>),
}

/// Whether the executable error `e` is the ghost error `re`: the same
/// kind — `NotFound`, or `InvalidData` for a loop — carrying the same
/// path.
pub open spec fn resolve_err_matches(e: FsError, re: ResolveErr) -> bool {
    match re {
        ResolveErr::NotFound(p) => e matches FsError::NotFound { path } && path@ == p,
        ResolveErr::Loop(p) => e matches FsError::InvalidData { path, .. } && path@ == p,
    }
}

/// Whether the executable outcome `r` is the ghost outcome `ideal`:
/// equal paths on success, matching kind and path on failure.
pub open spec fn resolve_outcome_matches(
    r: Result<VfsPath, FsError>,
    ideal: Result<Seq<CompView>, ResolveErr>,
) -> bool {
    match (r, ideal) {
        (Ok(q), Ok(s)) => q@ == s,
        (Err(e), Err(re)) => resolve_err_matches(e, re),
        _ => false,
    }
}

/// The walk over the remaining components `rest`, with accumulator `acc`,
/// against the entry table `m`.  Names are checked in the table and
/// symlinks are resolved from scratch through [`resolve_path_spec`] with
/// the depth counter raised; all other components step the accumulator
/// purely lexically.  When the components are exhausted, an empty
/// accumulator becomes the root, and in strict mode the assembled path
/// must occupy the table.
pub open spec fn resolve_components(
    m: Map<Seq<CompView>, EntrySpec>,
    acc: Seq<CompView>,
    rest: Seq<CompView>,
    depth: nat,
    require_exists: bool,
) -> Result<Seq<CompView>, ResolveErr>
    decreases MAX_SYMLINK_DEPTH + 1 - depth, rest.len(), 0nat
        when depth <= MAX_SYMLINK_DEPTH
{
    if rest.len() == 0 {
        let res = if acc.len() == 0 {
            seq![CompView::Root]
        } else {
            acc
        };
        if require_exists && !m.contains_key(res) {
            Err(ResolveErr::NotFound(res))
        } else {
            Ok(res)
        }
    } else {
        let c = rest[0];
        let rest2 = rest.skip(1);
        match c {
            CompView::Name(n) => {
                let cand = acc.push(CompView::Name(n));
                if m.contains_key(cand) {
                    match m[cand] {
                        EntrySpec::Symlink(t) => {
                            let joined = if t.len() > 0 && t[0] is Root {
                                t
                            } else {
                                acc + t
                            };
                            match resolve_path_spec(m, joined, (depth + 1) as nat, require_exists) {
                                Ok(resolved) => resolve_components(
                                    m,
                                    resolved,
                                    rest2,
                                    depth,
                                    require_exists,
                                ),
                                Err(e) => Err(e),
                            }
                        },
                        _ => resolve_components(m, cand, rest2, depth, require_exists),
                    }
                } else if require_exists {
                    Err(ResolveErr::NotFound(cand))
                } else {
                    resolve_components(m, cand, rest2, depth, require_exists)
                }
            },
            _ => resolve_components(m, lex_step(acc, c), rest2, depth, require_exists),
        }
    }
}

/// Resolution of a whole path against the entry table `m`: a symlink loop
/// error when the depth counter exceeds the bound, and the component walk
/// from an empty accumulator otherwise.
pub open spec fn resolve_path_spec(
    m: Map<Seq<CompView>, EntrySpec>,
    path: Seq<CompView>,
    depth: nat,
    require_exists: bool,
) -> Result<Seq<CompView>, ResolveErr>
    decreases MAX_SYMLINK_DEPTH + 1 - depth, path.len(), 1nat,
{
    if depth > MAX_SYMLINK_DEPTH {
        Err(ResolveErr::Loop(path))
    } else {
        resolve_components(m, Seq::empty(), path, depth, require_exists)
    }
}

/// Strict canonicalization: every component must exist, every symlink is
/// followed.
pub open spec fn canonicalize_spec(
    m: Map<Seq<CompView>, EntrySpec>,
    path: Seq<CompView>,
) -> Result<Seq<CompView>, ResolveErr> {
    resolve_path_spec(m, path, 0, true)
}

/// Soft canonicalization: when the path ends in a name with something
/// before it, the parent is canonicalized strictly and the final name is
/// appended lexically, with no query about it at all; a bare name is
/// normalized purely lexically; any other path — the root, the empty
/// path, or one ending in `.`, `..` or a prefix — is canonicalized
/// strictly as a whole.
pub open spec fn soft_canonicalize_spec(
    m: Map<Seq<CompView>, EntrySpec>,
    path: Seq<CompView>,
) -> Result<Seq<CompView>, ResolveErr> {
    if path.len() > 0 && path.last() is Name {
        if path.len() >= 2 {
            match resolve_path_spec(m, path.drop_last(), 0, true) {
                Ok(parent) => Ok(parent.push(path.last())),
                Err(e) => Err(e),
            }
        } else {
            Ok(normalize_spec(path))
        }
    } else {
        resolve_path_spec(m, path, 0, true)
    }
}

/// Whether the walk of `rest` from the accumulator `acc` meets only
/// existing, non-symlink entries: at every name step the candidate prefix
/// occupies `m` as a file or a directory.
pub open spec fn plain_walk(
    m: Map<Seq<CompView>, EntrySpec>,
    acc: Seq<CompView>,
    rest: Seq<CompView>,
) -> bool
    decreases rest.len(),
{
    if rest.len() == 0 {
        true
    } else {
        let step = lex_step(acc, rest[0]);
        (rest[0] is Name ==> m.contains_key(step) && !(m[step] is Symlink)) && plain_walk(
            m,
            step,
            rest.skip(1),
        )
    }
}

/// Every prefix of `q` ending in a name occupies `m` and is not a
/// symlink: what the strict walk has checked of a path it returned.
pub open spec fn prefixes_resolved(m: Map<Seq<CompView>, EntrySpec>, q: Seq<CompView>) -> bool {
    forall|i: int|
        0 <= i < q.len() && (#[trigger] q[i]) is Name ==> m.contains_key(#[trigger] q.take(i + 1))
            && !(m[q.take(i + 1)] is Symlink)
}

/// `q` has the shape of a resolved path: a root marker stands only
/// first, and no `.` or `..` remains.
pub open spec fn resolved_shape(q: Seq<CompView>) -> bool {
    forall|i: int|
        0 <= i < q.len() ==> ((#[trigger] q[i]) is Root ==> i == 0) && !(q[i] is Cur) && !(q[i]
            is Parent)
}

/// When the walk only meets existing, non-symlink entries, it reduces the
/// path exactly as the purely lexical normalizer does, with the strict
/// existence check on the final result.
proof fn lemma_plain_resolve_is_lexical(
    m: Map<Seq<CompView>, EntrySpec>,
    acc: Seq<CompView>,
    rest: Seq<CompView>,
    depth: nat,
    require_exists: bool,
)
    requires
        depth <= MAX_SYMLINK_DEPTH,
        plain_walk(m, acc, rest),
    ensures
        resolve_components(m, acc, rest, depth, require_exists) == ({
            let folded = crate::path::lex_fold(acc, rest);
            let res = if folded.len() == 0 {
                seq![CompView::Root]
            } else {
                folded
            };
            if require_exists && !m.contains_key(res) {
                Err::<Seq<CompView>, ResolveErr>(ResolveErr::NotFound(res))
            } else {
                Ok::<Seq<CompView>, ResolveErr>(res)
            }
        }),
    decreases rest.len(),
{
    if rest.len() > 0 {
        lemma_plain_resolve_is_lexical(m, lex_step(acc, rest[0]), rest.skip(1), depth, require_exists);
    }
}

/// For any path whose walk meets only existing, non-symlink entries, and
/// whose normalized form exists, strict canonicalization returns exactly
/// the purely lexical normalization.
pub proof fn lemma_canonicalize_is_normalize(m: Map<Seq<CompView>, EntrySpec>, path: Seq<CompView>)
    requires
        plain_walk(m, Seq::empty(), path),
        m.contains_key(normalize_spec(path)),
    ensures
        canonicalize_spec(m, path) == Ok::<Seq<CompView>, ResolveErr>(normalize_spec(path)),
{
    lemma_plain_resolve_is_lexical(m, Seq::empty(), path, 0, true);
}

/// A path that the strict walk returned is canonical: resolved in shape,
/// with every name prefix present and not a symlink, present as a whole,
/// and not empty.
proof fn lemma_resolve_result_canonical(
    m: Map<Seq<CompView>, EntrySpec>,
    acc: Seq<CompView>,
    rest: Seq<CompView>,
    depth: nat,
    q: Seq<CompView>,
)
    requires
        depth <= MAX_SYMLINK_DEPTH,
        resolved_shape(acc),
        prefixes_resolved(m, acc),
        resolve_components(m, acc, rest, depth, true) == Ok::<Seq<CompView>, ResolveErr>(q),
    ensures
        resolved_shape(q),
        prefixes_resolved(m, q),
        m.contains_key(q),
        q.len() > 0,
    decreases MAX_SYMLINK_DEPTH + 1 - depth, rest.len(),
{
    if rest.len() == 0 {
        if acc.len() == 0 {
            assert(q =~= seq![CompView::Root]);
        }
    } else {
        let c = rest[0];
        let rest2 = rest.skip(1);
        match c {
            CompView::Name(n) => {
                let cand = acc.push(CompView::Name(n));
                if m.contains_key(cand) {
                    match m[cand] {
                        EntrySpec::Symlink(t) => {
                            let joined = if t.len() > 0 && t[0] is Root {
                                t
                            } else {
                                acc + t
                            };
                            match resolve_path_spec(m, joined, (depth + 1) as nat, true) {
                                Ok(resolved) => {
                                    lemma_resolve_result_canonical(
                                        m,
                                        Seq::empty(),
                                        joined,
                                        (depth + 1) as nat,
                                        resolved,
                                    );
                                    lemma_resolve_result_canonical(m, resolved, rest2, depth, q);
                                },
                                Err(_) => {},
                            }
                        },
                        _ => {
                            assert forall|i: int|
                                0 <= i < cand.len() && (#[trigger] cand[i])
                                    is Name implies m.contains_key(#[trigger] cand.take(i + 1))
                                && !(m[cand.take(i + 1)] is Symlink) by {
                                if i < acc.len() {
                                    assert(cand.take(i + 1) =~= acc.take(i + 1));
                                    assert(acc[i] is Name);
                                } else {
                                    assert(cand.take(i + 1) =~= cand);
                                }
                            }
                            lemma_resolve_result_canonical(m, cand, rest2, depth, q);
                        },
                    }
                } else {
                    // strict mode fails here, contradicting the Ok result
                }
            },
            CompView::Prefix(p) => {
                let cand = acc.push(CompView::Prefix(p));
                assert forall|i: int|
                    0 <= i < cand.len() && (#[trigger] cand[i]) is Name implies m.contains_key(
                    #[trigger] cand.take(i + 1)) && !(m[cand.take(i + 1)] is Symlink) by {
                    assert(cand.take(i + 1) =~= acc.take(i + 1));
                    assert(acc[i] is Name);
                }
                lemma_resolve_result_canonical(m, cand, rest2, depth, q);
            },
            CompView::Root => {
                let reset = seq![CompView::Root];
                assert(resolved_shape(reset));
                assert(prefixes_resolved(m, reset));
                lemma_resolve_result_canonical(m, reset, rest2, depth, q);
            },
            CompView::Cur => {
                lemma_resolve_result_canonical(m, acc, rest2, depth, q);
            },
            CompView::Parent => {
                let stepped = lex_step(acc, CompView::Parent);
                if crate::path::lex_pop(acc).len() == 0 {
                    assert(stepped =~= seq![CompView::Root]);
                    assert(resolved_shape(stepped));
                    assert(prefixes_resolved(m, stepped));
                } else {
                    assert(stepped == crate::path::lex_pop(acc));
                    assert forall|i: int|
                        0 <= i < stepped.len() && (#[trigger] stepped[i])
                            is Name implies m.contains_key(#[trigger] stepped.take(i + 1)) && !(
                    m[stepped.take(i + 1)] is Symlink) by {
                        assert(stepped[i] == acc[i]);
                        assert(stepped.take(i + 1) =~= acc.take(i + 1));
                    }
                    assert forall|i: int| 0 <= i < stepped.len() implies ((#[trigger] stepped[i])
                        is Root ==> i == 0) && !(stepped[i] is Cur) && !(stepped[i] is Parent) by {
                        assert(stepped[i] == acc[i]);
                    }
                }
                lemma_resolve_result_canonical(m, stepped, rest2, depth, q);
            },
        }
    }
}

/// A canonical path walks back to itself: from position `i`, with the
/// first `i` components already accumulated, the strict walk of the rest
/// of `q` returns `q`.
proof fn lemma_canonical_resolves_to_self(
    m: Map<Seq<CompView>, EntrySpec>,
    q: Seq<CompView>,
    i: int,
    depth: nat,
)
    requires
        depth <= MAX_SYMLINK_DEPTH,
        resolved_shape(q),
        prefixes_resolved(m, q),
        m.contains_key(q),
        q.len() > 0,
        0 <= i <= q.len(),
    ensures
        resolve_components(m, q.take(i), q.skip(i), depth, true) == Ok::<
            Seq<CompView>,
            ResolveErr,
        >(q),
    decreases q.len() - i,
{
    if i == q.len() {
        assert(q.take(i) =~= q);
        assert(q.skip(i).len() == 0);
    } else {
        let c = q[i];
        assert(q.skip(i)[0] == c);
        assert(q.skip(i).skip(1) =~= q.skip(i + 1));
        match c {
            CompView::Root => {
                assert(c is Root);
                assert(i == 0);
                assert(lex_step(q.take(0), CompView::Root) =~= q.take(1));
                lemma_canonical_resolves_to_self(m, q, 1, depth);
            },
            CompView::Name(n) => {
                assert(q.take(i).push(CompView::Name(n)) =~= q.take(i + 1));
                assert(m.contains_key(q.take(i + 1)) && !(m[q.take(i + 1)] is Symlink));
                lemma_canonical_resolves_to_self(m, q, i + 1, depth);
            },
            CompView::Prefix(p) => {
                assert(lex_step(q.take(i), c) =~= q.take(i + 1));
                lemma_canonical_resolves_to_self(m, q, i + 1, depth);
            },
            CompView::Cur => {
                assert(false);
            },
            CompView::Parent => {
                assert(false);
            },
        }
    }
}

/// Idempotence of strict canonicalization: a path it returned
/// canonicalizes to itself.
pub proof fn lemma_canonicalize_idempotent(
    m: Map<Seq<CompView>, EntrySpec>,
    path: Seq<CompView>,
    q: Seq<CompView>,
)
    requires
        canonicalize_spec(m, path) == Ok::<Seq<CompView>, ResolveErr>(q),
    ensures
        canonicalize_spec(m, q) == Ok::<Seq<CompView>, ResolveErr>(q),
{
    assert(resolved_shape(Seq::<CompView>::empty()));
    assert(prefixes_resolved(m, Seq::<CompView>::empty()));
    lemma_resolve_result_canonical(m, Seq::empty(), path, 0, q);
    lemma_canonical_resolves_to_self(m, q, 0, 0);
    assert(q.take(0) =~= Seq::<CompView>::empty());
    assert(q.skip(0) =~= q);
}

/// Root pinning: a `..` right after the root marker is absorbed, so
/// `/../rest` resolves exactly as `/rest`, whatever the backend holds.
pub proof fn lemma_root_parent_absorbed(
    m: Map<Seq<CompView>, EntrySpec>,
    rest: Seq<CompView>,
    depth: nat,
    require_exists: bool,
)
    requires
        depth <= MAX_SYMLINK_DEPTH,
    ensures
        resolve_path_spec(m, seq![CompView::Root, CompView::Parent] + rest, depth, require_exists)
            == resolve_path_spec(m, seq![CompView::Root] + rest, depth, require_exists),
{
    let p1 = seq![CompView::Root, CompView::Parent] + rest;
    let p2 = seq![CompView::Root] + rest;
    assert(p1[0] is Root);
    assert(p1.skip(1) =~= seq![CompView::Parent] + rest);
    assert((seq![CompView::Parent] + rest)[0] is Parent);
    assert((seq![CompView::Parent] + rest).skip(1) =~= rest);
    assert(p2[0] is Root);
    assert(p2.skip(1) =~= rest);
    assert(lex_step(Seq::<CompView>::empty(), CompView::Root) =~= seq![CompView::Root]);
    assert(lex_step(seq![CompView::Root], CompView::Parent) =~= seq![CompView::Root]);
    assert(resolve_components(m, Seq::empty(), p1, depth, require_exists) == resolve_components(
        m,
        seq![CompView::Root],
        seq![CompView::Parent] + rest,
        depth,
        require_exists,
    ));
    assert(resolve_components(
        m,
        seq![CompView::Root],
        seq![CompView::Parent] + rest,
        depth,
        require_exists,
    ) == resolve_components(m, seq![CompView::Root], rest, depth, require_exists));
    assert(resolve_components(m, Seq::empty(), p2, depth, require_exists) == resolve_components(
        m,
        seq![CompView::Root],
        rest,
        depth,
        require_exists,
    ));
}

/// Relative-target resolution: when the walk meets a symlink whose raw
/// target does not begin with the root marker, the target is joined onto
/// the accumulator — the directory containing the symlink — and resolved
/// from scratch with the depth counter raised; the walk then goes on from
/// that result.  The caller's original path plays no part in the join.
pub proof fn lemma_relative_target_joins_parent(
    m: Map<Seq<CompView>, EntrySpec>,
    acc: Seq<CompView>,
    n: Seq<char>,
    t: Seq<CompView>,
    rest: Seq<CompView>,
    depth: nat,
    require_exists: bool,
)
    requires
        depth <= MAX_SYMLINK_DEPTH,
        m.contains_key(acc.push(CompView::Name(n))),
        m[acc.push(CompView::Name(n))] == EntrySpec::Symlink(t),
        t.len() == 0 || !(t[0] is Root),
    ensures
        resolve_components(m, acc, seq![CompView::Name(n)] + rest, depth, require_exists) == (
        match resolve_path_spec(m, acc + t, (depth + 1) as nat, require_exists) {
            Ok(resolved) => resolve_components(m, resolved, rest, depth, require_exists),
            Err(e) => Err(e),
        }),
{
    let whole = seq![CompView::Name(n)] + rest;
    assert(whole[0] == CompView::Name(n));
    assert(whole.skip(1) =~= rest);
}

/// Bounded termination on a two-node symlink cycle: when `/a` points at
/// `/b` and `/b` back at `/a`, resolving `/a` fails with the symlink
/// loop error once the depth counter runs out — whatever else the table
/// holds, and from any starting depth.
pub proof fn lemma_two_node_cycle_is_loop(
    m: Map<Seq<CompView>, EntrySpec>,
    a: Seq<char>,
    b: Seq<char>,
    depth: nat,
    require_exists: bool,
)
    requires
        m.contains_key(seq![CompView::Root, CompView::Name(a)]),
        m[seq![CompView::Root, CompView::Name(a)]] == EntrySpec::Symlink(
            seq![CompView::Root, CompView::Name(b)],
        ),
        m.contains_key(seq![CompView::Root, CompView::Name(b)]),
        m[seq![CompView::Root, CompView::Name(b)]] == EntrySpec::Symlink(
            seq![CompView::Root, CompView::Name(a)],
        ),
    ensures
        resolve_path_spec(m, seq![CompView::Root, CompView::Name(a)], depth, require_exists)
            matches Err(e) && e is Loop,
    decreases MAX_SYMLINK_DEPTH + 1 - depth,
{
    let pa = seq![CompView::Root, CompView::Name(a)];
    let pb = seq![CompView::Root, CompView::Name(b)];
    if depth > MAX_SYMLINK_DEPTH {
        assert(resolve_path_spec(m, pa, depth, require_exists) == Err::<
            Seq<CompView>,
            ResolveErr,
        >(ResolveErr::Loop(pa)));
    } else {
        assert(pa[0] is Root);
        assert(pa.skip(1) =~= seq![CompView::Name(a)]);
        assert(lex_step(Seq::<CompView>::empty(), CompView::Root) =~= seq![CompView::Root]);
        assert(seq![CompView::Root].push(CompView::Name(a)) =~= pa);
        assert(seq![CompView::Name(a)].skip(1) =~= Seq::<CompView>::empty());
        assert(pb.len() > 0 && pb[0] is Root);
        lemma_two_node_cycle_is_loop(m, b, a, (depth + 1) as nat, require_exists);
        let inner = resolve_path_spec(m, pb, (depth + 1) as nat, require_exists);
        match inner {
            Err(e) => {
                assert(e is Loop);
                assert(resolve_components(
                    m,
                    seq![CompView::Root],
                    seq![CompView::Name(a)],
                    depth,
                    require_exists,
                ) == Err::<Seq<CompView>, ResolveErr>(e));
                assert(resolve_components(m, Seq::empty(), pa, depth, require_exists) == Err::<
                    Seq<CompView>,
                    ResolveErr,
                >(e));
            },
            Ok(_) => {
                assert(false);
            },
        }
    }
}

/// Soft canonicalization never asks about the final component: when the
/// parent resolves, the outcome is the resolved parent with the final
/// name appended — nothing here requires any entry to occupy the
/// resulting path.
pub proof fn lemma_soft_appends_final(
    m: Map<Seq<CompView>, EntrySpec>,
    path: Seq<CompView>,
    n: Seq<char>,
    parent_res: Seq<CompView>,
)
    requires
        path.len() >= 2,
        path.last() == CompView::Name(n),
        resolve_path_spec(m, path.drop_last(), 0, true) == Ok::<Seq<CompView>, ResolveErr>(
            parent_res,
        ),
    ensures
        soft_canonicalize_spec(m, path) == Ok::<Seq<CompView>, ResolveErr>(
            parent_res.push(CompView::Name(n)),
        ),
{
}

/// The internal walk with the symlink depth counter.
///
/// Whenever this returns a path it is exactly the one
/// [`resolve_path_spec`] names, whatever the backend did; and a backend
/// whose queries are total cannot steer the outcome at all — the result,
/// including which error comes back, is the specification's.  A backend
/// whose queries can fail may also surface its own I/O-class error.
pub fn resolve_path_internal<F: FsRead + FsLink + ?Sized>(
    fs: &F,
    path: &VfsPath,
    depth: usize,
    require_exists: bool,
) -> (r: Result<VfsPath, FsError>)
    ensures
        r matches Ok(q) ==> resolve_path_spec(fs.entry_map(), path@, depth as nat, require_exists)
            == Ok::<Seq<CompView>, ResolveErr>(q@),
        fs.queries_total() ==> resolve_outcome_matches(
            r,
            resolve_path_spec(fs.entry_map(), path@, depth as nat, require_exists),
        ),
    decreases MAX_SYMLINK_DEPTH + 1 - depth,
{
    let ghost m = fs.entry_map();

    if depth > MAX_SYMLINK_DEPTH {
        return Err(FsError::InvalidData {
            path: path.clone(),
            details: "symlink loop detected (exceeded max depth)".to_owned(),
        });
    }

    let mut acc = VfsPath::empty();
    let n = path.len();
    let mut i: usize = 0;
    proof {
        assert(path@.skip(0) =~= path@);
    }
    while i < n
        invariant
            i <= n,
            n == path@.len(),
            depth <= MAX_SYMLINK_DEPTH,
            m == fs.entry_map(),
            resolve_components(m, acc@, path@.skip(i as int), depth as nat, require_exists)
                == resolve_components(m, Seq::empty(), path@, depth as nat, require_exists),
        decreases n - i,
    {
        let ghost rest = path@.skip(i as int);
        proof {
            assert(rest[0] == path@[i as int]);
            assert(rest.skip(1) =~= path@.skip(i + 1 as int));
        }
        let comp = path.component(i);
        match comp {
            Component::Normal(name) => {
                let mut cand = acc.clone();
                cand.push(Component::Normal(name.clone()));
                match fs.symlink_metadata(&cand) {
                    Ok(meta) => {
                        if meta.is_symlink() {
                            match fs.read_link(&cand) {
                                Ok(target) => {
                                    let joined = if target.is_absolute() {
                                        target
                                    } else {
                                        let mut j = acc.clone();
                                        j.append_path(&target);
                                        j
                                    };
                                    match resolve_path_internal(
                                        fs,
                                        &joined,
                                        depth + 1,
                                        require_exists,
                                    ) {
                                        Ok(resolved) => {
                                            acc = resolved;
                                        },
                                        Err(e) => {
                                            return Err(e);
                                        },
                                    }
                                },
                                Err(e) => {
                                    return Err(e);
                                },
                            }
                        } else {
                            acc = cand;
                        }
                    },
                    Err(e) => {
                        if !require_exists && matches!(e, FsError::NotFound { .. }) {
                            // the component does not exist, but in soft
                            // mode it is kept in the path
                            acc = cand;
                        } else {
                            return Err(e);
                        }
                    },
                }
            },
            _ => {
                acc.apply_lex_step(comp);
            },
        }
        i = i + 1;
    }
    proof {
        assert(path@.skip(n as int) =~= Seq::<CompView>::empty());
    }
    if acc.len() == 0 {
        acc = VfsPath::root();
    }
    if require_exists {
        match fs.path_exists(&acc) {
            Ok(true) => Ok(acc),
            Ok(false) => Err(FsError::NotFound { path: acc }),
            Err(e) => Err(e),
        }
    } else {
        Ok(acc)
    }
}

/// Strict canonicalization with the default walk: all symlinks resolved,
/// `.` and `..` normalized, every component required to exist.
pub fn default_canonicalize<F: FsRead + FsLink + ?Sized>(fs: &F, path: &VfsPath) -> (r: Result<
    VfsPath,
    FsError,
>)
    ensures
        r matches Ok(q) ==> canonicalize_spec(fs.entry_map(), path@) == Ok::<
            Seq<CompView>,
            ResolveErr,
        >(q@),
        fs.queries_total() ==> resolve_outcome_matches(r, canonicalize_spec(fs.entry_map(), path@)),
{
    resolve_path_internal(fs, path, 0, true)
}

/// Soft canonicalization with the default walk: the parent is resolved
/// strictly, the final name is appended lexically and never looked up.
pub fn default_soft_canonicalize<F: FsRead + FsLink + ?Sized>(fs: &F, path: &VfsPath) -> (r: Result<
    VfsPath,
    FsError,
>)
    ensures
        r matches Ok(q) ==> soft_canonicalize_spec(fs.entry_map(), path@) == Ok::<
            Seq<CompView>,
            ResolveErr,
        >(q@),
        fs.queries_total() ==> resolve_outcome_matches(
            r,
            soft_canonicalize_spec(fs.entry_map(), path@),
        ),
{
    let n = path.len();
    if n > 0 {
        let last = path.component(n - 1).clone();
        match last {
            Component::Normal(name) => {
                if n >= 2 {
                    let mut parent = path.clone();
                    parent.pop_last();
                    match resolve_path_internal(fs, &parent, 0, true) {
                        Ok(mut resolved) => {
                            resolved.push(Component::Normal(name));
                            return Ok(resolved);
                        },
                        Err(e) => {
                            return Err(e);
                        },
                    }
                } else {
                    return Ok(lexical_normalize(path));
                }
            },
            _ => {},
        }
    }
    default_canonicalize(fs, path)
}

/// Lexical path normalization without filesystem access, in the shape the
/// resolution interface uses: it reduces `.`, `..` and repeated root
/// markers, never consults a backend, and cannot fail.
pub fn normalize_path(path: &VfsPath) -> (r: Result<VfsPath, FsError>)
    ensures
        r matches Ok(p) && p@ == normalize_spec(path@),
{
    Ok(lexical_normalize(path))
}

/// Path canonicalization with a default implementation.
///
/// Any backend that can answer the read and symlink queries gets these
/// methods for free through the blanket implementation, and may override
/// them — the contract stays the same either way, so callers may rely on
/// it without knowing the backend.
pub trait FsPath: FsRead + FsLink {
    /// Resolve all symlinks and normalize `.` and `..`.  All components
    /// of the path must exist.
    fn canonicalize(&self, path: &VfsPath) -> (r: Result<VfsPath, FsError>)
        ensures
            r matches Ok(q) ==> canonicalize_spec(self.entry_map(), path@) == Ok::<
                Seq<CompView>,
                ResolveErr,
            >(q@),
            self.queries_total() ==> resolve_outcome_matches(
                r,
                canonicalize_spec(self.entry_map(), path@),
            ),
    {
        default_canonicalize(self, path)
    }

    /// Like [`canonicalize`](FsPath::canonicalize), but the final
    /// component need not exist: the parent is resolved strictly and the
    /// final name is appended lexically.
    fn soft_canonicalize(&self, path: &VfsPath) -> (r: Result<VfsPath, FsError>)
        ensures
            r matches Ok(q) ==> soft_canonicalize_spec(self.entry_map(), path@) == Ok::<
                Seq<CompView>,
                ResolveErr,
            >(q@),
            self.queries_total() ==> resolve_outcome_matches(
                r,
                soft_canonicalize_spec(self.entry_map(), path@),
            ),
    {
        default_soft_canonicalize(self, path)
    }
}

impl<T: FsRead + FsLink> FsPath for T {

}

} // verus!
