//! Shader header resolution and dependency tracking.
//!
//! A shader source may pull in header files in two ways: a relative
//! header resolves against the directory of the source file that names
//! it, a standard header against one fixed shader-root directory. Every
//! successful resolution is recorded in the dependency map — which root
//! shaders (transitively) depend on which file — and the resolved file is
//! put under a file watch, so that editing any header invalidates every
//! shader that depends on it.

use vstd::prelude::*;
use crate::paths::{bytes_eq, copy_bytes, parent_dir, path_join, spec_join, spec_parent};

verus! {

/// No path occurs twice in the sequence.
pub open spec fn nodup_paths(s: Seq<Seq<u8>>) -> bool {
    forall|i: int, j: int| 0 <= i < j < s.len() ==> s[i] != s[j]
}

/// The byte strings a vector of paths holds.
pub open spec fn paths_view(v: Vec<Vec<u8>>) -> Seq<Seq<u8>> {
    v@.map_values(|x: Vec<u8>| x@)
}

/// `root` added to a dependent list: kept as is when already present,
/// appended otherwise.
pub open spec fn spec_insert_dependent(s: Seq<Seq<u8>>, root: Seq<u8>) -> Seq<Seq<u8>> {
    if s.contains(root) {
        s
    } else {
        s.push(root)
    }
}

/// Every element of `b` inserted into `a`, in order, without
/// duplicating entries already present.
pub open spec fn spec_merge(a: Seq<Seq<u8>>, b: Seq<Seq<u8>>) -> Seq<Seq<u8>>
    decreases b.len(),
{
    if b.len() == 0 {
        a
    } else {
        spec_insert_dependent(spec_merge(a, b.drop_last()), b.last())
    }
}

/// Merging reaches exactly the union of the two membership sets.
pub proof fn lemma_merge_contains(a: Seq<Seq<u8>>, b: Seq<Seq<u8>>)
    ensures
        forall|x: Seq<u8>|
            #[trigger] spec_merge(a, b).contains(x) <==> a.contains(x) || b.contains(x),
    decreases b.len(),
{
    if b.len() > 0 {
        lemma_merge_contains(a, b.drop_last());
        let m = spec_merge(a, b.drop_last());
        let whole = spec_merge(a, b);
        assert forall|x: Seq<u8>| #[trigger] whole.contains(x) implies a.contains(x) || b.contains(
            x,
        ) by {
            if !m.contains(b.last()) {
                let k = choose|k: int| 0 <= k < whole.len() && whole[k] == x;
                if k < m.len() {
                    assert(m.contains(x));
                } else {
                    assert(x == b.last());
                    assert(b.contains(b.last()));
                }
            }
            if b.drop_last().contains(x) {
                let k = choose|k: int| 0 <= k < b.drop_last().len() && b.drop_last()[k] == x;
                assert(b[k] == x);
            }
        }
        assert forall|x: Seq<u8>| a.contains(x) || b.contains(x) implies #[trigger] whole.contains(
            x,
        ) by {
            if b.contains(x) && !b.drop_last().contains(x) {
                let k = choose|k: int| 0 <= k < b.len() && b[k] == x;
                if k < b.len() - 1 {
                    assert(b.drop_last()[k] == x);
                }
                assert(x == b.last());
                if m.contains(b.last()) {
                } else {
                    assert(whole.last() == x);
                }
            } else {
                if m.contains(x) {
                    let k = choose|k: int| 0 <= k < m.len() && m[k] == x;
                    if m.contains(b.last()) {
                        assert(whole[k] == x);
                    } else {
                        assert(whole[k] == x);
                    }
                }
            }
        }
    }
}

/// One key of the dependency map with the root shaders that depend on it.
struct DepEntry {
    key: Vec<u8>,
    roots: Vec<Vec<u8>>,
}

/// Index of the entry with key `k`, if any.
spec fn spec_find(entries: Seq<DepEntry>, k: Seq<u8>) -> Option<int>
    decreases entries.len(),
{
    if entries.len() == 0 {
        None
    } else if entries[0].key@ == k {
        Some(0)
    } else {
        match spec_find(entries.drop_first(), k) {
            Some(i) => Some(i + 1),
            None => None,
        }
    }
}

/// A found index is in range, carries the key searched for, and a miss
/// means no entry carries it.
proof fn lemma_find_props(entries: Seq<DepEntry>, k: Seq<u8>)
    ensures
        match spec_find(entries, k) {
            Some(i) => 0 <= i < entries.len() && entries[i].key@ == k,
            None => forall|j: int| 0 <= j < entries.len() ==> entries[j].key@ != k,
        },
    decreases entries.len(),
{
    if entries.len() > 0 && entries[0].key@ != k {
        let rest = entries.drop_first();
        lemma_find_props(rest, k);
        match spec_find(rest, k) {
            Some(i) => {
                assert(entries[i + 1] == rest[i]);
            },
            None => {
                assert forall|j: int| 0 <= j < entries.len() implies entries[j].key@ != k by {
                    if j > 0 {
                        assert(rest[j - 1] == entries[j]);
                    }
                }
            },
        }
    }
}

/// When the first `i` entries miss and entry `i` carries `k`, the search
/// returns `i`.
proof fn lemma_find_found(entries: Seq<DepEntry>, k: Seq<u8>, i: int)
    requires
        0 <= i < entries.len(),
        entries[i].key@ == k,
        forall|j: int| 0 <= j < i ==> entries[j].key@ != k,
    ensures
        spec_find(entries, k) == Some(i),
    decreases i,
{
    if i > 0 {
        lemma_find_found(entries.drop_first(), k, i - 1);
    }
}

/// Two entry lists with the same keys position for position are searched
/// identically.
proof fn lemma_find_same_keys(e1: Seq<DepEntry>, e2: Seq<DepEntry>, k: Seq<u8>)
    requires
        e1.len() == e2.len(),
        forall|j: int| 0 <= j < e1.len() ==> e1[j].key@ == e2[j].key@,
    ensures
        spec_find(e1, k) == spec_find(e2, k),
    decreases e1.len(),
{
    if e1.len() > 0 {
        lemma_find_same_keys(e1.drop_first(), e2.drop_first(), k);
    }
}

/// Appending an entry leaves every present key where it was and makes
/// the new key findable at the end.
proof fn lemma_find_push(entries: Seq<DepEntry>, e: DepEntry, k: Seq<u8>)
    ensures
        spec_find(entries.push(e), k) == match spec_find(entries, k) {
            Some(i) => Some(i),
            None => if e.key@ == k {
                Some(entries.len() as int)
            } else {
                None
            },
        },
    decreases entries.len(),
{
    if entries.len() == 0 {
        assert(entries.push(e)[0] == e);
    } else {
        assert(entries.push(e).drop_first() =~= entries.drop_first().push(e));
        lemma_find_push(entries.drop_first(), e, k);
    }
}

/// Which root shaders (directly or transitively) depend on which file.
/// The map is keyed by the name under which a file was pulled in; each
/// key holds the root shaders known to depend on it, in the order they
/// were recorded.
pub struct DependencyMap {
    entries: Vec<DepEntry>,
}

impl DependencyMap {
    /// Keys are unique and no dependent is recorded twice under one key.
    pub closed spec fn wf(self) -> bool {
        &&& forall|i: int, j: int|
            0 <= i < j < self.entries@.len() ==> self.entries@[i].key@ != self.entries@[j].key@
        &&& forall|i: int|
            0 <= i < self.entries@.len() ==> nodup_paths(
                paths_view((#[trigger] self.entries@[i]).roots),
            )
    }

    /// The root shaders recorded as depending on `k`, in recording
    /// order; empty when `k` is unknown.
    pub closed spec fn dependents(self, k: Seq<u8>) -> Seq<Seq<u8>> {
        match spec_find(self.entries@, k) {
            Some(i) => paths_view(self.entries@[i].roots),
            None => Seq::empty(),
        }
    }

    /// An empty map: nothing depends on anything.
    pub fn new() -> (r: DependencyMap)
        ensures
            r.wf(),
            forall|k: Seq<u8>| #[trigger] r.dependents(k) == Seq::<Seq<u8>>::empty(),
    {
        let r = DependencyMap { entries: Vec::new() };
        proof {
            assert forall|k: Seq<u8>| #[trigger] r.dependents(k) == Seq::<Seq<u8>>::empty() by {
                assert(spec_find(r.entries@, k) is None);
            }
        }
        r
    }

    /// Index of the entry for `key`, if one exists.
    fn find_entry(&self, key: &Vec<u8>) -> (r: Option<usize>)
        ensures
            match r {
                Some(i) => i < self.entries@.len() && spec_find(self.entries@, key@) == Some(
                    i as int,
                ),
                None => spec_find(self.entries@, key@) is None,
            },
    {
        let mut i: usize = 0;
        while i < self.entries.len()
            invariant
                0 <= i <= self.entries@.len(),
                forall|j: int| 0 <= j < i ==> self.entries@[j].key@ != key@,
            decreases self.entries.len() - i,
        {
            if bytes_eq(&self.entries[i].key, key) {
                proof {
                    lemma_find_found(self.entries@, key@, i as int);
                }
                return Some(i);
            }
            i += 1;
        }
        proof {
            lemma_find_props(self.entries@, key@);
            if spec_find(self.entries@, key@) is Some {
                let j = spec_find(self.entries@, key@)->Some_0;
                assert(self.entries@[j].key@ != key@);
            }
        }
        None
    }

    /// Does the dependent list already hold `p`?
    fn roots_contain(roots: &Vec<Vec<u8>>, p: &Vec<u8>) -> (r: bool)
        ensures
            r == paths_view(*roots).contains(p@),
    {
        let mut i: usize = 0;
        while i < roots.len()
            invariant
                0 <= i <= roots@.len(),
                forall|j: int| 0 <= j < i ==> paths_view(*roots)[j] != p@,
            decreases roots.len() - i,
        {
            if bytes_eq(&roots[i], p) {
                proof {
                    assert(paths_view(*roots)[i as int] == p@);
                }
                return true;
            }
            i += 1;
        }
        proof {
            if paths_view(*roots).contains(p@) {
                let j = choose|j: int|
                    0 <= j < paths_view(*roots).len() && paths_view(*roots)[j] == p@;
            }
        }
        false
    }

    /// Records `root` as a dependent of `key`: appended once, kept in
    /// place when already recorded; every other key is untouched.
    pub fn register_dependent(&mut self, key: &Vec<u8>, root: &Vec<u8>)
        requires
            old(self).wf(),
        ensures
            final(self).wf(),
            final(self).dependents(key@) == spec_insert_dependent(
                old(self).dependents(key@),
                root@,
            ),
            forall|k2: Seq<u8>|
                k2 != key@ ==> #[trigger] final(self).dependents(k2) == old(self).dependents(k2),
    {
        let found = self.find_entry(key);
        match found {
            Some(i) => {
                let ghost entries0 = self.entries@;
                if !Self::roots_contain(&self.entries[i].roots, root) {
                    let fresh_root = copy_bytes(root);
                    let ghost root_view = fresh_root@;
                    let entry = &mut self.entries[i];
                    entry.roots.push(fresh_root);
                    proof {
                        let entries1 = self.entries@;
                        assert(entries1 =~= entries0.update(
                            i as int,
                            entries1[i as int],
                        ));
                        assert(entries1[i as int].key@ == entries0[i as int].key@);
                        let prev_entry = entries0[i as int];
                        assert(entries1[i as int].roots@ == prev_entry.roots@.push(fresh_root));
                        assert(paths_view(entries1[i as int].roots)
                            =~= paths_view(prev_entry.roots).push(root_view));
                        lemma_find_same_keys(entries1, entries0, key@);
                        lemma_find_props(entries0, key@);
                        assert forall|k2: Seq<u8>| k2 != key@ implies #[trigger] self.dependents(
                            k2,
                        ) == old(self).dependents(k2) by {
                            lemma_find_same_keys(entries1, entries0, k2);
                            lemma_find_props(entries0, k2);
                            match spec_find(entries0, k2) {
                                Some(j) => {
                                    assert(entries0[j].key@ == k2);
                                    assert(entries0[i as int].key@ == key@);
                                    assert(j != i as int);
                                    assert(entries1[j] == entries0[j]);
                                },
                                None => {},
                            }
                        }
                        // A fresh dependent keeps the entry duplicate
                        // free.
                        let nr = paths_view(entries1[i as int].roots);
                        let orx = paths_view(entries0[i as int].roots);
                        assert forall|a: int, b: int|
                            0 <= a < b < nr.len() implies nr[a] != nr[b] by {
                            if b == nr.len() - 1 {
                                assert(orx.contains(orx[a]));
                            }
                        }
                    }
                }
            },
            None => {
                proof {
                    lemma_find_props(self.entries@, key@);
                }
                let ghost entries0 = self.entries@;
                let mut roots: Vec<Vec<u8>> = Vec::new();
                roots.push(copy_bytes(root));
                let entry = DepEntry { key: copy_bytes(key), roots };
                proof {
                    assert(paths_view(entry.roots) =~= Seq::<Seq<u8>>::empty().push(root@));
                }
                self.entries.push(entry);
                proof {
                    let entries1 = self.entries@;
                    assert(entries1 =~= entries0.push(entries1.last()));
                    lemma_find_push(entries0, entries1.last(), key@);
                    assert(self.dependents(key@) =~= Seq::<Seq<u8>>::empty().push(root@));
                    assert(!old(self).dependents(key@).contains(root@));
                    assert forall|k2: Seq<u8>| k2 != key@ implies #[trigger] self.dependents(k2)
                        == old(self).dependents(k2) by {
                        lemma_find_push(entries0, entries1.last(), k2);
                        lemma_find_props(entries0, k2);
                    }
                }
            },
        }
    }

    /// The dependents of `key`, as fresh path values.
    pub fn dependents_of(&self, key: &Vec<u8>) -> (r: Vec<Vec<u8>>)
        ensures
            paths_view(r) == self.dependents(key@),
    {
        let mut r: Vec<Vec<u8>> = Vec::new();
        let i = match self.find_entry(key) {
            Some(i) => i,
            None => {
                proof {
                    assert(paths_view(r) =~= self.dependents(key@));
                }
                return r;
            },
        };
        let roots = &self.entries[i].roots;
        let mut j: usize = 0;
        while j < roots.len()
            invariant
                0 <= j <= roots@.len(),
                paths_view(r) =~= paths_view(*roots).take(j as int),
            decreases roots.len() - j,
        {
            r.push(copy_bytes(&roots[j]));
            proof {
                assert(paths_view(*roots).take(j + 1) =~= paths_view(*roots).take(
                    j as int,
                ).push(paths_view(*roots)[j as int]));
                assert(paths_view(r) =~= paths_view(*roots).take(j + 1));
            }
            j += 1;
        }
        proof {
            assert(paths_view(*roots).take(roots@.len() as int) =~= paths_view(*roots));
            assert(paths_view(r) =~= self.dependents(key@));
        }
        r
    }

    /// The first recorded dependent of `key`: the anchor a relative
    /// header resolves against.
    pub fn anchor_of(&self, key: &Vec<u8>) -> (r: Option<Vec<u8>>)
        ensures
            match r {
                Some(p) => self.dependents(key@).len() > 0 && p@ == self.dependents(key@)[0],
                None => self.dependents(key@).len() == 0,
            },
    {
        let i = match self.find_entry(key) {
            Some(i) => i,
            None => {
                return None;
            },
        };
        let roots = &self.entries[i].roots;
        if roots.len() == 0 {
            None
        } else {
            let p = copy_bytes(&roots[0]);
            proof {
                assert(self.dependents(key@)[0] == paths_view(*roots)[0]);
            }
            Some(p)
        }
    }

    /// Copies every root shader currently known to depend on
    /// `source_key` into the entry for `name`: afterwards whatever
    /// depended on the source also depends on the newly pulled-in file.
    pub fn propagate(&mut self, name: &Vec<u8>, source_key: &Vec<u8>)
        requires
            old(self).wf(),
        ensures
            final(self).wf(),
            final(self).dependents(name@) == spec_merge(
                old(self).dependents(name@),
                old(self).dependents(source_key@),
            ),
            forall|k2: Seq<u8>|
                k2 != name@ ==> #[trigger] final(self).dependents(k2) == old(self).dependents(k2),
            forall|x: Seq<u8>|
                old(self).dependents(source_key@).contains(x)
                    ==> #[trigger] final(self).dependents(name@).contains(x),
    {
        let sources = self.dependents_of(source_key);
        let ghost b = old(self).dependents(source_key@);
        let mut i: usize = 0;
        while i < sources.len()
            invariant
                0 <= i <= sources@.len(),
                paths_view(sources) == b,
                self.wf(),
                self.dependents(name@) == spec_merge(old(self).dependents(name@), b.take(i as int)),
                forall|k2: Seq<u8>|
                    k2 != name@ ==> #[trigger] self.dependents(k2) == old(self).dependents(k2),
            decreases sources.len() - i,
        {
            let ghost before = self.dependents(name@);
            self.register_dependent(name, &sources[i]);
            proof {
                assert(paths_view(sources)[i as int] == sources@[i as int]@);
                assert(b.take(i + 1).drop_last() =~= b.take(i as int));
                assert(b.take(i + 1).last() == b[i as int]);
                assert(self.dependents(name@) == spec_merge(
                    old(self).dependents(name@),
                    b.take(i + 1),
                ));
            }
            i += 1;
        }
        proof {
            assert(b.take(b.len() as int) =~= b);
            lemma_merge_contains(old(self).dependents(name@), b);
        }
    }
}

/// Once roots R and A are recorded so that R depends on header A, and
/// A's dependents are then merged into header B's — what resolving B
/// from A does — R is recorded as depending on B: dependency is
/// propagated transitively.
pub proof fn lemma_transitive_dependents(
    before: DependencyMap,
    after: DependencyMap,
    root: Seq<u8>,
    header_a: Seq<u8>,
    header_b: Seq<u8>,
)
    requires
        before.dependents(header_a).contains(root),
        after.dependents(header_b) == spec_merge(
            before.dependents(header_b),
            before.dependents(header_a),
        ),
    ensures
        after.dependents(header_b).contains(root),
{
    lemma_merge_contains(before.dependents(header_b), before.dependents(header_a));
}

/// The paths the file-watch collaborator has been asked to watch.
/// Registration is append-only; watching the same path twice is a no-op
/// and reported as such.
pub struct WatchRegistry {
    watched: Vec<Vec<u8>>,
}

impl WatchRegistry {
    /// No path is registered twice.
    pub closed spec fn wf(self) -> bool {
        nodup_paths(paths_view(self.watched))
    }

    /// Is `p` under watch?
    pub closed spec fn spec_watched(self, p: Seq<u8>) -> bool {
        paths_view(self.watched).contains(p)
    }

    /// An empty registry: nothing is watched.
    pub fn new() -> (r: WatchRegistry)
        ensures
            r.wf(),
            forall|p: Seq<u8>| !r.spec_watched(p),
    {
        WatchRegistry { watched: Vec::new() }
    }

    /// Exec mirror of `spec_watched`.
    pub fn is_watched(&self, path: &Vec<u8>) -> (r: bool)
        ensures
            r == self.spec_watched(path@),
    {
        let mut i: usize = 0;
        while i < self.watched.len()
            invariant
                0 <= i <= self.watched@.len(),
                forall|j: int| 0 <= j < i ==> paths_view(self.watched)[j] != path@,
            decreases self.watched.len() - i,
        {
            if bytes_eq(&self.watched[i], path) {
                proof {
                    assert(paths_view(self.watched)[i as int] == path@);
                }
                return true;
            }
            i += 1;
        }
        proof {
            if paths_view(self.watched).contains(path@) {
                let j = choose|j: int|
                    0 <= j < paths_view(self.watched).len() && paths_view(self.watched)[j]
                        == path@;
            }
        }
        false
    }

    /// Puts `path` under watch. Returns whether the watch is new; a path
    /// already watched is left alone.
    pub fn register_watch(&mut self, path: &Vec<u8>) -> (fresh: bool)
        requires
            old(self).wf(),
        ensures
            final(self).wf(),
            fresh == !old(self).spec_watched(path@),
            final(self).spec_watched(path@),
            forall|p: Seq<u8>|
                p != path@ ==> #[trigger] final(self).spec_watched(p) == old(self).spec_watched(p),
    {
        if self.is_watched(path) {
            return false;
        }
        let ghost w0 = paths_view(self.watched);
        self.watched.push(copy_bytes(path));
        proof {
            let w1 = paths_view(self.watched);
            assert(w1 =~= w0.push(path@));
            assert(w1.last() == path@);
            assert forall|p: Seq<u8>| p != path@ implies #[trigger] w1.contains(p) == w0.contains(
                p,
            ) by {
                if w1.contains(p) {
                    let k = choose|k: int| 0 <= k < w1.len() && w1[k] == p;
                    assert(w0[k] == p);
                }
                if w0.contains(p) {
                    let k = choose|k: int| 0 <= k < w0.len() && w0[k] == p;
                    assert(w1[k] == p);
                }
            }
            assert forall|a: int, b: int| 0 <= a < b < w1.len() implies w1[a] != w1[b] by {
                if b == w1.len() - 1 {
                    assert(w0.contains(w0[a]));
                }
            }
        }
        true
    }
}

/// The two ways a shader names a header.
#[derive(Clone, Copy, PartialEq, Eq, Structural, Debug)]
pub enum HeaderKind {
    /// Resolved against the directory of the source file that names it.
    Relative,
    /// Resolved against the fixed shader-root directory.
    Standard,
}

/// The path a header name resolves to. A standard header joins the
/// shader root; a relative header joins the parent directory of the
/// anchor — the first tracked dependent of the source file that names
/// the header.
pub fn resolve_header(
    deps: &DependencyMap,
    shader_root: &Vec<u8>,
    name: &Vec<u8>,
    kind: HeaderKind,
    source_key: &Vec<u8>,
) -> (r: Vec<u8>)
    requires
        kind is Relative ==> deps.dependents(source_key@).len() > 0,
    ensures
        kind is Standard ==> r@ == spec_join(shader_root@, name@),
        kind is Relative ==> r@ == spec_join(
            spec_parent(deps.dependents(source_key@)[0]),
            name@,
        ),
{
    match kind {
        HeaderKind::Standard => path_join(shader_root, name),
        HeaderKind::Relative => {
            // A relative header is only resolved for a tracked source,
            // so the anchor exists.
            let anchor = match deps.anchor_of(source_key) {
                Some(a) => a,
                None => vstd::pervasive::unreached(),
            };
            let dir = parent_dir(&anchor);
            path_join(&dir, name)
        },
    }
}

/// Books a successful resolution: the resolved file goes under watch and
/// every root shader that depends on the naming source now also depends
/// on the header. Returns whether the watch is new.
pub fn register_resolved_header(
    deps: &mut DependencyMap,
    watches: &mut WatchRegistry,
    name: &Vec<u8>,
    source_key: &Vec<u8>,
    resolved_path: &Vec<u8>,
) -> (fresh: bool)
    requires
        old(deps).wf(),
        old(watches).wf(),
    ensures
        final(deps).wf(),
        final(watches).wf(),
        fresh == !old(watches).spec_watched(resolved_path@),
        final(watches).spec_watched(resolved_path@),
        forall|p: Seq<u8>|
            p != resolved_path@
                ==> #[trigger] final(watches).spec_watched(p) == old(watches).spec_watched(p),
        final(deps).dependents(name@) == spec_merge(
            old(deps).dependents(name@),
            old(deps).dependents(source_key@),
        ),
        forall|k2: Seq<u8>|
            k2 != name@ ==> #[trigger] final(deps).dependents(k2) == old(deps).dependents(k2),
        forall|x: Seq<u8>|
            old(deps).dependents(source_key@).contains(x)
                ==> #[trigger] final(deps).dependents(name@).contains(x),
{
    let fresh = watches.register_watch(resolved_path);
    deps.propagate(name, source_key);
    fresh
}

/// Context of a failed header resolution, for the error the compiler
/// reports: the header name, the source file that asked for it, and the
/// path that was tried.
pub struct HeaderResolveFailure {
    pub name: Vec<u8>,
    pub source: Vec<u8>,
    pub attempted_path: Vec<u8>,
}

// The shader compiler's fixed target environment: the graphics API at
// minor version three, and the portable binary format at minor version
// six.
pub const TARGET_API_VERSION_1_3: u32 = (1u32 << 22) | (3u32 << 12);
pub const TARGET_BINARY_VERSION_1_6: u32 = (1u32 << 16) | (6u32 << 8);

/// The options every compilation runs with. Only the optimization level
/// depends on the build flavor; everything else is fixed, so equal
/// sources compiled under equal flavors see identical settings.
#[derive(Clone, Copy, PartialEq, Eq, Structural, Debug)]
pub struct CompileOptions {
    pub target_api_version: u32,
    pub target_binary_version: u32,
    pub generate_debug_info: bool,
    pub optimize: bool,
}

/// Shapes the compiler options: fixed target versions, debug info always
/// on, optimization only outside debug builds.
pub fn compile_options(debug_build: bool) -> (r: CompileOptions)
    ensures
        r.target_api_version == TARGET_API_VERSION_1_3,
        r.target_binary_version == TARGET_BINARY_VERSION_1_6,
        r.generate_debug_info,
        r.optimize == !debug_build,
{
    CompileOptions {
        target_api_version: TARGET_API_VERSION_1_3,
        target_binary_version: TARGET_BINARY_VERSION_1_6,
        generate_debug_info: true,
        optimize: !debug_build,
    }
}

/// The entry point every shader stage is compiled with.
pub fn entry_point() -> (r: &'static str)
    ensures
        r@ == "main"@,
{
    "main"
}

} // verus!
