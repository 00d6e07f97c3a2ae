use vstd::hash_map::StringHashMap;
use vstd::prelude::*;

use crate::event::{Label, RawKind, SemanticEvent};

verus! {

/// What the tracker knows: the last observed size of each path, and the
/// paths that were just created and have not had their first modify yet.
pub struct TrackerView {
    pub sizes: Map<Seq<char>, u64>,
    pub created: Set<Seq<char>>,
}

/// The tracked size of `p`, or 0 for a path that is not tracked.
pub open spec fn size_of(v: TrackerView, p: Seq<char>) -> u64 {
    if v.sizes.contains_key(p) {
        v.sizes[p]
    } else {
        0
    }
}

/// The state that knows nothing of `p`.
pub open spec fn without(v: TrackerView, p: Seq<char>) -> TrackerView {
    TrackerView { sizes: v.sizes.remove(p), created: v.created.remove(p) }
}

/// One classification of a notification of kind `kind` on path `p`, where
/// `stat` is the size read from the filesystem (`None` when the read failed):
/// the label returned and the tracker state after it.
pub open spec fn classify_step(v: TrackerView, kind: RawKind, p: Seq<char>, stat: Option<u64>) -> (
    Label,
    TrackerView,
) {
    match kind {
        RawKind::Create => {
            let size = match stat {
                Some(n) => n,
                None => 0,
            };
            (
                Label::Create,
                TrackerView { sizes: v.sizes.insert(p, size), created: v.created.insert(p) },
            )
        },
        RawKind::Modify => {
            let old_size = size_of(v, p);
            let new_size = match stat {
                Some(n) => n,
                None => old_size,
            };
            let label = if v.created.contains(p) {
                Label::Ignore
            } else if new_size > old_size {
                Label::Append
            } else {
                Label::Overwrite
            };
            (label, TrackerView { sizes: v.sizes.insert(p, new_size), created: v.created.remove(p) })
        },
        RawKind::Remove => (Label::Delete, without(v, p)),
        RawKind::Other => (Label::Ignore, v),
    }
}

/// The first modify after a create on the same path is ignored, whatever the
/// sizes involved.
pub proof fn lemma_first_modify_after_create_ignored(
    v: TrackerView,
    p: Seq<char>,
    create_stat: Option<u64>,
    modify_stat: Option<u64>,
)
    ensures
        classify_step(classify_step(v, RawKind::Create, p, create_stat).1, RawKind::Modify, p, modify_stat).0
            == Label::Ignore,
{
}

/// A modify always clears the creation flag of its path and records the new
/// size; a modify on a path without the flag is `append` when the new size
/// exceeds the recorded one and `overwrite` otherwise.
pub proof fn lemma_modify_compares_sizes(v: TrackerView, p: Seq<char>, stat: Option<u64>)
    ensures
        ({
            let (label, next) = classify_step(v, RawKind::Modify, p, stat);
            let new_size = match stat {
                Some(n) => n,
                None => size_of(v, p),
            };
            &&& !next.created.contains(p)
            &&& size_of(next, p) == new_size
            &&& !v.created.contains(p) ==> label == if new_size > size_of(v, p) {
                Label::Append
            } else {
                Label::Overwrite
            }
        }),
{
}

/// After the suppressed first modify that follows a create, each later
/// modify compares the size read with the last recorded size.
pub proof fn lemma_later_modify_after_create(
    v: TrackerView,
    p: Seq<char>,
    create_stat: Option<u64>,
    first_stat: Option<u64>,
    n: u64,
)
    ensures
        ({
            let after_create = classify_step(v, RawKind::Create, p, create_stat).1;
            let after_first = classify_step(after_create, RawKind::Modify, p, first_stat).1;
            classify_step(after_first, RawKind::Modify, p, Some(n)).0 == if n > size_of(after_first, p) {
                Label::Append
            } else {
                Label::Overwrite
            }
        }),
{
}

/// A removal is always `delete` and drops all state of its path; a create
/// after it tracks the path afresh, from the size it reads alone.
pub proof fn lemma_delete_then_create_starts_fresh(
    v: TrackerView,
    p: Seq<char>,
    remove_stat: Option<u64>,
    create_stat: Option<u64>,
)
    ensures
        ({
            let (label, gone) = classify_step(v, RawKind::Remove, p, remove_stat);
            let again = classify_step(gone, RawKind::Create, p, create_stat).1;
            &&& label == Label::Delete
            &&& !gone.sizes.contains_key(p)
            &&& !gone.created.contains(p)
            &&& again.sizes[p] == match create_stat {
                Some(n) => n,
                None => 0,
            }
            &&& again.created.contains(p)
            &&& again.sizes.remove(p) == v.sizes.remove(p)
            &&& again.created.remove(p) == v.created.remove(p)
        }),
{
    let gone = classify_step(v, RawKind::Remove, p, remove_stat).1;
    let again = classify_step(gone, RawKind::Create, p, create_stat).1;
    assert(again.sizes.remove(p) =~= v.sizes.remove(p));
    assert(again.created.remove(p) =~= v.created.remove(p));
}

/// Per-path sizes and creation flags of one watch session; never persisted.
pub struct SizeTracker {
    sizes: StringHashMap<u64>,
    created: StringHashMap<bool>,
}

impl View for SizeTracker {
    type V = TrackerView;

    closed spec fn view(&self) -> TrackerView {
        TrackerView { sizes: self.sizes@, created: self.created@.dom() }
    }
}

impl SizeTracker {
    pub fn new() -> (r: SizeTracker)
        ensures
            r@.sizes == Map::<Seq<char>, u64>::empty(),
            r@.created == Set::<Seq<char>>::empty(),
    {
        let r = SizeTracker { sizes: StringHashMap::new(), created: StringHashMap::new() };
        assert(r@.created =~= Set::<Seq<char>>::empty());
        r
    }

    pub fn note_size(&mut self, path: &str, size: u64)
        ensures
            final(self)@.sizes == old(self)@.sizes.insert(path@, size),
            final(self)@.created == old(self)@.created,
    {
        self.sizes.insert(path.to_string(), size);
    }

    pub fn get_size(&self, path: &str) -> (r: u64)
        ensures
            r == size_of(self@, path@),
    {
        match self.sizes.get(path) {
            Some(n) => *n,
            None => 0,
        }
    }

    pub fn mark_created(&mut self, path: &str)
        ensures
            final(self)@.sizes == old(self)@.sizes,
            final(self)@.created == old(self)@.created.insert(path@),
    {
        self.created.insert(path.to_string(), true);
        assert(self@.created =~= old(self)@.created.insert(path@));
    }

    /// Reports whether `path` carries the creation flag, and clears it.
    pub fn take_created(&mut self, path: &str) -> (r: bool)
        ensures
            r == old(self)@.created.contains(path@),
            final(self)@.sizes == old(self)@.sizes,
            final(self)@.created == old(self)@.created.remove(path@),
    {
        let r = self.created.contains_key(path);
        self.created.remove(path);
        assert(self@.created =~= old(self)@.created.remove(path@));
        r
    }

    pub fn forget(&mut self, path: &str)
        ensures
            final(self)@ == without(old(self)@, path@),
    {
        self.sizes.remove(path);
        self.created.remove(path);
        assert(self@.created =~= old(self)@.created.remove(path@));
    }
}

/// Turns raw notifications into labels, keeping the per-path state it needs.
pub struct Classifier {
    tracker: SizeTracker,
}

impl View for Classifier {
    type V = TrackerView;

    closed spec fn view(&self) -> TrackerView {
        self.tracker@
    }
}

impl Classifier {
    pub fn new() -> (r: Classifier)
        ensures
            r@.sizes == Map::<Seq<char>, u64>::empty(),
            r@.created == Set::<Seq<char>>::empty(),
    {
        Classifier { tracker: SizeTracker::new() }
    }

    /// Classifies a notification of kind `kind` on `path`. `stat` is the
    /// file's current size as read by the caller, `None` when that read
    /// failed; it is not consulted for removals and other kinds.
    pub fn classify(&mut self, kind: RawKind, path: &str, stat: Option<u64>) -> (r: Label)
        ensures
            (r, final(self)@) == classify_step(old(self)@, kind, path@, stat),
    {
        match kind {
            RawKind::Create => {
                let size = match stat {
                    Some(n) => n,
                    None => 0,
                };
                self.tracker.note_size(path, size);
                self.tracker.mark_created(path);
                Label::Create
            },
            RawKind::Modify => {
                let old_size = self.tracker.get_size(path);
                let new_size = match stat {
                    Some(n) => n,
                    None => old_size,
                };
                self.tracker.note_size(path, new_size);
                if self.tracker.take_created(path) {
                    Label::Ignore
                } else if new_size > old_size {
                    Label::Append
                } else {
                    Label::Overwrite
                }
            },
            RawKind::Remove => {
                self.tracker.forget(path);
                Label::Delete
            },
            RawKind::Other => Label::Ignore,
        }
    }
}

} // verus!
