use vstd::prelude::*;

use crate::event::{RawKind, SemanticEvent};
use crate::tracker::{classify_step, Classifier, TrackerView};

verus! {

/// One path named by a notification, with what was read of it on disk.
pub struct Observed {
    pub path: String,
    /// Whether the path denotes a directory.
    pub is_dir: bool,
    /// The bare file name, where one can be extracted.
    pub file_name: Option<String>,
    /// The current file size, `None` where it could not be read.
    pub size: Option<u64>,
}

pub struct ObservedView {
    pub path: Seq<char>,
    pub is_dir: bool,
    pub has_name: bool,
    pub size: Option<u64>,
}

impl View for Observed {
    type V = ObservedView;

    open spec fn view(&self) -> ObservedView {
        ObservedView {
            path: self.path@,
            is_dir: self.is_dir,
            has_name: self.file_name.is_some(),
            size: self.size,
        }
    }
}

/// An event to show and record: for the path at `index` of the notification.
#[derive(Clone, Copy, Debug, PartialEq, Eq, Structural)]
pub struct Emit {
    pub index: usize,
    pub event: SemanticEvent,
}

/// What one path of a notification yields: directories and paths without a
/// file name are skipped before classification; an `ignore` yields nothing.
pub open spec fn path_step(v: TrackerView, kind: RawKind, o: ObservedView) -> (
    Option<SemanticEvent>,
    TrackerView,
) {
    if o.is_dir || !o.has_name {
        (None, v)
    } else {
        let (label, next) = classify_step(v, kind, o.path, o.size);
        (label.spec_event(), next)
    }
}

/// The events that the first `n` paths of a notification yield, as pairs of
/// path index and event, and the tracker state after them.
pub open spec fn plan(v: TrackerView, kind: RawKind, obs: Seq<ObservedView>, n: nat) -> (
    Seq<(int, SemanticEvent)>,
    TrackerView,
)
    decreases n,
{
    if n == 0 {
        (Seq::empty(), v)
    } else {
        let (out, mid) = plan(v, kind, obs, (n - 1) as nat);
        let (e, next) = path_step(mid, kind, obs[n - 1]);
        match e {
            Some(ev) => (out.push((n - 1, ev)), next),
            None => (out, next),
        }
    }
}

pub open spec fn emits_view(r: Seq<Emit>) -> Seq<(int, SemanticEvent)> {
    r.map_values(|e: Emit| (e.index as int, e.event))
}

/// Runs one notification of kind `kind` through the classifier, path by path
/// in order, and returns the events to show and record.
pub fn handle_notification(classifier: &mut Classifier, kind: RawKind, paths: &Vec<Observed>) -> (r: Vec<Emit>)
    ensures
        (emits_view(r@), final(classifier)@) == plan(
            old(classifier)@,
            kind,
            paths@.map_values(|o: Observed| o@),
            paths.len() as nat,
        ),
{
    let ghost obs = paths@.map_values(|o: Observed| o@);
    let mut r: Vec<Emit> = Vec::new();
    let mut i: usize = 0;
    while i < paths.len()
        invariant
            i <= paths.len(),
            obs == paths@.map_values(|o: Observed| o@),
            (emits_view(r@), classifier@) == plan(old(classifier)@, kind, obs, i as nat),
        decreases paths.len() - i,
    {
        let o = &paths[i];
        assert(obs[i as int] == o@);
        if !o.is_dir && o.file_name.is_some() {
            let label = classifier.classify(kind, &o.path, o.size);
            match label.event() {
                Some(ev) => {
                    let ghost before = r@;
                    r.push(Emit { index: i, event: ev });
                    assert(emits_view(r@) =~= emits_view(before).push((i as int, ev)));
                },
                None => {},
            }
        }
        i = i + 1;
    }
    r
}

} // verus!
