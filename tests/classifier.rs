use wev::event::{Label, RawKind, SemanticEvent};
use wev::tracker::{Classifier, SizeTracker};
use wev::watch::{handle_notification, Emit, Observed};

#[test]
fn first_modify_after_create_is_ignored_even_when_it_grows() {
    let mut c = Classifier::new();
    assert_eq!(c.classify(RawKind::Create, "b", Some(3)), Label::Create);
    assert_eq!(c.classify(RawKind::Modify, "b", Some(900)), Label::Ignore);
    assert_eq!(c.classify(RawKind::Modify, "b", Some(901)), Label::Append);
}

#[test]
fn equal_size_is_overwrite() {
    let mut c = Classifier::new();
    c.classify(RawKind::Create, "b", Some(7));
    c.classify(RawKind::Modify, "b", Some(7));
    assert_eq!(c.classify(RawKind::Modify, "b", Some(7)), Label::Overwrite);
    assert_eq!(c.classify(RawKind::Modify, "b", Some(6)), Label::Overwrite);
    assert_eq!(c.classify(RawKind::Modify, "b", Some(8)), Label::Append);
}

#[test]
fn unseen_path_modify_is_overwrite_or_append() {
    let mut c = Classifier::new();
    assert_eq!(c.classify(RawKind::Modify, "old", Some(0)), Label::Overwrite);
    let mut c = Classifier::new();
    assert_eq!(c.classify(RawKind::Modify, "old", Some(12)), Label::Append);
}

#[test]
fn failed_stat_falls_back_to_tracked_size() {
    let mut c = Classifier::new();
    c.classify(RawKind::Create, "f", Some(5));
    c.classify(RawKind::Modify, "f", Some(20));
    assert_eq!(c.classify(RawKind::Modify, "f", None), Label::Overwrite);
    assert_eq!(c.classify(RawKind::Modify, "f", Some(21)), Label::Append);
}

#[test]
fn failed_stat_on_create_counts_as_zero() {
    let mut c = Classifier::new();
    c.classify(RawKind::Create, "f", None);
    c.classify(RawKind::Modify, "f", None);
    assert_eq!(c.classify(RawKind::Modify, "f", Some(1)), Label::Append);
}

#[test]
fn delete_clears_state_and_create_starts_afresh() {
    let mut c = Classifier::new();
    c.classify(RawKind::Create, "f", Some(100));
    c.classify(RawKind::Modify, "f", Some(100));
    assert_eq!(c.classify(RawKind::Remove, "f", None), Label::Delete);
    assert_eq!(c.classify(RawKind::Create, "f", Some(2)), Label::Create);
    assert_eq!(c.classify(RawKind::Modify, "f", Some(1)), Label::Ignore);
    assert_eq!(c.classify(RawKind::Modify, "f", Some(3)), Label::Append);
}

#[test]
fn delete_of_unknown_path_is_delete() {
    let mut c = Classifier::new();
    assert_eq!(c.classify(RawKind::Remove, "never", None), Label::Delete);
}

#[test]
fn other_kinds_are_ignored_and_leave_state() {
    let mut c = Classifier::new();
    c.classify(RawKind::Create, "f", Some(1));
    assert_eq!(c.classify(RawKind::Other, "f", Some(50)), Label::Ignore);
    assert_eq!(c.classify(RawKind::Modify, "f", Some(50)), Label::Ignore);
}

#[test]
fn paths_are_tracked_separately() {
    let mut c = Classifier::new();
    c.classify(RawKind::Create, "x", Some(0));
    assert_eq!(c.classify(RawKind::Modify, "y", Some(0)), Label::Overwrite);
    assert_eq!(c.classify(RawKind::Modify, "x", Some(0)), Label::Ignore);
}

#[test]
fn tracker_operations() {
    let mut t = SizeTracker::new();
    assert_eq!(t.get_size("p"), 0);
    t.note_size("p", 42);
    assert_eq!(t.get_size("p"), 42);
    assert!(!t.take_created("p"));
    t.mark_created("p");
    assert!(t.take_created("p"));
    assert!(!t.take_created("p"));
    t.mark_created("p");
    t.forget("p");
    assert_eq!(t.get_size("p"), 0);
    assert!(!t.take_created("p"));
}

#[test]
fn label_events_and_names() {
    assert_eq!(Label::Ignore.event(), None);
    assert_eq!(Label::Append.event(), Some(SemanticEvent::Append));
    assert_eq!(SemanticEvent::Overwrite.name(), "overwrite");
    assert_eq!(SemanticEvent::Delete.upper_name(), "DELETE");
    assert_eq!(SemanticEvent::Create.name(), "create");
    assert_eq!(SemanticEvent::Append.upper_name(), "APPEND");
}

fn obs(path: &str, is_dir: bool, name: Option<&str>, size: Option<u64>) -> Observed {
    Observed {
        path: path.to_string(),
        is_dir,
        file_name: name.map(|n| n.to_string()),
        size,
    }
}

#[test]
fn notification_skips_directories_nameless_paths_and_ignores() {
    let mut c = Classifier::new();
    let paths = vec![
        obs("/w/d", true, Some("d"), Some(4096)),
        obs("/w/a.txt", false, Some("a.txt"), Some(0)),
        obs("/", false, None, Some(0)),
        obs("/w/b.txt", false, Some("b.txt"), Some(9)),
    ];
    let r = handle_notification(&mut c, RawKind::Create, &paths);
    assert_eq!(
        r,
        vec![
            Emit { index: 1, event: SemanticEvent::Create },
            Emit { index: 3, event: SemanticEvent::Create },
        ]
    );
    // the directory and the nameless path were never classified
    assert_eq!(c.classify(RawKind::Modify, "/w/d", Some(0)), Label::Overwrite);
    let again = handle_notification(
        &mut c,
        RawKind::Modify,
        &vec![obs("/w/a.txt", false, Some("a.txt"), Some(5))],
    );
    assert!(again.is_empty());
    let third = handle_notification(
        &mut c,
        RawKind::Modify,
        &vec![obs("/w/a.txt", false, Some("a.txt"), Some(6))],
    );
    assert_eq!(third, vec![Emit { index: 0, event: SemanticEvent::Append }]);
}
