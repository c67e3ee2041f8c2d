use postout::store::{LoadAction, LoadEvent, LoadState};
use postout::{cnc_postout, igs_postexp};

fn run(events: &[LoadEvent]) -> LoadState {
    let mut s = LoadState::start();
    for e in events {
        assert!(!s.finished());
        s = s.next(*e);
    }
    s
}

#[test]
fn missing_file_is_written_then_parsed() {
    let s = LoadState::start();
    assert_eq!(s.pending, LoadAction::CheckFile);
    let s = s.next(LoadEvent::FileMissing);
    assert_eq!(s.pending, LoadAction::WriteDefaults);
    let s = s.next(LoadEvent::WriteSucceeded);
    assert_eq!(s.pending, LoadAction::ParseFile);
    let s = s.next(LoadEvent::ParseSucceeded);
    assert_eq!(s.pending, LoadAction::UseParsed);
    assert!(s.finished());
}

#[test]
fn unwritable_defaults_are_used_from_memory() {
    let s = run(&[LoadEvent::FileMissing, LoadEvent::WriteFailed]);
    assert_eq!(s.pending, LoadAction::UseDefaults);
    assert!(s.finished());
}

#[test]
fn corrupt_file_is_removed_and_regenerated() {
    let s = run(&[
        LoadEvent::FileFound,
        LoadEvent::ParseFailed,
        LoadEvent::RemoveSucceeded,
        LoadEvent::FileMissing,
        LoadEvent::WriteSucceeded,
        LoadEvent::ParseSucceeded,
    ]);
    assert_eq!(s, LoadState { pending: LoadAction::UseParsed, repaired: true });
}

#[test]
fn corrupt_file_that_cannot_be_removed_fails() {
    let s = run(&[LoadEvent::FileFound, LoadEvent::ParseFailed, LoadEvent::RemoveFailed]);
    assert_eq!(s.pending, LoadAction::Fail);
}

#[test]
fn repair_happens_at_most_once() {
    let s = run(&[
        LoadEvent::FileFound,
        LoadEvent::ParseFailed,
        LoadEvent::RemoveSucceeded,
        LoadEvent::FileFound,
        LoadEvent::ParseFailed,
    ]);
    assert_eq!(s, LoadState { pending: LoadAction::Fail, repaired: true });
}

#[test]
fn unexpected_event_changes_nothing() {
    let s = LoadState::start();
    assert_eq!(s.next(LoadEvent::ParseSucceeded), s);
    let done = run(&[LoadEvent::FileFound, LoadEvent::ParseSucceeded]);
    assert_eq!(done.next(LoadEvent::FileMissing), done);
}

#[test]
fn cnc_defaults() {
    let c = cnc_postout::AppConfig::default_for_user("ivan");
    assert_eq!(c.cimco_path, "C:\\CIMCO\\CIMCOEdit8\\CIMCOEdit.exe");
    assert_eq!(c.fallback_program, "notepad");
    assert_eq!(c.output_path, "Z:\\Creo Settings WNC\\ivan_6_0\\NC_OUT");
    assert_eq!(c.support_extensions, vec!["nc", "eia", "mpf", "spf", "tap", "pbg", "h"]);
    assert!(!c.autoclose);
    assert_eq!(c.programs(), vec![c.cimco_path.clone(), c.fallback_program.clone()]);
}

#[test]
fn cnc_default_uses_current_user() {
    let c = cnc_postout::AppConfig::default();
    let expected = cnc_postout::AppConfig::default_for_user(&whoami::username());
    assert_eq!(c, expected);
}

#[test]
fn igs_defaults() {
    let c = igs_postexp::AppConfig::default_for_user("olga");
    assert_eq!(c.output_path, "Z:\\Creo Settings WNC\\olga_6_0\\IGS");
    assert!(c.clear_logs);
    assert!(!c.autoclose);
    assert_eq!(igs_postexp::AppConfig::default(), igs_postexp::AppConfig::default_for_user(&whoami::username()));
    assert_eq!(igs_postexp::export_extensions(), vec!["igs"]);
    assert_eq!(igs_postexp::log_extensions(), vec!["1", "2", "3"]);
}
