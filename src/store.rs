use vstd::prelude::*;

verus! {

/// The next thing the settings loader asks its caller to do.
#[derive(Debug, Clone, Copy, PartialEq, Eq, Structural)]
pub enum LoadAction {
    /// Find out whether the settings file exists.
    CheckFile,
    /// Create the parent directory (best effort) and write the default
    /// settings to the file.
    WriteDefaults,
    /// Read and parse the settings file.
    ParseFile,
    /// Delete the settings file, which did not parse.
    RemoveFile,
    /// Done: use the record that was parsed.
    UseParsed,
    /// Done: the defaults could not be written; use them from memory.
    UseDefaults,
    /// Done: the settings could neither be loaded nor repaired.
    Fail,
}

/// What the caller observed when it performed the pending action.
#[derive(Debug, Clone, Copy, PartialEq, Eq, Structural)]
pub enum LoadEvent {
    FileFound,
    FileMissing,
    WriteSucceeded,
    WriteFailed,
    ParseSucceeded,
    ParseFailed,
    RemoveSucceeded,
    RemoveFailed,
}

/// Progress of one settings load.
#[derive(Debug, Clone, Copy, PartialEq, Eq, Structural)]
pub struct LoadState {
    /// The action the caller performs next.
    pub pending: LoadAction,
    /// Whether a corrupt file has already been deleted in this load.
    pub repaired: bool,
}

/// Whether `a` ends a load.
pub open spec fn is_final(a: LoadAction) -> bool {
    a == LoadAction::UseParsed || a == LoadAction::UseDefaults || a == LoadAction::Fail
}

/// The transition table of the loader. A missing file is written with the
/// defaults; a file that does not parse is deleted and the load starts over,
/// once; an event that does not answer the pending action changes nothing.
pub open spec fn load_step(s: LoadState, e: LoadEvent) -> LoadState {
    let to = |a: LoadAction| LoadState { pending: a, repaired: s.repaired };
    match (s.pending, e) {
        (LoadAction::CheckFile, LoadEvent::FileFound) => to(LoadAction::ParseFile),
        (LoadAction::CheckFile, LoadEvent::FileMissing) => to(LoadAction::WriteDefaults),
        (LoadAction::WriteDefaults, LoadEvent::WriteSucceeded) => to(LoadAction::ParseFile),
        (LoadAction::WriteDefaults, LoadEvent::WriteFailed) => to(LoadAction::UseDefaults),
        (LoadAction::ParseFile, LoadEvent::ParseSucceeded) => to(LoadAction::UseParsed),
        (LoadAction::ParseFile, LoadEvent::ParseFailed) => {
            if s.repaired {
                to(LoadAction::Fail)
            } else {
                to(LoadAction::RemoveFile)
            }
        },
        (LoadAction::RemoveFile, LoadEvent::RemoveSucceeded) => LoadState {
            pending: LoadAction::CheckFile,
            repaired: true,
        },
        (LoadAction::RemoveFile, LoadEvent::RemoveFailed) => to(LoadAction::Fail),
        _ => s,
    }
}

impl LoadState {
    /// A load that has not looked at the file yet.
    pub fn start() -> (r: LoadState)
        ensures
            r == (LoadState { pending: LoadAction::CheckFile, repaired: false }),
    {
        LoadState { pending: LoadAction::CheckFile, repaired: false }
    }

    /// The state after the caller performed the pending action and saw `event`.
    pub fn next(&self, event: LoadEvent) -> (r: LoadState)
        ensures
            r == load_step(*self, event),
    {
        let keep = self.repaired;
        match (self.pending, event) {
            (LoadAction::CheckFile, LoadEvent::FileFound) => LoadState { pending: LoadAction::ParseFile, repaired: keep },
            (LoadAction::CheckFile, LoadEvent::FileMissing) => LoadState { pending: LoadAction::WriteDefaults, repaired: keep },
            (LoadAction::WriteDefaults, LoadEvent::WriteSucceeded) => LoadState { pending: LoadAction::ParseFile, repaired: keep },
            (LoadAction::WriteDefaults, LoadEvent::WriteFailed) => LoadState { pending: LoadAction::UseDefaults, repaired: keep },
            (LoadAction::ParseFile, LoadEvent::ParseSucceeded) => LoadState { pending: LoadAction::UseParsed, repaired: keep },
            (LoadAction::ParseFile, LoadEvent::ParseFailed) => {
                if keep {
                    LoadState { pending: LoadAction::Fail, repaired: keep }
                } else {
                    LoadState { pending: LoadAction::RemoveFile, repaired: keep }
                }
            },
            (LoadAction::RemoveFile, LoadEvent::RemoveSucceeded) => LoadState { pending: LoadAction::CheckFile, repaired: true },
            (LoadAction::RemoveFile, LoadEvent::RemoveFailed) => LoadState { pending: LoadAction::Fail, repaired: keep },
            _ => *self,
        }
    }

    /// Whether the load has ended.
    pub fn finished(&self) -> (r: bool)
        ensures
            r == is_final(self.pending),
    {
        match self.pending {
            LoadAction::UseParsed | LoadAction::UseDefaults | LoadAction::Fail => true,
            _ => false,
        }
    }
}

/// What the settings file holds, as far as loading is concerned.
pub enum StoredSettings {
    /// There is no file.
    Absent,
    /// The file holds the default record, as the loader writes it.
    DefaultRecord,
    /// The file holds another record that parses.
    OtherRecord,
    /// The file does not parse.
    Corrupt,
}

/// A file system on which writing the defaults succeeds exactly when
/// `can_write`, and deleting the file exactly when `can_remove`; the answer to
/// `action`, and what the file holds afterwards. Written defaults parse back
/// to the default record.
pub open spec fn respond(stored: StoredSettings, action: LoadAction, can_write: bool, can_remove: bool) -> (LoadEvent, StoredSettings) {
    match action {
        LoadAction::CheckFile => (
            if stored is Absent { LoadEvent::FileMissing } else { LoadEvent::FileFound },
            stored,
        ),
        LoadAction::WriteDefaults => {
            if can_write {
                (LoadEvent::WriteSucceeded, StoredSettings::DefaultRecord)
            } else {
                (LoadEvent::WriteFailed, stored)
            }
        },
        LoadAction::ParseFile => (
            if stored is DefaultRecord || stored is OtherRecord {
                LoadEvent::ParseSucceeded
            } else {
                LoadEvent::ParseFailed
            },
            stored,
        ),
        LoadAction::RemoveFile => {
            if can_remove {
                (LoadEvent::RemoveSucceeded, StoredSettings::Absent)
            } else {
                (LoadEvent::RemoveFailed, stored)
            }
        },
        _ => (LoadEvent::FileFound, stored),
    }
}

/// The state and the file after at most `fuel` steps of a load on that file
/// system, from `s`.
pub open spec fn run_load(s: LoadState, stored: StoredSettings, can_write: bool, can_remove: bool, fuel: nat) -> (LoadState, StoredSettings)
    decreases fuel,
{
    if fuel == 0 || is_final(s.pending) {
        (s, stored)
    } else {
        let (e, after) = respond(stored, s.pending, can_write, can_remove);
        run_load(load_step(s, e), after, can_write, can_remove, (fuel - 1) as nat)
    }
}

/// A complete load from scratch: enough steps for the one allowed repair.
pub open spec fn load_from(stored: StoredSettings, can_write: bool, can_remove: bool) -> (LoadState, StoredSettings) {
    run_load(LoadState { pending: LoadAction::CheckFile, repaired: false }, stored, can_write, can_remove, 8)
}

/// Whether a load ended with the default record, from the file or from memory.
pub open spec fn yields_defaults(r: (LoadState, StoredSettings)) -> bool {
    ||| r.0.pending == LoadAction::UseDefaults
    ||| (r.0.pending == LoadAction::UseParsed && r.1 is DefaultRecord)
}

/// Every load ends within its bound: the repair path is taken at most once.
pub proof fn lemma_load_terminates(stored: StoredSettings, can_write: bool, can_remove: bool)
    ensures
        is_final(load_from(stored, can_write, can_remove).0.pending),
{
    reveal_with_fuel(run_load, 9);
}

/// Loading with no settings file yields the defaults and leaves a file that,
/// loaded again, yields the same default record and stays as it is.
pub proof fn lemma_load_missing_file(can_write: bool, can_remove: bool)
    ensures
        yields_defaults(load_from(StoredSettings::Absent, can_write, can_remove)),
        can_write ==> load_from(StoredSettings::Absent, can_write, can_remove).1 is DefaultRecord,
        can_write ==> load_from(StoredSettings::DefaultRecord, can_write, can_remove)
            == (LoadState { pending: LoadAction::UseParsed, repaired: false }, StoredSettings::DefaultRecord),
{
    reveal_with_fuel(run_load, 9);
}

/// Loading a corrupt settings file that can be deleted repairs it: the result
/// is the default record, and loading the repaired file again gives the same.
/// A corrupt file that cannot be deleted fails the load.
pub proof fn lemma_load_corrupt_file(can_write: bool, can_remove: bool)
    ensures
        can_remove ==> yields_defaults(load_from(StoredSettings::Corrupt, can_write, can_remove)),
        can_remove && can_write ==> load_from(StoredSettings::Corrupt, can_write, can_remove)
            == (LoadState { pending: LoadAction::UseParsed, repaired: true }, StoredSettings::DefaultRecord),
        can_remove && can_write ==> load_from(load_from(StoredSettings::Corrupt, can_write, can_remove).1, can_write, can_remove)
            == (LoadState { pending: LoadAction::UseParsed, repaired: false }, StoredSettings::DefaultRecord),
        !can_remove ==> load_from(StoredSettings::Corrupt, can_write, can_remove).0.pending == LoadAction::Fail,
{
    reveal_with_fuel(run_load, 9);
}

/// A reset deletes the settings file, whatever it held, so a load after it
/// starts from no file: it always succeeds and yields the defaults.
pub proof fn lemma_reset_then_load(can_write: bool, can_remove: bool)
    ensures
        yields_defaults(load_from(StoredSettings::Absent, can_write, can_remove)),
        load_from(StoredSettings::Absent, can_write, can_remove).0.pending != LoadAction::Fail,
{
    reveal_with_fuel(run_load, 9);
}

} // verus!
