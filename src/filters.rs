use vstd::prelude::*;
use vstd::string::StrSliceExecFns;
use vstd::string::StringExecFns;
use crate::errors::FilterError;

verus! {

/// `k` is the position of the dot that starts a file name's extension:
/// the last dot of the name, and not its first character.
pub open spec fn is_extension_dot(name: Seq<char>, k: int) -> bool {
    &&& 0 < k < name.len()
    &&& name[k] == '.'
    &&& forall|j: int| k < j < name.len() ==> name[j] != '.'
}

/// The extension of a file name: what follows its last dot. A name without
/// a dot, or whose only dot leads it (`.profile`), has none.
pub open spec fn extension_of(name: Seq<char>) -> Option<Seq<char>> {
    if exists|k: int| is_extension_dot(name, k) {
        let k = choose|k: int| is_extension_dot(name, k);
        Some(name.subrange(k + 1, name.len() as int))
    } else {
        None
    }
}

proof fn lemma_extension_dot_unique(name: Seq<char>, a: int, b: int)
    requires
        is_extension_dot(name, a),
        is_extension_dot(name, b),
    ensures
        a == b,
{
}

/// The extension of `name` (see `extension_of`), as a slice of it.
pub fn extension(name: &str) -> (r: Option<&str>)
    ensures
        match extension_of(name@) {
            Some(x) => r.is_some() && r.unwrap()@ == x,
            None => r.is_none(),
        },
{
    let n = name.unicode_len();
    let mut i: usize = 0;
    let mut dot: usize = 0;
    while i < n
        invariant
            n == name@.len(),
            i <= n,
            dot < n || dot == 0,
            dot < i || dot == 0,
            dot > 0 ==> name@[dot as int] == '.',
            forall|j: int| dot < j < i && j > 0 ==> name@[j] != '.',
        decreases n - i,
    {
        if i > 0 && name.get_char(i) == '.' {
            dot = i;
        }
        i = i + 1;
    }
    if dot == 0 {
        assert(!exists|k: int| is_extension_dot(name@, k));
        None
    } else {
        assert(is_extension_dot(name@, dot as int));
        proof {
            let k = choose|k: int| is_extension_dot(name@, k);
            lemma_extension_dot_unique(name@, k, dot as int);
        }
        Some(name.substring_char(dot + 1, n))
    }
}


/// One entry of a directory listing, as the file system reported it.
pub struct FileEntry {
    /// The entry's file name, without its directory.
    pub name: String,
    /// The full path of the entry.
    pub path: String,
    /// Whether the entry is a regular file.
    pub is_file: bool,
    /// Last modification time in nanoseconds since the Unix epoch; `None` when
    /// it could not be read.
    pub modified: Option<u64>,
}

impl Clone for FileEntry {
    fn clone(&self) -> (r: Self)
        ensures
            r == *self,
    {
        FileEntry {
            name: self.name.clone(),
            path: self.path.clone(),
            is_file: self.is_file,
            modified: self.modified,
        }
    }
}

/// What a scan of a directory saw.
pub enum DirListing {
    /// The path does not exist or is not a directory.
    NotFound,
    /// The directory exists but its listing could not be started.
    Unreadable,
    /// The entries that could be read, in listing order.
    Entries(Vec<FileEntry>),
}

/// The lowercase form of a string, as `str::to_lowercase` computes it.
pub uninterp spec fn lower_of(s: Seq<char>) -> Seq<char>;

/// Relies on `str::to_lowercase`: the result depends on the characters alone.
#[verifier::external_body]
fn lowercase(s: &str) -> (r: String)
    ensures
        r@ == lower_of(s@),
{
    s.to_lowercase()
}

/// `x` is one of the strings of `list`.
pub open spec fn listed(list: Seq<String>, x: Seq<char>) -> bool {
    exists|i: int| 0 <= i < list.len() && list[i]@ == x
}

/// Whether the (already lowercased) extension `ext` is one of `extensions`.
pub fn ext_matches(ext: &str, extensions: &Vec<String>) -> (r: bool)
    ensures
        r == listed(extensions@, ext@),
{
    let wanted = String::from_str(ext);
    let mut i: usize = 0;
    while i < extensions.len()
        invariant
            i <= extensions@.len(),
            wanted@ == ext@,
            forall|j: int| 0 <= j < i ==> extensions@[j]@ != ext@,
        decreases extensions@.len() - i,
    {
        if extensions[i] == wanted {
            return true;
        }
        i = i + 1;
    }
    false
}

/// A file name whose lowercased extension is one of `extensions`.
pub open spec fn name_matches(name: Seq<char>, extensions: Seq<String>) -> bool {
    match extension_of(name) {
        Some(x) => listed(extensions, lower_of(x)),
        None => false,
    }
}

/// An entry that takes part in the selection: a regular file with a wanted
/// extension.
pub open spec fn qualifies(e: FileEntry, extensions: Seq<String>) -> bool {
    e.is_file && name_matches(e.name@, extensions)
}

/// Whether `name` has an extension that, lowercased, is one of `extensions`.
pub fn has_wanted_extension(name: &str, extensions: &Vec<String>) -> (r: bool)
    ensures
        r == name_matches(name@, extensions@),
{
    match extension(name) {
        Some(x) => {
            let lower = lowercase(x);
            ext_matches(lower.as_str(), extensions)
        },
        None => false,
    }
}

/// The entries of `s` that qualify, in their order.
pub open spec fn qualifying(s: Seq<FileEntry>, extensions: Seq<String>) -> Seq<FileEntry>
    decreases s.len(),
{
    if s.len() == 0 {
        Seq::empty()
    } else {
        let rest = qualifying(s.drop_last(), extensions);
        if qualifies(s.last(), extensions) {
            rest.push(s.last())
        } else {
            rest
        }
    }
}

/// The regular files of `entries` with a wanted extension, in listing order.
pub fn filter_entries(entries: &Vec<FileEntry>, extensions: &Vec<String>) -> (r: Vec<FileEntry>)
    ensures
        r@ == qualifying(entries@, extensions@),
{
    let mut r: Vec<FileEntry> = Vec::new();
    let mut i: usize = 0;
    while i < entries.len()
        invariant
            i <= entries@.len(),
            r@ == qualifying(entries@.take(i as int), extensions@),
        decreases entries@.len() - i,
    {
        assert(entries@.take(i as int + 1).drop_last() == entries@.take(i as int));
        let e = &entries[i];
        if e.is_file && has_wanted_extension(e.name.as_str(), extensions) {
            r.push(e.clone());
        }
        i = i + 1;
    }
    assert(entries@.take(i as int) == entries@);
    r
}

/// The entries of a scanned directory that are regular files with one of
/// `extensions` (compared with the file's extension lowercased).
pub fn filtered(listing: &DirListing, extensions: &Vec<String>) -> (r: Result<Vec<FileEntry>, FilterError>)
    ensures
        match listing {
            DirListing::NotFound => r == Err::<Vec<FileEntry>, FilterError>(FilterError::DirectoryNotFound),
            DirListing::Unreadable => r == Err::<Vec<FileEntry>, FilterError>(FilterError::DirectoryUnreadable),
            DirListing::Entries(v) => r.is_ok() && r.unwrap()@ == qualifying(v@, extensions@),
        },
{
    match listing {
        DirListing::NotFound => Err(FilterError::DirectoryNotFound),
        DirListing::Unreadable => Err(FilterError::DirectoryUnreadable),
        DirListing::Entries(v) => Ok(filter_entries(v, extensions)),
    }
}

/// The modification time used for ordering: an unreadable time counts as
/// older than every readable one.
pub open spec fn stamp(e: FileEntry) -> int {
    match e.modified {
        Some(t) => t as int,
        None => -1,
    }
}

/// `k` is the index of the latest entry of `s`: none is newer, and every
/// later entry is strictly older (of equally new entries the last wins).
pub open spec fn is_latest_index(s: Seq<FileEntry>, k: int) -> bool {
    &&& 0 <= k < s.len()
    &&& forall|j: int| 0 <= j < s.len() ==> stamp(#[trigger] s[j]) <= stamp(s[k])
    &&& forall|j: int| k < j < s.len() ==> stamp(#[trigger] s[j]) < stamp(s[k])
}

fn not_older(a: &Option<u64>, b: &Option<u64>) -> (r: bool)
    ensures
        r == ((match *a { Some(t) => t as int, None => -1int }) >= (match *b { Some(t) => t as int, None => -1int })),
{
    match (a, b) {
        (_, None) => true,
        (None, Some(_)) => false,
        (Some(x), Some(y)) => *x >= *y,
    }
}

/// The most recently modified of `entries`; of several with the same time,
/// the last in order. `None` when `entries` is empty.
pub fn lastest(entries: &Vec<FileEntry>) -> (r: Option<FileEntry>)
    ensures
        entries@.len() == 0 <==> r.is_none(),
        r.is_some() ==> exists|k: int| is_latest_index(entries@, k) && r.unwrap() == entries@[k],
{
    if entries.len() == 0 {
        return None;
    }
    let mut best: usize = 0;
    let mut i: usize = 1;
    while i < entries.len()
        invariant
            1 <= i <= entries@.len(),
            best < i,
            forall|j: int| 0 <= j < i ==> stamp(#[trigger] entries@[j]) <= stamp(entries@[best as int]),
            forall|j: int| best < j < i ==> stamp(#[trigger] entries@[j]) < stamp(entries@[best as int]),
        decreases entries@.len() - i,
    {
        if not_older(&entries[i].modified, &entries[best].modified) {
            best = i;
        }
        i = i + 1;
    }
    assert(is_latest_index(entries@, best as int));
    Some(entries[best].clone())
}


/// Every entry kept by the filter qualifies and comes from the listing.
pub proof fn lemma_qualifying_sound(s: Seq<FileEntry>, extensions: Seq<String>)
    ensures
        forall|i: int| 0 <= i < qualifying(s, extensions).len() ==> {
            let e = #[trigger] qualifying(s, extensions)[i];
            qualifies(e, extensions) && s.contains(e)
        },
    decreases s.len(),
{
    if s.len() > 0 {
        lemma_qualifying_sound(s.drop_last(), extensions);
        let q = qualifying(s, extensions);
        let p = qualifying(s.drop_last(), extensions);
        assert forall|i: int| 0 <= i < q.len() implies qualifies(#[trigger] q[i], extensions) && s.contains(q[i]) by {
            if i < p.len() {
                assert(q[i] == p[i]);
                let k = choose|k: int| 0 <= k < s.drop_last().len() && s.drop_last()[k] == p[i];
                assert(s[k] == q[i]);
            } else {
                assert(q[i] == s.last());
                assert(s[s.len() - 1] == q[i]);
            }
        }
    }
}

/// Every qualifying entry of the listing is kept by the filter.
pub proof fn lemma_qualifying_complete(s: Seq<FileEntry>, extensions: Seq<String>)
    ensures
        forall|j: int| 0 <= j < s.len() && qualifies(#[trigger] s[j], extensions)
            ==> qualifying(s, extensions).contains(s[j]),
    decreases s.len(),
{
    if s.len() > 0 {
        lemma_qualifying_complete(s.drop_last(), extensions);
        let q = qualifying(s, extensions);
        let p = qualifying(s.drop_last(), extensions);
        assert forall|j: int| 0 <= j < s.len() && qualifies(#[trigger] s[j], extensions) implies q.contains(s[j]) by {
            if j < s.len() - 1 {
                assert(s.drop_last()[j] == s[j]);
                let k = choose|k: int| 0 <= k < p.len() && p[k] == s[j];
                assert(q[k] == p[k]);
            } else {
                assert(q[q.len() - 1] == s[j]);
            }
        }
    }
}

/// The latest regular file of the scanned directory whose lowercased
/// extension is one of `extensions`. Of several equally new ones, the last in
/// listing order is returned; an unreadable time loses to every readable one.
pub fn select_latest(listing: &DirListing, extensions: &Vec<String>) -> (r: Result<FileEntry, FilterError>)
    ensures
        match listing {
            DirListing::NotFound => r == Err::<FileEntry, FilterError>(FilterError::DirectoryNotFound),
            DirListing::Unreadable => r == Err::<FileEntry, FilterError>(FilterError::DirectoryUnreadable),
            DirListing::Entries(v) => {
                let q = qualifying(v@, extensions@);
                &&& (r == Err::<FileEntry, FilterError>(FilterError::NoMatches)
                    <==> forall|j: int| 0 <= j < v@.len() ==> !qualifies(#[trigger] v@[j], extensions@))
                &&& (q.len() > 0 ==> r.is_ok() && exists|k: int| is_latest_index(q, k) && r.unwrap() == q[k])
                &&& (r.is_ok() ==> {
                    let e = r.unwrap();
                    &&& qualifies(e, extensions@)
                    &&& v@.contains(e)
                    &&& forall|j: int| 0 <= j < v@.len() && qualifies(#[trigger] v@[j], extensions@)
                        ==> stamp(v@[j]) <= stamp(e)
                })
            },
        },
{
    let candidates = match filtered(listing, extensions) {
        Ok(c) => c,
        Err(e) => return Err(e),
    };
    let ghost v = match listing { DirListing::Entries(v) => v@, _ => Seq::empty() };
    proof {
        lemma_qualifying_sound(v, extensions@);
        lemma_qualifying_complete(v, extensions@);
    }
    match lastest(&candidates) {
        Some(e) => {
            proof {
                let q = candidates@;
                let k = choose|k: int| is_latest_index(q, k) && e == q[k];
                assert(qualifies(q[k], extensions@) && v.contains(q[k]));
                assert forall|j: int| 0 <= j < v.len() && qualifies(#[trigger] v[j], extensions@)
                    implies stamp(v[j]) <= stamp(e) by {
                    let m = choose|m: int| 0 <= m < q.len() && q[m] == v[j];
                    assert(stamp(q[m]) <= stamp(q[k]));
                }
            }
            Ok(e)
        },
        None => {
            proof {
                assert forall|j: int| 0 <= j < v.len() implies !qualifies(#[trigger] v[j], extensions@) by {
                    if qualifies(v[j], extensions@) {
                        assert(candidates@.contains(v[j]));
                    }
                }
            }
            Err(FilterError::NoMatches)
        },
    }
}


/// `part` occurs in `s` as a run of consecutive characters.
pub open spec fn occurs_in(s: Seq<char>, part: Seq<char>) -> bool {
    exists|i: int| 0 <= i && i + part.len() <= s.len() && #[trigger] s.subrange(i, i + part.len()) == part
}

/// Relies on `str::contains` with a `&str` pattern: true exactly when the
/// pattern occurs in the string as a contiguous run.
#[verifier::external_body]
fn contains_str(s: &str, part: &str) -> (r: bool)
    ensures
        r == occurs_in(s@, part@),
{
    s.contains(part)
}

/// An entry that a sweep deletes: it qualifies and its name holds `marker`.
pub open spec fn swept(e: FileEntry, extensions: Seq<String>, marker: Seq<char>) -> bool {
    qualifies(e, extensions) && occurs_in(e.name@, marker)
}

/// The entries of `s` that a sweep deletes, in their order.
pub open spec fn sweep_of(s: Seq<FileEntry>, extensions: Seq<String>, marker: Seq<char>) -> Seq<FileEntry>
    decreases s.len(),
{
    if s.len() == 0 {
        Seq::empty()
    } else {
        let rest = sweep_of(s.drop_last(), extensions, marker);
        if swept(s.last(), extensions, marker) {
            rest.push(s.last())
        } else {
            rest
        }
    }
}

/// The files that a housekeeping sweep of the scanned directory deletes:
/// regular files with one of `extensions` whose name holds `marker`, in
/// listing order. A directory that could not be scanned yields none.
pub fn sweep_targets(listing: &DirListing, extensions: &Vec<String>, marker: &str) -> (r: Vec<FileEntry>)
    ensures
        match listing {
            DirListing::Entries(v) => r@ == sweep_of(v@, extensions@, marker@),
            _ => r@.len() == 0,
        },
{
    let entries = match listing {
        DirListing::Entries(v) => v,
        _ => return Vec::new(),
    };
    let mut r: Vec<FileEntry> = Vec::new();
    let mut i: usize = 0;
    while i < entries.len()
        invariant
            i <= entries@.len(),
            r@ == sweep_of(entries@.take(i as int), extensions@, marker@),
        decreases entries@.len() - i,
    {
        assert(entries@.take(i as int + 1).drop_last() == entries@.take(i as int));
        let e = &entries[i];
        if e.is_file && has_wanted_extension(e.name.as_str(), extensions) && contains_str(e.name.as_str(), marker) {
            r.push(e.clone());
        }
        i = i + 1;
    }
    assert(entries@.take(i as int) == entries@);
    r
}


/// Scanned directories whose regular files can be filtered by extension.
pub trait FilteredFiles {
    /// What the scan saw.
    spec fn scanned(&self) -> DirListing;

    /// The regular files with one of `extensions`, in listing order; an
    /// error when the directory was missing or could not be read.
    fn filtered(&self, extensions: &Vec<String>) -> (r: Result<Vec<FileEntry>, FilterError>)
        ensures
            match self.scanned() {
                DirListing::NotFound => r == Err::<Vec<FileEntry>, FilterError>(FilterError::DirectoryNotFound),
                DirListing::Unreadable => r == Err::<Vec<FileEntry>, FilterError>(FilterError::DirectoryUnreadable),
                DirListing::Entries(v) => r.is_ok() && r.unwrap()@ == qualifying(v@, extensions@),
            };
}

impl FilteredFiles for DirListing {
    open spec fn scanned(&self) -> DirListing {
        *self
    }

    fn filtered(&self, extensions: &Vec<String>) -> (r: Result<Vec<FileEntry>, FilterError>) {
        filtered(self, extensions)
    }
}

/// Collections of entries from which the most recently modified one is taken.
pub trait Lastest {
    /// The entries, in order.
    spec fn entries(&self) -> Seq<FileEntry>;

    /// The most recently modified entry; of equally new ones the last.
    fn lastest(&self) -> (r: Option<FileEntry>)
        ensures
            self.entries().len() == 0 <==> r.is_none(),
            r.is_some() ==> exists|k: int| is_latest_index(self.entries(), k) && r.unwrap() == self.entries()[k];
}

impl Lastest for Vec<FileEntry> {
    open spec fn entries(&self) -> Seq<FileEntry> {
        self@
    }

    fn lastest(&self) -> (r: Option<FileEntry>) {
        let r = lastest(self);
        proof {
            if r.is_some() {
                let k = choose|k: int| is_latest_index(self@, k) && r.unwrap() == self@[k];
                assert(is_latest_index(self.entries(), k) && r.unwrap() == self.entries()[k]);
            }
        }
        r
    }
}

} // verus!
