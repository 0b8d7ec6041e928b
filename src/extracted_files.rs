//! The ledger of what an extraction produced: each path, as a file or as a
//! directory with the names of its immediate children.
use vstd::prelude::*;
use crate::path::{parse_path, path_components};

verus! {

/// A path as its components; the root has none.
pub type PathKey = Seq<Seq<char>>;

/// What the ledger says of one path.
pub enum EntryView {
    File,
    Dir(Set<Seq<char>>),
}

/// One entry of the ledger.
#[derive(Debug, PartialEq, Eq)]
pub enum ExtractedFilesEntry {
    File,
    /// A directory, with the names of its immediate children.
    Dir(Vec<String>),
}

impl ExtractedFilesEntry {
    pub open spec fn view(&self) -> EntryView {
        match self {
            ExtractedFilesEntry::File => EntryView::File,
            ExtractedFilesEntry::Dir(names) => EntryView::Dir(names.deep_view().to_set()),
        }
    }

    pub open spec fn wf(&self) -> bool {
        match self {
            ExtractedFilesEntry::File => true,
            ExtractedFilesEntry::Dir(names) => names.deep_view().no_duplicates(),
        }
    }
}

/// The directory entry for `k` once `child` is among its names: the names that
/// `k` already had as a directory are kept, a file at `k` becomes a directory.
pub open spec fn dir_with(m: Map<PathKey, EntryView>, k: PathKey, child: Option<Seq<char>>) -> EntryView {
    let base = if m.contains_key(k) && m[k] is Dir {
        m[k]->Dir_0
    } else {
        Set::empty()
    };
    match child {
        Some(c) => EntryView::Dir(base.insert(c)),
        None => EntryView::Dir(base),
    }
}

/// The text of an optional child name.
pub open spec fn name_of(child: Option<String>) -> Option<Seq<char>> {
    match child {
        Some(c) => Some(c@),
        None => None,
    }
}

/// Record each ancestor of `k` as a directory that names the next component.
pub open spec fn link_ancestors(m: Map<PathKey, EntryView>, k: PathKey) -> Map<PathKey, EntryView>
    decreases k.len(),
{
    if k.len() == 0 {
        m
    } else {
        let parent = k.drop_last();
        link_ancestors(m.insert(parent, dir_with(m, parent, Some(k.last()))), parent)
    }
}

/// The ledger after recording a regular file at `k`.
pub open spec fn record_file(m: Map<PathKey, EntryView>, k: PathKey) -> Map<PathKey, EntryView> {
    link_ancestors(m.insert(k, EntryView::File), k)
}

/// The ledger after recording a directory at `k`.
pub open spec fn record_dir(m: Map<PathKey, EntryView>, k: PathKey) -> Map<PathKey, EntryView> {
    link_ancestors(m.insert(k, dir_with(m, k, None)), k)
}

/// Whether `k` is recorded as a regular file.
pub open spec fn file_at(m: Map<PathKey, EntryView>, k: PathKey) -> bool {
    m.contains_key(k) && m[k] is File
}

/// The names under `k` when `k` is recorded as a directory.
pub open spec fn dir_at(m: Map<PathKey, EntryView>, k: PathKey) -> Option<Set<Seq<char>>> {
    if m.contains_key(k) && m[k] is Dir {
        Some(m[k]->Dir_0)
    } else {
        None
    }
}

/// Whether `k` is recorded as a directory that names at least one child.
pub open spec fn populated_dir(m: Map<PathKey, EntryView>, k: PathKey) -> bool {
    m.contains_key(k) && m[k] is Dir && m[k]->Dir_0 != Set::<Seq<char>>::empty()
}

/// Every recorded path but the root has its parent recorded as a directory that
/// names it, and every name a directory holds is recorded.
pub open spec fn ledger_closed(m: Map<PathKey, EntryView>) -> bool {
    &&& forall|k: PathKey| #[trigger] m.contains_key(k) && k.len() > 0 ==> {
        &&& m.contains_key(k.drop_last())
        &&& m[k.drop_last()] is Dir
        &&& m[k.drop_last()]->Dir_0.contains(k.last())
    }
    &&& forall|k: PathKey, c: Seq<char>| #[trigger] m.contains_key(k) && m[k] is Dir
        && #[trigger] m[k]->Dir_0.contains(c) ==> m.contains_key(k.push(c))
}

/// The record of paths produced by an extraction.
pub struct ExtractedFiles {
    keys: Vec<Vec<String>>,
    entries: Vec<ExtractedFilesEntry>,
    model: Ghost<Map<PathKey, EntryView>>,
}

impl View for ExtractedFiles {
    type V = Map<PathKey, EntryView>;

    closed spec fn view(&self) -> Map<PathKey, EntryView> {
        self.model@
    }
}

fn same_path(a: &Vec<String>, b: &Vec<String>) -> (r: bool)
    ensures
        r == (a.deep_view() == b.deep_view()),
{
    if a.len() != b.len() {
        assert(a.deep_view().len() != b.deep_view().len());
        return false;
    }
    let mut i: usize = 0;
    while i < a.len()
        invariant
            a.len() == b.len(),
            i <= a.len(),
            forall|j: int| 0 <= j < i ==> a@[j]@ == b@[j]@,
        decreases a.len() - i,
    {
        if a[i] != b[i] {
            assert(a.deep_view()[i as int] != b.deep_view()[i as int]);
            return false;
        }
        i = i + 1;
    }
    assert(a.deep_view() =~= b.deep_view());
    true
}

pub(crate) fn copy_path(a: &Vec<String>) -> (r: Vec<String>)
    ensures
        r.deep_view() == a.deep_view(),
{
    let mut r: Vec<String> = Vec::new();
    let mut i: usize = 0;
    while i < a.len()
        invariant
            i <= a.len(),
            r.deep_view() =~= a.deep_view().subrange(0, i as int),
        decreases a.len() - i,
    {
        let piece: String = a[i].clone();
        let ghost before = r.deep_view();
        r.push(piece);
        assert(r.deep_view() =~= before.push(a@[i as int]@));
        i = i + 1;
    }
    assert(a.deep_view().subrange(0, a.len() as int) =~= a.deep_view());
    r
}

fn insert_name(names: &mut Vec<String>, name: String)
    requires
        old(names).deep_view().no_duplicates(),
    ensures
        final(names).deep_view().no_duplicates(),
        final(names).deep_view().to_set() == old(names).deep_view().to_set().insert(name@),
{
    let mut i: usize = 0;
    let mut found = false;
    while i < names.len() && !found
        invariant
            i <= names.len(),
            found ==> names.deep_view().contains(name@),
            !found ==> forall|j: int| 0 <= j < i ==> names@[j]@ != name@,
            names == old(names),
        decreases names.len() - i,
    {
        if names[i] == name {
            assert(names.deep_view()[i as int] == name@);
            found = true;
        }
        i = i + 1;
    }
    let ghost before = names.deep_view();
    if found {
        assert(before.to_set() =~= before.to_set().insert(name@));
    } else {
        names.push(name);
        assert(names.deep_view() =~= before.push(name@));
        assert(!before.contains(name@)) by {
            if before.contains(name@) {
                let j = choose|j: int| 0 <= j < before.len() && before[j] == name@;
                assert(names@[j]@ == name@);
            }
        }
        proof {
            before.lemma_push_to_set_commute(name@);
        }
    }
}

fn new_dir(child: Option<String>) -> (r: ExtractedFilesEntry)
    ensures
        r.wf(),
        r.view() == EntryView::Dir(match child {
            Some(c) => Set::<Seq<char>>::empty().insert(c@),
            None => Set::<Seq<char>>::empty(),
        }),
{
    let mut names: Vec<String> = Vec::new();
    assert(names.deep_view() =~= Seq::<Seq<char>>::empty());
    assert(names.deep_view().to_set() =~= Set::<Seq<char>>::empty());
    match child {
        Some(c) => {
            insert_name(&mut names, c);
        },
        None => {},
    }
    ExtractedFilesEntry::Dir(names)
}

impl ExtractedFiles {
    /// The stored keys are distinct, each maps in the model to its stored entry,
    /// and every key of the model is stored.
    pub closed spec fn wf(&self) -> bool {
        &&& self.keys@.len() == self.entries@.len()
        &&& forall|i: int| 0 <= i < self.keys@.len() ==> {
            &&& self.model@.contains_key(#[trigger] self.keys@[i].deep_view())
            &&& self.model@[self.keys@[i].deep_view()] == self.entries@[i].view()
            &&& self.entries@[i].wf()
        }
        &&& forall|k: PathKey| #[trigger] self.model@.contains_key(k) ==> exists|i: int|
            0 <= i < self.keys@.len() && #[trigger] self.keys@[i].deep_view() == k
        &&& forall|i: int, j: int| 0 <= i < j < self.keys@.len() ==> #[trigger] self.keys@[i].deep_view()
            != #[trigger] self.keys@[j].deep_view()
    }

    /// An empty ledger.
    pub fn new() -> (r: ExtractedFiles)
        ensures
            r.wf(),
            r@ == Map::<PathKey, EntryView>::empty(),
    {
        ExtractedFiles { keys: Vec::new(), entries: Vec::new(), model: Ghost(Map::empty()) }
    }

    fn find(&self, key: &Vec<String>) -> (r: Option<usize>)
        requires
            self.wf(),
        ensures
            match r {
                Some(i) => i < self.keys@.len() && self.keys@[i as int].deep_view() == key.deep_view(),
                None => !self@.contains_key(key.deep_view()),
            },
    {
        let mut i: usize = 0;
        while i < self.keys.len()
            invariant
                self.wf(),
                i <= self.keys@.len(),
                forall|j: int| 0 <= j < i ==> self.keys@[j].deep_view() != key.deep_view(),
            decreases self.keys@.len() - i,
        {
            if same_path(&self.keys[i], key) {
                return Some(i);
            }
            i = i + 1;
        }
        None
    }

    fn add_dir_inner(&mut self, key: Vec<String>, child: Option<String>)
        requires
            old(self).wf(),
        ensures
            final(self).wf(),
            final(self)@ == old(self)@.insert(
                key.deep_view(),
                dir_with(old(self)@, key.deep_view(), name_of(child)),
            ),
    {
        let ghost k = key.deep_view();
        let ghost v = dir_with(self@, k, name_of(child));
        match self.find(&key) {
            Some(i) => {
                let old_entry = self.entries.remove(i);
                let new_entry = match old_entry {
                    ExtractedFilesEntry::Dir(mut names) => {
                        match child {
                            Some(c) => {
                                insert_name(&mut names, c);
                            },
                            None => {},
                        }
                        ExtractedFilesEntry::Dir(names)
                    },
                    ExtractedFilesEntry::File => new_dir(child),
                };
                self.entries.insert(i, new_entry);
                self.model = Ghost(self.model@.insert(k, v));
                assert(self.model@[k] == v);
            },
            None => {
                let new_entry = new_dir(child);
                self.keys.push(key);
                self.entries.push(new_entry);
                self.model = Ghost(self.model@.insert(k, v));
                assert(self.keys@[self.keys@.len() - 1].deep_view() == k);
            },
        }
        assert(self@ =~= old(self)@.insert(k, v));
        assert forall|k2: PathKey| #[trigger] self.model@.contains_key(k2) implies exists|i: int|
            0 <= i < self.keys@.len() && #[trigger] self.keys@[i].deep_view() == k2 by {
            if k2 != k {
                let i = choose|i: int| 0 <= i < old(self).keys@.len() && #[trigger] old(self).keys@[i].deep_view() == k2;
                assert(self.keys@[i].deep_view() == k2);
            }
        }
    }

    /// Record each ancestor of `key` as a directory that names the next component.
    fn add_ancestors(&mut self, key: Vec<String>)
        requires
            old(self).wf(),
        ensures
            final(self).wf(),
            final(self)@ == link_ancestors(old(self)@, key.deep_view()),
    {
        let mut cur = key;
        while cur.len() > 0
            invariant
                self.wf(),
                link_ancestors(self@, cur.deep_view()) == link_ancestors(old(self)@, key.deep_view()),
            decreases cur.len(),
        {
            let ghost before = cur.deep_view();
            let name = cur.pop().unwrap();
            assert(cur.deep_view() =~= before.drop_last());
            assert(name@ == before.last());
            let parent = copy_path(&cur);
            self.add_dir_inner(parent, Some(name));
        }
    }

    /// Record a regular file at `path`, which must not be the root, together with
    /// its ancestors as directories. A directory recorded at `path` before is
    /// replaced by the file.
    pub fn add_file(&mut self, path: &str)
        requires
            old(self).wf(),
            path_components(path@).len() > 0,
        ensures
            final(self).wf(),
            final(self)@ == record_file(old(self)@, path_components(path@)),
    {
        let key = parse_path(path);
        self.add_file_key(key);
    }

    /// Record a regular file at the path with the components `key`, which must
    /// not be the root, together with its ancestors as directories.
    pub fn add_file_key(&mut self, key: Vec<String>)
        requires
            old(self).wf(),
            key@.len() > 0,
        ensures
            final(self).wf(),
            final(self)@ == record_file(old(self)@, key.deep_view()),
    {
        let ghost k = key.deep_view();
        let copy = copy_path(&key);
        match self.find(&key) {
            Some(i) => {
                self.entries.set(i, ExtractedFilesEntry::File);
                self.model = Ghost(self.model@.insert(k, EntryView::File));
            },
            None => {
                self.keys.push(key);
                self.entries.push(ExtractedFilesEntry::File);
                self.model = Ghost(self.model@.insert(k, EntryView::File));
                assert(self.keys@[self.keys@.len() - 1].deep_view() == k);
            },
        }
        assert forall|k2: PathKey| #[trigger] self.model@.contains_key(k2) implies exists|i: int|
            0 <= i < self.keys@.len() && #[trigger] self.keys@[i].deep_view() == k2 by {
            if k2 != k {
                let i = choose|i: int| 0 <= i < old(self).keys@.len() && #[trigger] old(self).keys@[i].deep_view() == k2;
                assert(self.keys@[i].deep_view() == k2);
            }
        }
        self.add_ancestors(copy);
    }

    /// Record a directory at `path` (the root included) together with its
    /// ancestors. A directory recorded there before keeps its names; a file
    /// recorded there before becomes an empty directory.
    pub fn add_dir(&mut self, path: &str)
        requires
            old(self).wf(),
        ensures
            final(self).wf(),
            final(self)@ == record_dir(old(self)@, path_components(path@)),
    {
        let key = parse_path(path);
        self.add_dir_key(key);
    }

    /// Record a directory at the path with the components `key` (the root
    /// included) together with its ancestors.
    pub fn add_dir_key(&mut self, key: Vec<String>)
        requires
            old(self).wf(),
        ensures
            final(self).wf(),
            final(self)@ == record_dir(old(self)@, key.deep_view()),
    {
        let copy = copy_path(&key);
        self.add_dir_inner(key, None);
        self.add_ancestors(copy);
    }

    /// The entry recorded at `path`, if any.
    pub fn get_entry(&self, path: &str) -> (r: Option<&ExtractedFilesEntry>)
        requires
            self.wf(),
        ensures
            match r {
                Some(e) => self@.contains_key(path_components(path@))
                    && self@[path_components(path@)] == e.view() && e.wf(),
                None => !self@.contains_key(path_components(path@)),
            },
    {
        let key = parse_path(path);
        match self.find(&key) {
            Some(i) => Some(&self.entries[i]),
            None => None,
        }
    }

    /// The names of the immediate children of `path`, if it is recorded as a
    /// directory.
    pub fn get_dir(&self, path: &str) -> (r: Option<&Vec<String>>)
        requires
            self.wf(),
        ensures
            match r {
                Some(names) => dir_at(self@, path_components(path@)) == Some(names.deep_view().to_set())
                    && names.deep_view().no_duplicates(),
                None => dir_at(self@, path_components(path@)) is None,
            },
    {
        match self.get_entry(path) {
            Some(ExtractedFilesEntry::Dir(names)) => Some(names),
            _ => None,
        }
    }

    /// Whether `path` is recorded as a regular file.
    pub fn has_file(&self, path: &str) -> (r: bool)
        requires
            self.wf(),
        ensures
            r == file_at(self@, path_components(path@)),
    {
        match self.get_entry(path) {
            Some(ExtractedFilesEntry::File) => true,
            _ => false,
        }
    }
}

/// `ledger_closed` but for the parent link of `k`, which may still be missing.
pub open spec fn closed_except(m: Map<PathKey, EntryView>, k: PathKey) -> bool {
    &&& forall|j: PathKey| #[trigger] m.contains_key(j) && j.len() > 0 && j != k ==> {
        &&& m.contains_key(j.drop_last())
        &&& m[j.drop_last()] is Dir
        &&& m[j.drop_last()]->Dir_0.contains(j.last())
    }
    &&& forall|j: PathKey, c: Seq<char>| #[trigger] m.contains_key(j) && m[j] is Dir
        && #[trigger] m[j]->Dir_0.contains(c) ==> m.contains_key(j.push(c))
}

proof fn lemma_link_closes(m: Map<PathKey, EntryView>, k: PathKey)
    requires
        closed_except(m, k),
        m.contains_key(k),
        k.len() == 0 ==> m[k] is Dir,
    ensures
        ledger_closed(link_ancestors(m, k)),
        link_ancestors(m, k).contains_key(Seq::empty()),
        link_ancestors(m, k)[Seq::empty()] is Dir,
    decreases k.len(),
{
    if k.len() == 0 {
        assert(k =~= Seq::<Seq<char>>::empty());
    } else {
        let p = k.drop_last();
        let m2 = m.insert(p, dir_with(m, p, Some(k.last())));
        assert(p.push(k.last()) =~= k);
        assert forall|j: PathKey| #[trigger] m2.contains_key(j) && j.len() > 0 && j != p implies {
            &&& m2.contains_key(j.drop_last())
            &&& m2[j.drop_last()] is Dir
            &&& m2[j.drop_last()]->Dir_0.contains(j.last())
        } by {
            if j != k {
                assert(m.contains_key(j));
            }
        }
        assert forall|j: PathKey, c: Seq<char>| #[trigger] m2.contains_key(j) && m2[j] is Dir
            && #[trigger] m2[j]->Dir_0.contains(c) implies m2.contains_key(j.push(c)) by {
            if j == p {
                if c != k.last() {
                    assert(m.contains_key(p) && m[p] is Dir && m[p]->Dir_0.contains(c));
                }
            } else {
                assert(m.contains_key(j) && m[j] is Dir && m[j]->Dir_0.contains(c));
            }
        }
        lemma_link_closes(m2, p);
    }
}

/// Recording a path keeps the ledger closed: every recorded path but the root
/// has its parent recorded as a directory that names it, and afterwards the root
/// is recorded as a directory. The root cannot be recorded as a file, and a file
/// recorded over a directory that names children would leave them without a
/// parent directory, so neither is covered.
pub proof fn lemma_record_keeps_closed(m: Map<PathKey, EntryView>, k: PathKey, is_dir: bool)
    requires
        ledger_closed(m),
        is_dir || (k.len() > 0 && !populated_dir(m, k)),
    ensures
        ({
            let r = if is_dir { record_dir(m, k) } else { record_file(m, k) };
            ledger_closed(r) && r.contains_key(Seq::empty()) && r[Seq::empty()] is Dir
        }),
{
    if is_dir {
        let m1 = m.insert(k, dir_with(m, k, None));
        assert forall|j: PathKey| #[trigger] m1.contains_key(j) && j.len() > 0 && j != k implies {
            &&& m1.contains_key(j.drop_last())
            &&& m1[j.drop_last()] is Dir
            &&& m1[j.drop_last()]->Dir_0.contains(j.last())
        } by {
            assert(m.contains_key(j));
        }
        assert forall|j: PathKey, c: Seq<char>| #[trigger] m1.contains_key(j) && m1[j] is Dir
            && #[trigger] m1[j]->Dir_0.contains(c) implies m1.contains_key(j.push(c)) by {
            if j == k {
                assert(m.contains_key(k) && m[k] is Dir && m[k]->Dir_0.contains(c));
            } else {
                assert(m.contains_key(j) && m[j] is Dir && m[j]->Dir_0.contains(c));
            }
        }
        lemma_link_closes(m1, k);
    } else {
        let m1 = m.insert(k, EntryView::File);
        assert forall|j: PathKey| #[trigger] m1.contains_key(j) && j.len() > 0 && j != k implies {
            &&& m1.contains_key(j.drop_last())
            &&& m1[j.drop_last()] is Dir
            &&& m1[j.drop_last()]->Dir_0.contains(j.last())
        } by {
            assert(m.contains_key(j));
            if j.drop_last() == k {
                assert(m[k]->Dir_0.contains(j.last()));
                assert(m[k]->Dir_0 != Set::<Seq<char>>::empty());
            }
        }
        assert forall|j: PathKey, c: Seq<char>| #[trigger] m1.contains_key(j) && m1[j] is Dir
            && #[trigger] m1[j]->Dir_0.contains(c) implies m1.contains_key(j.push(c)) by {
            assert(m.contains_key(j) && m[j] is Dir && m[j]->Dir_0.contains(c));
        }
        lemma_link_closes(m1, k);
    }
}

/// A recorded path is a file or a directory and never both; a path that is not
/// recorded is neither.
pub proof fn lemma_file_or_dir(m: Map<PathKey, EntryView>, k: PathKey)
    ensures
        m.contains_key(k) ==> (file_at(m, k) <==> dir_at(m, k) is None),
        !m.contains_key(k) ==> !file_at(m, k) && dir_at(m, k) is None,
{
}

} // verus!
