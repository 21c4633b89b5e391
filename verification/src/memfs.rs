//! A small in-memory backend: a table of entries keyed by path, with the
//! read-side queries proved against their contracts.  It is the witness
//! that the query contracts are implementable, and the backend the tests
//! resolve against.

use vstd::prelude::*;

use crate::error::FsError;
use crate::model::{EntrySpec, FsState};
use crate::path::{CompView, VfsPath};
use crate::traits::{FsLink, FsRead, MAX_SYMLINK_DEPTH};
use crate::types::{FileType, Metadata};

verus! {

/// One entry of the in-memory table.
#[derive(Debug)]
enum MemEntry {
    /// A regular file.
    File,
    /// A directory.
    Directory,
    /// A symlink with its raw target.
    Symlink(VfsPath),
}

/// The ghost image of one entry.
spec fn entry_view(e: MemEntry) -> EntrySpec {
    match e {
        MemEntry::File => EntrySpec::File,
        MemEntry::Directory => EntrySpec::Directory,
        MemEntry::Symlink(t) => EntrySpec::Symlink(t@),
    }
}

/// The table denoted by a list of insertions: later entries override
/// earlier ones with the same path.
spec fn table_of(entries: Seq<(VfsPath, MemEntry)>) -> Map<Seq<CompView>, EntrySpec>
    decreases entries.len(),
{
    if entries.len() == 0 {
        Map::empty()
    } else {
        table_of(entries.drop_last()).insert(
            entries.last().0@,
            entry_view(entries.last().1),
        )
    }
}

/// An entry at position `i` whose path no later entry repeats is what the
/// table holds for that path.
proof fn lemma_table_of_found(entries: Seq<(VfsPath, MemEntry)>, p: Seq<CompView>, i: int)
    requires
        0 <= i < entries.len(),
        entries[i].0@ == p,
        forall|j: int| i < j < entries.len() ==> entries[j].0@ != p,
    ensures
        table_of(entries).contains_key(p),
        table_of(entries)[p] == entry_view(entries[i].1),
    decreases entries.len(),
{
    if i < entries.len() - 1 {
        assert(entries.drop_last()[i] == entries[i]);
        lemma_table_of_found(entries.drop_last(), p, i);
    }
}

/// A path that no entry carries is absent from the table.
proof fn lemma_table_of_absent(entries: Seq<(VfsPath, MemEntry)>, p: Seq<CompView>)
    requires
        forall|j: int| 0 <= j < entries.len() ==> entries[j].0@ != p,
    ensures
        !table_of(entries).contains_key(p),
    decreases entries.len(),
{
    if entries.len() > 0 {
        lemma_table_of_absent(entries.drop_last(), p);
    }
}

/// An in-memory filesystem backend.  Entries are added through `&mut`
/// methods before the backend is handed to readers; the query methods
/// answer from the table alone, so its queries are total.
#[derive(Debug)]
pub struct MemFs {
    entries: Vec<(VfsPath, MemEntry)>,
}

impl FsState for MemFs {
    closed spec fn entry_map(&self) -> Map<Seq<CompView>, EntrySpec> {
        table_of(self.entries@)
    }

    closed spec fn queries_total(&self) -> bool {
        true
    }
}

impl MemFs {
    /// A filesystem holding only the root directory.
    pub fn new() -> (r: Self)
        ensures
            r.entry_map() == Map::<Seq<CompView>, EntrySpec>::empty().insert(
                seq![CompView::Root],
                EntrySpec::Directory,
            ),
            r.queries_total(),
    {
        let mut fs = MemFs { entries: Vec::new() };
        fs.entries.push((VfsPath::root(), MemEntry::Directory));
        proof {
            assert(fs.entries@.drop_last() =~= Seq::<(VfsPath, MemEntry)>::empty());
            assert(fs.entries@.last().0@ =~= seq![CompView::Root]);
            assert(table_of(Seq::<(VfsPath, MemEntry)>::empty()) == Map::<
                Seq<CompView>,
                EntrySpec,
            >::empty());
            assert(fs.entry_map() =~= Map::<Seq<CompView>, EntrySpec>::empty().insert(
                seq![CompView::Root],
                EntrySpec::Directory,
            ));
        }
        fs
    }

    /// Record a regular file at `path`, replacing whatever entry held
    /// that path.
    pub fn add_file(&mut self, path: VfsPath)
        ensures
            final(self).entry_map() == old(self).entry_map().insert(path@, EntrySpec::File),
            final(self).queries_total(),
    {
        let ghost before = self.entries@;
        self.entries.push((path, MemEntry::File));
        proof {
            assert(self.entries@.drop_last() =~= before);
        }
    }

    /// Record a directory at `path`, replacing whatever entry held that
    /// path.
    pub fn add_dir(&mut self, path: VfsPath)
        ensures
            final(self).entry_map() == old(self).entry_map().insert(path@, EntrySpec::Directory),
            final(self).queries_total(),
    {
        let ghost before = self.entries@;
        self.entries.push((path, MemEntry::Directory));
        proof {
            assert(self.entries@.drop_last() =~= before);
        }
    }

    /// Record a symlink at `link` with the raw target `target`, replacing
    /// whatever entry held that path.
    pub fn add_symlink(&mut self, link: VfsPath, target: VfsPath)
        ensures
            final(self).entry_map() == old(self).entry_map().insert(
                link@,
                EntrySpec::Symlink(target@),
            ),
            final(self).queries_total(),
    {
        let ghost before = self.entries@;
        self.entries.push((link, MemEntry::Symlink(target)));
        proof {
            assert(self.entries@.drop_last() =~= before);
        }
    }

    /// The entry at `path`, if any: the latest insertion wins.
    fn find(&self, path: &VfsPath) -> (r: Option<&MemEntry>)
        ensures
            match r {
                Some(e) => self.entry_map().contains_key(path@) && entry_view(*e)
                    == self.entry_map()[path@],
                None => !self.entry_map().contains_key(path@),
            },
    {
        let n = self.entries.len();
        let mut i: usize = n;
        while i > 0
            invariant
                i <= n,
                n == self.entries@.len(),
                forall|j: int| i <= j < n ==> self.entries@[j].0@ != path@,
            decreases i,
        {
            i = i - 1;
            if self.entries[i].0 == *path {
                proof {
                    lemma_table_of_found(self.entries@, path@, i as int);
                }
                return Some(&self.entries[i].1);
            }
        }
        proof {
            lemma_table_of_absent(self.entries@, path@);
        }
        None
    }

    /// Metadata following symlinks, with a fuel bound on the chain.
    fn metadata_at(&self, path: &VfsPath, fuel: usize) -> (r: Result<Metadata, FsError>)
        ensures
            r matches Ok(m) ==> self.entry_map().contains_key(path@) && (self.entry_map()[path@]
                is File ==> m.file_type is File) && (self.entry_map()[path@] is Directory
                ==> m.file_type is Directory),
            !self.entry_map().contains_key(path@) ==> (r matches Err(e) && e is NotFound),
            self.entry_map().contains_key(path@) && !(self.entry_map()[path@] is Symlink) ==> r
                is Ok,
        decreases fuel,
    {
        let target: VfsPath;
        match self.find(path) {
            None => {
                return Err(FsError::NotFound { path: path.clone() });
            },
            Some(MemEntry::File) => {
                let mut m = Metadata::default();
                m.file_type = FileType::File;
                m.inode = 1;
                return Ok(m);
            },
            Some(MemEntry::Directory) => {
                let mut m = Metadata::default();
                m.file_type = FileType::Directory;
                m.inode = 1;
                return Ok(m);
            },
            Some(MemEntry::Symlink(t)) => {
                target = t.clone();
            },
        }
        if fuel == 0 {
            Err(FsError::InvalidData {
                path: path.clone(),
                details: "symlink chain too deep".to_owned(),
            })
        } else {
            match self.metadata_at(&target, fuel - 1) {
                Ok(m) => Ok(m),
                Err(e) => Err(e),
            }
        }
    }
}

impl FsRead for MemFs {
    /// The table records entry types only, so a file's contents are
    /// empty.
    fn read(&self, path: &VfsPath) -> Result<Vec<u8>, FsError> {
        match self.find(path) {
            None => Err(FsError::NotFound { path: path.clone() }),
            Some(_) => Ok(Vec::new()),
        }
    }

    fn read_to_string(&self, path: &VfsPath) -> Result<String, FsError> {
        match self.find(path) {
            None => Err(FsError::NotFound { path: path.clone() }),
            Some(_) => Ok(String::new()),
        }
    }

    fn read_range(&self, path: &VfsPath, offset: u64, len: usize) -> Result<Vec<u8>, FsError> {
        match self.find(path) {
            None => Err(FsError::NotFound { path: path.clone() }),
            Some(_) => Ok(Vec::new()),
        }
    }

    fn path_exists(&self, path: &VfsPath) -> (r: Result<bool, FsError>) {
        match self.find(path) {
            None => Ok(false),
            Some(_) => Ok(true),
        }
    }

    fn metadata(&self, path: &VfsPath) -> (r: Result<Metadata, FsError>) {
        self.metadata_at(path, MAX_SYMLINK_DEPTH)
    }
}

impl FsLink for MemFs {
    /// The table is built through the `&mut` methods; the shared-access
    /// creation operations are not offered.
    fn symlink(&self, target: &VfsPath, link: &VfsPath) -> Result<(), FsError> {
        Err(FsError::NotSupported { operation: "symlink" })
    }

    fn hard_link(&self, original: &VfsPath, link: &VfsPath) -> Result<(), FsError> {
        Err(FsError::NotSupported { operation: "hard_link" })
    }

    fn read_link(&self, path: &VfsPath) -> (r: Result<VfsPath, FsError>) {
        match self.find(path) {
            None => Err(FsError::NotFound { path: path.clone() }),
            Some(MemEntry::Symlink(t)) => Ok(t.clone()),
            Some(_) => Err(FsError::InvalidData {
                path: path.clone(),
                details: "not a symlink".to_owned(),
            }),
        }
    }

    fn symlink_metadata(&self, path: &VfsPath) -> (r: Result<Metadata, FsError>) {
        match self.find(path) {
            None => Err(FsError::NotFound { path: path.clone() }),
            Some(MemEntry::File) => {
                let mut m = Metadata::default();
                m.file_type = FileType::File;
                m.inode = 1;
                Ok(m)
            },
            Some(MemEntry::Directory) => {
                let mut m = Metadata::default();
                m.file_type = FileType::Directory;
                m.inode = 1;
                Ok(m)
            },
            Some(MemEntry::Symlink(_)) => {
                let mut m = Metadata::default();
                m.file_type = FileType::Symlink;
                m.inode = 1;
                Ok(m)
            },
        }
    }
}

} // verus!
