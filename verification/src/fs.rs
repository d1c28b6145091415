//! Files with their metadata, and the sizes of what a directory holds.

use vstd::prelude::*;

verus! {

/// Whether a file can be written to or only read.
#[derive(Clone, Copy, Debug, PartialEq, Eq, Structural)]
pub enum Permission {
    Read,
    Write,
}

/// A directory or something that is no directory.
#[derive(Clone, Copy, Debug, PartialEq, Eq, Structural)]
pub enum Category {
    File,
    Folder,
}

/// A measure of size: a number of bytes goes in and comes out.
pub trait Unit: Sized {
    fn from_bytes(bytes: u64) -> Self;

    fn to_bytes(self) -> u64;
}

/// What is kept about a file beside its path.
#[derive(Clone, Copy, Debug, PartialEq, Eq, Structural)]
pub struct Metadata {
    pub category: Category,
    pub size: u64,
    pub permission: Permission,
}

impl Metadata {
    /// The metadata of a file, given what the file system says of it.
    pub fn of(is_dir: bool, len: u64, readonly: bool) -> (r: Metadata)
        ensures
            r.category == if is_dir {
                Category::Folder
            } else {
                Category::File
            },
            r.size == len,
            r.permission == if readonly {
                Permission::Read
            } else {
                Permission::Write
            },
    {
        let category = if is_dir {
            Category::Folder
        } else {
            Category::File
        };
        let size = len;
        let permission = if readonly {
            Permission::Read
        } else {
            Permission::Write
        };
        Self { category, size, permission }
    }

    pub fn permission(&self) -> (r: Permission)
        ensures
            r == self.permission,
    {
        self.permission
    }

    /// The size of the file in a unit of the caller's choice: what the unit
    /// makes of the file's number of bytes.
    pub fn size<S: Unit>(&self) -> (r: S)
        ensures
            S::from_bytes.ensures((self.size,), r),
    {
        S::from_bytes(self.size)
    }

    pub fn category(&self) -> (r: Category)
        ensures
            r == self.category,
    {
        self.category
    }
}

/// A file or a directory: its path and its metadata as they were last read.
/// Two of them are the same file when their paths are the same.
#[derive(Debug)]
pub struct File {
    pub path: String,
    pub metadata: Metadata,
}

impl Clone for File {
    fn clone(&self) -> (r: Self)
        ensures
            r == *self,
    {
        File { path: self.path.clone(), metadata: self.metadata }
    }
}

impl File {
    /// A file, given its path and what was read of it.
    pub fn get(path: String, metadata: Metadata) -> (r: File)
        ensures
            r.path == path,
            r.metadata == metadata,
    {
        Self { path, metadata }
    }

    /// Replaces the metadata by what was read anew.
    pub fn refresh(&mut self, metadata: Metadata)
        ensures
            final(self).path == old(self).path,
            final(self).metadata == metadata,
    {
        self.metadata = metadata;
    }

    pub fn is_dir(&self) -> (r: bool)
        ensures
            r == (self.metadata.category == Category::Folder),
    {
        matches!(self.metadata.category(), Category::Folder)
    }

    pub fn path(&self) -> (r: &String)
        ensures
            r == &self.path,
    {
        &self.path
    }

    pub fn size(&self) -> (r: u64)
        ensures
            r == self.metadata.size,
    {
        self.metadata.size
    }

    pub fn metadata(&self) -> (r: &Metadata)
        ensures
            r == &self.metadata,
    {
        &self.metadata
    }

    /// The size of the file with, for a directory, the weight of its entries.
    pub fn size_all(&self, entries: &Vec<DirContent>) -> (r: u64)
        requires
            self.metadata.size + total_weight(entries@) <= u64::MAX,
        ensures
            r == if self.metadata.category == Category::Folder {
                self.metadata.size + total_weight(entries@)
            } else {
                self.metadata.size as int
            },
    {
        let mut res = self.size();
        if self.is_dir() {
            res += sum_weights(entries);
        }
        res
    }
}

impl PartialEq for File {
    fn eq(&self, other: &Self) -> (r: bool) {
        self.path == other.path
    }
}

impl vstd::std_specs::cmp::PartialEqSpecImpl for File {
    open spec fn obeys_eq_spec() -> bool {
        true
    }

    open spec fn eq_spec(&self, other: &Self) -> bool {
        self.path@ == other.path@
    }
}

/// One entry of a directory: a file, or the error that reading it gave.
#[derive(Debug)]
pub enum DirContent {
    File(File),
    Error(std::io::Error),
}

impl DirContent {
    /// The file of an entry that is one.
    pub fn unwrap(self) -> (r: File)
        requires
            self is File,
        ensures
            r == self->File_0,
    {
        match self {
            Self::File(file) => file,
            Self::Error(_) => vstd::pervasive::unreached(),
        }
    }

    /// What an entry counts for in the weight of its directory: the size of
    /// a directory as its metadata gives it, and nothing for anything else.
    pub open spec fn spec_weight(self) -> nat {
        match self {
            DirContent::File(f) => if f.metadata.category == Category::Folder {
                f.metadata.size as nat
            } else {
                0
            },
            DirContent::Error(_) => 0,
        }
    }

    pub fn weight(&self) -> (r: u64)
        ensures
            r == self.spec_weight(),
    {
        match self {
            DirContent::File(f) => {
                if f.is_dir() {
                    f.size()
                } else {
                    0
                }
            },
            DirContent::Error(_) => 0,
        }
    }
}

/// The weight of a list of entries: the sum of what each counts for.
pub open spec fn total_weight(entries: Seq<DirContent>) -> nat
    decreases entries.len(),
{
    if entries.len() == 0 {
        0
    } else {
        total_weight(entries.drop_last()) + entries.last().spec_weight()
    }
}

/// A longer list weighs no less.
pub proof fn lemma_total_weight_grows(entries: Seq<DirContent>, upto: int)
    requires
        0 <= upto <= entries.len(),
    ensures
        total_weight(entries.take(upto)) <= total_weight(entries),
    decreases entries.len() - upto,
{
    if upto < entries.len() {
        lemma_total_weight_grows(entries, upto + 1);
        assert(entries.take(upto + 1).drop_last() =~= entries.take(upto));
    } else {
        assert(entries.take(upto) =~= entries);
    }
}

/// Adds up the weights of a list of entries.
pub fn sum_weights(entries: &Vec<DirContent>) -> (r: u64)
    requires
        total_weight(entries@) <= u64::MAX,
    ensures
        r == total_weight(entries@),
{
    let mut sum: u64 = 0;
    let mut i: usize = 0;
    while i < entries.len()
        invariant
            i <= entries@.len(),
            total_weight(entries@) <= u64::MAX,
            sum == total_weight(entries@.take(i as int)),
        decreases entries@.len() - i,
    {
        proof {
            assert(entries@.take(i + 1).drop_last() =~= entries@.take(i as int));
            lemma_total_weight_grows(entries@, i + 1);
        }
        sum = sum + entries[i].weight();
        i += 1;
    }
    assert(entries@.take(i as int) =~= entries@);
    sum
}

/// What a file holds: its bytes, or the error that reading them gave.
#[derive(Debug)]
pub enum FileContent {
    File(Vec<u8>),
    Error(std::io::Error),
}

impl FileContent {
    /// The bytes of a content that has some.
    pub fn unwrap(self) -> (r: Vec<u8>)
        requires
            self is File,
        ensures
            r == self->File_0,
    {
        match self {
            FileContent::File(bytes) => bytes,
            FileContent::Error(_) => vstd::pervasive::unreached(),
        }
    }
}

/// A file that is a directory.
#[derive(Debug)]
pub struct Directory(pub File);

impl Directory {
    /// The directory that was made at a path, with what was read of it.
    pub fn create(path: String, metadata: Metadata) -> (r: Self)
        ensures
            r.0.path == path,
            r.0.metadata == metadata,
    {
        Self(File::get(path, metadata))
    }

    /// The weight of the entries of the directory.
    pub fn weight(&self, entries: &Vec<DirContent>) -> (r: u64)
        requires
            total_weight(entries@) <= u64::MAX,
        ensures
            r == total_weight(entries@),
    {
        sum_weights(entries)
    }
}

/// A drive with its capacity in bytes.
#[derive(Debug)]
pub struct Drive {
    pub label: String,
    pub path: String,
    pub space: u64,
    pub free: u64,
}

impl Clone for Drive {
    fn clone(&self) -> (r: Self)
        ensures
            r == *self,
    {
        Drive { label: self.label.clone(), path: self.path.clone(), space: self.space, free: self.free }
    }
}

impl Drive {
    /// The capacity of the drive in a unit of the caller's choice: what the
    /// unit makes of the drive's number of bytes.
    pub fn total_space<S: Unit>(&self) -> (r: S)
        ensures
            S::from_bytes.ensures((self.space,), r),
    {
        S::from_bytes(self.space)
    }

    /// The space that is left on the drive in a unit of the caller's choice:
    /// what the unit makes of the number of bytes that are free.
    pub fn free_space<S: Unit>(&self) -> (r: S)
        ensures
            S::from_bytes.ensures((self.free,), r),
    {
        S::from_bytes(self.free)
    }

    /// The space that is taken, in bytes.
    pub fn used_bytes(&self) -> (r: u64)
        requires
            self.free <= self.space,
        ensures
            r == self.space - self.free,
    {
        self.space - self.free
    }

    /// The space that is taken on the drive in a unit of the caller's
    /// choice: what the unit makes of the number of bytes that are not free.
    pub fn used_space<S: Unit>(&self) -> (r: S)
        requires
            self.free <= self.space,
        ensures
            S::from_bytes.ensures(((self.space - self.free) as u64,), r),
    {
        S::from_bytes(self.used_bytes())
    }

    pub fn label(&self) -> (r: &String)
        ensures
            r == &self.label,
    {
        &self.label
    }

    pub fn path(&self) -> (r: &String)
        ensures
            r == &self.path,
    {
        &self.path
    }
}

} // verus!
