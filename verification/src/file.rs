//! Files as the engines see them: a path and, where it could be read, metadata.

use crate::digits::{decimal, decimal_text};
use crate::extra::{contains_ignore_case, is_infix};
use crate::path::{display_name, PitouFilePath};
use vstd::prelude::*;
use vstd::std_specs::cmp::PartialEqSpecImpl;
use vstd::utf8::encode_utf8;
use vstd::string::{StrSliceExecFns, StringExecFns};

verus! {

/// A point in time, in milliseconds since the Unix epoch (UTC).
#[derive(Clone, Copy, Debug, PartialEq, Eq, Structural)]
pub struct PitouDateTime {
    pub datetime: i64,
}

/// What `format_duration` writes for a number of seconds: the seconds up to
/// two minutes, then whole minutes up to 7200 of them, then whole hours up
/// to 172800 of them, then whole days.
pub open spec fn duration_text(time: u64) -> Seq<char> {
    if time <= 120 {
        decimal_text(time as nat) + " secs"@
    } else if time / 60 <= 7200 {
        decimal_text((time / 60) as nat) + " mins"@
    } else if time / 3600 <= 172800 {
        decimal_text((time / 3600) as nat) + " hrs"@
    } else {
        decimal_text((time / 86400) as nat) + " days"@
    }
}

impl PitouDateTime {
    /// Writes a length of time, given in seconds, in the largest unit that
    /// suits it.
    pub fn format_duration(time: u64) -> (r: String)
        ensures
            r@ == duration_text(time),
    {
        let mins: u64 = 60;
        let hrs: u64 = 60 * 60;
        let days: u64 = 24 * 60 * 60;
        if time <= 2 * mins {
            let mut out = decimal(time);
            out.append(" secs");
            return out;
        }
        let mins_time = time / mins;
        if mins_time <= 2 * hrs {
            let mut out = decimal(mins_time);
            out.append(" mins");
            return out;
        }
        let hrs_time = time / hrs;
        if hrs_time <= 2 * days {
            let mut out = decimal(hrs_time);
            out.append(" hrs");
            return out;
        }
        let days_time = time / days;
        let mut out = decimal(days_time);
        out.append(" days");
        out
    }
}

#[derive(Clone, Copy, Debug, PartialEq, Eq, Structural)]
pub enum PitouFileKind {
    Directory,
    File,
    Link,
}

impl PitouFileKind {
    /// The kind of what the file system calls a directory, a file or neither.
    pub fn of(is_dir: bool, is_file: bool) -> (r: Self)
        ensures
            r == if is_dir {
                PitouFileKind::Directory
            } else if is_file {
                PitouFileKind::File
            } else {
                PitouFileKind::Link
            },
    {
        if is_dir {
            Self::Directory
        } else if is_file {
            Self::File
        } else {
            Self::Link
        }
    }
}

/// A size. For a file it counts bytes. For a directory that came out of a
/// listing it counts the directory's entries.
#[derive(Clone, Copy, Debug, PartialEq, Eq, Structural)]
pub struct PitouFileSize {
    pub bytes: u64,
}

/// What `format_as_dir_entries` writes for a count of entries.
pub open spec fn dir_entries_text(count: u64) -> Seq<char> {
    if count == 0 {
        "Empty"@
    } else if count == 1 {
        "1 item"@
    } else {
        decimal_text(count as nat) + " items"@
    }
}

impl PitouFileSize {
    pub fn new(value: u64) -> (r: Self)
        ensures
            r.bytes == value,
    {
        Self { bytes: value }
    }

    /// Reads the size as a number of directory entries.
    pub fn format_as_dir_entries(&self) -> (r: String)
        ensures
            r@ == dir_entries_text(self.bytes),
    {
        if self.bytes == 0 {
            String::from_str("Empty")
        } else if self.bytes == 1 {
            String::from_str("1 item")
        } else {
            let mut out = decimal(self.bytes);
            out.append(" items");
            out
        }
    }
}

#[derive(Clone, Copy, Debug, PartialEq, Eq, Structural)]
pub struct PitouFileMetadata {
    pub modified: PitouDateTime,
    pub accessed: PitouDateTime,
    pub created: PitouDateTime,
    pub size: PitouFileSize,
    pub kind: PitouFileKind,
    pub attribute: u32,
}

impl PitouFileMetadata {
    pub open spec fn spec_is_sys_item(&self) -> bool {
        self.attribute == 2 || self.attribute == 256
    }

    pub fn is_dir(&self) -> (r: bool)
        ensures
            r == (self.kind == PitouFileKind::Directory),
    {
        matches!(self.kind, PitouFileKind::Directory)
    }

    pub fn kind(&self) -> (r: PitouFileKind)
        ensures
            r == self.kind,
    {
        self.kind
    }

    /// Hidden items and system items carry one of two attribute values.
    pub fn is_sys_item(&self) -> (r: bool)
        ensures
            r == self.spec_is_sys_item(),
    {
        match self.attribute {
            2 => true,
            256 => true,
            _ => false,
        }
    }
}

/// A file, a directory or a link. Two of them are the same file when their
/// paths are the same.
#[derive(Debug)]
pub struct PitouFile {
    pub path: PitouFilePath,
    pub metadata: Option<PitouFileMetadata>,
}

/// What the specifications say of a `PitouFile`.
pub ghost struct FileModel {
    pub path: Seq<char>,
    pub metadata: Option<PitouFileMetadata>,
}

impl FileModel {
    pub open spec fn has_kind(self, kind: PitouFileKind) -> bool {
        match self.metadata {
            None => false,
            Some(metadata) => metadata.kind == kind,
        }
    }

    pub open spec fn is_dir(self) -> bool {
        self.has_kind(PitouFileKind::Directory)
    }

    pub open spec fn is_file(self) -> bool {
        self.has_kind(PitouFileKind::File)
    }

    pub open spec fn is_link(self) -> bool {
        self.has_kind(PitouFileKind::Link)
    }

    pub open spec fn is_sys_item(self) -> bool {
        match self.metadata {
            None => false,
            Some(metadata) => metadata.spec_is_sys_item(),
        }
    }

    pub open spec fn name(self) -> Seq<char> {
        display_name(self.path)
    }
}

/// Where `c` stands last in a text, or -1 where it does not stand in it.
pub open spec fn last_index_of(text: Seq<char>, c: char) -> int
    decreases text.len(),
{
    if text.len() == 0 {
        -1
    } else if text.last() == c {
        text.len() - 1
    } else {
        last_index_of(text.drop_last(), c)
    }
}

/// A name without what follows its last dot, the dot included. A name
/// without a dot is left as it is.
pub open spec fn stem(name: Seq<char>) -> Seq<char> {
    if last_index_of(name, '.') < 0 {
        name
    } else {
        name.take(last_index_of(name, '.'))
    }
}

/// Cuts a name before its last dot.
pub fn stem_of(name: &str) -> (r: &str)
    ensures
        r@ == stem(name@),
{
    let mut end: usize = name.unicode_len();
    assert(name@.take(end as int) =~= name@);
    while end > 0
        invariant
            end <= name@.len(),
            last_index_of(name@, '.') == last_index_of(name@.take(end as int), '.'),
        decreases end,
    {
        let ghost head = name@.take(end as int);
        assert(head.last() == name@[end - 1]);
        assert(head.drop_last() =~= name@.take(end - 1));
        if name.get_char(end - 1) == '.' {
            let cut = name.substring_char(0, end - 1);
            assert(name@.subrange(0, end - 1) =~= name@.take(end - 1));
            return cut;
        }
        end -= 1;
    }
    name
}

/// The models of a sequence of files, in order.
pub open spec fn models(files: Seq<PitouFile>) -> Seq<FileModel> {
    files.map_values(|f: PitouFile| f@)
}

impl View for PitouFile {
    type V = FileModel;

    open spec fn view(&self) -> FileModel {
        FileModel { path: self.path@, metadata: self.metadata }
    }
}

impl Clone for PitouFile {
    fn clone(&self) -> (r: Self)
        ensures
            r@ == self@,
    {
        PitouFile { path: self.path.clone(), metadata: self.metadata }
    }
}

impl PartialEq for PitouFile {
    fn eq(&self, other: &Self) -> (r: bool) {
        self.path == other.path
    }
}

impl PartialEqSpecImpl for PitouFile {
    open spec fn obeys_eq_spec() -> bool {
        true
    }

    open spec fn eq_spec(&self, other: &Self) -> bool {
        self.path@ == other.path@
    }
}

impl PitouFile {
    /// A file as a directory walk finds it: the path and what could be read of it.
    pub fn new(path: String, metadata: Option<PitouFileMetadata>) -> (r: Self)
        ensures
            r@ == (FileModel { path: path@, metadata }),
    {
        Self { path: PitouFilePath::from_pathbuf(path), metadata }
    }

    /// A file as a listing shows it: a directory's size is replaced by the
    /// number of its entries, everything else is kept.
    pub fn from_pathbuf(path: String, metadata: Option<PitouFileMetadata>, entries: u64) -> (r:
        Self)
        ensures
            r@.path == path@,
            r@.metadata == match metadata {
                None => None,
                Some(m) => Some(
                    if m.kind == PitouFileKind::Directory {
                        PitouFileMetadata { size: PitouFileSize { bytes: entries }, ..m }
                    } else {
                        m
                    },
                ),
            },
    {
        let metadata = match metadata {
            None => None,
            Some(m) => {
                if m.is_dir() {
                    Some(
                        PitouFileMetadata {
                            modified: m.modified,
                            accessed: m.accessed,
                            created: m.created,
                            size: PitouFileSize::new(entries),
                            kind: m.kind,
                            attribute: m.attribute,
                        },
                    )
                } else {
                    Some(m)
                }
            },
        };
        Self { path: PitouFilePath::from_pathbuf(path), metadata }
    }

    /// The same path without metadata.
    pub fn clone_inner(&self) -> (r: Self)
        ensures
            r@ == (FileModel { path: self@.path, metadata: None }),
    {
        Self::without_metadata(self.path.clone())
    }

    pub fn without_metadata(path: PitouFilePath) -> (r: Self)
        ensures
            r@ == (FileModel { path: path@, metadata: None }),
    {
        Self { path, metadata: None }
    }

    pub fn kind(&self) -> (r: Option<PitouFileKind>)
        ensures
            r == match self.metadata {
                None => None,
                Some(m) => Some(m.kind),
            },
    {
        match &self.metadata {
            None => None,
            Some(m) => Some(m.kind),
        }
    }

    pub fn full_path_str(&self) -> (r: &str)
        ensures
            r@ == self@.path,
    {
        self.path.path.as_str()
    }

    pub fn is_dir(&self) -> (r: bool)
        ensures
            r == self@.is_dir(),
    {
        match &self.metadata {
            None => false,
            Some(metadata) => matches!(metadata.kind, PitouFileKind::Directory),
        }
    }

    pub fn is_sys_item(&self) -> (r: bool)
        ensures
            r == self@.is_sys_item(),
    {
        match &self.metadata {
            None => false,
            Some(metadata) => metadata.is_sys_item(),
        }
    }

    pub fn is_link(&self) -> (r: bool)
        ensures
            r == self@.is_link(),
    {
        match &self.metadata {
            None => false,
            Some(metadata) => matches!(metadata.kind, PitouFileKind::Link),
        }
    }

    pub fn is_file(&self) -> (r: bool)
        ensures
            r == self@.is_file(),
    {
        match &self.metadata {
            None => false,
            Some(metadata) => matches!(metadata.kind, PitouFileKind::File),
        }
    }

    pub fn name(&self) -> (r: &str)
        ensures
            r@ == self@.name(),
    {
        self.path.name()
    }

    /// The name as it is shown where extensions are hidden: a directory
    /// keeps its whole name.
    pub fn name_without_extension(&self) -> (r: &str)
        ensures
            r@ == if self@.is_dir() {
                self@.name()
            } else {
                stem(self@.name())
            },
    {
        if self.is_dir() {
            self.name()
        } else {
            stem_of(self.name())
        }
    }

    /// The file itself, if `key` occurs in its name,
    /// ASCII letters compared without case.
    pub fn matches_find(&self, key: &str) -> (r: Option<PitouFile>)
        ensures
            r is Some <==> is_infix(encode_utf8(key@), encode_utf8(self@.name()), true),
            r is Some ==> r->Some_0@ == self@,
    {
        if contains_ignore_case(key, self.name()) {
            Some(self.clone())
        } else {
            None
        }
    }

    pub fn path(&self) -> (r: &PitouFilePath)
        ensures
            r == &self.path,
    {
        &self.path
    }

    pub fn metadata(&self) -> (r: &Option<PitouFileMetadata>)
        ensures
            r == &self.metadata,
    {
        &self.metadata
    }
}

/// Which kinds of item a listing or a search lets through.
#[derive(Clone, Copy, Debug, PartialEq, Eq, Structural)]
pub struct PitouFileFilter {
    pub files: bool,
    pub links: bool,
    pub dirs: bool,
    pub sys_items: bool,
}

impl PitouFileFilter {
    /// Whether the filter lets a file through: it does when the file is of one
    /// of the kinds that are switched on.
    pub open spec fn admits(self, file: FileModel) -> bool {
        ||| (file.is_dir() && self.dirs)
        ||| (file.is_file() && self.files)
        ||| (file.is_link() && self.links)
        ||| (file.is_sys_item() && self.sys_items)
    }

    pub open spec fn spec_all_filtered(self) -> bool {
        !self.dirs && !self.files && !self.links
    }

    /// Everything but system items.
    pub fn new() -> (r: Self)
        ensures
            r == (Self { files: true, links: true, dirs: true, sys_items: false }),
    {
        Self { files: true, links: true, dirs: true, sys_items: false }
    }

    pub fn only_dirs() -> (r: Self)
        ensures
            r == (Self { files: false, links: false, dirs: true, sys_items: false }),
    {
        Self { files: false, links: false, dirs: true, sys_items: false }
    }

    /// Decides for one file without taking it.
    pub fn allows(&self, file: &PitouFile) -> (r: bool)
        ensures
            r == self.admits(file@),
    {
        (file.is_dir() && self.dirs) || (file.is_file() && self.files) || (file.is_link()
            && self.links) || (file.is_sys_item() && self.sys_items)
    }

    /// Hands the file back if the filter lets it through.
    pub fn map(self, file: PitouFile) -> (r: Option<PitouFile>)
        ensures
            r is Some <==> self.admits(file@),
            r is Some ==> r->Some_0 == file,
    {
        if self.allows(&file) {
            Some(file)
        } else {
            None
        }
    }

    /// True when no file, directory or link can pass: a search with such a
    /// filter is not worth starting.
    pub fn all_filtered(self) -> (r: bool)
        ensures
            r == self.spec_all_filtered(),
    {
        !self.dirs && !self.files && !self.links
    }
}

} // verus!
