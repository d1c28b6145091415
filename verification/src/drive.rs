//! Drives and the folders that every user has.

use crate::file::{FileModel, PitouFile};
use crate::path::{display_name, PitouFilePath};
use vstd::prelude::*;
use vstd::std_specs::cmp::PartialEqSpecImpl;
use vstd::string::StringExecFns;

verus! {

#[derive(Clone, Copy, Debug, PartialEq, Eq, Structural)]
pub enum PitouDriveKind {
    HDD,
    SSD,
    Unknown,
}

/// A drive. Two drives are the same when they are mounted at the same path.
#[derive(Debug)]
pub struct PitouDrive {
    pub name: String,
    pub mount_point: PitouFilePath,
    pub total_space: u64,
    pub free_space: u64,
    pub is_removable: bool,
    pub kind: PitouDriveKind,
}

impl PitouDrive {
    pub fn mount_point(&self) -> (r: &PitouFilePath)
        ensures
            r == &self.mount_point,
    {
        &self.mount_point
    }

    /// The drive's mount point as a file without metadata.
    pub fn as_pitou_file(&self) -> (r: PitouFile)
        ensures
            r@ == (FileModel { path: self.mount_point@, metadata: None }),
    {
        PitouFile::without_metadata(self.mount_point.clone())
    }
}

impl PartialEq for PitouDrive {
    fn eq(&self, other: &Self) -> (r: bool) {
        self.mount_point == other.mount_point
    }
}

impl PartialEqSpecImpl for PitouDrive {
    open spec fn obeys_eq_spec() -> bool {
        true
    }

    open spec fn eq_spec(&self, other: &Self) -> bool {
        self.mount_point@ == other.mount_point@
    }
}

/// One of the folders that every user has, with where it is on this machine.
#[derive(Debug)]
pub enum GeneralFolder {
    DocumentsFolder(PitouFilePath),
    AudiosFolder(PitouFilePath),
    PicturesFolder(PitouFilePath),
    VideosFolder(PitouFilePath),
    DesktopFolder(PitouFilePath),
    DownloadsFolder(PitouFilePath),
}

impl GeneralFolder {
    pub open spec fn spec_path(&self) -> PitouFilePath {
        match self {
            GeneralFolder::DocumentsFolder(path) => *path,
            GeneralFolder::AudiosFolder(path) => *path,
            GeneralFolder::PicturesFolder(path) => *path,
            GeneralFolder::VideosFolder(path) => *path,
            GeneralFolder::DesktopFolder(path) => *path,
            GeneralFolder::DownloadsFolder(path) => *path,
        }
    }

    /// What the folder is called, whatever its directory is named.
    pub open spec fn title(&self) -> Seq<char> {
        match self {
            GeneralFolder::DocumentsFolder(_) => "Documents"@,
            GeneralFolder::AudiosFolder(_) => "Audios"@,
            GeneralFolder::PicturesFolder(_) => "Pictures"@,
            GeneralFolder::VideosFolder(_) => "Videos"@,
            GeneralFolder::DesktopFolder(_) => "Desktop"@,
            GeneralFolder::DownloadsFolder(_) => "Downloads"@,
        }
    }

    /// The name of the folder's directory on this machine.
    pub fn o_name(&self) -> (r: &str)
        ensures
            r@ == display_name(self.spec_path()@),
    {
        match self {
            GeneralFolder::DocumentsFolder(d) => d.name(),
            GeneralFolder::AudiosFolder(a) => a.name(),
            GeneralFolder::PicturesFolder(p) => p.name(),
            GeneralFolder::VideosFolder(v) => v.name(),
            GeneralFolder::DesktopFolder(d) => d.name(),
            GeneralFolder::DownloadsFolder(d) => d.name(),
        }
    }

    pub fn as_pitou_file(&self) -> (r: PitouFile)
        ensures
            r@ == (FileModel { path: self.spec_path()@, metadata: None }),
    {
        PitouFile::without_metadata(self.path().clone())
    }

    pub fn name(&self) -> (r: String)
        ensures
            r@ == self.title(),
    {
        match self {
            GeneralFolder::DocumentsFolder(_) => String::from_str("Documents"),
            GeneralFolder::AudiosFolder(_) => String::from_str("Audios"),
            GeneralFolder::PicturesFolder(_) => String::from_str("Pictures"),
            GeneralFolder::VideosFolder(_) => String::from_str("Videos"),
            GeneralFolder::DesktopFolder(_) => String::from_str("Desktop"),
            GeneralFolder::DownloadsFolder(_) => String::from_str("Downloads"),
        }
    }

    pub fn path(&self) -> (r: &PitouFilePath)
        ensures
            *r == self.spec_path(),
    {
        match self {
            GeneralFolder::DocumentsFolder(path) => path,
            GeneralFolder::AudiosFolder(path) => path,
            GeneralFolder::PicturesFolder(path) => path,
            GeneralFolder::VideosFolder(path) => path,
            GeneralFolder::DesktopFolder(path) => path,
            GeneralFolder::DownloadsFolder(path) => path,
        }
    }
}

impl PartialEq for GeneralFolder {
    fn eq(&self, other: &Self) -> (r: bool) {
        match (self, other) {
            (GeneralFolder::DocumentsFolder(a), GeneralFolder::DocumentsFolder(b)) => a == b,
            (GeneralFolder::AudiosFolder(a), GeneralFolder::AudiosFolder(b)) => a == b,
            (GeneralFolder::PicturesFolder(a), GeneralFolder::PicturesFolder(b)) => a == b,
            (GeneralFolder::VideosFolder(a), GeneralFolder::VideosFolder(b)) => a == b,
            (GeneralFolder::DesktopFolder(a), GeneralFolder::DesktopFolder(b)) => a == b,
            (GeneralFolder::DownloadsFolder(a), GeneralFolder::DownloadsFolder(b)) => a == b,
            _ => false,
        }
    }
}

impl PartialEqSpecImpl for GeneralFolder {
    open spec fn obeys_eq_spec() -> bool {
        true
    }

    open spec fn eq_spec(&self, other: &Self) -> bool {
        match (self, other) {
            (GeneralFolder::DocumentsFolder(a), GeneralFolder::DocumentsFolder(b)) => a@ == b@,
            (GeneralFolder::AudiosFolder(a), GeneralFolder::AudiosFolder(b)) => a@ == b@,
            (GeneralFolder::PicturesFolder(a), GeneralFolder::PicturesFolder(b)) => a@ == b@,
            (GeneralFolder::VideosFolder(a), GeneralFolder::VideosFolder(b)) => a@ == b@,
            (GeneralFolder::DesktopFolder(a), GeneralFolder::DesktopFolder(b)) => a@ == b@,
            (GeneralFolder::DownloadsFolder(a), GeneralFolder::DownloadsFolder(b)) => a@ == b@,
            _ => false,
        }
    }
}

/// The user's folders in the order in which they are shown: desktop,
/// downloads, audios, videos, pictures, documents.
pub fn general_folders(
    desktop: PitouFilePath,
    downloads: PitouFilePath,
    audios: PitouFilePath,
    videos: PitouFilePath,
    pictures: PitouFilePath,
    documents: PitouFilePath,
) -> (r: Vec<GeneralFolder>)
    ensures
        r@ == seq![
            GeneralFolder::DesktopFolder(desktop),
            GeneralFolder::DownloadsFolder(downloads),
            GeneralFolder::AudiosFolder(audios),
            GeneralFolder::VideosFolder(videos),
            GeneralFolder::PicturesFolder(pictures),
            GeneralFolder::DocumentsFolder(documents),
        ],
{
    let mut out: Vec<GeneralFolder> = Vec::new();
    out.push(GeneralFolder::DesktopFolder(desktop));
    out.push(GeneralFolder::DownloadsFolder(downloads));
    out.push(GeneralFolder::AudiosFolder(audios));
    out.push(GeneralFolder::VideosFolder(videos));
    out.push(GeneralFolder::PicturesFolder(pictures));
    out.push(GeneralFolder::DocumentsFolder(documents));
    assert(out@ =~= seq![
        GeneralFolder::DesktopFolder(desktop),
        GeneralFolder::DownloadsFolder(downloads),
        GeneralFolder::AudiosFolder(audios),
        GeneralFolder::VideosFolder(videos),
        GeneralFolder::PicturesFolder(pictures),
        GeneralFolder::DocumentsFolder(documents),
    ]);
    out
}

} // verus!
