//! Items of the trash.

use crate::file::{PitouDateTime, PitouFileSize};
use crate::path::{display_name, PitouFilePath};
use vstd::prelude::*;

verus! {

#[derive(Debug)]
pub struct PitouTrashItemMetadata {
    pub id: String,
    pub deleted: PitouDateTime,
    pub size: PitouFileSize,
    pub is_dir: bool,
}

/// Something that was deleted, with where it used to be.
#[derive(Debug)]
pub struct PitouTrashItem {
    pub original_path: PitouFilePath,
    pub metadata: PitouTrashItemMetadata,
}

impl PitouTrashItem {
    pub fn path(&self) -> (r: &PitouFilePath)
        ensures
            r == &self.original_path,
    {
        &self.original_path
    }

    pub fn id(&self) -> (r: &str)
        ensures
            r@ == self.metadata.id@,
    {
        self.metadata.id.as_str()
    }

    pub fn metadata(&self) -> (r: &PitouTrashItemMetadata)
        ensures
            r == &self.metadata,
    {
        &self.metadata
    }

    pub fn name(&self) -> (r: &str)
        ensures
            r@ == display_name(self.original_path@),
    {
        self.original_path.name()
    }

    pub fn is_dir(&self) -> (r: bool)
        ensures
            r == self.metadata.is_dir,
    {
        self.metadata.is_dir
    }

    /// What a listing of the trash yields for an item: its size is a number
    /// of bytes for a file and a number of entries for a directory.
    pub fn from_listing(
        original_parent: &PitouFilePath,
        name: &str,
        id: String,
        deleted: PitouDateTime,
        size: u64,
        is_dir: bool,
    ) -> (r: Self)
        ensures
            r.original_path@ == crate::outside::joined_path(original_parent@, name@),
            r.metadata.id == id,
            r.metadata.deleted == deleted,
            r.metadata.size.bytes == size,
            r.metadata.is_dir == is_dir,
    {
        let metadata = PitouTrashItemMetadata { id, deleted, is_dir, size: PitouFileSize::new(size) };
        PitouTrashItem {
            original_path: PitouFilePath::from_pathbuf(
                crate::outside::path_join(original_parent.path.as_str(), name),
            ),
            metadata,
        }
    }
}

} // verus!
