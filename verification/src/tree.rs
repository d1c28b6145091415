//! A directory tree held in memory: what a walk of the file system would find.

use crate::file::PitouFile;
use vstd::prelude::*;

verus! {

/// One entry of a directory. `children` holds the entries below it where it
/// is a directory that could be listed, and nothing otherwise.
#[derive(Debug)]
pub struct TreeNode {
    pub file: PitouFile,
    pub children: Option<Vec<TreeNode>>,
}

impl TreeNode {
    /// An entry with nothing below it.
    pub fn leaf(file: PitouFile) -> (r: Self)
        ensures
            r.file == file,
            r.children is None,
    {
        TreeNode { file, children: None }
    }

    /// A directory with its entries.
    pub fn branch(file: PitouFile, children: Vec<TreeNode>) -> (r: Self)
        ensures
            r.file == file,
            r.children == Some(children),
    {
        TreeNode { file, children: Some(children) }
    }
}

} // verus!
