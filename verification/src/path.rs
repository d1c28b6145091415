//! File paths as text, and what the platform's path rules say of them.

use crate::outside::{
    ancestors_of, extension_of, file_name_of, path_ancestors, path_extension, path_file_name,
};
use vstd::prelude::*;
use vstd::std_specs::cmp::PartialEqSpecImpl;
use vstd::utf8::encode_utf8;

verus! {

/// A location in the file system, kept as text so that it reads the same on
/// both sides of the wire. The empty path stands for the list of drives.
#[derive(Debug)]
pub struct PitouFilePath {
    pub path: String,
}

impl View for PitouFilePath {
    type V = Seq<char>;

    open spec fn view(&self) -> Seq<char> {
        self.path@
    }
}

impl Clone for PitouFilePath {
    fn clone(&self) -> (r: Self)
        ensures
            r@ == self@,
    {
        PitouFilePath { path: self.path.clone() }
    }
}

impl PartialEq for PitouFilePath {
    fn eq(&self, other: &Self) -> (r: bool) {
        self.path == other.path
    }
}

impl PartialEqSpecImpl for PitouFilePath {
    open spec fn obeys_eq_spec() -> bool {
        true
    }

    open spec fn eq_spec(&self, other: &Self) -> bool {
        self.path@ == other.path@
    }
}

/// The display name of a path: `Drives` for the empty path, else its final
/// component, or nothing where it has none.
pub open spec fn display_name(path: Seq<char>) -> Seq<char> {
    if path.len() == 0 {
        "Drives"@
    } else {
        match file_name_of(path) {
            Some(name) => name,
            None => Seq::empty(),
        }
    }
}

/// The extension of a path, or nothing where it has none.
pub open spec fn display_extension(path: Seq<char>) -> Seq<char> {
    match extension_of(path) {
        Some(ext) => ext,
        None => Seq::empty(),
    }
}

/// The text that was found, or the empty text where nothing was.
pub fn text_or_empty<'a>(found: Option<&'a str>) -> (r: &'a str)
    ensures
        r@ == match found {
            Some(text) => text@,
            None => Seq::empty(),
        },
{
    match found {
        Some(text) => text,
        None => {
            proof {
                reveal_strlit("");
                assert(""@ =~= Seq::<char>::empty());
            }
            ""
        },
    }
}

/// The name to show for a path, given whether the path is empty and the
/// final component that was found in it.
pub fn shown_name<'a>(path_is_empty: bool, file_name: Option<&'a str>) -> (r: &'a str)
    ensures
        r@ == if path_is_empty {
            "Drives"@
        } else {
            match file_name {
                Some(name) => name@,
                None => Seq::empty(),
            }
        },
{
    if path_is_empty {
        return "Drives";
    }
    text_or_empty(file_name)
}

/// Turns a list of paths round, so that the last comes first.
pub fn outermost_first(nearest_first: Vec<String>) -> (r: Vec<PitouFilePath>)
    ensures
        r@.len() == nearest_first@.len(),
        forall|i: int|
            0 <= i < r@.len() ==> (#[trigger] r@[i])@ == nearest_first@[r@.len() - 1 - i]@,
{
    let mut nearest_first = nearest_first;
    let ghost all = nearest_first@;
    let mut out: Vec<PitouFilePath> = Vec::new();
    while nearest_first.len() > 0
        invariant
            nearest_first@.len() + out@.len() == all.len(),
            nearest_first@ == all.subrange(0, nearest_first@.len() as int),
            forall|i: int| 0 <= i < out@.len() ==> (#[trigger] out@[i])@ == all[all.len() - 1 - i]@,
        decreases nearest_first@.len(),
    {
        let next = nearest_first.pop().unwrap();
        out.push(PitouFilePath::from_pathbuf(next));
    }
    out
}

impl PitouFilePath {
    /// The path's UTF-8 bytes.
    pub open spec fn bytes(&self) -> Seq<u8> {
        encode_utf8(self.path@)
    }

    pub fn name(&self) -> (r: &str)
        ensures
            r@ == display_name(self@),
    {
        shown_name(self.path.as_str().is_empty(), path_file_name(self.path.as_str()))
    }

    pub fn extension(&self) -> (r: &str)
        ensures
            r@ == display_extension(self@),
    {
        text_or_empty(path_extension(self.path.as_str()))
    }

    pub fn from_pathbuf(pathbuf: String) -> (r: Self)
        ensures
            r@ == pathbuf@,
    {
        PitouFilePath { path: pathbuf }
    }

    pub fn as_bytes(&self) -> (r: &[u8])
        ensures
            r@ == self.bytes(),
    {
        self.path.as_str().as_bytes()
    }

    /// The path's ancestors from the outermost down to the path itself.
    pub fn ancestors(&self) -> (r: Vec<PitouFilePath>)
        ensures
            r@.len() == ancestors_of(self@).len(),
            forall|i: int| 0 <= i < r@.len() ==> (#[trigger] r@[i])@ == ancestors_of(self@)[r@.len() - 1 - i],
            r@.len() >= 1,
            r@[r@.len() - 1]@ == self@,
    {
        outermost_first(path_ancestors(self.path.as_str()))
    }

    /// The length of the path in bytes.
    pub fn len(&self) -> (r: usize)
        ensures
            r == self.bytes().len(),
    {
        self.as_bytes().len()
    }
}

} // verus!
