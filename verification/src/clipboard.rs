//! The clipboard: at most one selection of files, waiting to be pasted.

use crate::file::{models, FileModel, PitouFile};
use vstd::prelude::*;

verus! {

/// A selection on the clipboard, with what was asked of it.
#[derive(Debug)]
pub enum ClipboardItem {
    Copied(Vec<PitouFile>),
    Cut(Vec<PitouFile>),
}

/// What the specifications say of a `ClipboardItem`.
pub ghost enum ClipModel {
    Copied(Seq<FileModel>),
    Cut(Seq<FileModel>),
}

impl View for ClipboardItem {
    type V = ClipModel;

    open spec fn view(&self) -> ClipModel {
        match self {
            ClipboardItem::Copied(items) => ClipModel::Copied(models(items@)),
            ClipboardItem::Cut(items) => ClipModel::Cut(models(items@)),
        }
    }
}

impl ClipboardItem {
    pub fn is_cut(&self) -> (r: bool)
        ensures
            r == (self@ is Cut),
    {
        matches!(self, ClipboardItem::Cut(_))
    }

    /// The files of the selection.
    pub fn items(&self) -> (r: &Vec<PitouFile>)
        ensures
            models(r@) == match self@ {
                ClipModel::Copied(items) => items,
                ClipModel::Cut(items) => items,
            },
    {
        match self {
            ClipboardItem::Copied(items) => items,
            ClipboardItem::Cut(items) => items,
        }
    }
}

/// A copy of a list of files.
pub fn clone_files(files: &Vec<PitouFile>) -> (r: Vec<PitouFile>)
    ensures
        models(r@) == models(files@),
{
    let mut out: Vec<PitouFile> = Vec::new();
    let mut i: usize = 0;
    while i < files.len()
        invariant
            i <= files@.len(),
            models(out@) == models(files@.take(i as int)),
        decreases files@.len() - i,
    {
        let ghost before = out@;
        out.push(files[i].clone());
        assert(models(out@) =~= models(before).push(files@[i as int]@));
        assert(models(files@.take(i + 1)) =~= models(files@.take(i as int)).push(files@[i as int]@));
        i += 1;
    }
    assert(files@.take(i as int) =~= files@);
    out
}

/// What a paste hands out of a clipboard that holds `entry`, and what it
/// leaves there. A copied selection stays, to be pasted again. A cut
/// selection is handed out once and is gone.
pub open spec fn left_by_paste(entry: Option<ClipModel>) -> Option<ClipModel> {
    match entry {
        Some(ClipModel::Copied(items)) => Some(ClipModel::Copied(items)),
        _ => None,
    }
}

/// The clipboard. It holds one selection or none: a new one replaces the old.
pub struct Clipboard {
    entry: Option<ClipboardItem>,
}

impl View for Clipboard {
    type V = Option<ClipModel>;

    closed spec fn view(&self) -> Option<ClipModel> {
        match self.entry {
            Some(item) => Some(item@),
            None => None,
        }
    }
}

impl Clipboard {
    pub fn new() -> (r: Self)
        ensures
            r@ is None,
    {
        Clipboard { entry: None }
    }

    pub fn copy(&mut self, files: Vec<PitouFile>)
        ensures
            final(self)@ == Some(ClipModel::Copied(models(files@))),
    {
        self.entry = Some(ClipboardItem::Copied(files));
    }

    pub fn cut(&mut self, files: Vec<PitouFile>)
        ensures
            final(self)@ == Some(ClipModel::Cut(models(files@))),
    {
        self.entry = Some(ClipboardItem::Cut(files));
    }

    /// The number of selections held: one or none.
    pub fn len(&self) -> (r: usize)
        ensures
            r == if self@ is Some {
                1int
            } else {
                0int
            },
    {
        match &self.entry {
            Some(_) => 1,
            None => 0,
        }
    }

    /// Takes the selection at `idx` off the clipboard.
    pub fn remove_from_clipboard(&mut self, idx: usize)
        requires
            old(self)@ is Some,
            idx == 0,
        ensures
            final(self)@ is None,
    {
        self.entry = None;
    }

    pub fn clear_clipboard(&mut self)
        ensures
            final(self)@ is None,
    {
        self.entry = None;
    }

    pub fn is_empty(&self) -> (r: bool)
        ensures
            r == (self@ is None),
    {
        self.entry.is_none()
    }

    /// Hands out the selection, if there is one.
    pub fn paste(&mut self) -> (r: Option<ClipboardItem>)
        ensures
            match r {
                Some(item) => Some(item@) == old(self)@,
                None => old(self)@ is None,
            },
            final(self)@ == left_by_paste(old(self)@),
    {
        let items = self.entry.take();
        match &items {
            None => (),
            Some(v) => match v {
                ClipboardItem::Copied(u) => {
                    self.entry = Some(ClipboardItem::Copied(clone_files(u)));
                },
                ClipboardItem::Cut(_) => (),
            },
        }
        items
    }
}

/// A selection that was copied can be pasted any number of times: each paste
/// hands it out unchanged and leaves it on the clipboard.
pub proof fn lemma_copy_pastes_again(items: Seq<FileModel>)
    ensures
        left_by_paste(Some(ClipModel::Copied(items))) == Some(ClipModel::Copied(items)),
{
}

/// A selection that was cut can be pasted once: after that the clipboard is
/// empty, and stays so under further pastes.
pub proof fn lemma_cut_pastes_once(items: Seq<FileModel>)
    ensures
        left_by_paste(Some(ClipModel::Cut(items))) is None,
        left_by_paste(left_by_paste(Some(ClipModel::Cut(items)))) is None,
{
}

} // verus!
