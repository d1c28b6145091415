//! What the front end keeps about where the user is.

use crate::drive::{GeneralFolder, PitouDrive};
use crate::file::PitouFile;
use crate::trash::PitouTrashItem;
use vstd::prelude::*;
use vstd::std_specs::cmp::PartialEqSpecImpl;

verus! {

/// The folders that a tab has been in, oldest first, and the one it is in now.
#[derive(Debug)]
pub struct FolderTracker {
    pub items: Vec<PitouFile>,
    pub idx: usize,
}

impl FolderTracker {
    /// The current folder is one of those on record.
    pub open spec fn wf(&self) -> bool {
        self.idx < self.items@.len()
    }

    pub fn new(val: PitouFile) -> (r: Self)
        ensures
            r.wf(),
            r.idx == 0,
            r.items@ == seq![val],
    {
        let mut items: Vec<PitouFile> = Vec::new();
        items.push(val);
        assert(items@ =~= seq![val]);
        Self { items, idx: 0 }
    }

    pub fn current(&self) -> (r: PitouFile)
        requires
            self.wf(),
        ensures
            r@ == self.items@[self.idx as int]@,
    {
        self.items[self.idx].clone()
    }

    pub fn all(&self) -> (r: &Vec<PitouFile>)
        ensures
            r == &self.items,
    {
        &self.items
    }

    /// The folder that going forward leads to, if there is one.
    pub fn next(&self) -> (r: Option<PitouFile>)
        ensures
            r is Some <==> self.idx + 1 < self.items@.len(),
            r is Some ==> r->Some_0@ == self.items@[self.idx + 1]@,
    {
        if self.idx >= self.items.len() || self.idx + 1 >= self.items.len() {
            None
        } else {
            Some(self.items[self.idx + 1].clone())
        }
    }

    /// The folder that going back leads to, if there is one.
    pub fn prev(&self) -> (r: Option<PitouFile>)
        requires
            self.wf(),
        ensures
            r is Some <==> self.idx > 0,
            r is Some ==> r->Some_0@ == self.items@[self.idx - 1]@,
    {
        if self.idx == 0 {
            None
        } else {
            Some(self.items[self.idx - 1].clone())
        }
    }

    /// Enters a folder: what lay ahead is forgotten, and the new folder
    /// becomes the last on record and the current one.
    pub fn update_directory(&mut self, new_dir: PitouFile)
        requires
            old(self).wf(),
        ensures
            final(self).wf(),
            final(self).idx == old(self).idx + 1,
            final(self).items@ == old(self).items@.take(old(self).idx + 1).push(new_dir),
    {
        while self.idx < self.items.len() - 1
            invariant
                self.idx == old(self).idx,
                self.idx < self.items@.len() <= old(self).items@.len(),
                self.items@ == old(self).items@.take(self.items@.len() as int),
            decreases self.items@.len(),
        {
            self.items.pop();
        }
        self.items.push(new_dir);
        self.idx += 1;
    }

    pub fn go_backward(&mut self)
        ensures
            final(self).items == old(self).items,
            final(self).idx == if old(self).idx > 0 {
                old(self).idx - 1
            } else {
                0
            },
    {
        if self.idx > 0 {
            self.idx -= 1;
        }
    }

    pub fn go_forward(&mut self)
        ensures
            final(self).items == old(self).items,
            final(self).idx == if old(self).idx + 1 < old(self).items@.len() {
                old(self).idx + 1
            } else {
                old(self).idx as int
            },
    {
        if self.idx < self.items.len() && self.idx + 1 < self.items.len() {
            self.idx += 1;
        }
    }
}

/// The entries of a directory as the front end receives them.
#[derive(Debug)]
pub struct DirChildren {
    pub children: Vec<PitouFile>,
}

/// A general folder as a selection holds it: told apart by its path alone.
#[derive(Debug)]
pub struct GenFolderWrap {
    pub folder: GeneralFolder,
}

impl GenFolderWrap {
    pub fn new(folder: GeneralFolder) -> (r: Self)
        ensures
            r.folder == folder,
    {
        Self { folder }
    }
}

impl PartialEq for GenFolderWrap {
    fn eq(&self, other: &Self) -> (r: bool) {
        self.folder.path() == other.folder.path()
    }
}

impl PartialEqSpecImpl for GenFolderWrap {
    open spec fn obeys_eq_spec() -> bool {
        true
    }

    open spec fn eq_spec(&self, other: &Self) -> bool {
        self.folder.spec_path()@ == other.folder.spec_path()@
    }
}

/// A file as a selection holds it: told apart by its path alone.
#[derive(Debug)]
pub struct PitouFileWrap {
    pub inner: PitouFile,
}

impl PitouFileWrap {
    pub fn new(inner: PitouFile) -> (r: Self)
        ensures
            r.inner == inner,
    {
        Self { inner }
    }
}

impl PartialEq for PitouFileWrap {
    fn eq(&self, other: &Self) -> (r: bool) {
        self.inner.path() == other.inner.path()
    }
}

impl PartialEqSpecImpl for PitouFileWrap {
    open spec fn obeys_eq_spec() -> bool {
        true
    }

    open spec fn eq_spec(&self, other: &Self) -> bool {
        self.inner@.path == other.inner@.path
    }
}

/// A drive as a selection holds it: told apart by its mount point alone.
#[derive(Debug)]
pub struct PitouDriveWrap {
    pub drive: PitouDrive,
}

impl PitouDriveWrap {
    pub fn new(drive: PitouDrive) -> (r: Self)
        ensures
            r.drive == drive,
    {
        Self { drive }
    }
}

impl PartialEq for PitouDriveWrap {
    fn eq(&self, other: &Self) -> (r: bool) {
        self.drive.mount_point() == other.drive.mount_point()
    }
}

impl PartialEqSpecImpl for PitouDriveWrap {
    open spec fn obeys_eq_spec() -> bool {
        true
    }

    open spec fn eq_spec(&self, other: &Self) -> bool {
        self.drive.mount_point@ == other.drive.mount_point@
    }
}

/// An item of the trash as a selection holds it: told apart by its id alone.
#[derive(Debug)]
pub struct PitouTrashItemWrap {
    pub item: PitouTrashItem,
}

impl PitouTrashItemWrap {
    pub fn new(item: PitouTrashItem) -> (r: Self)
        ensures
            r.item == item,
    {
        Self { item }
    }
}

impl PartialEq for PitouTrashItemWrap {
    fn eq(&self, other: &Self) -> (r: bool) {
        self.item.metadata.id == other.item.metadata.id
    }
}

impl PartialEqSpecImpl for PitouTrashItemWrap {
    open spec fn obeys_eq_spec() -> bool {
        true
    }

    open spec fn eq_spec(&self, other: &Self) -> bool {
        self.item.metadata.id@ == other.item.metadata.id@
    }
}

/// The six positions of the wheel that tells the views to refresh.
#[derive(Clone, Copy, Debug, PartialEq, Eq, Structural)]
pub enum State {
    State1,
    State2,
    State3,
    State4,
    State5,
    State6,
}

impl State {
    /// The position after this one; after the last comes the first.
    pub open spec fn following(self) -> State {
        match self {
            State::State1 => State::State2,
            State::State2 => State::State3,
            State::State3 => State::State4,
            State::State4 => State::State5,
            State::State5 => State::State6,
            State::State6 => State::State1,
        }
    }
}

#[derive(Clone, Copy, Debug, PartialEq, Eq, Structural)]
pub struct RefresherState {
    pub state: State,
}

impl RefresherState {
    pub fn default() -> (r: Self)
        ensures
            r.state == State::State1,
    {
        Self { state: State::State1 }
    }

    /// Turns the wheel by one position.
    pub fn toggle_refresher_state(&mut self)
        ensures
            final(self).state == old(self).state.following(),
    {
        match self.state {
            State::State1 => self.state = State::State2,
            State::State2 => self.state = State::State3,
            State::State3 => self.state = State::State4,
            State::State4 => self.state = State::State5,
            State::State5 => self.state = State::State6,
            State::State6 => self.state = State::State1,
        }
    }
}

/// Six turns of the wheel bring it back to where it was.
pub proof fn lemma_refresher_cycles(state: State)
    ensures
        state.following().following().following().following().following().following() == state,
{
}

} // verus!
