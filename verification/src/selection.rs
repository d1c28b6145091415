//! What the user has selected: sets of items that are told apart by a text.

use crate::drive::{GeneralFolder, PitouDrive};
use crate::extra::window_matches;
use crate::file::{FileModel, PitouFile};
use crate::frontend::{GenFolderWrap, PitouDriveWrap, PitouFileWrap, PitouTrashItemWrap};
use crate::trash::PitouTrashItem;
use vstd::prelude::*;
use vstd::utf8::encode_utf8_decode_utf8;

verus! {

/// Whether two texts are the same.
pub fn same_text(a: &str, b: &str) -> (r: bool)
    ensures
        r == (a@ == b@),
{
    let x = a.as_bytes();
    let y = b.as_bytes();
    proof {
        encode_utf8_decode_utf8(a@);
        encode_utf8_decode_utf8(b@);
    }
    if x.len() != y.len() {
        return false;
    }
    let same = window_matches(x, y, 0, false);
    proof {
        if same {
            assert(x@ =~= y@);
        }
    }
    same
}

/// Something that is told apart from others of its kind by a text.
pub trait Keyed {
    spec fn key(&self) -> Seq<char>;

    fn key_text(&self) -> (r: &str)
        ensures
            r@ == self.key(),
    ;
}

impl Keyed for PitouFileWrap {
    open spec fn key(&self) -> Seq<char> {
        self.inner@.path
    }

    fn key_text(&self) -> (r: &str) {
        self.inner.full_path_str()
    }
}

impl Keyed for PitouDriveWrap {
    open spec fn key(&self) -> Seq<char> {
        self.drive.mount_point@
    }

    fn key_text(&self) -> (r: &str) {
        self.drive.mount_point.path.as_str()
    }
}

impl Keyed for GenFolderWrap {
    open spec fn key(&self) -> Seq<char> {
        self.folder.spec_path()@
    }

    fn key_text(&self) -> (r: &str) {
        self.folder.path().path.as_str()
    }
}

impl Keyed for PitouTrashItemWrap {
    open spec fn key(&self) -> Seq<char> {
        self.item.metadata.id@
    }

    fn key_text(&self) -> (r: &str) {
        self.item.id()
    }
}

/// An entry of the folder that is shown, as a selection holds it: told
/// apart by its name alone.
#[derive(Debug)]
pub struct FolderEntry {
    pub item: PitouFile,
}

impl FolderEntry {
    pub fn new(item: PitouFile) -> (r: Self)
        ensures
            r.item == item,
    {
        Self { item }
    }
}

impl Keyed for FolderEntry {
    open spec fn key(&self) -> Seq<char> {
        self.item@.name()
    }

    fn key_text(&self) -> (r: &str) {
        self.item.name()
    }
}

/// No two items go by the same text.
pub open spec fn distinct<T: Keyed>(items: Seq<T>) -> bool {
    forall|i: int, j: int| 0 <= i < j < items.len() ==> items[i].key() != items[j].key()
}

/// An item goes by this text.
pub open spec fn holds<T: Keyed>(items: Seq<T>, key: Seq<char>) -> bool {
    exists|i: int| 0 <= i < items.len() && #[trigger] items[i].key() == key
}

/// Where the item that goes by `key` stands, if there is one.
pub fn position<T: Keyed>(items: &Vec<T>, key: &str) -> (r: Option<usize>)
    ensures
        r is Some <==> holds(items@, key@),
        r is Some ==> r->Some_0 < items@.len() && items@[r->Some_0 as int].key() == key@,
{
    let mut i: usize = 0;
    while i < items.len()
        invariant
            i <= items@.len(),
            forall|k: int| 0 <= k < i ==> (#[trigger] items@[k]).key() != key@,
        decreases items@.len() - i,
    {
        if same_text(items[i].key_text(), key) {
            return Some(i);
        }
        i += 1;
    }
    None
}

/// Adds an item unless one goes by its text already. Says whether it was added.
pub fn insert<T: Keyed>(items: &mut Vec<T>, item: T) -> (added: bool)
    requires
        distinct(old(items)@),
    ensures
        distinct(final(items)@),
        added == !holds(old(items)@, item.key()),
        final(items)@ == if added {
            old(items)@.push(item)
        } else {
            old(items)@
        },
        forall|other: Seq<char>|
            holds(final(items)@, other) <==> (holds(old(items)@, other) || other == item.key()),
{
    let ghost before = items@;
    let added = if position(items, item.key_text()).is_some() {
        false
    } else {
        items.push(item);
        true
    };
    proof {
        assert forall|other: Seq<char>| holds(items@, other) <==> (holds(before, other) || other
            == item.key()) by {
            if holds(before, other) {
                let i = choose|i: int| 0 <= i < before.len() && #[trigger] before[i].key() == other;
                assert(items@[i].key() == other);
            }
            if added {
                assert(items@[before.len() as int].key() == item.key());
            }
            if holds(items@, other) {
                let i = choose|i: int| 0 <= i < items@.len() && #[trigger] items@[i].key() == other;
                if i < before.len() {
                    assert(before[i].key() == other);
                }
            }
        }
    }
    added
}

/// Takes out the item that goes by `key`. Says whether there was one.
pub fn remove<T: Keyed>(items: &mut Vec<T>, key: &str) -> (removed: bool)
    requires
        distinct(old(items)@),
    ensures
        distinct(final(items)@),
        removed == holds(old(items)@, key@),
        !holds(final(items)@, key@),
        forall|other: Seq<char>|
            other != key@ ==> (holds(final(items)@, other) <==> holds(old(items)@, other)),
        final(items)@.len() == old(items)@.len() - if removed {
            1int
        } else {
            0int
        },
{
    match position(items, key) {
        None => false,
        Some(at) => {
            let ghost before = items@;
            let _ = items.remove(at);
            proof {
                assert(items@ == before.remove(at as int));
                assert forall|other: Seq<char>| other != key@ implies (holds(items@, other) <==> holds(
                    before,
                    other,
                )) by {
                    if holds(before, other) {
                        let i = choose|i: int| 0 <= i < before.len() && #[trigger] before[i].key() == other;
                        let to = if i < at { i } else { i - 1 };
                        assert(items@[to].key() == other);
                    }
                    if holds(items@, other) {
                        let i = choose|i: int| 0 <= i < items@.len() && #[trigger] items@[i].key() == other;
                        let from = if i < at { i } else { i + 1 };
                        assert(before[from].key() == other);
                    }
                }
                if holds(items@, key@) {
                    let i = choose|i: int| 0 <= i < items@.len() && #[trigger] items@[i].key() == key@;
                    let from = if i < at { i } else { i + 1 };
                    assert(before[from].key() == key@);
                }
                assert forall|i: int, j: int| 0 <= i < j < items@.len() implies items@[i].key()
                    != items@[j].key() by {
                    let fi = if i < at { i } else { i + 1 };
                    let fj = if j < at { j } else { j + 1 };
                    assert(items@[i] == before[fi] && items@[j] == before[fj]);
                }
            }
            true
        },
    }
}

/// The selected entries of the folder that is shown.
#[derive(Debug)]
pub struct FolderEntrySelections {
    pub items: Vec<FolderEntry>,
}

/// The selection. Everything in it is of one kind.
#[derive(Debug)]
pub enum Selections {
    Drives(Vec<PitouDriveWrap>),
    FolderEntries(FolderEntrySelections),
    SearchResults(Vec<PitouFileWrap>),
    GeneralFolders(Vec<GenFolderWrap>),
    RecentFiles(Vec<PitouFileWrap>),
    PinnedFiles(Vec<PitouFileWrap>),
    TrashItems(Vec<PitouTrashItemWrap>),
}

impl Selections {
    /// Nothing is selected twice.
    pub open spec fn wf(&self) -> bool {
        match self {
            Selections::Drives(items) => distinct(items@),
            Selections::FolderEntries(entries) => distinct(entries.items@),
            Selections::SearchResults(items) => distinct(items@),
            Selections::GeneralFolders(items) => distinct(items@),
            Selections::RecentFiles(items) => distinct(items@),
            Selections::PinnedFiles(items) => distinct(items@),
            Selections::TrashItems(items) => distinct(items@),
        }
    }

    /// How many items are selected.
    pub open spec fn count(&self) -> nat {
        match self {
            Selections::Drives(items) => items@.len(),
            Selections::FolderEntries(entries) => entries.items@.len(),
            Selections::SearchResults(items) => items@.len(),
            Selections::GeneralFolders(items) => items@.len(),
            Selections::RecentFiles(items) => items@.len(),
            Selections::PinnedFiles(items) => items@.len(),
            Selections::TrashItems(items) => items@.len(),
        }
    }
}

/// What the front end holds that does not belong to a tab.
#[derive(Debug)]
pub struct StaticData {
    pub drives: Option<Vec<PitouDrive>>,
    pub selections: Selections,
    pub trash_items: Option<Vec<PitouTrashItem>>,
    pub gen_dirs: Option<Vec<GeneralFolder>>,
}

impl StaticData {
    pub open spec fn wf(&self) -> bool {
        self.selections.wf()
    }

    /// The search result with this path is selected.
    pub open spec fn search_result_selected(&self, path: Seq<char>) -> bool {
        match self.selections {
            Selections::SearchResults(items) => holds(items@, path),
            _ => false,
        }
    }

    /// The entry with this name is selected.
    pub open spec fn folder_entry_selected(&self, name: Seq<char>) -> bool {
        match self.selections {
            Selections::FolderEntries(entries) => holds(entries.items@, name),
            _ => false,
        }
    }

    /// The drive that is mounted at this path is selected.
    pub open spec fn drive_selected(&self, mount_point: Seq<char>) -> bool {
        match self.selections {
            Selections::Drives(items) => holds(items@, mount_point),
            _ => false,
        }
    }

    /// The general folder at this path is selected.
    pub open spec fn gen_folder_selected(&self, path: Seq<char>) -> bool {
        match self.selections {
            Selections::GeneralFolders(items) => holds(items@, path),
            _ => false,
        }
    }

    /// The item of the trash with this id is selected.
    pub open spec fn trash_item_selected(&self, id: Seq<char>) -> bool {
        match self.selections {
            Selections::TrashItems(items) => holds(items@, id),
            _ => false,
        }
    }

    pub fn new() -> (r: Self)
        ensures
            r.wf(),
            r.drives is None,
            r.trash_items is None,
            r.gen_dirs is None,
            r.selections is Drives,
            r.selections.count() == 0,
    {
        Self {
            drives: None,
            selections: Selections::Drives(Vec::new()),
            trash_items: None,
            gen_dirs: None,
        }
    }

    /// Whether every one of the given search results is selected. A list
    /// that is longer than the selection is never taken for selected.
    pub fn are_all_selected_search_results(&self, items: &Vec<PitouFile>) -> (r: bool)
        ensures
            r == (self.selections is SearchResults && items@.len() <= self.selections.count()
                && forall|i: int|
                0 <= i < items@.len() ==> self.search_result_selected((#[trigger] items@[i])@.path)),
    {
        if let Selections::SearchResults(sr) = &self.selections {
            if sr.len() < items.len() {
                return false;
            }
            let mut i: usize = 0;
            while i < items.len()
                invariant
                    i <= items@.len(),
                    self.selections == Selections::SearchResults(*sr),
                    forall|k: int|
                        0 <= k < i ==> self.search_result_selected((#[trigger] items@[k])@.path),
                decreases items@.len() - i,
            {
                if position(sr, items[i].full_path_str()).is_none() {
                    return false;
                }
                i += 1;
            }
            true
        } else {
            false
        }
    }

    /// Whether every one of the given folder entries is selected. A list
    /// that is longer than the selection is never taken for selected.
    pub fn are_all_selected_folder_entries(&self, items: &Vec<PitouFile>) -> (r: bool)
        ensures
            r == (self.selections is FolderEntries && items@.len() <= self.selections.count()
                && forall|i: int|
                0 <= i < items@.len() ==> self.folder_entry_selected((#[trigger] items@[i])@.name())),
    {
        if let Selections::FolderEntries(fe) = &self.selections {
            if fe.items.len() < items.len() {
                return false;
            }
            let mut i: usize = 0;
            while i < items.len()
                invariant
                    i <= items@.len(),
                    self.selections == Selections::FolderEntries(*fe),
                    forall|k: int|
                        0 <= k < i ==> self.folder_entry_selected((#[trigger] items@[k])@.name()),
                decreases items@.len() - i,
            {
                if position(&fe.items, items[i].name()).is_none() {
                    return false;
                }
                i += 1;
            }
            true
        } else {
            false
        }
    }

    /// Whether there is something selected that can be deleted: drives and
    /// general folders cannot.
    pub fn can_attempt_delete(&self) -> (r: bool)
        ensures
            r == (!(self.selections is Drives) && !(self.selections is GeneralFolders)
                && self.selections.count() > 0),
    {
        match &self.selections {
            Selections::Drives(_) => false,
            Selections::FolderEntries(fe) => fe.items.len() > 0,
            Selections::SearchResults(sr) => sr.len() > 0,
            Selections::GeneralFolders(_) => false,
            Selections::RecentFiles(rf) => rf.len() > 0,
            Selections::PinnedFiles(pf) => pf.len() > 0,
            Selections::TrashItems(ti) => ti.len() > 0,
        }
    }

    /// One of the selected items as a file to open, if there is one. Items
    /// of the trash cannot be opened.
    pub fn openable_selection(&self) -> (r: Option<PitouFile>)
        ensures
            r is Some <==> !(self.selections is TrashItems) && self.selections.count() > 0,
            r is Some ==> match self.selections {
                Selections::Drives(items) => r->Some_0@ == (FileModel {
                    path: items@[0].drive.mount_point@,
                    metadata: None,
                }),
                Selections::FolderEntries(entries) => r->Some_0@ == entries.items@[0].item@,
                Selections::SearchResults(items) => r->Some_0@ == items@[0].inner@,
                Selections::GeneralFolders(items) => r->Some_0@ == (FileModel {
                    path: items@[0].folder.spec_path()@,
                    metadata: None,
                }),
                Selections::RecentFiles(items) => r->Some_0@ == items@[0].inner@,
                Selections::PinnedFiles(items) => r->Some_0@ == items@[0].inner@,
                Selections::TrashItems(_) => false,
            },
    {
        match &self.selections {
            Selections::Drives(di) => if di.len() > 0 {
                Some(di[0].drive.as_pitou_file())
            } else {
                None
            },
            Selections::FolderEntries(fe) => if fe.items.len() > 0 {
                Some(fe.items[0].item.clone())
            } else {
                None
            },
            Selections::SearchResults(sr) => if sr.len() > 0 {
                Some(sr[0].inner.clone())
            } else {
                None
            },
            Selections::GeneralFolders(gf) => if gf.len() > 0 {
                Some(gf[0].folder.as_pitou_file())
            } else {
                None
            },
            Selections::RecentFiles(rf) => if rf.len() > 0 {
                Some(rf[0].inner.clone())
            } else {
                None
            },
            Selections::PinnedFiles(pf) => if pf.len() > 0 {
                Some(pf[0].inner.clone())
            } else {
                None
            },
            Selections::TrashItems(_) => None,
        }
    }

    /// Selects a drive. If something other than drives was selected, the
    /// drive is all that is selected afterwards.
    pub fn select_drive(&mut self, drive: PitouDrive)
        requires
            old(self).wf(),
        ensures
            final(self).wf(),
            final(self).selections is Drives,
            final(self).drive_selected(drive.mount_point@),
            forall|other: Seq<char>|
                other != drive.mount_point@ ==> (final(self).drive_selected(other) <==> old(
                    self,
                ).drive_selected(other)),
    {
        let selected = match &mut self.selections {
            Selections::Drives(d) => {
                let _ = insert(d, PitouDriveWrap::new(drive));
                None
            },
            _ => Some(drive),
        };
        if let Some(drive) = selected {
            let mut new_set: Vec<PitouDriveWrap> = Vec::new();
            new_set.push(PitouDriveWrap::new(drive));
            assert(new_set@[0].key() == drive.mount_point@);
            self.selections = Selections::Drives(new_set);
        }
    }

    /// Selects an entry of the folder that is shown. If something else was
    /// selected, the entry is all that is selected afterwards.
    pub fn select_folder_entry(&mut self, item: PitouFile)
        requires
            old(self).wf(),
        ensures
            final(self).wf(),
            final(self).selections is FolderEntries,
            final(self).folder_entry_selected(item@.name()),
            forall|other: Seq<char>|
                other != item@.name() ==> (final(self).folder_entry_selected(other) <==>
                    old(self).folder_entry_selected(other)),
    {
        let selected = match &mut self.selections {
            Selections::FolderEntries(fe) => {
                let _ = insert(&mut fe.items, FolderEntry::new(item));
                None
            },
            _ => Some(item),
        };
        if let Some(item) = selected {
            let mut new_set: Vec<FolderEntry> = Vec::new();
            new_set.push(FolderEntry::new(item));
            assert(new_set@[0].key() == item@.name());
            self.selections = Selections::FolderEntries(FolderEntrySelections { items: new_set });
        }
    }

    /// Selects a search result. If something else was selected, the result is all
    /// that is selected afterwards.
    pub fn select_search_result(&mut self, item: PitouFile)
        requires
            old(self).wf(),
        ensures
            final(self).wf(),
            final(self).selections is SearchResults,
            final(self).search_result_selected(item@.path),
            forall|other: Seq<char>|
                other != item@.path ==> (final(self).search_result_selected(other) <==>
                    old(self).search_result_selected(other)),
    {
        let selected = match &mut self.selections {
            Selections::SearchResults(sr) => {
                let _ = insert(sr, PitouFileWrap::new(item));
                None
            },
            _ => Some(item),
        };
        if let Some(item) = selected {
            let mut new_set: Vec<PitouFileWrap> = Vec::new();
            new_set.push(PitouFileWrap::new(item));
            assert(new_set@[0].key() == item@.path);
            self.selections = Selections::SearchResults(new_set);
        }
    }

    /// Selects a general folder. If something else was selected, the folder is
    /// all that is selected afterwards.
    pub fn select_gen_folder(&mut self, folder: GeneralFolder)
        requires
            old(self).wf(),
        ensures
            final(self).wf(),
            final(self).selections is GeneralFolders,
            final(self).gen_folder_selected(folder.spec_path()@),
            forall|other: Seq<char>|
                other != folder.spec_path()@ ==> (final(self).gen_folder_selected(other) <==>
                    old(self).gen_folder_selected(other)),
    {
        let selected = match &mut self.selections {
            Selections::GeneralFolders(gf) => {
                let _ = insert(gf, GenFolderWrap::new(folder));
                None
            },
            _ => Some(folder),
        };
        if let Some(folder) = selected {
            let mut new_set: Vec<GenFolderWrap> = Vec::new();
            new_set.push(GenFolderWrap::new(folder));
            assert(new_set@[0].key() == folder.spec_path()@);
            self.selections = Selections::GeneralFolders(new_set);
        }
    }

    /// Selects an item of the trash. If something else was selected, the item is
    /// all that is selected afterwards.
    pub fn select_trash_item(&mut self, item: PitouTrashItem)
        requires
            old(self).wf(),
        ensures
            final(self).wf(),
            final(self).selections is TrashItems,
            final(self).trash_item_selected(item.metadata.id@),
            forall|other: Seq<char>|
                other != item.metadata.id@ ==> (final(self).trash_item_selected(other) <==>
                    old(self).trash_item_selected(other)),
    {
        let selected = match &mut self.selections {
            Selections::TrashItems(vals) => {
                let _ = insert(vals, PitouTrashItemWrap::new(item));
                None
            },
            _ => Some(item),
        };
        if let Some(item) = selected {
            let mut new_set: Vec<PitouTrashItemWrap> = Vec::new();
            new_set.push(PitouTrashItemWrap::new(item));
            assert(new_set@[0].key() == item.metadata.id@);
            self.selections = Selections::TrashItems(new_set);
        }
    }

    /// Takes a search result out of the selection.
    pub fn clear_search_result(&mut self, item: &PitouFile)
        requires
            old(self).wf(),
        ensures
            final(self).wf(),
            !final(self).search_result_selected(item@.path),
            forall|other: Seq<char>|
                other != item@.path ==> (final(self).search_result_selected(other) <==>
                    old(self).search_result_selected(other)),
            (old(self).selections is SearchResults) == (final(self).selections is SearchResults),
            !(old(self).selections is SearchResults) ==> final(self).selections == old(self).selections,
    {
        match &mut self.selections {
            Selections::SearchResults(sr) => {
                let _ = remove(sr, item.full_path_str());
            },
            _ => {},
        }
    }

    /// Takes a folder entry out of the selection.
    pub fn clear_dir_entry_selection(&mut self, item: &PitouFile)
        requires
            old(self).wf(),
        ensures
            final(self).wf(),
            !final(self).folder_entry_selected(item@.name()),
            forall|other: Seq<char>|
                other != item@.name() ==> (final(self).folder_entry_selected(other) <==>
                    old(self).folder_entry_selected(other)),
            (old(self).selections is FolderEntries) == (final(self).selections is FolderEntries),
            !(old(self).selections is FolderEntries) ==> final(self).selections == old(self).selections,
    {
        match &mut self.selections {
            Selections::FolderEntries(en) => {
                let _ = remove(&mut en.items, item.name());
            },
            _ => {},
        }
    }

    /// Takes a drive out of the selection.
    pub fn clear_drive_selection(&mut self, drive: &PitouDrive)
        requires
            old(self).wf(),
        ensures
            final(self).wf(),
            !final(self).drive_selected(drive.mount_point@),
            forall|other: Seq<char>|
                other != drive.mount_point@ ==> (final(self).drive_selected(other) <==>
                    old(self).drive_selected(other)),
            (old(self).selections is Drives) == (final(self).selections is Drives),
            !(old(self).selections is Drives) ==> final(self).selections == old(self).selections,
    {
        match &mut self.selections {
            Selections::Drives(d) => {
                let _ = remove(d, drive.mount_point.path.as_str());
            },
            _ => {},
        }
    }

    /// Takes a general folder out of the selection.
    pub fn clear_gen_folder_selection(&mut self, folder: &GeneralFolder)
        requires
            old(self).wf(),
        ensures
            final(self).wf(),
            !final(self).gen_folder_selected(folder.spec_path()@),
            forall|other: Seq<char>|
                other != folder.spec_path()@ ==> (final(self).gen_folder_selected(other) <==>
                    old(self).gen_folder_selected(other)),
            (old(self).selections is GeneralFolders) == (final(self).selections is GeneralFolders),
            !(old(self).selections is GeneralFolders) ==> final(self).selections == old(self).selections,
    {
        match &mut self.selections {
            Selections::GeneralFolders(gf) => {
                let _ = remove(gf, folder.path().path.as_str());
            },
            _ => {},
        }
    }

    /// Takes an item of the trash out of the selection.
    pub fn clear_trash_item_selection(&mut self, item: &PitouTrashItem)
        requires
            old(self).wf(),
        ensures
            final(self).wf(),
            !final(self).trash_item_selected(item.metadata.id@),
            forall|other: Seq<char>|
                other != item.metadata.id@ ==> (final(self).trash_item_selected(other) <==>
                    old(self).trash_item_selected(other)),
            (old(self).selections is TrashItems) == (final(self).selections is TrashItems),
            !(old(self).selections is TrashItems) ==> final(self).selections == old(self).selections,
    {
        match &mut self.selections {
            Selections::TrashItems(ti) => {
                let _ = remove(ti, item.id());
            },
            _ => {},
        }
    }

    /// The selected folder entries, if folder entries are what is selected.
    pub fn folder_entry_selections(&self) -> (r: Option<Vec<PitouFile>>)
        ensures
            r is Some <==> self.selections is FolderEntries,
            r is Some ==> r->Some_0@.len() == self.selections.count() && forall|i: int|
                0 <= i < r->Some_0@.len() ==> (#[trigger] r->Some_0@[i])@
                    == self.selections->FolderEntries_0.items@[i].item@,
    {
        if let Selections::FolderEntries(fe) = &self.selections {
            let mut out: Vec<PitouFile> = Vec::new();
            let mut i: usize = 0;
            while i < fe.items.len()
                invariant
                    i <= fe.items@.len(),
                    out@.len() == i,
                    forall|k: int| 0 <= k < i ==> (#[trigger] out@[k])@ == fe.items@[k].item@,
                decreases fe.items@.len() - i,
            {
                out.push(fe.items[i].item.clone());
                i += 1;
            }
            Some(out)
        } else {
            None
        }
    }

    /// The selected search results, if search results are what is selected.
    pub fn search_result_selections(&self) -> (r: Option<Vec<PitouFile>>)
        ensures
            r is Some <==> self.selections is SearchResults,
            r is Some ==> r->Some_0@.len() == self.selections.count() && forall|i: int|
                0 <= i < r->Some_0@.len() ==> (#[trigger] r->Some_0@[i])@
                    == self.selections->SearchResults_0@[i].inner@,
    {
        if let Selections::SearchResults(sr) = &self.selections {
            let mut out: Vec<PitouFile> = Vec::new();
            let mut i: usize = 0;
            while i < sr.len()
                invariant
                    i <= sr@.len(),
                    out@.len() == i,
                    forall|k: int| 0 <= k < i ==> (#[trigger] out@[k])@ == sr@[k].inner@,
                decreases sr@.len() - i,
            {
                out.push(sr[i].inner.clone());
                i += 1;
            }
            Some(out)
        } else {
            None
        }
    }

    pub fn has_folder_entry_selections(&self) -> (r: bool)
        ensures
            r == (self.selections is FolderEntries && self.selections.count() > 0),
    {
        if let Selections::FolderEntries(fe) = &self.selections {
            fe.items.len() > 0
        } else {
            false
        }
    }

    pub fn update_trash_items(&mut self, items: Option<Vec<PitouTrashItem>>)
        ensures
            final(self).trash_items == items,
            final(self).selections == old(self).selections,
            final(self).drives == old(self).drives,
            final(self).gen_dirs == old(self).gen_dirs,
    {
        self.trash_items = items;
    }

    pub fn trash_items(&self) -> (r: &Option<Vec<PitouTrashItem>>)
        ensures
            r == &self.trash_items,
    {
        &self.trash_items
    }

    pub fn reset_trash_items(&mut self)
        ensures
            final(self).trash_items is None,
            final(self).selections == old(self).selections,
            final(self).drives == old(self).drives,
            final(self).gen_dirs == old(self).gen_dirs,
    {
        self.trash_items = None;
    }

    pub fn no_trash_items(&self) -> (r: bool)
        ensures
            r == (self.trash_items is None),
    {
        self.trash_items.is_none()
    }

    pub fn reset_drives(&mut self)
        ensures
            final(self).drives is None,
            final(self).selections == old(self).selections,
            final(self).trash_items == old(self).trash_items,
            final(self).gen_dirs == old(self).gen_dirs,
    {
        self.drives = None;
    }

    pub fn reset_gen_dirs(&mut self)
        ensures
            final(self).gen_dirs is None,
            final(self).selections == old(self).selections,
            final(self).trash_items == old(self).trash_items,
            final(self).drives == old(self).drives,
    {
        self.gen_dirs = None;
    }

    pub fn update_gen_dirs(&mut self, dirs: Option<Vec<GeneralFolder>>)
        ensures
            final(self).gen_dirs == dirs,
            final(self).selections == old(self).selections,
            final(self).trash_items == old(self).trash_items,
            final(self).drives == old(self).drives,
    {
        self.gen_dirs = dirs;
    }

    pub fn gen_dirs(&self) -> (r: &Option<Vec<GeneralFolder>>)
        ensures
            r == &self.gen_dirs,
    {
        &self.gen_dirs
    }

    pub fn update_drives(&mut self, drives: Vec<PitouDrive>)
        ensures
            final(self).drives == Some(drives),
            final(self).selections == old(self).selections,
            final(self).trash_items == old(self).trash_items,
            final(self).gen_dirs == old(self).gen_dirs,
    {
        self.drives = Some(drives);
    }

    /// Selects nothing: what is left is an empty selection of folder entries.
    pub fn clear_all_selections(&mut self)
        ensures
            final(self).wf(),
            final(self).selections is FolderEntries,
            final(self).selections.count() == 0,
            final(self).drives == old(self).drives,
            final(self).trash_items == old(self).trash_items,
            final(self).gen_dirs == old(self).gen_dirs,
    {
        self.selections = Selections::FolderEntries(FolderEntrySelections { items: Vec::new() })
    }

    pub fn is_selected_dir_entry(&self, item: &PitouFile) -> (r: bool)
        ensures
            r == self.folder_entry_selected(item@.name()),
    {
        if let Selections::FolderEntries(en) = &self.selections {
            position(&en.items, item.name()).is_some()
        } else {
            false
        }
    }

    pub fn is_selected_drive(&self, drive: &PitouDrive) -> (r: bool)
        ensures
            r == self.drive_selected(drive.mount_point@),
    {
        if let Selections::Drives(d) = &self.selections {
            position(d, drive.mount_point.path.as_str()).is_some()
        } else {
            false
        }
    }

    pub fn is_selected_gen_folder(&self, folder: &GeneralFolder) -> (r: bool)
        ensures
            r == self.gen_folder_selected(folder.spec_path()@),
    {
        if let Selections::GeneralFolders(gf) = &self.selections {
            position(gf, folder.path().path.as_str()).is_some()
        } else {
            false
        }
    }

    pub fn is_selected_search_result(&self, item: &PitouFile) -> (r: bool)
        ensures
            r == self.search_result_selected(item@.path),
    {
        if let Selections::SearchResults(sr) = &self.selections {
            position(sr, item.full_path_str()).is_some()
        } else {
            false
        }
    }

    pub fn is_selected_trash_item(&self, item: &PitouTrashItem) -> (r: bool)
        ensures
            r == self.trash_item_selected(item.metadata.id@),
    {
        if let Selections::TrashItems(ti) = &self.selections {
            position(ti, item.id()).is_some()
        } else {
            false
        }
    }
}

} // verus!
