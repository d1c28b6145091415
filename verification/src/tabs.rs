//! The tabs of the front end: where each one is and what it shows.

use crate::clipboard::clone_files;
use crate::file::{models, FileModel, PitouFile};
use crate::frontend::FolderTracker;
use crate::path::display_name;
use crate::search::FrontendSearchOptions;
use crate::settings::AppMenu;
use vstd::prelude::*;
use vstd::string::StringExecFns;

verus! {

/// One tab.
#[derive(Debug)]
pub struct TabCtx {
    pub folder_tracker: Option<FolderTracker>,
    pub current_menu: AppMenu,
    pub search_results: Option<Vec<PitouFile>>,
    pub search_options: FrontendSearchOptions,
    pub dir_children: Option<Vec<PitouFile>>,
    pub dir_siblings: Option<Vec<PitouFile>>,
}

/// The files of a list that may not be there.
pub open spec fn maybe_models(files: Option<Vec<PitouFile>>) -> Option<Seq<FileModel>> {
    match files {
        Some(files) => Some(models(files@)),
        None => None,
    }
}

/// A copy of a list that may not be there.
pub fn clone_maybe(files: &Option<Vec<PitouFile>>) -> (r: Option<Vec<PitouFile>>)
    ensures
        maybe_models(r) == maybe_models(*files),
{
    match files {
        Some(files) => Some(clone_files(files)),
        None => None,
    }
}

/// What a menu is called in the title of its tab.
pub open spec fn menu_title(menu: AppMenu) -> Seq<char> {
    match menu {
        AppMenu::Home => "Home"@,
        AppMenu::Explorer => ""@,
        AppMenu::Trash => "Recycle Bin"@,
        AppMenu::Favorites => "Favorites"@,
        AppMenu::Search => "Advanced Search"@,
        AppMenu::Locked => "Vault"@,
        AppMenu::Recents => "Recent Files"@,
        AppMenu::Cloud => "Cloud Storage"@,
        AppMenu::Settings => "Settings"@,
    }
}

impl TabCtx {
    /// The tab is in one of the folders that it has on record, if it has any.
    pub open spec fn wf(&self) -> bool {
        self.folder_tracker is Some ==> self.folder_tracker->Some_0.wf()
    }

    /// The folder that the tab is in.
    pub open spec fn spec_current_dir(&self) -> Option<FileModel> {
        match self.folder_tracker {
            Some(tracker) => Some(tracker.items@[tracker.idx as int]@),
            None => None,
        }
    }

    pub fn search_options(&self) -> (r: FrontendSearchOptions)
        ensures
            r.input@ == self.search_options.input@,
            r.search_kind == self.search_options.search_kind,
            r.depth == self.search_options.depth,
            r.case_sensitive == self.search_options.case_sensitive,
            r.hardware_accelerate == self.search_options.hardware_accelerate,
            r.skip_errors == self.search_options.skip_errors,
            r.filter == self.search_options.filter,
            r.max_finds == self.search_options.max_finds,
    {
        self.search_options.clone()
    }

    /// The search results, which are set to none at all if there were none.
    pub fn get_or_init_search_results(&mut self) -> (r: &Vec<PitouFile>)
        ensures
            final(self).search_results == Some(*r),
            old(self).search_results is None ==> r@.len() == 0,
            old(self).search_results is Some ==> *final(self) == *old(self),
            final(self).folder_tracker == old(self).folder_tracker,
            final(self).current_menu == old(self).current_menu,
            final(self).search_options == old(self).search_options,
            final(self).dir_children == old(self).dir_children,
            final(self).dir_siblings == old(self).dir_siblings,
    {
        if self.search_results.is_none() {
            self.search_results = Some(Vec::new());
        }
        match &self.search_results {
            Some(results) => results,
            None => vstd::pervasive::unreached(),
        }
    }

    pub fn search_results(&self) -> (r: Option<Vec<PitouFile>>)
        ensures
            maybe_models(r) == maybe_models(self.search_results),
    {
        clone_maybe(&self.search_results)
    }

    pub fn reset_search_results(&mut self)
        ensures
            final(self).search_results is Some,
            final(self).search_results->Some_0@.len() == 0,
            final(self).folder_tracker == old(self).folder_tracker,
            final(self).current_menu == old(self).current_menu,
            final(self).search_options == old(self).search_options,
            final(self).dir_children == old(self).dir_children,
            final(self).dir_siblings == old(self).dir_siblings,
    {
        self.search_results = Some(Vec::new())
    }

    /// Adds a batch of results after those that are there.
    pub fn append_search_result(&mut self, items: Vec<PitouFile>)
        ensures
            final(self).search_results is Some,
            final(self).search_results->Some_0@ == match old(self).search_results {
                Some(results) => results@ + items@,
                None => items@,
            },
            final(self).folder_tracker == old(self).folder_tracker,
            final(self).current_menu == old(self).current_menu,
            final(self).search_options == old(self).search_options,
            final(self).dir_children == old(self).dir_children,
            final(self).dir_siblings == old(self).dir_siblings,
    {
        let mut items = items;
        match &mut self.search_results {
            Some(list) => {
                list.append(&mut items);
            },
            None => {
                self.search_results = Some(items);
            },
        }
    }

    /// The title of the tab: the name of its menu, or in the explorer the
    /// name of the folder that it is in.
    pub fn display_name(&self) -> (r: String)
        requires
            self.wf(),
        ensures
            r@ == if self.current_menu == AppMenu::Explorer {
                match self.spec_current_dir() {
                    Some(dir) => dir.name(),
                    None => Seq::empty(),
                }
            } else {
                menu_title(self.current_menu)
            },
    {
        let menu = self.current_menu;
        match menu {
            AppMenu::Home => String::from_str("Home"),
            AppMenu::Explorer => match &self.folder_tracker {
                Some(v) => String::from_str(v.items[v.idx].name()),
                None => String::new(),
            },
            AppMenu::Trash => String::from_str("Recycle Bin"),
            AppMenu::Favorites => String::from_str("Favorites"),
            AppMenu::Search => String::from_str("Advanced Search"),
            AppMenu::Locked => String::from_str("Vault"),
            AppMenu::Recents => String::from_str("Recent Files"),
            AppMenu::Cloud => String::from_str("Cloud Storage"),
            AppMenu::Settings => String::from_str("Settings"),
        }
    }

    pub fn dir_children(&self) -> (r: Option<Vec<PitouFile>>)
        ensures
            maybe_models(r) == maybe_models(self.dir_children),
    {
        clone_maybe(&self.dir_children)
    }

    /// Forgets the listing of the folder and of the folder around it.
    pub fn reset_current_files(&mut self)
        ensures
            final(self).dir_children is None,
            final(self).dir_siblings is None,
            final(self).folder_tracker == old(self).folder_tracker,
            final(self).current_menu == old(self).current_menu,
            final(self).search_options == old(self).search_options,
            final(self).search_results == old(self).search_results,
    {
        self.dir_children = None;
        self.dir_siblings = None;
    }

    pub fn can_navigate_backward(&self) -> (r: bool)
        ensures
            r == (self.folder_tracker is Some && self.folder_tracker->Some_0.idx > 0),
    {
        match &self.folder_tracker {
            Some(v) => v.idx > 0,
            None => false,
        }
    }

    pub fn can_navigate_forward(&self) -> (r: bool)
        ensures
            r == (self.folder_tracker is Some && self.folder_tracker->Some_0.idx + 1
                < self.folder_tracker->Some_0.items@.len()),
    {
        match &self.folder_tracker {
            Some(v) => v.idx < v.items.len() && v.idx + 1 < v.items.len(),
            None => false,
        }
    }

    pub fn current_dir(&self) -> (r: Option<PitouFile>)
        requires
            self.wf(),
        ensures
            match r {
                Some(dir) => Some(dir@) == self.spec_current_dir(),
                None => self.spec_current_dir() is None,
            },
    {
        match &self.folder_tracker {
            Some(v) => Some(v.current()),
            None => None,
        }
    }

    pub fn navigate_backward(&mut self)
        requires
            old(self).wf(),
        ensures
            final(self).wf(),
            match old(self).folder_tracker {
                Some(tracker) => {
                    &&& final(self).folder_tracker is Some
                    &&& final(self).folder_tracker->Some_0.items == tracker.items
                    &&& final(self).folder_tracker->Some_0.idx == if tracker.idx > 0 {
                        tracker.idx - 1
                    } else {
                        0
                    }
                },
                None => final(self).folder_tracker is None,
            },
            final(self).current_menu == old(self).current_menu,
            final(self).search_options == old(self).search_options,
            final(self).search_results == old(self).search_results,
            final(self).dir_children == old(self).dir_children,
            final(self).dir_siblings == old(self).dir_siblings,
    {
        match &mut self.folder_tracker {
            Some(v) => v.go_backward(),
            None => {},
        }
    }

    pub fn navigate_forward(&mut self)
        requires
            old(self).wf(),
        ensures
            final(self).wf(),
            match old(self).folder_tracker {
                Some(tracker) => {
                    &&& final(self).folder_tracker is Some
                    &&& final(self).folder_tracker->Some_0.items == tracker.items
                    &&& final(self).folder_tracker->Some_0.idx == if tracker.idx + 1
                        < tracker.items@.len() {
                        tracker.idx + 1
                    } else {
                        tracker.idx as int
                    }
                },
                None => final(self).folder_tracker is None,
            },
            final(self).current_menu == old(self).current_menu,
            final(self).search_options == old(self).search_options,
            final(self).search_results == old(self).search_results,
            final(self).dir_children == old(self).dir_children,
            final(self).dir_siblings == old(self).dir_siblings,
    {
        match &mut self.folder_tracker {
            Some(v) => v.go_forward(),
            None => {},
        }
    }

    /// Moves the tab into a folder, or out of all folders.
    pub fn update_cur_dir(&mut self, current_dir: Option<PitouFile>)
        requires
            old(self).wf(),
        ensures
            final(self).wf(),
            match current_dir {
                None => final(self).folder_tracker is None,
                Some(dir) => final(self).folder_tracker is Some && match old(self).folder_tracker {
                    Some(tracker) => final(self).folder_tracker->Some_0.idx == tracker.idx + 1
                        && final(self).folder_tracker->Some_0.items@ == tracker.items@.take(
                        tracker.idx + 1,
                    ).push(dir),
                    None => final(self).folder_tracker->Some_0.idx == 0 && final(
                        self
                    ).folder_tracker->Some_0.items@ == seq![dir],
                },
            },
            final(self).current_menu == old(self).current_menu,
            final(self).search_options == old(self).search_options,
            final(self).search_results == old(self).search_results,
            final(self).dir_children == old(self).dir_children,
            final(self).dir_siblings == old(self).dir_siblings,
    {
        if let Some(current_dir) = current_dir {
            let fresh = match &mut self.folder_tracker {
                Some(val) => {
                    val.update_directory(current_dir);
                    None
                },
                None => Some(current_dir),
            };
            if let Some(current_dir) = fresh {
                self.folder_tracker = Some(FolderTracker::new(current_dir));
            }
        } else {
            self.folder_tracker = None;
        }
    }

    pub fn update_cur_menu(&mut self, current_menu: AppMenu)
        ensures
            *final(self) == (TabCtx { current_menu, ..*old(self) }),
    {
        self.current_menu = current_menu;
    }

    pub fn update_children(&mut self, children: Option<Vec<PitouFile>>)
        ensures
            *final(self) == (TabCtx { dir_children: children, ..*old(self) }),
    {
        self.dir_children = children;
    }

    pub fn update_siblings(&mut self, siblings: Option<Vec<PitouFile>>)
        ensures
            *final(self) == (TabCtx { dir_siblings: siblings, ..*old(self) }),
    {
        self.dir_siblings = siblings;
    }

    pub fn update_search_options(&mut self, options: FrontendSearchOptions)
        ensures
            *final(self) == (TabCtx { search_options: options, ..*old(self) }),
    {
        self.search_options = options;
    }

    /// A tab that is in a folder.
    pub fn new_with_dir(current_dir: PitouFile, menu: AppMenu) -> (r: Self)
        ensures
            r.wf(),
            r.folder_tracker is Some,
            r.folder_tracker->Some_0.idx == 0,
            r.folder_tracker->Some_0.items@ == seq![current_dir],
            r.current_menu == menu,
            r.search_results is None,
            r.dir_children is None,
            r.dir_siblings is None,
            r.search_options.search_kind == 1,
            r.search_options.max_finds == 25,
    {
        Self {
            search_options: FrontendSearchOptions::init(),
            folder_tracker: Some(FolderTracker::new(current_dir)),
            current_menu: menu,
            search_results: None,
            dir_children: None,
            dir_siblings: None,
        }
    }

    /// A tab that shows the home menu and is in no folder.
    pub fn default() -> (r: Self)
        ensures
            r.wf(),
            r.folder_tracker is None,
            r.current_menu == AppMenu::Home,
            r.search_results is None,
            r.dir_children is None,
            r.dir_siblings is None,
            r.search_options.search_kind == 1,
            r.search_options.max_finds == 25,
    {
        Self {
            search_options: FrontendSearchOptions::init(),
            folder_tracker: None,
            current_menu: AppMenu::Home,
            search_results: None,
            dir_children: None,
            dir_siblings: None,
        }
    }
}

/// All tabs, and which of them is shown.
#[derive(Debug)]
pub struct AllTabsCtx {
    pub all_tabs: Vec<TabCtx>,
    pub active_tab: usize,
}

impl AllTabsCtx {
    /// The tab that is shown is one of the tabs.
    pub open spec fn wf(&self) -> bool {
        self.active_tab < self.all_tabs@.len()
    }

    /// One tab, which is shown.
    pub fn default() -> (r: Self)
        ensures
            r.wf(),
            r.all_tabs@.len() == 1,
            r.active_tab == 0,
            r.all_tabs@[0].current_menu == AppMenu::Home,
            r.all_tabs@[0].folder_tracker is None,
    {
        let mut all_tabs: Vec<TabCtx> = Vec::new();
        all_tabs.push(TabCtx::default());
        Self { all_tabs, active_tab: 0 }
    }

    /// Adds a tab after the others and shows it.
    pub fn add_tab(self) -> (r: Self)
        ensures
            r.wf(),
            r.all_tabs@.len() == self.all_tabs@.len() + 1,
            r.all_tabs@.drop_last() == self.all_tabs@,
            r.active_tab == self.all_tabs@.len(),
            r.all_tabs@.last().current_menu == AppMenu::Home,
            r.all_tabs@.last().folder_tracker is None,
    {
        let mut ctx = self;
        let next_idx = ctx.all_tabs.len();
        ctx.all_tabs.push(TabCtx::default());
        ctx.active_tab = next_idx;
        assert(ctx.all_tabs@.drop_last() =~= self.all_tabs@);
        ctx
    }

    pub fn change_tab(self, idx: usize) -> (r: Self)
        ensures
            r.all_tabs == self.all_tabs,
            r.active_tab == idx,
    {
        let mut ctx = self;
        ctx.active_tab = idx;
        ctx
    }

    /// Closes a tab, unless it is the only one. The tab that is shown stays
    /// shown if it can: where it or one before it is closed, the one before
    /// it is shown.
    pub fn remove_tab(self, idx: usize) -> (r: Option<Self>)
        requires
            self.all_tabs@.len() > 1 ==> idx < self.all_tabs@.len(),
        ensures
            r is Some <==> self.all_tabs@.len() > 1,
            r is Some ==> {
                &&& r->Some_0.all_tabs@ == self.all_tabs@.remove(idx as int)
                &&& r->Some_0.active_tab == if idx <= self.active_tab && self.active_tab != 0 {
                    self.active_tab - 1
                } else {
                    self.active_tab as int
                }
                &&& self.wf() ==> r->Some_0.wf()
            },
    {
        let mut ctx = self;
        if ctx.all_tabs.len() <= 1 {
            return None;
        }
        let _ = ctx.all_tabs.remove(idx);
        if idx <= ctx.active_tab {
            if ctx.active_tab != 0 {
                ctx.active_tab -= 1;
            }
        }
        Some(ctx)
    }

    pub fn current_tab(&self) -> (r: &TabCtx)
        requires
            self.wf(),
        ensures
            *r == self.all_tabs@[self.active_tab as int],
    {
        &self.all_tabs[self.active_tab]
    }

    /// Opens a menu in the tab that is shown.
    pub fn change_menu(self, menu: AppMenu) -> (r: Self)
        requires
            self.wf(),
        ensures
            r.active_tab == self.active_tab,
            r.all_tabs@ == self.all_tabs@.update(
                self.active_tab as int,
                TabCtx { current_menu: menu, ..self.all_tabs@[self.active_tab as int] },
            ),
    {
        let mut ctx = self;
        let mut tab = ctx.all_tabs.remove(ctx.active_tab);
        tab.update_cur_menu(menu);
        ctx.all_tabs.insert(ctx.active_tab, tab);
        assert(ctx.all_tabs@ =~= self.all_tabs@.update(
            self.active_tab as int,
            TabCtx { current_menu: menu, ..self.all_tabs@[self.active_tab as int] },
        ));
        ctx
    }
}

} // verus!
