use pitou_core::context::{AppSettings, ApplicationContext, GenCtx};
use pitou_core::drive::{GeneralFolder, PitouDrive, PitouDriveKind};
use pitou_core::file::{PitouDateTime, PitouFile};
use pitou_core::frontend::{
    FolderTracker, GenFolderWrap, PitouDriveWrap, PitouFileWrap, PitouTrashItemWrap, RefresherState, State,
};
use pitou_core::fs::{Category, DirContent, Directory, Drive, File, FileContent, Metadata, Permission, Unit};
use pitou_core::path::PitouFilePath;
use pitou_core::search::FrontendSearchOptions;
use pitou_core::selection::{insert, position, remove, same_text, Selections, StaticData};
use pitou_core::settings::{AppMenu, ColorTheme, ItemsView};
use pitou_core::sort::{PitouFileSort, PitouFileSortOrder};
use pitou_core::tabs::{AllTabsCtx, TabCtx};
use pitou_core::trash::PitouTrashItem;

fn path(text: &str) -> PitouFilePath {
    PitouFilePath::from_pathbuf(text.to_string())
}

fn file(text: &str) -> PitouFile {
    PitouFile::without_metadata(path(text))
}

fn drive(mount: &str) -> PitouDrive {
    PitouDrive {
        name: "disk".to_string(),
        mount_point: path(mount),
        total_space: 100,
        free_space: 40,
        is_removable: true,
        kind: PitouDriveKind::HDD,
    }
}

fn trashed(id: &str) -> PitouTrashItem {
    PitouTrashItem::from_listing(&path("/home"), "gone", id.to_string(), PitouDateTime { datetime: 0 }, 1, false)
}

fn texts(items: &Vec<PitouFile>) -> Vec<&str> {
    items.iter().map(|f| f.path.path.as_str()).collect()
}

#[test]
fn going_back_and_forth_between_folders() {
    let mut tracker = FolderTracker::new(file("/a"));
    assert_eq!(tracker.current().path.path, "/a");
    assert!(tracker.prev().is_none());
    assert!(tracker.next().is_none());
    tracker.update_directory(file("/a/b"));
    tracker.update_directory(file("/a/b/c"));
    assert_eq!(tracker.idx, 2);
    assert_eq!(texts(tracker.all()), vec!["/a", "/a/b", "/a/b/c"]);
    assert_eq!(tracker.prev().unwrap().path.path, "/a/b");
    tracker.go_backward();
    tracker.go_backward();
    assert_eq!(tracker.current().path.path, "/a");
    tracker.go_backward();
    assert_eq!(tracker.idx, 0);
    assert_eq!(tracker.next().unwrap().path.path, "/a/b");
    tracker.go_forward();
    assert_eq!(tracker.current().path.path, "/a/b");
    // Entering a folder forgets what lay ahead.
    tracker.update_directory(file("/a/b/d"));
    assert_eq!(texts(tracker.all()), vec!["/a", "/a/b", "/a/b/d"]);
    assert_eq!(tracker.idx, 2);
    tracker.go_forward();
    assert_eq!(tracker.idx, 2);
}

#[test]
fn the_refresher_goes_round_in_six_steps() {
    let mut wheel = RefresherState::default();
    assert_eq!(wheel.state, State::State1);
    let mut seen = Vec::new();
    for _ in 0..6 {
        wheel.toggle_refresher_state();
        seen.push(wheel.state);
    }
    assert_eq!(
        seen,
        vec![State::State2, State::State3, State::State4, State::State5, State::State6, State::State1]
    );
}

#[test]
fn wraps_are_equal_by_their_key() {
    assert!(PitouFileWrap::new(file("/a")) == PitouFileWrap::new(file("/a")));
    assert!(PitouFileWrap::new(file("/a")) != PitouFileWrap::new(file("/b")));
    assert!(PitouDriveWrap::new(drive("/")) == PitouDriveWrap::new(drive("/")));
    assert!(PitouDriveWrap::new(drive("/")) != PitouDriveWrap::new(drive("/mnt")));
    assert!(
        GenFolderWrap::new(GeneralFolder::AudiosFolder(path("/m")))
            == GenFolderWrap::new(GeneralFolder::VideosFolder(path("/m")))
    );
    assert!(
        GenFolderWrap::new(GeneralFolder::AudiosFolder(path("/m")))
            != GenFolderWrap::new(GeneralFolder::AudiosFolder(path("/n")))
    );
    assert!(PitouTrashItemWrap::new(trashed("1")) == PitouTrashItemWrap::new(trashed("1")));
    assert!(PitouTrashItemWrap::new(trashed("1")) != PitouTrashItemWrap::new(trashed("2")));
}

#[test]
fn sets_by_key() {
    assert!(same_text("abc", "abc"));
    assert!(!same_text("abc", "abd"));
    assert!(!same_text("abc", "ab"));
    assert!(same_text("", ""));
    let mut set: Vec<PitouFileWrap> = Vec::new();
    assert!(insert(&mut set, PitouFileWrap::new(file("/a"))));
    assert!(insert(&mut set, PitouFileWrap::new(file("/b"))));
    assert!(!insert(&mut set, PitouFileWrap::new(file("/a"))));
    assert_eq!(set.len(), 2);
    assert_eq!(position(&set, "/b"), Some(1));
    assert_eq!(position(&set, "/c"), None);
    assert!(remove(&mut set, "/a"));
    assert!(!remove(&mut set, "/a"));
    assert_eq!(set.len(), 1);
    assert_eq!(position(&set, "/b"), Some(0));
}

#[test]
fn selecting_and_unselecting() {
    let mut data = StaticData::new();
    assert!(!data.can_attempt_delete());
    assert!(data.openable_selection().is_none());
    data.select_drive(drive("/"));
    data.select_drive(drive("/mnt"));
    data.select_drive(drive("/"));
    assert!(data.is_selected_drive(&drive("/mnt")));
    assert!(!data.is_selected_drive(&drive("/other")));
    assert!(matches!(&data.selections, Selections::Drives(d) if d.len() == 2));
    assert!(!data.can_attempt_delete());
    assert_eq!(data.openable_selection().unwrap().path.path, "/");
    data.clear_drive_selection(&drive("/"));
    assert!(!data.is_selected_drive(&drive("/")));
    assert!(data.is_selected_drive(&drive("/mnt")));

    // Selecting something of another kind starts a new selection.
    data.select_search_result(file("/found/one"));
    data.select_search_result(file("/found/two"));
    assert!(!data.is_selected_drive(&drive("/mnt")));
    assert!(data.is_selected_search_result(&file("/found/one")));
    assert!(data.can_attempt_delete());
    assert!(data.are_all_selected_search_results(&vec![file("/found/two"), file("/found/one")]));
    assert!(!data.are_all_selected_search_results(&vec![file("/found/two"), file("/found/three")]));
    assert!(data.are_all_selected_search_results(&Vec::new()));
    assert!(!data.are_all_selected_search_results(&vec![
        file("/found/one"),
        file("/found/one"),
        file("/found/two")
    ]));
    assert!(!data.are_all_selected_folder_entries(&Vec::new()));
    assert_eq!(texts(&data.search_result_selections().unwrap()), vec!["/found/one", "/found/two"]);
    assert!(data.folder_entry_selections().is_none());
    data.clear_search_result(&file("/found/one"));
    assert!(!data.is_selected_search_result(&file("/found/one")));
    data.clear_dir_entry_selection(&file("/found/two"));
    assert!(data.is_selected_search_result(&file("/found/two")));

    // Folder entries go by their name.
    data.select_folder_entry(file("/here/a.txt"));
    data.select_folder_entry(file("/there/a.txt"));
    data.select_folder_entry(file("/here/b.txt"));
    assert!(data.has_folder_entry_selections());
    assert_eq!(texts(&data.folder_entry_selections().unwrap()), vec!["/here/a.txt", "/here/b.txt"]);
    assert!(data.is_selected_dir_entry(&file("/anywhere/b.txt")));
    assert!(data.are_all_selected_folder_entries(&vec![file("/x/a.txt"), file("/y/b.txt")]));
    data.clear_dir_entry_selection(&file("/x/a.txt"));
    assert!(!data.is_selected_dir_entry(&file("/here/a.txt")));

    data.select_gen_folder(GeneralFolder::DesktopFolder(path("/home/u/Desktop")));
    assert!(data.is_selected_gen_folder(&GeneralFolder::DesktopFolder(path("/home/u/Desktop"))));
    assert!(!data.can_attempt_delete());
    assert_eq!(data.openable_selection().unwrap().path.path, "/home/u/Desktop");
    data.clear_gen_folder_selection(&GeneralFolder::DesktopFolder(path("/home/u/Desktop")));
    assert!(data.openable_selection().is_none());

    data.select_trash_item(trashed("id-1"));
    assert!(data.is_selected_trash_item(&trashed("id-1")));
    assert!(!data.is_selected_trash_item(&trashed("id-2")));
    assert!(data.can_attempt_delete());
    assert!(data.openable_selection().is_none());
    data.clear_trash_item_selection(&trashed("id-1"));
    assert!(!data.can_attempt_delete());

    data.select_trash_item(trashed("id-1"));
    data.clear_all_selections();
    assert!(!data.has_folder_entry_selections());
    assert!(matches!(&data.selections, Selections::FolderEntries(fe) if fe.items.is_empty()));
}

#[test]
fn what_does_not_belong_to_a_tab() {
    let mut data = StaticData::new();
    assert!(data.no_trash_items());
    data.update_trash_items(Some(vec![trashed("1")]));
    assert!(!data.no_trash_items());
    assert_eq!(data.trash_items().as_ref().unwrap().len(), 1);
    data.reset_trash_items();
    assert!(data.no_trash_items());
    data.update_drives(vec![drive("/")]);
    assert_eq!(data.drives.as_ref().unwrap().len(), 1);
    data.reset_drives();
    assert!(data.drives.is_none());
    data.update_gen_dirs(Some(vec![GeneralFolder::VideosFolder(path("/v"))]));
    assert_eq!(data.gen_dirs().as_ref().unwrap().len(), 1);
    data.reset_gen_dirs();
    assert!(data.gen_dirs().is_none());
}

#[test]
fn a_tab_and_its_folder() {
    let mut tab = TabCtx::default();
    assert_eq!(tab.current_menu, AppMenu::Home);
    assert_eq!(tab.display_name(), "Home");
    assert!(tab.current_dir().is_none());
    assert!(!tab.can_navigate_backward() && !tab.can_navigate_forward());
    tab.update_cur_menu(AppMenu::Explorer);
    assert_eq!(tab.display_name(), "");
    tab.update_cur_dir(Some(file("/home")));
    tab.update_cur_dir(Some(file("/home/user")));
    assert_eq!(tab.display_name(), "user");
    assert_eq!(tab.current_dir().unwrap().path.path, "/home/user");
    assert!(tab.can_navigate_backward() && !tab.can_navigate_forward());
    tab.navigate_backward();
    assert_eq!(tab.current_dir().unwrap().path.path, "/home");
    assert!(!tab.can_navigate_backward() && tab.can_navigate_forward());
    tab.navigate_forward();
    assert_eq!(tab.display_name(), "user");
    tab.update_cur_dir(None);
    assert!(tab.current_dir().is_none());
    tab.navigate_backward();
    tab.navigate_forward();
    for (menu, title) in [
        (AppMenu::Trash, "Recycle Bin"),
        (AppMenu::Favorites, "Favorites"),
        (AppMenu::Search, "Advanced Search"),
        (AppMenu::Locked, "Vault"),
        (AppMenu::Recents, "Recent Files"),
        (AppMenu::Cloud, "Cloud Storage"),
        (AppMenu::Settings, "Settings"),
    ] {
        tab.update_cur_menu(menu);
        assert_eq!(tab.display_name(), title);
    }
    let tab = TabCtx::new_with_dir(file("/start"), AppMenu::Explorer);
    assert_eq!(tab.display_name(), "start");
}

#[test]
fn a_tab_and_what_it_shows() {
    let mut tab = TabCtx::default();
    assert!(tab.search_results().is_none());
    assert!(tab.get_or_init_search_results().is_empty());
    assert!(tab.search_results().unwrap().is_empty());
    tab.append_search_result(vec![file("/1"), file("/2")]);
    tab.append_search_result(vec![file("/3")]);
    assert_eq!(texts(&tab.search_results().unwrap()), vec!["/1", "/2", "/3"]);
    assert_eq!(texts(tab.get_or_init_search_results()), vec!["/1", "/2", "/3"]);
    tab.reset_search_results();
    assert!(tab.search_results().unwrap().is_empty());
    let mut other = TabCtx::default();
    other.append_search_result(vec![file("/9")]);
    assert_eq!(texts(&other.search_results().unwrap()), vec!["/9"]);

    assert!(tab.dir_children().is_none());
    tab.update_children(Some(vec![file("/c")]));
    tab.update_siblings(Some(vec![file("/s")]));
    assert_eq!(texts(&tab.dir_children().unwrap()), vec!["/c"]);
    tab.reset_current_files();
    assert!(tab.dir_children().is_none() && tab.dir_siblings.is_none());

    let mut options = FrontendSearchOptions::init();
    options.input = "needle".to_string();
    options.depth = 2;
    tab.update_search_options(options);
    let copy = tab.search_options();
    assert_eq!(copy.input, "needle");
    assert_eq!(copy.depth, 2);
    assert_eq!(copy.max_finds, 25);
}

#[test]
fn opening_and_closing_tabs() {
    let tabs = AllTabsCtx::default();
    assert_eq!(tabs.all_tabs.len(), 1);
    assert_eq!(tabs.active_tab, 0);
    let only = tabs.remove_tab(0);
    assert!(only.is_none());
    let tabs = AllTabsCtx::default().add_tab().add_tab().add_tab();
    assert_eq!(tabs.all_tabs.len(), 4);
    assert_eq!(tabs.active_tab, 3);
    let tabs = tabs.change_menu(AppMenu::Trash);
    assert_eq!(tabs.current_tab().current_menu, AppMenu::Trash);
    assert_eq!(tabs.all_tabs[0].current_menu, AppMenu::Home);
    // Closing the tab that is shown shows the one before it.
    let tabs = tabs.remove_tab(3).unwrap();
    assert_eq!((tabs.all_tabs.len(), tabs.active_tab), (3, 2));
    // Closing a tab before the one that is shown keeps it shown.
    let tabs = tabs.change_menu(AppMenu::Search).remove_tab(0).unwrap();
    assert_eq!((tabs.all_tabs.len(), tabs.active_tab), (2, 1));
    assert_eq!(tabs.current_tab().current_menu, AppMenu::Search);
    // Closing a tab after the one that is shown changes nothing for it.
    let tabs = tabs.change_tab(0).remove_tab(1).unwrap();
    assert_eq!((tabs.all_tabs.len(), tabs.active_tab), (1, 0));
    let tabs = tabs.add_tab().change_tab(0).remove_tab(0).unwrap();
    assert_eq!((tabs.all_tabs.len(), tabs.active_tab), (1, 0));
}

#[test]
fn settings_and_their_defaults() {
    let settings = AppSettings::default();
    assert_eq!(AppSettings::default_refresh_rate(), 3);
    assert_eq!(settings.refresh_rate, 3);
    assert_eq!(settings.refresh_rate_as_millis(), 5000);
    assert!(settings.show_extensions && settings.hide_system_files);
    assert!(!settings.show_thumbnails && !settings.show_parents);
    assert_eq!(settings.items_view, ItemsView::Rows);
    assert!(settings.items_sort.is_none());
    let mut fastest = settings;
    fastest.refresh_rate = 60;
    assert_eq!(fastest.refresh_rate_as_millis(), 250);
    fastest.refresh_rate = 1;
    assert_eq!(fastest.refresh_rate_as_millis(), 15000);
    fastest.refresh_rate = 7;
    assert_eq!(fastest.refresh_rate_as_millis(), 2142);
    let ctx = GenCtx::default();
    assert_eq!((ctx.app_width, ctx.app_height), (1366, 768));
    assert!(ctx.color_theme == ColorTheme::default_dark());
    assert!(ctx.app_settings == AppSettings::default());
}

#[test]
fn the_context_that_the_views_share() {
    let mut ctx = ApplicationContext::new(GenCtx::default(), TabCtx::default(), StaticData::new());
    assert_eq!(ctx.refresher_state().state, State::State1);
    ctx.toggle_refresher_state();
    assert_eq!(ctx.refresher_state().state, State::State2);
    assert_eq!(ctx.current_menu(), AppMenu::Home);
    assert!(!ctx.new_folder_able());
    ctx.active_tab.update_cur_menu(AppMenu::Explorer);
    assert!(!ctx.new_folder_able());
    ctx.active_tab.update_cur_dir(Some(file("")));
    assert!(!ctx.new_folder_able());
    ctx.active_tab.update_cur_dir(Some(file("/home")));
    assert!(ctx.new_folder_able());
    ctx.active_tab.update_cur_menu(AppMenu::Search);
    assert!(!ctx.new_folder_able());

    assert_eq!(ctx.refresh_rate(), 3);
    ctx.update_refresh_rate(0);
    ctx.update_refresh_rate(61);
    assert_eq!(ctx.refresh_rate(), 3);
    ctx.update_refresh_rate(60);
    assert_eq!(ctx.refresh_rate(), 60);
    assert_eq!(ctx.refresh_rate_as_millis(), 250);
    ctx.update_refresh_rate(1);
    assert_eq!(ctx.refresh_rate_as_millis(), 15000);

    assert!(ctx.hide_system_files());
    ctx.update_hide_system_files(false);
    assert!(!ctx.hide_system_files());
    assert!(ctx.show_extensions());
    ctx.update_show_extensions(false);
    assert!(!ctx.show_extensions());
    ctx.toggle_show_thumbnails(true);
    assert!(ctx.show_thumbnails());
    ctx.toggle_show_parents(true);
    assert!(ctx.show_parents());
    ctx.update_items_view(ItemsView::Tiles);
    assert_eq!(ctx.items_view(), ItemsView::Tiles);
    assert!(ctx.items_sort().is_none());
    ctx.update_items_sort(Some(PitouFileSort::Name(PitouFileSortOrder::Decreasing)));
    assert_eq!(ctx.items_sort(), Some(PitouFileSort::Name(PitouFileSortOrder::Decreasing)));
    ctx.update_color_theme(ColorTheme::gem_dark());
    assert!(ctx.color_theme() == ColorTheme::gem_dark());
    assert_eq!(ctx.refresh_rate(), 1);
}

struct Kib(u64);

impl Unit for Kib {
    fn from_bytes(bytes: u64) -> Self {
        Kib(bytes / 1024)
    }

    fn to_bytes(self) -> u64 {
        self.0 * 1024
    }
}

#[test]
fn plain_files_and_their_weight() {
    let metadata = Metadata::of(false, 4096, false);
    assert_eq!(metadata.category(), Category::File);
    assert_eq!(metadata.permission(), Permission::Write);
    assert_eq!(metadata.size::<Kib>().0, 4);
    assert_eq!(Metadata::of(true, 10, true).permission(), Permission::Read);
    assert_eq!(Metadata::of(true, 10, true).category(), Category::Folder);

    let mut file = File::get("target/tmp/a.txt".to_string(), metadata);
    assert_eq!(file.path(), "target/tmp/a.txt");
    assert_eq!(file.size(), 4096);
    assert!(!file.is_dir());
    assert_eq!(file.metadata().permission(), Permission::Write);
    file.refresh(Metadata::of(false, 5000, true));
    assert_eq!(file.size(), 5000);
    assert_eq!(file.metadata().permission(), Permission::Read);
    assert!(file == File::get("target/tmp/a.txt".to_string(), Metadata::of(true, 0, false)));

    let entries = vec![
        DirContent::File(File::get("d/sub".to_string(), Metadata::of(true, 40, false))),
        DirContent::File(File::get("d/file".to_string(), Metadata::of(false, 1000, false))),
        DirContent::Error(std::io::Error::new(std::io::ErrorKind::NotFound, "gone")),
        DirContent::File(File::get("d/sub2".to_string(), Metadata::of(true, 2, false))),
    ];
    assert_eq!(entries[0].weight(), 40);
    assert_eq!(entries[1].weight(), 0);
    assert_eq!(entries[2].weight(), 0);
    let dir = Directory::create("d".to_string(), Metadata::of(true, 100, false));
    assert_eq!(dir.weight(&entries), 42);
    assert_eq!(dir.0.size_all(&entries), 142);
    assert_eq!(file.size_all(&entries), 5000);
    assert_eq!(dir.weight(&Vec::new()), 0);
    let first = entries.into_iter().next().unwrap().unwrap();
    assert_eq!(first.path(), "d/sub");
    assert_eq!(FileContent::File(vec![1, 2, 3]).unwrap(), vec![1, 2, 3]);

    let drive = Drive { label: "disk".to_string(), path: "/".to_string(), space: 8192, free: 2048 };
    assert_eq!(drive.total_space::<Kib>().0, 8);
    assert_eq!(drive.free_space::<Kib>().0, 2);
    assert_eq!(drive.used_space::<Kib>().0, 6);
    assert_eq!(drive.used_bytes(), 6144);
    assert_eq!(drive.label(), "disk");
    assert_eq!(drive.path(), "/");
}
