use pitou_core::digits::{decimal, digit};
use pitou_core::drive::{general_folders, GeneralFolder, PitouDrive, PitouDriveKind};
use pitou_core::file::{
    stem_of, PitouDateTime, PitouFile, PitouFileFilter, PitouFileKind, PitouFileMetadata, PitouFileSize,
};
use pitou_core::path::PitouFilePath;
use pitou_core::settings::{Color, ColorTheme};
use pitou_core::sort::{bytes_precede, children, drives, PitouFileSort, PitouFileSortOrder};
use pitou_core::trash::PitouTrashItem;

fn path(text: &str) -> PitouFilePath {
    PitouFilePath::from_pathbuf(text.to_string())
}

fn stamped(text: &str, kind: PitouFileKind, created: i64, modified: i64, accessed: i64) -> PitouFile {
    PitouFile::new(
        text.to_string(),
        Some(PitouFileMetadata {
            modified: PitouDateTime { datetime: modified },
            accessed: PitouDateTime { datetime: accessed },
            created: PitouDateTime { datetime: created },
            size: PitouFileSize::new(1),
            kind,
            attribute: 0,
        }),
    )
}

fn names(files: &Vec<PitouFile>) -> Vec<String> {
    files.iter().map(|f| f.name().to_string()).collect()
}

fn as_a_double_shows(bytes: u64) -> String {
    let kb = (1u64 << 10) as f64;
    let mb = (1u64 << 20) as f64;
    let gb = (1u64 << 30) as f64;
    let tb = (1u64 << 40) as f64;
    let bytes = bytes as f64;
    if bytes < kb {
        format!("{} B", bytes)
    } else if bytes < mb {
        format!("{:.2} KB", bytes / kb)
    } else if bytes < gb {
        format!("{:.2} MB", bytes / mb)
    } else if bytes < tb {
        format!("{:.2} GB", bytes / gb)
    } else {
        format!("{:.2} TB", bytes / tb)
    }
}

#[test]
fn sizes_in_binary_units() {
    assert_eq!(PitouFileSize::new(0).format(), "0 B");
    assert_eq!(PitouFileSize::new(1023).format(), "1023 B");
    assert_eq!(PitouFileSize::new(1024).format(), "1.00 KB");
    assert_eq!(PitouFileSize::new(1536).format(), "1.50 KB");
    assert_eq!(PitouFileSize::new(1048575).format(), "1024.00 KB");
    assert_eq!(PitouFileSize::new(1048576).format(), "1.00 MB");
    assert_eq!(PitouFileSize::new(5 * 1024 * 1024 * 1024).format(), "5.00 GB");
    assert_eq!(PitouFileSize::new(3 << 40).format(), "3.00 TB");
    assert_eq!(PitouFileSize::new(u64::MAX).format(), "16777216.00 TB");
    // A tie goes to the even hundredth.
    assert_eq!(PitouFileSize::new(1152).format(), "1.12 KB");
    assert_eq!(PitouFileSize::new(1024 + 384).format(), "1.38 KB");
}

#[test]
fn sizes_are_shown_as_doubles_are() {
    let mut samples: Vec<u64> = Vec::new();
    for n in 0..5000u64 {
        samples.push(n);
    }
    for shift in 0..64u32 {
        let p = 1u64 << shift;
        for d in [0u64, 1, 2, 3, 127, 128, 129, 383, 384, 385, 1023, 1024, 1025] {
            samples.push(p.wrapping_add(d));
            samples.push(p.wrapping_sub(d));
            samples.push(p.wrapping_mul(3).wrapping_add(d));
        }
    }
    let mut x: u64 = 0x9E37_79B9_7F4A_7C15;
    for _ in 0..20000 {
        x ^= x << 13;
        x ^= x >> 7;
        x ^= x << 17;
        samples.push(x);
        samples.push(x >> 11);
        samples.push(x >> 24);
        samples.push(x >> 40);
        samples.push(x >> 52);
    }
    for bytes in samples {
        assert_eq!(PitouFileSize::new(bytes).format(), as_a_double_shows(bytes), "for {} bytes", bytes);
    }
}

#[test]
fn sizes_as_numbers_of_entries() {
    assert_eq!(PitouFileSize::new(0).format_as_dir_entries(), "Empty");
    assert_eq!(PitouFileSize::new(1).format_as_dir_entries(), "1 item");
    assert_eq!(PitouFileSize::new(2).format_as_dir_entries(), "2 items");
    assert_eq!(PitouFileSize::new(1203).format_as_dir_entries(), "1203 items");
}

#[test]
fn numbers_in_decimal() {
    assert_eq!(decimal(0), "0");
    assert_eq!(decimal(7), "7");
    assert_eq!(decimal(10), "10");
    assert_eq!(decimal(1090), "1090");
    assert_eq!(decimal(u64::MAX), "18446744073709551615");
    assert_eq!(digit(0), '0');
    assert_eq!(digit(9), '9');
}

#[test]
fn lengths_of_time() {
    assert_eq!(PitouDateTime::format_duration(0), "0 secs");
    assert_eq!(PitouDateTime::format_duration(120), "120 secs");
    assert_eq!(PitouDateTime::format_duration(121), "2 mins");
    assert_eq!(PitouDateTime::format_duration(3600), "60 mins");
    assert_eq!(PitouDateTime::format_duration(7200 * 60 + 59), "7200 mins");
    assert_eq!(PitouDateTime::format_duration(7201 * 60), "120 hrs");
    assert_eq!(PitouDateTime::format_duration(172800 * 3600 + 3599), "172800 hrs");
    assert_eq!(PitouDateTime::format_duration(172801 * 3600), "7200 days");
    assert_eq!(PitouDateTime::format_duration(u64::MAX), "213503982334601 days");
}

#[test]
fn names_without_their_extension() {
    assert_eq!(stem_of("report.txt"), "report");
    assert_eq!(stem_of("archive.tar.gz"), "archive.tar");
    assert_eq!(stem_of("Makefile"), "Makefile");
    assert_eq!(stem_of(".profile"), "");
    assert_eq!(stem_of("trailing."), "trailing");
    assert_eq!(stem_of("é.è"), "é");
    assert_eq!(stem_of(""), "");
    let file = stamped("/home/user/notes.v2.md", PitouFileKind::File, 0, 0, 0);
    assert_eq!(file.name_without_extension(), "notes.v2");
    let dir = stamped("/home/user/folder.d", PitouFileKind::Directory, 0, 0, 0);
    assert_eq!(dir.name_without_extension(), "folder.d");
    let unknown = PitouFile::without_metadata(path("/home/user/x.y"));
    assert_eq!(unknown.name_without_extension(), "x");
}

#[test]
fn what_a_file_says_of_itself() {
    let file = stamped("/home/user/Report.TXT", PitouFileKind::File, 1, 2, 3);
    assert!(file.is_file() && !file.is_dir() && !file.is_link() && !file.is_sys_item());
    assert_eq!(file.kind(), Some(PitouFileKind::File));
    assert_eq!(file.full_path_str(), "/home/user/Report.TXT");
    assert_eq!(file.name(), "Report.TXT");
    assert!(file.path() == &path("/home/user/Report.TXT"));
    assert!(file.metadata().is_some());
    assert!(file.matches_find("port.t").is_some());
    assert!(file.matches_find("port.t").unwrap().metadata.is_some());
    assert!(file.matches_find("user").is_none());
    let bare = file.clone_inner();
    assert!(bare.metadata.is_none());
    assert!(bare == file);
    assert_eq!(bare.kind(), None);
    assert!(!bare.is_file() && !bare.is_dir() && !bare.is_link());
    let link = stamped("/l", PitouFileKind::Link, 0, 0, 0);
    assert!(link.is_link());
    assert!(file != link);
    assert_eq!(PitouFileKind::of(true, false), PitouFileKind::Directory);
    assert_eq!(PitouFileKind::of(true, true), PitouFileKind::Directory);
    assert_eq!(PitouFileKind::of(false, true), PitouFileKind::File);
    assert_eq!(PitouFileKind::of(false, false), PitouFileKind::Link);
    let metadata = file.metadata.unwrap();
    assert!(!metadata.is_dir());
    assert_eq!(metadata.kind(), PitouFileKind::File);
    assert!(!metadata.is_sys_item());
}

#[test]
fn a_listing_shows_the_number_of_entries_of_a_directory() {
    let m = |kind| PitouFileMetadata {
        modified: PitouDateTime { datetime: 1 },
        accessed: PitouDateTime { datetime: 2 },
        created: PitouDateTime { datetime: 3 },
        size: PitouFileSize::new(4096),
        kind,
        attribute: 16,
    };
    let dir = PitouFile::from_pathbuf("/d".to_string(), Some(m(PitouFileKind::Directory)), 7);
    assert_eq!(dir.metadata.unwrap().size.bytes, 7);
    assert_eq!(dir.metadata.unwrap().attribute, 16);
    assert_eq!(dir.metadata.unwrap().created.datetime, 3);
    let file = PitouFile::from_pathbuf("/f".to_string(), Some(m(PitouFileKind::File)), 7);
    assert_eq!(file.metadata.unwrap().size.bytes, 4096);
    let unknown = PitouFile::from_pathbuf("/u".to_string(), None, 7);
    assert!(unknown.metadata.is_none());
    assert_eq!(unknown.path.path, "/u");
}

#[test]
fn the_order_of_a_dictionary_on_bytes() {
    assert!(bytes_precede(b"", b""));
    assert!(bytes_precede(b"", b"a"));
    assert!(!bytes_precede(b"a", b""));
    assert!(bytes_precede(b"a", b"a"));
    assert!(bytes_precede(b"a", b"ab"));
    assert!(!bytes_precede(b"ab", b"a"));
    assert!(bytes_precede(b"ab", b"b"));
    assert!(!bytes_precede(b"b", b"ab"));
    assert!(bytes_precede(b"Z", b"a"));
}

#[test]
fn files_are_sorted_by_name_and_by_time() {
    let files = || {
        vec![
            stamped("/d/pear", PitouFileKind::File, 30, 1, 200),
            PitouFile::without_metadata(path("/d/fig")),
            stamped("/d/apple", PitouFileKind::File, 10, 3, 100),
            stamped("/d/Zebra", PitouFileKind::Directory, 20, 2, 300),
        ]
    };
    let by = |sort: PitouFileSort| names(&sort.sorted(files()));
    assert_eq!(by(PitouFileSort::Name(PitouFileSortOrder::Increasing)), vec!["Zebra", "apple", "fig", "pear"]);
    assert_eq!(by(PitouFileSort::Name(PitouFileSortOrder::Decreasing)), vec!["pear", "fig", "apple", "Zebra"]);
    assert_eq!(
        by(PitouFileSort::DateCreated(PitouFileSortOrder::Increasing)),
        vec!["fig", "apple", "Zebra", "pear"]
    );
    assert_eq!(
        by(PitouFileSort::DateCreated(PitouFileSortOrder::Decreasing)),
        vec!["fig", "pear", "Zebra", "apple"]
    );
    assert_eq!(
        by(PitouFileSort::DateModified(PitouFileSortOrder::Increasing)),
        vec!["fig", "pear", "Zebra", "apple"]
    );
    assert_eq!(
        by(PitouFileSort::DateAccessed(PitouFileSortOrder::Decreasing)),
        vec!["fig", "Zebra", "pear", "apple"]
    );
    assert!(PitouFileSort::Name(PitouFileSortOrder::Increasing).sorted(Vec::new()).is_empty());
    let sort = PitouFileSort::DateModified(PitouFileSortOrder::Increasing);
    let all = files();
    assert!(sort.precedes(&all[1], &all[0]));
    assert!(!sort.precedes(&all[0], &all[1]));
    assert!(sort.precedes(&all[0], &all[2]));
    assert!(sort.precedes(&all[1], &all[1]));
}

#[test]
fn a_listing_is_filtered_and_then_sorted() {
    let entries = || {
        vec![
            stamped("/d/pear", PitouFileKind::File, 30, 1, 200),
            stamped("/d/sub", PitouFileKind::Directory, 5, 5, 5),
            PitouFile::without_metadata(path("/d/fig")),
            stamped("/d/link", PitouFileKind::Link, 10, 3, 100),
            stamped("/d/apple", PitouFileKind::File, 10, 3, 100),
        ]
    };
    assert_eq!(names(&children(entries(), PitouFileFilter::new(), None)), vec!["pear", "sub", "link", "apple"]);
    assert_eq!(names(&children(entries(), PitouFileFilter::only_dirs(), None)), vec!["sub"]);
    assert_eq!(
        names(&children(
            entries(),
            PitouFileFilter::new(),
            Some(PitouFileSort::Name(PitouFileSortOrder::Increasing))
        )),
        vec!["apple", "link", "pear", "sub"]
    );
    let files_only = PitouFileFilter { files: true, links: false, dirs: false, sys_items: false };
    assert_eq!(
        names(&children(entries(), files_only, Some(PitouFileSort::Name(PitouFileSortOrder::Decreasing)))),
        vec!["pear", "apple"]
    );
    assert!(children(Vec::new(), PitouFileFilter::new(), None).is_empty());
}

fn drive(name: &str, mount: &str) -> PitouDrive {
    PitouDrive {
        name: name.to_string(),
        mount_point: path(mount),
        total_space: 100,
        free_space: 40,
        is_removable: false,
        kind: PitouDriveKind::SSD,
    }
}

#[test]
fn drives_are_ordered_by_the_name_of_their_mount_point() {
    let sorted = drives(vec![drive("c", "/mnt/usb"), drive("a", "/"), drive("b", "/home"), drive("d", "/boot")]);
    let mounts: Vec<&str> = sorted.iter().map(|d| d.mount_point.path.as_str()).collect();
    assert_eq!(mounts, vec!["/", "/boot", "/home", "/mnt/usb"]);
    assert!(drives(Vec::new()).is_empty());
    let one = drive("a", "/home");
    assert!(one == drive("other", "/home"));
    assert!(one != drive("a", "/boot"));
    assert!(one.mount_point() == &path("/home"));
    let as_file = one.as_pitou_file();
    assert_eq!(as_file.path.path, "/home");
    assert!(as_file.metadata.is_none());
}

#[test]
fn the_folders_that_every_user_has() {
    let folders = general_folders(
        path("/home/u/Bureau"),
        path("/home/u/Downloads"),
        path("/home/u/Music"),
        path("/home/u/Videos"),
        path("/home/u/Pictures"),
        path("/home/u/Documents"),
    );
    let titles: Vec<String> = folders.iter().map(|f| f.name()).collect();
    assert_eq!(titles, vec!["Desktop", "Downloads", "Audios", "Videos", "Pictures", "Documents"]);
    assert!(matches!(folders[0], GeneralFolder::DesktopFolder(_)));
    assert!(matches!(folders[2], GeneralFolder::AudiosFolder(_)));
    assert!(matches!(folders[5], GeneralFolder::DocumentsFolder(_)));
    assert_eq!(folders[0].o_name(), "Bureau");
    assert_eq!(folders[2].o_name(), "Music");
    assert_eq!(folders[2].path().path, "/home/u/Music");
    assert_eq!(folders[4].as_pitou_file().path.path, "/home/u/Pictures");
    assert!(folders[1] == GeneralFolder::DownloadsFolder(path("/home/u/Downloads")));
    assert!(folders[1] != GeneralFolder::DesktopFolder(path("/home/u/Downloads")));
    assert!(folders[1] != GeneralFolder::DownloadsFolder(path("/elsewhere")));
}

#[test]
fn colours_as_a_style_sheet_writes_them() {
    assert_eq!(Color(60, 0, 255, 7).to_string(), "rgba(60, 0, 255, 7)");
    assert_eq!(ColorTheme::default_dark().background1, Color(60, 60, 60, 255));
    assert_eq!(ColorTheme::default_dark().spare2, Color(185, 210, 235, 255));
    assert_eq!(ColorTheme::default_light().foreground1, Color(50, 50, 50, 255));
    assert_eq!(ColorTheme::gem_dark().foreground2, Color(0, 255, 255, 255));
    assert_eq!(ColorTheme::polish_dark().spare1, Color(10, 10, 10, 255));
    assert!(ColorTheme::default_dark() != ColorTheme::default_light());
}

#[test]
fn items_of_the_trash() {
    let item = PitouTrashItem::from_listing(
        &path("/home/user"),
        "New Folder",
        "/home/user/.local/share/Trash/info/New Folder.trashinfo".to_string(),
        PitouDateTime { datetime: 1_700_000_000_000 },
        3,
        true,
    );
    assert_eq!(item.path().path, "/home/user/New Folder");
    assert_eq!(item.name(), "New Folder");
    assert_eq!(item.id(), "/home/user/.local/share/Trash/info/New Folder.trashinfo");
    assert!(item.is_dir());
    assert_eq!(item.metadata().size.bytes, 3);
    assert_eq!(item.metadata().deleted.datetime, 1_700_000_000_000);
}
