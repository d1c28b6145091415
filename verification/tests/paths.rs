use pitou_core::copy::{dst_real, dst_temp};
use pitou_core::path::PitouFilePath;
use pitou_core::wire::{parse_path, parse_path_frontend, turn};

fn path(text: &str) -> PitouFilePath {
    PitouFilePath::from_pathbuf(text.to_string())
}

#[test]
fn test_path() {
    let buf = std::path::PathBuf::from("");
    let _d = buf.display();
    let empty = PitouFilePath::from_pathbuf(String::new());
    assert_eq!(empty.name(), "Drives");
    assert_eq!(empty.len(), 0);
}

#[test]
fn name_is_the_final_component() {
    assert_eq!(path("/home/user/report.txt").name(), "report.txt");
    assert_eq!(path("/home/user/").name(), "user");
    assert_eq!(path("report.txt").name(), "report.txt");
    assert_eq!(path("/").name(), "");
    assert_eq!(path("/home/..").name(), "");
    assert_eq!(path("").name(), "Drives");
}

#[test]
fn extension_is_what_follows_the_last_dot() {
    assert_eq!(path("/home/user/report.txt").extension(), "txt");
    assert_eq!(path("/home/user/archive.tar.gz").extension(), "gz");
    assert_eq!(path("/home/user/Makefile").extension(), "");
    assert_eq!(path("/home/user/.profile").extension(), "");
}

#[test]
fn bytes_and_length() {
    let p = path("/tmp/é");
    assert_eq!(p.as_bytes(), "/tmp/é".as_bytes());
    assert_eq!(p.len(), 7);
    assert_eq!(path("").len(), 0);
}

#[test]
fn ancestors_come_outermost_first() {
    let all = path("/home/user/report.txt").ancestors();
    let texts: Vec<&str> = all.iter().map(|p| p.path.as_str()).collect();
    assert_eq!(texts, vec!["/", "/home", "/home/user", "/home/user/report.txt"]);
    let one = path("report.txt").ancestors();
    let texts: Vec<&str> = one.iter().map(|p| p.path.as_str()).collect();
    assert_eq!(texts, vec!["", "report.txt"]);
}

#[test]
fn paths_are_equal_by_text() {
    assert!(path("/a/b") == path("/a/b"));
    assert!(path("/a/b") != path("/a/c"));
    assert!(path("/a/b").clone() == path("/a/b"));
}

#[test]
fn temporary_and_final_destination() {
    let src = path("/src/photos/cat.png");
    let dst = path("/dst");
    assert_eq!(dst_temp(&src, &dst).unwrap().path, "/dst/.cat.png");
    assert_eq!(dst_real(&src, &dst).unwrap().path, "/dst/cat.png");
    assert!(dst_temp(&path("/"), &dst).is_none());
    assert!(dst_real(&path("/src/.."), &dst).is_none());
    assert_eq!(dst_real(&path("/src/folder/"), &path("/dst/inner")).unwrap().path, "/dst/inner/folder");
}

#[test]
fn paths_from_the_wire() {
    assert_eq!(parse_path("C:/Users/me/Desktop"), "C:\\Users\\me\\Desktop");
    assert_eq!(parse_path("C"), "C:\\");
    assert_eq!(parse_path("C:"), "C:\\");
    assert_eq!(parse_path("C/Users"), "C:\\Users");
    assert_eq!(parse_path("C\\"), "C:\\");
    assert_eq!(parse_path(""), "");
    assert_eq!(parse_path("CD"), "CD");
    assert_eq!(parse_path("é"), "é");
    assert_eq!(parse_path("é/x"), "é\\x");
    assert_eq!(parse_path("é:"), "é:");
    assert_eq!(parse_path("/"), "\\:\\");
    assert_eq!(parse_path("//server/share"), "\\:\\server\\share");
    assert_eq!(parse_path_frontend("C:\\Users\\me"), "C:/Users/me");
    assert_eq!(parse_path_frontend("/already/fine"), "/already/fine");
    assert_eq!(parse_path_frontend(""), "");
    assert_eq!(turn("a-b-c", '-', '+'), "a+b+c");
    assert_eq!(turn("añb", 'ñ', 'n'), "anb");
}
