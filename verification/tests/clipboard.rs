use pitou_core::clipboard::{clone_files, Clipboard, ClipboardItem};
use pitou_core::file::PitouFile;
use pitou_core::path::PitouFilePath;

fn files(paths: &[&str]) -> Vec<PitouFile> {
    paths
        .iter()
        .map(|p| PitouFile::without_metadata(PitouFilePath::from_pathbuf(p.to_string())))
        .collect()
}

fn texts(items: &Vec<PitouFile>) -> Vec<String> {
    items.iter().map(|f| f.path.path.clone()).collect()
}

#[test]
fn a_copy_can_be_pasted_again_and_again() {
    let mut clipboard = Clipboard::new();
    assert!(clipboard.is_empty());
    clipboard.copy(files(&["/a/one", "/a/two"]));
    assert!(!clipboard.is_empty());
    for _ in 0..3 {
        match clipboard.paste() {
            Some(ClipboardItem::Copied(items)) => {
                assert_eq!(texts(&items), vec!["/a/one".to_string(), "/a/two".to_string()])
            }
            _ => panic!("a copied selection was expected"),
        }
        assert!(!clipboard.is_empty());
        assert_eq!(clipboard.len(), 1);
    }
}

#[test]
fn a_cut_can_be_pasted_once() {
    let mut clipboard = Clipboard::new();
    clipboard.cut(files(&["/a/one"]));
    match clipboard.paste() {
        Some(ClipboardItem::Cut(items)) => assert_eq!(texts(&items), vec!["/a/one".to_string()]),
        _ => panic!("a cut selection was expected"),
    }
    assert!(clipboard.is_empty());
    assert!(clipboard.paste().is_none());
    assert!(clipboard.paste().is_none());
}

#[test]
fn an_empty_clipboard_pastes_nothing() {
    let mut clipboard = Clipboard::new();
    assert!(clipboard.paste().is_none());
    assert_eq!(clipboard.len(), 0);
}

#[test]
fn a_new_selection_replaces_the_old() {
    let mut clipboard = Clipboard::new();
    clipboard.copy(files(&["/a/one"]));
    clipboard.cut(files(&["/b/two"]));
    assert_eq!(clipboard.len(), 1);
    let item = clipboard.paste().unwrap();
    assert!(item.is_cut());
    assert_eq!(texts(item.items()), vec!["/b/two".to_string()]);
    assert!(clipboard.paste().is_none());
}

#[test]
fn the_clipboard_can_be_emptied() {
    let mut clipboard = Clipboard::new();
    clipboard.copy(files(&["/a/one"]));
    clipboard.remove_from_clipboard(0);
    assert!(clipboard.is_empty());
    clipboard.copy(files(&["/a/one"]));
    clipboard.clear_clipboard();
    assert!(clipboard.is_empty());
    clipboard.clear_clipboard();
    assert!(clipboard.is_empty());
}

#[test]
fn cloned_files_keep_their_order() {
    let given = files(&["/1", "/2", "/3"]);
    let copy = clone_files(&given);
    assert_eq!(texts(&copy), texts(&given));
    assert!(clone_files(&Vec::new()).is_empty());
}
