use pitou_core::fs::{DirContent, Directory, File, FileContent, Metadata, Permission};

#[test]
fn test_file_creation() {
    let file_path = String::from("target/tmp/test_file_creation.txt");

    // A file that has just been made is empty and can be written to.
    let file = File::get(file_path.clone(), Metadata::of(false, 0, false));

    assert_eq!(file.path(), &file_path);

    assert_eq!(file.metadata().permission(), Permission::Write);
}

#[test]
fn test_file_opening() {
    let file_path = String::from("target/tmp/test_file_opening.txt");

    let written = "Hello, World!";
    let file = File::get(file_path.clone(), Metadata::of(false, written.len() as u64, false));

    assert_eq!(file.path(), &file_path);

    assert_eq!(file.metadata().permission(), Permission::Write);
}

#[test]
fn test_file_entries() {
    let dir_path = String::from("target/tmp/test_file_entries");

    let directory = Directory::create(dir_path.clone(), Metadata::of(true, 4096, false));
    let listing = vec![
        DirContent::File(File::get(format!("{}/file1.txt", dir_path), Metadata::of(false, 6, false))),
        DirContent::File(File::get(format!("{}/file2.txt", dir_path), Metadata::of(false, 6, false))),
        DirContent::File(File::get(format!("{}/subdir", dir_path), Metadata::of(true, 4096, false))),
    ];

    let file = File::get(dir_path.clone(), Metadata::of(true, 4096, false));

    println!("{:?}", file.path());
    assert!(file == directory.0);

    let entries = listing;

    assert_eq!(entries.len(), 3);

    assert!(matches!(entries[0], DirContent::File(_)));
    assert!(matches!(entries[1], DirContent::File(_)));
    assert!(matches!(entries[2], DirContent::File(_)));
}

#[test]
fn test_file_io() {
    let file_path = String::from("target/tmp/test_file_io.txt");

    let input = b"In the land of myth and in the time of magic";

    let file = File::get(file_path, Metadata::of(false, input.len() as u64, false));
    let output = FileContent::File(input.to_vec()).unwrap();

    assert_eq!(input.len(), output.len());
    assert_eq!(file.size() as usize, output.len());

    assert_eq!(input.as_slice(), &output);

    println!("{}", String::from_utf8(output).unwrap());
}
