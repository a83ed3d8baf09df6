use mapirs::environment::fallback_tmp_subdir_path;
use mapirs::structs::FileDescriptor;

#[test]
fn needs_new_name_works() {
    assert!(FileDescriptor::new("C:\\hello.txt", Some("ciao.txt")).needs_new_name());

    assert!(!FileDescriptor::new("C:\\hello.txt", Some("hello.txt")).needs_new_name());
    assert!(!FileDescriptor::new("C:\\hello.txt", None).needs_new_name());
}

#[test]
fn needs_new_name_compares_final_components() {
    // the display name is reduced to its final component at construction,
    // so a directory difference alone forces no rename
    assert!(!FileDescriptor::new("C:\\a\\hello.txt", Some("other\\dir\\hello.txt")).needs_new_name());
    assert!(!FileDescriptor::new("C:\\a\\hello.txt", Some("other/hello.txt")).needs_new_name());
    // a display name without a final component is dropped
    assert!(!FileDescriptor::new("C:\\a\\hello.txt", Some("C:\\")).needs_new_name());
}

#[test]
fn consolidate_into_works() {
    // the source files do not exist, so the collaborator read no content
    // and the subfolder falls back to the fixed name; the copy itself is
    // reported as done
    assert_eq!(
        FileDescriptor::new("C:\\User\\Doccies\\hello.txt", Some("hello.txt"))
            .consolidate_into(&Some("C:\\User\\TmpDir".to_owned()), &None, true),
        format!(
            "C:\\User\\TmpDir\\{}\\hello.txt",
            fallback_tmp_subdir_path()
        ),
        "If the same file name is given, then it is copied with the same filename"
    );

    assert_eq!(
        FileDescriptor::new("C:\\User\\Doccies\\hello.txt", Some("ciao.txt"))
            .consolidate_into(&Some("C:\\User\\TmpDir".to_owned()), &None, true),
        format!(
            "C:\\User\\TmpDir\\{}\\ciao.txt",
            fallback_tmp_subdir_path()
        ),
        "If a different file name is given, then it copies with the new filename",
    );

    assert_eq!(
        FileDescriptor::new("C:\\User\\Doccies\\hello.txt", None)
            .consolidate_into(&Some("C:\\User\\TmpDir".to_owned()), &None, true),
        format!(
            "C:\\User\\TmpDir\\{}\\hello.txt",
            fallback_tmp_subdir_path()
        ),
        "If no file name is given, then it copies with the original filename"
    );
}

#[test]
fn consolidate_without_root_returns_the_original_path() {
    let fd = FileDescriptor::new("C:\\User\\Doccies\\hello.txt", Some("ciao.txt"));
    assert_eq!(
        fd.consolidate_into(&None, &Some(b"content".to_vec()), true),
        "C:\\User\\Doccies\\hello.txt"
    );
    assert_eq!(
        fd.consolidate_into(&None, &None, false),
        "C:\\User\\Doccies\\hello.txt"
    );
}

#[test]
fn consolidate_after_failed_copy_returns_the_original_path() {
    let fd = FileDescriptor::new("C:\\User\\Doccies\\hello.txt", Some("ciao.txt"));
    assert_eq!(
        fd.consolidate_into(&Some("C:\\Tmp".to_owned()), &Some(b"content".to_vec()), false),
        "C:\\User\\Doccies\\hello.txt"
    );
}

#[test]
fn consolidation_is_content_addressed() {
    // the subfolder comes from the content alone: equal content and equal
    // target name give equal destinations, twice over
    let fd = FileDescriptor::new("C:\\a\\hello.txt", None);
    let content = Some(b"same bytes".to_vec());
    let first = fd.consolidate_into(&Some("C:\\Tmp".to_owned()), &content, true);
    let second = fd.consolidate_into(&Some("C:\\Tmp".to_owned()), &content, true);
    assert_eq!(first, second);

    // the same content submitted under another source directory but the
    // same target name lands in the same place
    let other = FileDescriptor::new("D:\\elsewhere\\hello.txt", None);
    let third = other.consolidate_into(&Some("C:\\Tmp".to_owned()), &content, true);
    assert_eq!(first, third);

    // different content lands in a different subfolder
    let fourth = fd.consolidate_into(&Some("C:\\Tmp".to_owned()), &Some(b"other bytes".to_vec()), true);
    assert_ne!(first, fourth);
}

#[test]
fn from_parts_rejects_paths_without_a_name() {
    assert!(FileDescriptor::from_parts(0, 0, "C:\\".to_owned(), None, None).is_err());
    assert!(FileDescriptor::from_parts(0, 0, "/".to_owned(), None, None).is_err());
    assert!(FileDescriptor::from_parts(0, 0, "C:\\a.txt".to_owned(), None, None).is_ok());
}
