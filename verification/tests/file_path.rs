use mapirs::file_path::{path_join, path_parent, FilePath};

#[test]
fn file_path_construction_works() {
    assert!(FilePath::try_from("hello.txt".to_owned()).is_ok());
    assert!(FilePath::try_from("C:\\".to_owned()).is_err());
    assert!(FilePath::try_from("C:\\tmp\\".to_owned()).is_ok());
}

#[test]
fn file_path_name_works() {
    assert_eq!(
        "hello.txt",
        FilePath::try_from("C:\\tmp\\hello.txt".to_owned())
            .unwrap()
            .file_name()
    );
}

#[test]
fn file_path_rejects_empty_and_dots() {
    assert!(FilePath::try_from("".to_owned()).is_err());
    assert!(FilePath::try_from("/".to_owned()).is_err());
    assert!(FilePath::try_from("a/..".to_owned()).is_err());
}

#[test]
fn path_parent_works() {
    assert_eq!(path_parent("/home/u/text.txt"), Some("/home/u".to_owned()));
    assert_eq!(path_parent("/x"), Some("/".to_owned()));
    assert_eq!(path_parent("/"), None);
    assert_eq!(path_parent("hello.txt"), Some("".to_owned()));
}

#[test]
fn path_join_uses_the_base_separator() {
    assert_eq!(path_join("C:\\tmp", "a.txt"), "C:\\tmp\\a.txt");
    assert_eq!(path_join("/tmp", "a.txt"), "/tmp/a.txt");
    assert_eq!(path_join("", "a.txt"), "a.txt");
    assert_eq!(path_join("/", "a.txt"), "/a.txt");
}
