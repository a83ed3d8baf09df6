use mapirs::conversion::unpack_strings;

#[test]
fn unpack_strings_works() {
    let delim = ";".to_owned();
    assert_eq!(
        unpack_strings("A;B;C".to_owned(), &delim),
        vec!["A", "B", "C"]
    );

    assert_eq!(unpack_strings("".to_owned(), &delim), Vec::<String>::new());

    assert_eq!(
        unpack_strings(";;".to_owned(), &delim),
        Vec::<String>::new()
    );

    assert_eq!(
        unpack_strings("C:\\a.txt;C:\\b.jpg".to_owned(), &"".to_owned()),
        vec!["C:\\a.txt;C:\\b.jpg"]
    );

    assert_eq!(
        unpack_strings("C:\\a.txt;C:\\b.jpg".to_owned(), &"%".to_owned()),
        vec!["C:\\a.txt;C:\\b.jpg"]
    );

    assert_eq!(
        unpack_strings(";C:\\a.txt;".to_owned(), &delim),
        vec!["C:\\a.txt"]
    );
}

#[test]
fn unpack_strings_multichar_delim() {
    assert_eq!(
        unpack_strings("a--b--c".to_owned(), "--"),
        vec!["a", "b", "c"]
    );
    assert_eq!(unpack_strings("----".to_owned(), "--"), Vec::<String>::new());
    assert_eq!(unpack_strings("-".to_owned(), "--"), vec!["-"]);
}
