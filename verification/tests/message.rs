use mapirs::structs::message::ConsolidateOutcome;
use mapirs::structs::{FileDescriptor, Message, RecipientDescriptor};

#[test]
fn message_make_mailto_works() {
    assert_eq!(
        Message::new(vec![], None, None, vec![]).make_mailto_link(&vec![]),
        "mailto:?"
    );

    assert_eq!(
        Message::new(vec!["a@b.de", "b@c.de", "d@g.de"], None, None, vec![])
            .make_mailto_link(&vec![]),
        "mailto:a@b.de?cc=b@c.de,d@g.de"
    );

    assert_eq!(
        Message::new(
            vec!["a@b.de"],
            None,
            None,
            vec![FileDescriptor::new(
                "C:\\some\\path file.jpg",
                "file.txt".into(),
            )],
        )
        .make_mailto_link(&vec!["C:\\tmp\\file.txt".to_owned()]),
        "mailto:a@b.de?attach=C%3A%5Ctmp%5Cfile.txt"
    );

    assert_eq!(
        Message::new(
            vec!["a@b.de"],
            None,
            None,
            vec![FileDescriptor::new("C:\\some\\path file.jpg", None)],
        )
        .make_mailto_link(&vec!["C:\\tmp\\path file.jpg".to_owned()]),
        "mailto:a@b.de?attach=C%3A%5Ctmp%5Cpath%20file.jpg"
    );

    assert_eq!(Message::new(
        vec!["a@b.de"],
        "börk & ? = / \\".into(),
        "börk & ? \\ %20 ".into(),
        vec![],
    ).make_mailto_link(&vec![]), "mailto:a@b.de?subject=b%C3%B6rk%20%26%20%3F%20%5C%20%2520%20&body=b%C3%B6rk%20%26%20%3F%20%3D%20%2F%20%5C");
}

#[test]
fn ampersand_in_subject_is_encoded_inside_the_value() {
    let m = Message::new(vec!["a@b.de"], Some("the body"), Some("a&b"), vec![]);
    assert_eq!(
        m.make_mailto_link(&vec![]),
        "mailto:a@b.de?subject=a%26b&body=the%20body"
    );
}

#[test]
fn first_recipient_without_address_gives_an_empty_target() {
    let m = Message::from_parts(
        None,
        None,
        None,
        None,
        None,
        0,
        None,
        vec![
            Some(RecipientDescriptor::from_parts(1, None, None, vec![])),
            Some(RecipientDescriptor::new("cc@d.de")),
        ],
        vec![],
    );
    assert_eq!(m.make_mailto_link(&vec![]), "mailto:?cc=cc@d.de");
}

#[test]
fn from_parts_drops_failed_elements() {
    let m = Message::from_parts(
        Some("s".to_owned()),
        Some("b".to_owned()),
        None,
        None,
        None,
        0,
        None,
        vec![
            None,
            Some(RecipientDescriptor::new("a@b.de")),
            None,
            Some(RecipientDescriptor::new("c@d.de")),
        ],
        vec![
            None,
            Some(FileDescriptor::new("C:\\a.txt", None)),
        ],
    );
    assert_eq!(m.recips.len(), 2);
    assert_eq!(m.recips[0].address, Some("a@b.de".to_owned()));
    assert_eq!(m.recips[1].address, Some("c@d.de".to_owned()));
    assert_eq!(m.files.len(), 1);
    assert_eq!(m.make_mailto_link(&vec![]), "mailto:a@b.de?cc=c@d.de&subject=s&body=b");
}

#[test]
fn ensure_attachments_maps_every_outcome() {
    let m = Message::new(
        vec![],
        None,
        None,
        vec![
            FileDescriptor::new("C:\\a\\one.txt", None),
            FileDescriptor::new("C:\\a\\two.txt", Some("other.txt")),
            FileDescriptor::new("C:\\a\\three.txt", None),
        ],
    );

    // no temp root: every attachment keeps its original path
    let none_root = m.ensure_attachments(
        &None,
        &vec![
            ConsolidateOutcome { content: None, copy_ok: false },
            ConsolidateOutcome { content: None, copy_ok: false },
            ConsolidateOutcome { content: None, copy_ok: false },
        ],
    );
    assert_eq!(
        none_root,
        vec!["C:\\a\\one.txt", "C:\\a\\two.txt", "C:\\a\\three.txt"]
    );

    // a temp root: copied files move, a failed copy falls back
    let outcomes = vec![
        ConsolidateOutcome { content: Some(b"".to_vec()), copy_ok: true },
        ConsolidateOutcome { content: None, copy_ok: true },
        ConsolidateOutcome { content: Some(b"".to_vec()), copy_ok: false },
    ];
    let with_root = m.ensure_attachments(&Some("C:\\Tmp".to_owned()), &outcomes);
    // SHA-256 of the empty byte string begins with e3b0
    assert_eq!(
        with_root,
        vec![
            "C:\\Tmp\\e3b0\\one.txt",
            "C:\\Tmp\\xxxxxxxx\\other.txt",
            "C:\\a\\three.txt",
        ]
    );
}
