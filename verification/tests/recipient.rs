use mapirs::structs::recipient_descriptor::strip_smtp_prefix;
use mapirs::structs::RecipientDescriptor;

#[test]
fn smtp_prefix_is_stripped() {
    let r1 = RecipientDescriptor::from_parts(0, None, Some("SMTP:a@b.c".to_owned()), vec![]);
    let r2 = RecipientDescriptor::from_parts(0, None, Some("\"SMTP:a\"@b.c".to_owned()), vec![]);
    assert_eq!(r1.address, Some("a@b.c".to_owned()));
    assert_eq!(r2.address, Some("\"SMTP:a\"@b.c".to_owned()));
}

#[test]
fn strip_smtp_prefix_cases() {
    assert_eq!(strip_smtp_prefix("SMTP:a@b.c".to_owned()), "a@b.c");
    assert_eq!(strip_smtp_prefix("smtp:a@b.c".to_owned()), "smtp:a@b.c");
    assert_eq!(strip_smtp_prefix("SMTP".to_owned()), "SMTP");
    assert_eq!(strip_smtp_prefix("SMTP:".to_owned()), "");
    assert_eq!(strip_smtp_prefix("a@b.c".to_owned()), "a@b.c");
    assert_eq!(
        strip_smtp_prefix("\"SMTP:inner\"@b.c".to_owned()),
        "\"SMTP:inner\"@b.c"
    );
}

#[test]
fn missing_name_gets_the_sentinel() {
    let r = RecipientDescriptor::from_parts(1, None, None, vec![1, 2]);
    assert_eq!(r.name, "MISSING_RECIP_NAME");
    assert_eq!(r.address, None);
    assert_eq!(r.recip_class, 1);
    assert_eq!(r.entry_id, vec![1, 2]);

    let named = RecipientDescriptor::from_parts(2, Some("Who".to_owned()), None, vec![]);
    assert_eq!(named.name, "Who");
}
