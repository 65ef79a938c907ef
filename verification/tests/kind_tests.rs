use modal_values::kind::SelectMenuKind;

#[test]
fn identifiers_round_trip() {
    for kind in SelectMenuKind::all() {
        assert_eq!(SelectMenuKind::from_str(kind.as_str()), Ok(kind));
    }
}

#[test]
fn all_lists_every_kind_once() {
    let kinds = SelectMenuKind::all();
    assert_eq!(
        kinds,
        vec![
            SelectMenuKind::String,
            SelectMenuKind::User,
            SelectMenuKind::Role,
            SelectMenuKind::Mentionable,
            SelectMenuKind::Channel,
        ]
    );
}

#[test]
fn identifier_texts_are_fixed() {
    let ids: Vec<&str> = SelectMenuKind::all().iter().map(|k| k.as_str()).collect();
    assert_eq!(ids, vec!["string", "user", "role", "mentionable", "channel"]);
}

#[test]
fn unknown_identifiers_are_rejected() {
    assert_eq!(SelectMenuKind::from_str("not-a-real-id"), Err(()));
    assert_eq!(SelectMenuKind::from_str(""), Err(()));
    assert_eq!(SelectMenuKind::from_str("String"), Err(()));
    assert_eq!(SelectMenuKind::from_str("role "), Err(()));
}
