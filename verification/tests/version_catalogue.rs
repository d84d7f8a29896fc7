use rayquabot::versions::{
    get_versions_list_tuple, listing_fields, listing_version_emote, organizer_version_emote,
    organizer_version_fields, paired_fields, player_version_emote, player_version_fields,
    registration_version_emote, registration_version_value, versions_title,
};

#[test]
fn get_versions_list_tuple_lists_the_catalogue() {
    let v = get_versions_list_tuple();
    assert_eq!(v.len(), 27);
    assert_eq!(v[0].0, "red_green_blue");
    assert_eq!(v[26].0, "xd");
}

#[test]
fn emotes() {
    assert_eq!(organizer_version_emote(0), "❌");
    assert_eq!(organizer_version_emote(1), "✅");
    assert_eq!(organizer_version_emote(7), "Erreur");
    assert_eq!(player_version_emote(2), "✅💫");
    assert_eq!(player_version_emote(-1), "Erreur");
    assert_eq!(registration_version_emote(0), "⛔");
    assert_eq!(registration_version_emote(3), "❌");
    assert_eq!(registration_version_value(0), -1);
    assert_eq!(registration_version_value(1), 0);
    assert_eq!(listing_version_emote(1), "✅");
    assert_eq!(listing_version_emote(2), "❌");
}

#[test]
fn paired_layout() {
    let f = paired_fields(&vec![("A", "x"), ("B", "y"), ("C", "z")]);
    assert_eq!(
        f,
        vec![
            (
                "A : \nx\n--------------------------".to_string(),
                "**B : \ny\n--------------------------**".to_string()
            ),
            ("C : \nz\n--------------------------".to_string(), "".to_string()),
        ]
    );
    let f = paired_fields(&vec![("A", "x"), ("B", "y")]);
    assert_eq!(f.len(), 1);
}

#[test]
fn version_summaries() {
    assert_eq!(versions_title("E"), "Versions autorisées pour l'édition E");
    let v = get_versions_list_tuple();
    let mut values = vec![0i32; 27];
    values[0] = 1;
    values[1] = 2;
    let f = organizer_version_fields(&values);
    assert_eq!(f.len(), 14);
    assert_eq!(f[0].0, format!("{} : \n✅\n--------------------------", v[0].1));
    assert_eq!(f[0].1, format!("**{} : \nErreur\n--------------------------**", v[1].1));
    let f = player_version_fields(&values);
    assert_eq!(f[0].1, format!("**{} : \n✅💫\n--------------------------**", v[1].1));
    assert_eq!(f[13].1, "");
}

#[test]
fn listing_layout_follows_the_bot() {
    let v = get_versions_list_tuple();
    let mut values = vec![0i32; 27];
    values[22] = 1;
    let f = listing_fields(&values);
    assert_eq!(f.len(), 15);
    assert_eq!(f[0].0, format!("{} : \n❌\n---------------------------", v[0].1));
    assert_eq!(f[0].1, format!("**{} : \n❌**\n---------------------------", v[1].1));
    assert_eq!(f[14].0, format!("{} : \n✅\n---------------------------", v[22].1));
    assert_eq!(f[14].1, "");
}
