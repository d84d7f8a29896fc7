use rayquabot::registration::{
    new_player_record, recap_fields, recap_title, refusal_message, registered_message,
    registration_decision, registration_gate, registration_window_query, registration_guide, registration_open, RegistrationRefusal, ServerSetup,
    ALREADY_REGISTERED_MESSAGE, NOT_SET_UP_MESSAGE, WRONG_CHANNEL_NOTICE,
};
use rayquabot::versions::get_versions_list_tuple;

fn setup() -> Option<ServerSetup> {
    Some(ServerSetup { registration_channel_id: "555".to_string(), registered_role_id: 42 })
}

#[test]
fn registration_needs_setup() {
    assert_eq!(registration_gate(&None, 555, &vec![]), Err(RegistrationRefusal::NotSetUp));
}

#[test]
fn registration_needs_its_channel() {
    assert_eq!(registration_gate(&setup(), 556, &vec![]), Err(RegistrationRefusal::WrongChannel));
    assert_eq!(registration_gate(&setup(), 555, &vec![1, 2]), Ok(42));
}

#[test]
fn registration_twice_is_refused() {
    let mut roles = vec![1u64, 2];
    let role = registration_gate(&setup(), 555, &roles).unwrap();
    roles.push(role);
    assert_eq!(registration_gate(&setup(), 555, &roles), Err(RegistrationRefusal::AlreadyRegistered));
}

#[test]
fn refusal_messages() {
    assert_eq!(refusal_message(RegistrationRefusal::NotSetUp), NOT_SET_UP_MESSAGE);
    assert_eq!(refusal_message(RegistrationRefusal::WrongChannel), WRONG_CHANNEL_NOTICE);
    assert_eq!(refusal_message(RegistrationRefusal::AlreadyRegistered), ALREADY_REGISTERED_MESSAGE);
}

#[test]
fn registration_window_is_strict() {
    assert!(registration_open(15, 10, 20));
    assert!(!registration_open(10, 10, 20));
    assert!(!registration_open(20, 10, 20));
    assert!(!registration_open(25, 10, 20));
}

#[test]
fn new_player() {
    let p = new_player_record(11, "Shiny", 22, 33);
    assert_eq!(p.player_id, "11");
    assert_eq!(p.edition_name, "Shiny");
    assert_eq!(p.guild_id, "22");
    assert_eq!(p.message_id, "33");
    assert!(p.team.is_none());
    assert!(!p.verified);
    assert_eq!(p.trainer_names, "");
    assert_eq!(p.more_info, "");
    let versions = get_versions_list_tuple();
    assert_eq!(p.versions.len(), versions.len());
    for (k, v) in p.versions.iter().enumerate() {
        assert_eq!(v.0, versions[k].0);
        assert_eq!(v.1, 0);
    }
}

#[test]
fn recap_and_guide() {
    assert_eq!(recap_title("Shiny"), "Récap de l'inscription pour l'édition Shiny");
    let fields = recap_fields();
    let versions = get_versions_list_tuple();
    assert_eq!(fields.len(), (versions.len() + 1) / 2);
    assert_eq!(
        fields[0].0,
        format!("{} : \n❌\n--------------------------", versions[0].1)
    );
    assert_eq!(
        fields[0].1,
        format!("**{} : \n❌\n--------------------------**", versions[1].1)
    );
    assert_eq!(fields[fields.len() - 1].1, "");
    let guide = registration_guide();
    assert!(guide.contains("**/add_names**"));
    assert!(guide.contains("**/version_player_setup**"));
    assert!(guide.contains("**add_proof**"));
    assert!(guide.ends_with("_Voici le récap des infos :_"));
}

#[test]
fn registered_answer() {
    assert_eq!(
        registered_message("Ash", "Shiny"),
        "Ash s'est inscrit avec succès à l'édition **Shiny**"
    );
}

#[test]
fn registration_without_open_edition_is_closed() {
    let closed = Err(("Inscriptions closes", "Aucune édition n'est actuellement en phase d'inscription."));
    assert_eq!(registration_decision(None, 15), closed);
    assert_eq!(registration_decision(Some((10, 20)), 10), closed);
    assert_eq!(registration_decision(Some((10, 20)), 15), Ok(()));
}

#[test]
fn registration_window_query_uses_guild_and_instant() {
    assert_eq!(registration_window_query(123456789, 1700000000), ("123456789".to_string(), 1700000000));
    assert_eq!(registration_window_query(0, -5), ("0".to_string(), -5));
}
