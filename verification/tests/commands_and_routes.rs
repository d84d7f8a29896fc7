use rayquabot::commands::{
    edit_edition_command, generation_table, lock_version_command, new_edition_command, ping_command,
    version_player_command, version_setup_command, OptionKind,
};
use rayquabot::constants::TypeDate;
use rayquabot::routing::{route_command, route_component, route_modal, CommandRoute, ComponentRoute, ModalRoute};
use rayquabot::selection::{
    choice_settings_are_readable, edition_choice_is_readable, flag_settings_are_readable,
    decode_version_choices, decode_version_flags, edition_choice_value, encode_version_choices,
    encode_version_flags, read_edition_choice,
};

#[test]
fn commands_route_by_name() {
    assert_eq!(route_command("ping"), Some(CommandRoute::Ping));
    assert_eq!(route_command("setup"), Some(CommandRoute::SetupEnv));
    assert_eq!(route_command("inscription"), Some(CommandRoute::Registration));
    assert_eq!(route_command("version_player_setup"), Some(CommandRoute::VersionPlayerSetup));
    assert_eq!(route_command("unknown"), None);
}

#[test]
fn modals_route_by_custom_id() {
    assert_eq!(route_modal("create_new_edition"), Some(ModalRoute::NewEditionForm));
    assert_eq!(route_modal("other"), None);
}

#[test]
fn components_route_by_custom_id() {
    assert_eq!(route_component("delete_edition_modal"), Some(ComponentRoute::DeleteEdition));
    assert_eq!(
        route_component("edit_end_competition"),
        Some(ComponentRoute::EditDate(TypeDate::EndCompetition))
    );
    assert_eq!(route_component("edition_select"), Some(ComponentRoute::ShowEdition));
    assert_eq!(route_component("lock_version_modal*x-true"), Some(ComponentRoute::VersionSetupEnd));
    assert_eq!(route_component("version_player_modal*x-2"), Some(ComponentRoute::VersionPlayerEnd));
    assert_eq!(route_component("print_versions_modal"), None);
}

#[test]
fn version_flags_round_trip() {
    let opts = vec![("poke_x_y".to_string(), true), ("poke_xd".to_string(), false)];
    let id = encode_version_flags("lock_version_modal", &opts);
    assert_eq!(id, "lock_version_modal*poke_x_y-true*poke_xd-false");
    assert_eq!(decode_version_flags(&id), vec![("poke_x_y", 1), ("poke_xd", 0)]);
}

#[test]
fn version_choices_round_trip() {
    let opts = vec![("poke_yellow".to_string(), 2i64), ("poke_crystal".to_string(), 0)];
    let id = encode_version_choices("version_player_modal", &opts);
    assert_eq!(id, "version_player_modal*poke_yellow-2*poke_crystal-0");
    assert_eq!(decode_version_choices(&id), vec![("poke_yellow", 2), ("poke_crystal", 0)]);
}

#[test]
fn edition_choice_round_trip() {
    let v = edition_choice_value("Shiny", "123");
    assert_eq!(v, "Shiny-123");
    assert_eq!(read_edition_choice(&v), ("Shiny", "123"));
}

#[test]
fn command_definitions() {
    let p = ping_command();
    assert_eq!(p.name, "ping");
    assert!(!p.admin_only);
    assert!(new_edition_command().admin_only);
    let v = version_setup_command();
    assert!(v.admin_only);
    assert_eq!(v.subcommands.len(), 9);
    assert_eq!(v.subcommands[0].name, "gen_1");
    assert_eq!(v.subcommands[0].options[0].kind, OptionKind::Boolean);
    assert!(!lock_version_command().admin_only);
    let pl = version_player_command();
    assert_eq!(pl.dm_permission, Some(true));
    assert_eq!(pl.subcommands[8].options[0].int_choices.len(), 3);
    let e = edit_edition_command();
    assert_eq!(e.options.len(), 1);
    assert_eq!(e.options[0].string_choices.len(), 4);
    let g = generation_table();
    assert_eq!(g.iter().map(|x| x.1.len()).sum::<usize>(), 27);
}

#[test]
fn settings_readability() {
    assert!(flag_settings_are_readable("lock_version_modal*x_y-true*xd-false"));
    assert!(flag_settings_are_readable("lock_version_modal"));
    assert!(!flag_settings_are_readable("lock_version_modal*x_y-yes"));
    assert!(!flag_settings_are_readable("lock_version_modal*x_y"));
    assert!(choice_settings_are_readable("version_player_modal*yellow-2*crystal-0"));
    assert!(!choice_settings_are_readable("version_player_modal*yellow-two"));
    assert!(edition_choice_is_readable("Shiny-123"));
    assert!(!edition_choice_is_readable("Shiny"));
}
