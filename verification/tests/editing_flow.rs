use rayquabot::constants::TypeDate;
use rayquabot::editing::{
    check_new_date, date_changed_message, date_field, date_prompt, deletion_outcome,
    edition_info, edition_menu, new_date_from_text, open_editions_query, organizer_edition_filter,
    player_edition_menu, stored_message_id,
    version_edition_menu, version_setup_gate, version_setup_menu, EditionDates, DELETED_DESCRIPTION,
    DELETED_TITLE, DELETION_FAILED, NO_EDITION_TO_DELETE, NO_EDITION_TO_EDIT, NO_EDITION_TO_LIST,
    NO_EDITION_TO_LOCK, GUILD_ONLY_MESSAGE, ADMIN_ONLY_MESSAGE,
};

// 01/01/2030, 15/01/2030, 16/01/2030, 28/02/2030
fn dates() -> EditionDates {
    EditionDates {
        start_registration: 1893456000,
        end_registration: 1894665600,
        start_competition: 1894752000,
        end_competition: 1898467200,
    }
}

#[test]
fn edition_menu_lists_names() {
    let names = vec!["A".to_string(), "B".to_string()];
    let m = edition_menu("edit_start_inscription", &names, false).ok().unwrap();
    assert_eq!(m.custom_id, "edit_start_inscription");
    assert_eq!(m.placeholder, "Choisissez une édition");
    assert_eq!(m.options, vec![("A".to_string(), "A".to_string()), ("B".to_string(), "B".to_string())]);
}

#[test]
fn empty_edition_menu_is_only_an_error() {
    assert_eq!(edition_menu("edition_select", &vec![], false).err(), Some(NO_EDITION_TO_EDIT));
    assert_eq!(edition_menu("delete_edition_modal", &vec![], true).err(), Some(NO_EDITION_TO_DELETE));
}

#[test]
fn version_menus() {
    assert_eq!(version_edition_menu("lock_version_modal", &vec![], false).err(), Some(NO_EDITION_TO_LOCK));
    assert_eq!(version_edition_menu("print_versions_modal", &vec![], true).err(), Some(NO_EDITION_TO_LIST));
    let m = version_edition_menu("print_versions_modal", &vec!["E".to_string()], true).ok().unwrap();
    assert_eq!(m.placeholder, "Choisis une édition");
    assert_eq!(m.options.len(), 1);
    let m = version_setup_menu("lock_version_modal*x-true", &vec!["E".to_string()]);
    assert_eq!(m.custom_id, "lock_version_modal*x-true");
    assert_eq!(m.placeholder, "Sélectionne une édition");
}

#[test]
fn version_setup_gate_cases() {
    assert_eq!(version_setup_gate(false, true), Err(GUILD_ONLY_MESSAGE));
    assert_eq!(version_setup_gate(true, false), Err(ADMIN_ONLY_MESSAGE));
    assert_eq!(version_setup_gate(true, true), Ok(()));
}

#[test]
fn player_menu() {
    assert!(player_edition_menu("version_player_modal", &vec![]).is_none());
    let eds = vec![("Shiny".to_string(), "123".to_string(), "Mon serveur".to_string())];
    let m = player_edition_menu("version_player_modal*x-1", &eds).unwrap();
    assert_eq!(m.custom_id, "version_player_modal*x-1");
    assert_eq!(m.options, vec![("Shiny | Mon serveur".to_string(), "Shiny-123".to_string())]);
}

#[test]
fn open_editions() {
    assert_eq!(open_editions_query("77", 5), ("77".to_string(), 5));
}

#[test]
fn prompts_show_bounds() {
    let p = date_prompt(TypeDate::StartRegistration, dates());
    assert_eq!(p.placeholder, "JJ/MM/AAAA (< 15/01/2030)");
    assert_eq!(p.label, "Date de inscription_start_date");
    assert_eq!((p.min_length, p.max_length), (10, 10));
    assert_eq!(p.title, "Dates de la compétition");
    let p = date_prompt(TypeDate::EndCompetition, dates());
    assert_eq!(p.placeholder, "JJ/MM/AAAA (> 16/01/2030)");
    let p = date_prompt(TypeDate::EndRegistration, dates());
    assert_eq!(p.placeholder, "(01/01/2030 <) JJ/MM/AAAA (< 28/02/2030)");
    assert_eq!(p.label, "Date de inscription_end_date");
    assert_eq!(date_field(TypeDate::StartCompetition), "competition_start_date");
}

#[test]
fn new_dates_are_compared_as_dates() {
    // Bounds: start of registration 01/01/2030, lower bound 15/01/2030,
    // upper bound 16/01/2030, end of competition 28/02/2030.
    assert!(check_new_date(TypeDate::StartRegistration, 1893456000, dates()).is_ok());
    assert!(check_new_date(TypeDate::StartRegistration, 1894665600, dates()).is_ok());
    let e = check_new_date(TypeDate::StartRegistration, 1894665601, dates()).unwrap_err();
    assert_eq!(
        e,
        "La date de début des inscriptions ne peut pas être supérieure à la date de fin des inscriptions ou de début de la compétition.\n\nRéessaye en entrant une date inférieure à **15/01/2030**"
    );
    let e = check_new_date(TypeDate::EndCompetition, 1894665600, dates()).unwrap_err();
    assert_eq!(
        e,
        "La date de de fin de la copétition ne peut pas être inférieure à la date de fin des inscriptions ou de début de la compétition.\n\nRéessaye en entrant une date supérieure à **16/01/2030**"
    );
    assert!(check_new_date(TypeDate::EndCompetition, 1900000000, dates()).is_ok());
    assert!(check_new_date(TypeDate::EndRegistration, 1894000000, dates()).is_ok());
    let e = check_new_date(TypeDate::EndRegistration, 1893456000, dates()).unwrap_err();
    assert_eq!(
        e,
        "La date de fin des inscriptions ne peut pas être inférieure à la date de début des inscriptions.\n\nRéessaye en entrant une date supérieure à **01/01/2030**"
    );
    let e = check_new_date(TypeDate::StartCompetition, 1898467200, dates()).unwrap_err();
    assert!(e.ends_with("inférieure à **28/02/2030**"));
}

#[test]
fn typed_new_dates() {
    // 18/03/1960 is before the lower bound, though its text sorts after the bound's digits.
    assert_eq!(
        new_date_from_text(TypeDate::StartRegistration, "18/03/1960", dates()),
        Some(Ok(-308966400))
    );
    assert!(matches!(new_date_from_text(TypeDate::StartRegistration, "20/01/2030", dates()), Some(Err(_))));
    assert_eq!(new_date_from_text(TypeDate::EndCompetition, "01/03/2030", dates()), Some(Ok(1898553600)));
    assert_eq!(new_date_from_text(TypeDate::EndRegistration, "10/01/2030", dates()), Some(Ok(1894233600)));
    assert_eq!(new_date_from_text(TypeDate::EndRegistration, "31/02/2030", dates()), None);
}

#[test]
fn organizer_filters() {
    assert_eq!(organizer_edition_filter("Shiny", 42), ("Shiny".to_string(), "42".to_string()));
}

#[test]
fn date_changed() {
    assert_eq!(
        date_changed_message("Shiny"),
        "La date de début des inscriptions de la compétition **Shiny** a bien été modifiée."
    );
}

#[test]
fn edition_info_fields() {
    let info = edition_info("Shiny", "Shiny", dates());
    assert_eq!(info.title, "Shiny");
    assert_eq!(info.description, "Voici les informations de l'édition Shiny");
    assert_eq!(info.fields[1], ("Date de fin des inscriptions", "15/01/2030".to_string()));
    assert_eq!(info.fields[2], ("Date de début de la compétition", "16/01/2030".to_string()));
}

#[test]
fn deletion_answers() {
    assert_eq!(deletion_outcome(0), Err(DELETION_FAILED));
    assert_eq!(deletion_outcome(1), Ok((DELETED_TITLE, DELETED_DESCRIPTION)));
}

#[test]
fn stored_message_ids() {
    assert_eq!(stored_message_id("\"1234\""), Some(1234));
    assert_eq!(stored_message_id("1234"), Some(1234));
    assert_eq!(stored_message_id("\"12a\""), None);
    assert_eq!(stored_message_id("\"\""), None);
}
