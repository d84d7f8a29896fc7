use rayquabot::edition::{
    edition_overlap_check, edition_summary, first_form_input, form_echo, new_edition_form, new_edition_gate,
    new_edition_inputs, numbered_edition_label, overlap_count_check, planned_editions_query,
    NewEditionCheck, NewEditionGate, END_BEFORE_START, END_DATE_INVALID, NAME_ALREADY_USED,
    OVERLAPPING_EDITION, PAST_EDITION, START_DATE_INVALID,
};

const NOW: i64 = 1700000000; // 14/11/2023

#[test]
fn overlap_check_refuses_missing_dates() {
    assert_eq!(edition_overlap_check(0, 10, 1).unwrap_err(), START_DATE_INVALID);
    assert_eq!(edition_overlap_check(10, 0, 1).unwrap_err(), END_DATE_INVALID);
    assert_eq!(edition_overlap_check(0, 0, 1).unwrap_err(), END_DATE_INVALID);
    assert_eq!(edition_overlap_check(20, 10, 1).unwrap_err(), END_BEFORE_START);
}

#[test]
fn overlap_check_builds_query() {
    let q = edition_overlap_check(10, 20, 987654321).unwrap();
    assert_eq!(q.guild_id, "987654321");
    assert_eq!((q.start, q.end), (10, 20));
    let q = edition_overlap_check(10, 10, 5).unwrap();
    assert_eq!((q.start, q.end), (10, 10));
}

#[test]
fn overlap_count() {
    assert_eq!(overlap_count_check(1).unwrap_err(), OVERLAPPING_EDITION);
    assert!(overlap_count_check(0).is_ok());
}

#[test]
fn form_with_malformed_pair_aborts() {
    match new_edition_form("Shiny 1", "01/01/2024", "01/02/2024-01/03/2024", 1, 2, NOW) {
        NewEditionCheck::Rejected { messages, abort } => {
            assert!(abort);
            assert_eq!(
                messages,
                vec!["les dates 01/01/2024 sont mal écrites. Respecte bien le format JJ/MM/AAAA-JJ/MM/AAAA".to_string()]
            );
        }
        _ => panic!("expected a rejection"),
    }
    match new_edition_form("Shiny 1", "01/01/2024-02/01/2024", "x", 1, 2, NOW) {
        NewEditionCheck::Rejected { messages, abort } => {
            assert!(abort);
            assert_eq!(
                messages,
                vec!["les dates x sont mal écrites. Respecte bien le format JJ/MM/AAAA-JJ/MM/AAAA".to_string()]
            );
        }
        _ => panic!("expected a rejection"),
    }
}

#[test]
fn form_refuses_past_edition() {
    match new_edition_form("Old", "01/01/2020-02/01/2020", "03/01/2020-04/01/2020", 1, 2, NOW) {
        NewEditionCheck::Rejected { messages, abort } => {
            assert!(!abort);
            assert_eq!(messages, vec![PAST_EDITION.to_string()]);
        }
        _ => panic!("expected a rejection"),
    }
}

#[test]
fn form_tells_about_days_that_do_not_exist() {
    match new_edition_form("Bad", "31/02/2030-02/03/2030", "03/03/2030-04/03/2030", 1, 2, NOW) {
        NewEditionCheck::Rejected { messages, abort } => {
            assert!(!abort);
            assert_eq!(
                messages,
                vec![
                    "La date \"31-02-2030\" entrée est invalide".to_string(),
                    START_DATE_INVALID.to_string()
                ]
            );
        }
        _ => panic!("expected a rejection"),
    }
}

#[test]
fn form_refuses_end_before_start() {
    match new_edition_form("Rev", "10/03/2030-12/03/2030", "13/03/2030-01/03/2030", 1, 2, NOW) {
        NewEditionCheck::Rejected { messages, abort } => {
            assert!(!abort);
            assert_eq!(messages, vec![END_BEFORE_START.to_string()]);
        }
        _ => panic!("expected a rejection"),
    }
}

#[test]
fn form_goes_through_database_checks() {
    let check = new_edition_form("Shiny 2030", "01/01/2030-15/01/2030", "16/01/2030-28/02/2030", 11, 22, NOW);
    let pending = match check {
        NewEditionCheck::Proceed { messages, pending } => {
            assert!(messages.is_empty());
            pending
        }
        _ => panic!("expected to proceed"),
    };
    assert_eq!(pending.query().guild_id, "22");
    assert_eq!(pending.query().start, 1893456000);
    assert_eq!(pending.query().end, 1898467200);
    let named = pending.after_overlap_count(0).unwrap();
    {
        let (org, guild, name) = named.lookup_key();
        assert_eq!(org.as_str(), "11");
        assert_eq!(guild.as_str(), "22");
        assert_eq!(name.as_str(), "Shiny 2030");
    }
    let record = named.after_name_lookup(false).unwrap();
    assert_eq!(record.inscription_end, 1894665600);
    assert_eq!(record.competition_start, 1894752000);
    assert_eq!(record.versions.len(), 27);
    assert!(record.versions.iter().all(|v| v.1 == 0));
    let summary = edition_summary(&record);
    assert_eq!(summary.title, "Shiny 2030");
    assert_eq!(summary.description, "Voici les informations de l'édition Shiny 2030");
    assert_eq!(summary.fields[0], ("Date de début des inscriptions", "01/01/2030".to_string()));
    assert_eq!(summary.fields[3], ("Date de fin de la compétition", "28/02/2030".to_string()));
    assert_eq!(summary.fields.len(), 5);
}

#[test]
fn form_database_refusals() {
    let check = new_edition_form("Shiny", "01/01/2030-15/01/2030", "16/01/2030-28/02/2030", 11, 22, NOW);
    match check {
        NewEditionCheck::Proceed { pending, .. } => {
            assert_eq!(pending.after_overlap_count(2).err().unwrap(), OVERLAPPING_EDITION);
        }
        _ => panic!("expected to proceed"),
    }
    let check = new_edition_form("Shiny", "01/01/2030-15/01/2030", "16/01/2030-28/02/2030", 11, 22, NOW);
    match check {
        NewEditionCheck::Proceed { pending, .. } => {
            let named = pending.after_overlap_count(0).unwrap();
            assert_eq!(named.after_name_lookup(true).err().unwrap(), NAME_ALREADY_USED);
        }
        _ => panic!("expected to proceed"),
    }
}

#[test]
fn gate_for_new_editions() {
    let roles = vec![5u64, 9];
    assert_eq!(new_edition_gate(None, &roles, 0, "discussions"), NewEditionGate::NoAdminRole);
    assert_eq!(new_edition_gate(Some(7), &roles, 0, "discussions"), NewEditionGate::NotAdmin);
    assert_eq!(new_edition_gate(Some(9), &roles, 25, "discussions"), NewEditionGate::TooManyEditions);
    assert_eq!(new_edition_gate(Some(9), &roles, 24, "général"), NewEditionGate::WrongChannel);
    assert_eq!(new_edition_gate(Some(9), &roles, 24, "discussions"), NewEditionGate::ShowForm);
}

#[test]
fn planned_editions_are_counted_per_member() {
    assert_eq!(planned_editions_query(42, 7), ("42".to_string(), "7".to_string()));
}

#[test]
fn new_edition_form_fields() {
    let inputs = new_edition_inputs();
    assert_eq!(inputs.len(), 3);
    assert_eq!(inputs[0].custom_id, "edition_name");
    assert_eq!((inputs[0].min_length, inputs[0].max_length), (4, 50));
    assert_eq!(inputs[1].placeholder, "JJ/MM/AAAA-JJ/MM/AAAA");
    assert_eq!((inputs[2].min_length, inputs[2].max_length), (21, 21));
}

#[test]
fn first_form_helpers() {
    assert_eq!(numbered_edition_label("Shiny", "3"), "Shiny 3");
    assert_eq!(form_echo("hi"), "You said: hi");
}

#[test]
fn first_date_form() {
    let input = first_form_input();
    assert_eq!(input.custom_id, "date_debut_inscriptions");
    assert_eq!((input.min_length, input.max_length), (10, 10));
}

#[test]
fn overlap_query_bounds_come_from_the_new_period() {
    // An edition registering from 50 to 150 meets a new period from 100 to 200:
    // the query selects it because 50 <= 200 and 150 >= 100.
    let q = edition_overlap_check(100, 200, 42).unwrap();
    assert_eq!(q.guild_id, "42");
    assert!(50 <= q.end && 150 >= q.start);
    // One that closed at 99 is not selected.
    assert!(99 < q.start);
}
