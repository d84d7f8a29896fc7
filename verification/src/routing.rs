//! Which handler an incoming interaction goes to: slash commands by name, modal
//! submissions and component interactions by custom id (some of them by prefix,
//! since their custom id carries settings after the prefix).

use vstd::prelude::*;
use crate::constants::{
    TypeDate, ADD_NAMES, ADD_NAMES_MODAL, ADD_NAMES_REACTOR, ADD_PROOF, CREATE_NEW_EDITION,
    DELETE_EDITION, DELETE_EDITION_MODAL, EDITION_SELECT, EDIT_EDITION, EDIT_END_COMPETITION,
    EDIT_END_INSCRIPTIONS, EDIT_START_COMPETITION, EDIT_START_INSCRIPTIONS, GET_EDITION,
    LOCK_VERSION_MODAL, NEW_EDITION, PING, PRINT_VERSIONS, PROOFS_MODAL, REGISTRATION, SETUP_ENV,
    VALIDATE, VERSION_PLAYER_MODAL, VERSION_PLAYER_SETUP, VERSION_SETUP,
};
use crate::selection::{encoded_settings_spec, setting_piece};
use crate::text::{is_prefix_spec, starts_with, str_eq};

verus! {

/// The handlers of slash commands.
#[derive(Clone, Copy, Debug, PartialEq, Eq)]
pub enum CommandRoute {
    Ping,
    SetupEnv,
    NewEdition,
    DeleteEdition,
    EditEdition,
    GetEdition,
    Registration,
    VersionSetup,
    PrintVersions,
    VersionPlayerSetup,
    AddProof,
    AddNames,
}

/// The handlers of modal submissions.
#[derive(Clone, Copy, Debug, PartialEq, Eq)]
pub enum ModalRoute {
    NewEditionForm,
    AddNames,
}

/// The handlers of component interactions (buttons and select menus).
#[derive(Clone, Copy, Debug, PartialEq, Eq)]
pub enum ComponentRoute {
    DeleteEdition,
    EditDate(TypeDate),
    ShowEdition,
    Validate,
    VersionSetupEnd,
    VersionPlayerEnd,
    ProofEnd,
    AddNamesEnd,
}

pub open spec fn command_route_spec(name: Seq<char>) -> Option<CommandRoute> {
    if name == PING@ {
        Some(CommandRoute::Ping)
    } else if name == SETUP_ENV@ {
        Some(CommandRoute::SetupEnv)
    } else if name == NEW_EDITION@ {
        Some(CommandRoute::NewEdition)
    } else if name == DELETE_EDITION@ {
        Some(CommandRoute::DeleteEdition)
    } else if name == EDIT_EDITION@ {
        Some(CommandRoute::EditEdition)
    } else if name == GET_EDITION@ {
        Some(CommandRoute::GetEdition)
    } else if name == REGISTRATION@ {
        Some(CommandRoute::Registration)
    } else if name == VERSION_SETUP@ {
        Some(CommandRoute::VersionSetup)
    } else if name == PRINT_VERSIONS@ {
        Some(CommandRoute::PrintVersions)
    } else if name == VERSION_PLAYER_SETUP@ {
        Some(CommandRoute::VersionPlayerSetup)
    } else if name == ADD_PROOF@ {
        Some(CommandRoute::AddProof)
    } else if name == ADD_NAMES@ {
        Some(CommandRoute::AddNames)
    } else {
        None
    }
}

/// The handler of a slash command, by the command's name; `None` for a name the bot
/// does not handle.
pub fn route_command(name: &str) -> (res: Option<CommandRoute>)
    ensures
        res == command_route_spec(name@),
{
    if str_eq(name, PING) {
        Some(CommandRoute::Ping)
    } else if str_eq(name, SETUP_ENV) {
        Some(CommandRoute::SetupEnv)
    } else if str_eq(name, NEW_EDITION) {
        Some(CommandRoute::NewEdition)
    } else if str_eq(name, DELETE_EDITION) {
        Some(CommandRoute::DeleteEdition)
    } else if str_eq(name, EDIT_EDITION) {
        Some(CommandRoute::EditEdition)
    } else if str_eq(name, GET_EDITION) {
        Some(CommandRoute::GetEdition)
    } else if str_eq(name, REGISTRATION) {
        Some(CommandRoute::Registration)
    } else if str_eq(name, VERSION_SETUP) {
        Some(CommandRoute::VersionSetup)
    } else if str_eq(name, PRINT_VERSIONS) {
        Some(CommandRoute::PrintVersions)
    } else if str_eq(name, VERSION_PLAYER_SETUP) {
        Some(CommandRoute::VersionPlayerSetup)
    } else if str_eq(name, ADD_PROOF) {
        Some(CommandRoute::AddProof)
    } else if str_eq(name, ADD_NAMES) {
        Some(CommandRoute::AddNames)
    } else {
        None
    }
}

pub open spec fn modal_route_spec(custom_id: Seq<char>) -> Option<ModalRoute> {
    if custom_id == CREATE_NEW_EDITION@ {
        Some(ModalRoute::NewEditionForm)
    } else if custom_id == ADD_NAMES_REACTOR@ {
        Some(ModalRoute::AddNames)
    } else {
        None
    }
}

/// The handler of a modal submission, by the modal's custom id.
pub fn route_modal(custom_id: &str) -> (res: Option<ModalRoute>)
    ensures
        res == modal_route_spec(custom_id@),
{
    if str_eq(custom_id, CREATE_NEW_EDITION) {
        Some(ModalRoute::NewEditionForm)
    } else if str_eq(custom_id, ADD_NAMES_REACTOR) {
        Some(ModalRoute::AddNames)
    } else {
        None
    }
}

/// The handler of a component interaction: custom ids that name a handler exactly
/// first, then the prefixes of menus whose custom id carries settings. The version
/// listing menu (`print_versions_modal`) is never reached: the prefix tests come first
/// and give up on it.
pub open spec fn component_route_spec(custom_id: Seq<char>) -> Option<ComponentRoute> {
    if custom_id == DELETE_EDITION_MODAL@ {
        Some(ComponentRoute::DeleteEdition)
    } else if custom_id == EDIT_START_INSCRIPTIONS@ {
        Some(ComponentRoute::EditDate(TypeDate::StartRegistration))
    } else if custom_id == EDIT_END_INSCRIPTIONS@ {
        Some(ComponentRoute::EditDate(TypeDate::EndRegistration))
    } else if custom_id == EDIT_START_COMPETITION@ {
        Some(ComponentRoute::EditDate(TypeDate::StartCompetition))
    } else if custom_id == EDIT_END_COMPETITION@ {
        Some(ComponentRoute::EditDate(TypeDate::EndCompetition))
    } else if custom_id == EDITION_SELECT@ {
        Some(ComponentRoute::ShowEdition)
    } else if custom_id == VALIDATE@ {
        Some(ComponentRoute::Validate)
    } else if is_prefix_spec(LOCK_VERSION_MODAL@, custom_id) {
        Some(ComponentRoute::VersionSetupEnd)
    } else if is_prefix_spec(VERSION_PLAYER_MODAL@, custom_id) {
        Some(ComponentRoute::VersionPlayerEnd)
    } else if is_prefix_spec(PROOFS_MODAL@, custom_id) {
        Some(ComponentRoute::ProofEnd)
    } else if is_prefix_spec(ADD_NAMES_MODAL@, custom_id) {
        Some(ComponentRoute::AddNamesEnd)
    } else {
        None
    }
}

/// Each of the four menus that change a date routes to the date it names, and it
/// is the only custom id that routes there: the four dates are never mixed up.
pub proof fn law_date_edit_ids_route_to_their_date(kind: TypeDate, custom_id: Seq<char>)
    ensures
        component_route_spec(
            (match kind {
                TypeDate::StartRegistration => EDIT_START_INSCRIPTIONS,
                TypeDate::EndRegistration => EDIT_END_INSCRIPTIONS,
                TypeDate::StartCompetition => EDIT_START_COMPETITION,
                TypeDate::EndCompetition => EDIT_END_COMPETITION,
            })@,
        ) == Some(ComponentRoute::EditDate(kind)),
        component_route_spec(custom_id) == Some(ComponentRoute::EditDate(kind)) ==> custom_id == (match kind {
            TypeDate::StartRegistration => EDIT_START_INSCRIPTIONS,
            TypeDate::EndRegistration => EDIT_END_INSCRIPTIONS,
            TypeDate::StartCompetition => EDIT_START_COMPETITION,
            TypeDate::EndCompetition => EDIT_END_COMPETITION,
        })@,
{
    reveal_strlit("delete_edition_modal");
    reveal_strlit("edit_start_inscription");
    reveal_strlit("edit_end_inscriptions");
    reveal_strlit("edit_start_competition");
    reveal_strlit("edit_end_competition");
    assert(DELETE_EDITION_MODAL@[0] == 'd' && EDIT_END_COMPETITION@[0] == 'e');
    assert(EDIT_START_INSCRIPTIONS@.len() == 22 && EDIT_END_INSCRIPTIONS@.len() == 21);
    assert(EDIT_START_COMPETITION@.len() == 22 && EDIT_END_COMPETITION@.len() == 20);
    assert(EDIT_START_INSCRIPTIONS@[11] == 'i' && EDIT_START_COMPETITION@[11] == 'c');
    assert(EDIT_START_INSCRIPTIONS@[0] == 'e' && EDIT_END_INSCRIPTIONS@[0] == 'e' && EDIT_START_COMPETITION@[0] == 'e');
}

/// Each slash command is handled by the handler it names, and its name is the only
/// one that reaches that handler.
pub proof fn law_commands_route_to_their_handler(route: CommandRoute, name: Seq<char>)
    ensures
        command_route_spec((match route {
            CommandRoute::Ping => PING,
            CommandRoute::SetupEnv => SETUP_ENV,
            CommandRoute::NewEdition => NEW_EDITION,
            CommandRoute::DeleteEdition => DELETE_EDITION,
            CommandRoute::EditEdition => EDIT_EDITION,
            CommandRoute::GetEdition => GET_EDITION,
            CommandRoute::Registration => REGISTRATION,
            CommandRoute::VersionSetup => VERSION_SETUP,
            CommandRoute::PrintVersions => PRINT_VERSIONS,
            CommandRoute::VersionPlayerSetup => VERSION_PLAYER_SETUP,
            CommandRoute::AddProof => ADD_PROOF,
            CommandRoute::AddNames => ADD_NAMES,
        })@) == Some(route),
        command_route_spec(name) == Some(route) ==> name == (match route {
            CommandRoute::Ping => PING,
            CommandRoute::SetupEnv => SETUP_ENV,
            CommandRoute::NewEdition => NEW_EDITION,
            CommandRoute::DeleteEdition => DELETE_EDITION,
            CommandRoute::EditEdition => EDIT_EDITION,
            CommandRoute::GetEdition => GET_EDITION,
            CommandRoute::Registration => REGISTRATION,
            CommandRoute::VersionSetup => VERSION_SETUP,
            CommandRoute::PrintVersions => PRINT_VERSIONS,
            CommandRoute::VersionPlayerSetup => VERSION_PLAYER_SETUP,
            CommandRoute::AddProof => ADD_PROOF,
            CommandRoute::AddNames => ADD_NAMES,
        })@,
{
    reveal_strlit("ping");
    reveal_strlit("setup");
    reveal_strlit("new_edition");
    reveal_strlit("delete_edition");
    reveal_strlit("edit_edition");
    reveal_strlit("get_edition");
    reveal_strlit("inscription");
    reveal_strlit("version_setup");
    reveal_strlit("print_versions");
    reveal_strlit("version_player_setup");
    reveal_strlit("add_proof");
    reveal_strlit("add_names");
    assert(PING@.len() == 4 && PING@[0] == 'p');
    assert(SETUP_ENV@.len() == 5 && SETUP_ENV@[0] == 's');
    assert(NEW_EDITION@.len() == 11 && NEW_EDITION@[0] == 'n');
    assert(DELETE_EDITION@.len() == 14 && DELETE_EDITION@[0] == 'd');
    assert(EDIT_EDITION@.len() == 12 && EDIT_EDITION@[0] == 'e');
    assert(GET_EDITION@.len() == 11 && GET_EDITION@[0] == 'g');
    assert(REGISTRATION@.len() == 11 && REGISTRATION@[0] == 'i');
    assert(VERSION_SETUP@.len() == 13 && VERSION_SETUP@[0] == 'v');
    assert(PRINT_VERSIONS@.len() == 14 && PRINT_VERSIONS@[0] == 'p');
    assert(VERSION_PLAYER_SETUP@.len() == 20 && VERSION_PLAYER_SETUP@[0] == 'v');
    assert(ADD_PROOF@.len() == 9 && ADD_PROOF@[0] == 'a');
    assert(ADD_NAMES@.len() == 9 && ADD_NAMES@[0] == 'a');
    assert(ADD_PROOF@[4] == 'p' && ADD_NAMES@[4] == 'n');
}

/// The menus and buttons named exactly (deleting an edition, showing one,
/// validating) reach their handler, and no other custom id does.
pub proof fn law_components_route_to_their_handler(custom_id: Seq<char>)
    ensures
        component_route_spec(DELETE_EDITION_MODAL@) == Some(ComponentRoute::DeleteEdition),
        component_route_spec(EDITION_SELECT@) == Some(ComponentRoute::ShowEdition),
        component_route_spec(VALIDATE@) == Some(ComponentRoute::Validate),
        component_route_spec(custom_id) == Some(ComponentRoute::DeleteEdition) ==> custom_id == DELETE_EDITION_MODAL@,
        component_route_spec(custom_id) == Some(ComponentRoute::ShowEdition) ==> custom_id == EDITION_SELECT@,
        component_route_spec(custom_id) == Some(ComponentRoute::Validate) ==> custom_id == VALIDATE@,
{
    reveal_strlit("delete_edition_modal");
    reveal_strlit("edit_start_inscription");
    reveal_strlit("edit_end_inscriptions");
    reveal_strlit("edit_start_competition");
    reveal_strlit("edit_end_competition");
    reveal_strlit("edition_select");
    reveal_strlit("validate");
    assert(DELETE_EDITION_MODAL@[0] == 'd' && VALIDATE@[0] == 'v' && EDITION_SELECT@[0] == 'e');
    assert(EDITION_SELECT@.len() == 14 && EDIT_START_INSCRIPTIONS@.len() == 22 && EDIT_END_INSCRIPTIONS@.len() == 21);
    assert(EDIT_START_COMPETITION@.len() == 22 && EDIT_END_COMPETITION@.len() == 20);
}

/// The new-edition form and the names form reach their handlers, and only they do.
pub proof fn law_modals_route_to_their_handler(custom_id: Seq<char>)
    ensures
        modal_route_spec(CREATE_NEW_EDITION@) == Some(ModalRoute::NewEditionForm),
        modal_route_spec(ADD_NAMES_REACTOR@) == Some(ModalRoute::AddNames),
        modal_route_spec(custom_id) == Some(ModalRoute::NewEditionForm) ==> custom_id == CREATE_NEW_EDITION@,
        modal_route_spec(custom_id) == Some(ModalRoute::AddNames) ==> custom_id == ADD_NAMES_REACTOR@,
{
    reveal_strlit("create_new_edition");
    reveal_strlit("add_names_reactor");
    assert(CREATE_NEW_EDITION@[0] == 'c' && ADD_NAMES_REACTOR@[0] == 'a');
}

/// The handler of a component interaction, by its custom id (see `component_route_spec`).
pub fn route_component(custom_id: &str) -> (res: Option<ComponentRoute>)
    ensures
        res == component_route_spec(custom_id@),
{
    if str_eq(custom_id, DELETE_EDITION_MODAL) {
        Some(ComponentRoute::DeleteEdition)
    } else if str_eq(custom_id, EDIT_START_INSCRIPTIONS) {
        Some(ComponentRoute::EditDate(TypeDate::StartRegistration))
    } else if str_eq(custom_id, EDIT_END_INSCRIPTIONS) {
        Some(ComponentRoute::EditDate(TypeDate::EndRegistration))
    } else if str_eq(custom_id, EDIT_START_COMPETITION) {
        Some(ComponentRoute::EditDate(TypeDate::StartCompetition))
    } else if str_eq(custom_id, EDIT_END_COMPETITION) {
        Some(ComponentRoute::EditDate(TypeDate::EndCompetition))
    } else if str_eq(custom_id, EDITION_SELECT) {
        Some(ComponentRoute::ShowEdition)
    } else if str_eq(custom_id, VALIDATE) {
        Some(ComponentRoute::Validate)
    } else if starts_with(custom_id, LOCK_VERSION_MODAL) {
        Some(ComponentRoute::VersionSetupEnd)
    } else if starts_with(custom_id, VERSION_PLAYER_MODAL) {
        Some(ComponentRoute::VersionPlayerEnd)
    } else if starts_with(custom_id, PROOFS_MODAL) {
        Some(ComponentRoute::ProofEnd)
    } else if starts_with(custom_id, ADD_NAMES_MODAL) {
        Some(ComponentRoute::AddNamesEnd)
    } else {
        None
    }
}

proof fn lemma_encoded_keeps_prefix(prefix: Seq<char>, settings: Seq<(Seq<char>, Seq<char>)>)
    ensures
        is_prefix_spec(prefix, encoded_settings_spec(prefix, settings)),
    decreases settings.len(),
{
    if settings.len() == 0 {
        assert(prefix.subrange(0, prefix.len() as int) =~= prefix);
    } else {
        lemma_encoded_keeps_prefix(prefix, settings.drop_last());
        let before = encoded_settings_spec(prefix, settings.drop_last());
        let after = before + setting_piece(settings.last().0, settings.last().1);
        assert(after.subrange(0, prefix.len() as int) =~= before.subrange(0, prefix.len() as int));
    }
}

proof fn lemma_prefix_char(prefix: Seq<char>, s: Seq<char>, k: int)
    requires
        is_prefix_spec(prefix, s),
        0 <= k < prefix.len(),
    ensures
        s[k] == prefix[k],
{
    assert(s.subrange(0, prefix.len() as int)[k] == s[k]);
}

/// The menu that ends the organizer's version settings is always routed to the
/// handler that applies them, whatever settings its custom id carries.
pub proof fn lemma_version_settings_menu_route(settings: Seq<(Seq<char>, Seq<char>)>)
    ensures
        component_route_spec(encoded_settings_spec(LOCK_VERSION_MODAL@, settings)) == Some(
            ComponentRoute::VersionSetupEnd,
        ),
{
    let id = encoded_settings_spec(LOCK_VERSION_MODAL@, settings);
    lemma_encoded_keeps_prefix(LOCK_VERSION_MODAL@, settings);
    reveal_strlit("lock_version_modal");
    reveal_strlit("delete_edition_modal");
    reveal_strlit("edit_start_inscription");
    reveal_strlit("edit_end_inscriptions");
    reveal_strlit("edit_start_competition");
    reveal_strlit("edit_end_competition");
    reveal_strlit("edition_select");
    reveal_strlit("validate");
    lemma_prefix_char(LOCK_VERSION_MODAL@, id, 0);
    lemma_prefix_char(LOCK_VERSION_MODAL@, id, 1);
    assert(id[0] == 'l' && id[1] == 'o');
    assert(id != DELETE_EDITION_MODAL@) by {
        assert(DELETE_EDITION_MODAL@[0] == 'd');
    }
    assert(id != EDIT_START_INSCRIPTIONS@) by {
        assert(EDIT_START_INSCRIPTIONS@[0] == 'e');
    }
    assert(id != EDIT_END_INSCRIPTIONS@) by {
        assert(EDIT_END_INSCRIPTIONS@[0] == 'e');
    }
    assert(id != EDIT_START_COMPETITION@) by {
        assert(EDIT_START_COMPETITION@[0] == 'e');
    }
    assert(id != EDIT_END_COMPETITION@) by {
        assert(EDIT_END_COMPETITION@[0] == 'e');
    }
    assert(id != EDITION_SELECT@) by {
        assert(EDITION_SELECT@[0] == 'e');
    }
    assert(id != VALIDATE@) by {
        assert(VALIDATE@[0] == 'v');
    }
}

/// The menu that ends a player's version declaration is always routed to the
/// handler that stores it, whatever settings its custom id carries.
pub proof fn lemma_player_settings_menu_route(settings: Seq<(Seq<char>, Seq<char>)>)
    ensures
        component_route_spec(encoded_settings_spec(VERSION_PLAYER_MODAL@, settings)) == Some(
            ComponentRoute::VersionPlayerEnd,
        ),
{
    let id = encoded_settings_spec(VERSION_PLAYER_MODAL@, settings);
    lemma_encoded_keeps_prefix(VERSION_PLAYER_MODAL@, settings);
    reveal_strlit("version_player_modal");
    reveal_strlit("lock_version_modal");
    reveal_strlit("delete_edition_modal");
    reveal_strlit("edit_start_inscription");
    reveal_strlit("edit_end_inscriptions");
    reveal_strlit("edit_start_competition");
    reveal_strlit("edit_end_competition");
    reveal_strlit("edition_select");
    reveal_strlit("validate");
    lemma_prefix_char(VERSION_PLAYER_MODAL@, id, 0);
    lemma_prefix_char(VERSION_PLAYER_MODAL@, id, 1);
    assert(id[0] == 'v' && id[1] == 'e');
    assert(id != DELETE_EDITION_MODAL@) by {
        assert(DELETE_EDITION_MODAL@[0] == 'd');
    }
    assert(id != EDIT_START_INSCRIPTIONS@) by {
        assert(EDIT_START_INSCRIPTIONS@[0] == 'e');
    }
    assert(id != EDIT_END_INSCRIPTIONS@) by {
        assert(EDIT_END_INSCRIPTIONS@[0] == 'e');
    }
    assert(id != EDIT_START_COMPETITION@) by {
        assert(EDIT_START_COMPETITION@[0] == 'e');
    }
    assert(id != EDIT_END_COMPETITION@) by {
        assert(EDIT_END_COMPETITION@[0] == 'e');
    }
    assert(id != EDITION_SELECT@) by {
        assert(EDITION_SELECT@[0] == 'e');
    }
    assert(id != VALIDATE@) by {
        assert(VALIDATE@[1] == 'a');
    }
    assert(!is_prefix_spec(LOCK_VERSION_MODAL@, id)) by {
        if is_prefix_spec(LOCK_VERSION_MODAL@, id) {
            lemma_prefix_char(LOCK_VERSION_MODAL@, id, 0);
        }
    }
}

} // verus!
