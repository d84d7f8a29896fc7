//! Names, identifiers and display strings shared by the whole bot: slash command
//! names, component custom ids, database field names, Discord channel, category and
//! role names, embed colours, and the catalogue of Pokémon versions.

use vstd::prelude::*;

verus! {

pub const VALUE_START_REGISTRATION: &'static str = "edit_start_registration";
pub const VALUE_END_REGISTRATION: &'static str = "edit_end_registration";
pub const VALUE_START_COMPETITION: &'static str = "edit_start_competition";
pub const VALUE_END_COMPETITION: &'static str = "edit_end_competition";
pub const CREATE_NEW_EDITION: &'static str = "create_new_edition";
pub const CREATE_EDITION_INSCRIPTION_ID: &'static str = "inscription";
pub const CREATE_EDITION_COMPETITION_ID: &'static str = "competition";
pub const PING: &'static str = "ping";
pub const NEW_EDITION: &'static str = "new_edition";
pub const DELETE_EDITION: &'static str = "delete_edition";
pub const EDIT_EDITION: &'static str = "edit_edition";
pub const GET_EDITION: &'static str = "get_edition";
pub const REGISTRATION: &'static str = "inscription";
pub const ADD_VERSION: &'static str = "add_version";
pub const ADD_NAMES: &'static str = "add_names";
pub const VALIDATE: &'static str = "validate";
pub const VERSION_SETUP: &'static str = "version_setup";
pub const PRINT_VERSIONS: &'static str = "print_versions";
pub const DELETE_EDITION_MODAL: &'static str = "delete_edition_modal";
pub const LOCK_VERSION_MODAL: &'static str = "lock_version_modal";
pub const EDIT_START_INSCRIPTIONS: &'static str = "edit_start_inscription";
pub const EDIT_END_INSCRIPTIONS: &'static str = "edit_end_inscriptions";
pub const EDIT_START_COMPETITION: &'static str = "edit_start_competition";
pub const EDIT_END_COMPETITION: &'static str = "edit_end_competition";
pub const PRINT_VERSIONS_MODAL: &'static str = "print_versions_modal";
pub const EDIT_START_EDITION_END: &'static str = "edit_start_inscriptions_end";
pub const EDITIONS_COLLECTION: &'static str = "editions";
pub const SERVER_COLLECTION: &'static str = "servers";
pub const PLAYER_COLLECTION: &'static str = "players";
pub const CAPTURES_COLLECTION: &'static str = "captures";
pub const RAYQUABOT_DB: &'static str = "RayquaBot";
pub const INSCRIPTION_START_DATE: &'static str = "inscription_start_date";
pub const INSCRIPTION_END_DATE: &'static str = "inscription_end_date";
pub const COMPETITION_START_DATE: &'static str = "competition_start_date";
pub const COMPETITION_END_DATE: &'static str = "competition_end_date";
pub const GUILD_ID: &'static str = "guild_id";
pub const EDITION_NAME: &'static str = "edition_name";
pub const ORGANIZER: &'static str = "organizer";
pub const EDITION_FILE: &'static str = "edition_file";
pub const ADMIN_ROLE_ID: &'static str = "admin_role_id";
pub const MODERATOR_ROLE_ID: &'static str = "moderator_role_id";
pub const HOST_ROLE_ID: &'static str = "host_role_id";
pub const REGISTERED_ROLE_ID: &'static str = "registered_role_id";
pub const VERIFIED_ROLE_ID: &'static str = "verified_role_id";
pub const MODERATION_CATEGORY_ID: &'static str = "moderation_category_id";
pub const COMPETITION_CATEGORY_ID: &'static str = "edition_category_id";
pub const REGISTRATION_CHANNEL_ID: &'static str = "registration_channel_id";
pub const RED_COLOR: i32 = 0xff0000;
pub const GREEN_COLOR: i32 = 0x00ff00;
pub const BLUE_COLOR: i32 = 0x0000ff;
pub const LIGHT_BLUE_COLOR: i32 = 0x04EEE6;
pub const CONTACT: &'static str = "contact.cgbots@gmail.com";
pub const START_TYPE_REGISTRATION: &'static str = "debut d'inscriptions";
pub const END_TYPE_REGISTRATION: &'static str = "fin d'inscriptions";
pub const START_TYPE_COMPETITION: &'static str = "debut de compétition";
pub const END_TYPE_COMPETITION: &'static str = "fin de compétition";
pub const EDITION_SELECT: &'static str = "edition_select";
pub const SETUP_ENV: &'static str = "setup";
pub const IMPORT_ENV: &'static str = "import_env";
pub const MODERATION_CATEGORY_NAME: &'static str = "Arbitrage";
pub const WAITING_VALIDATION_CHANNEL_NAME: &'static str = "validations-en-attente";
pub const PROBLEMATIC_PLAYERS_CHANNEL_NAME: &'static str = "joueurs-a-problèmes";
pub const BAN_AND_EXCLUSION_CHANNEL_NAME: &'static str = "bans-et-exclusions";
pub const MODERATION_CONVERSATION_CHANNEL_NAME: &'static str = "discussions";
pub const MODERATION_VOCAL_CONVERSATION_CHANNEL_NAME: &'static str = "discussions-vocal";
pub const GENERAL_CATEGORY_NAME: &'static str = "Gradins";
pub const BOT_RETURN_CHANNEL_NAME: &'static str = "retour-bot";
pub const WELCOME_CHANNEL_NAME: &'static str = "acceuil";
pub const GENERAL_CHANNEL_NAME: &'static str = "général";
pub const GENERAL_VOCAL_CHANNEL_NAME: &'static str = "vocal-général";
pub const RULES_CHANNEL_NAME: &'static str = "règlement-du-serveur";
pub const COMPETITION_CATEGORY_NAME: &'static str = "L'Arène";
pub const RULES_AND_INFOS_CHANNEL_NAME: &'static str = "règlement-et-infos";
pub const COMPETITION_ANNOUNCES_CHANNEL_NAME: &'static str = "annonces";
pub const RANKING_CHANNEL_NAME: &'static str = "classement";
pub const VALIDATED_CAPTURES_CHANNEL_NAME: &'static str = "captures-validées";
pub const REGISTRATION_CHANNEL_NAME: &'static str = "1-inscriptions";
pub const VERSIONS_AND_CHARMS_CHANNEL_NAME: &'static str = "2-infos-dresseur";
pub const TEAM_CREATION_CHANNEL_NAME: &'static str = "3-constitution-des-équipes";
pub const FAQ_CHANNEL_NAME: &'static str = "faq-bot";
pub const ADMIN_ROLE_NAME: &'static str = "Admin";
pub const MODERATION_ROLE_NAME: &'static str = "Modérateur";
pub const HOST_ROLE_NAME: &'static str = "Host";
pub const VERIFIED_ROLE_NAME: &'static str = "Vérifié";
pub const REGISTERED_ROLE_NAME: &'static str = "Inscrit";
pub const EVERYONE_ROLE_NAME: &'static str = "@everyone";
pub const PLAYER_ID: &'static str = "player_id";
pub const VERSIONS: &'static str = "versions";
pub const TEAM: &'static str = "team";
pub const VERIFIED: &'static str = "verified";
pub const CHARMS: &'static str = "charms";
pub const CHARMS_COLLECTION: &'static str = "charms";
pub const VERSIONS_COLLECTION: &'static str = "versions";
pub const BDD_POKE_RED_GREEN_BLUE: &'static str = "red_green_blue";
pub const BDD_POKE_YELLOW: &'static str = "yellow";
pub const BDD_POKE_GOLD_SILVER: &'static str = "gold_silver";
pub const BDD_POKE_CRYSTAL: &'static str = "crystal";
pub const BDD_POKE_RUBY_SAPPHIRE: &'static str = "ruby_sapphire";
pub const BDD_POKE_FIRERED_LEAFGREEN: &'static str = "firered_leafgreen";
pub const BDD_POKE_EMERALD: &'static str = "emerald";
pub const BDD_POKE_DIAMOND_PEARL: &'static str = "diamond_pearl";
pub const BDD_POKE_PLATINUM: &'static str = "platinum";
pub const BDD_POKE_HEARTGOLD_SOULSILVER: &'static str = "heartgold_soulsilver";
pub const BDD_POKE_BLACK_WHITE: &'static str = "black_chite";
pub const BDD_POKE_BLACK2_WHITE2: &'static str = "black2_white2";
pub const BDD_POKE_X_Y: &'static str = "x_y";
pub const BDD_POKE_OMEGA_RUBY_ALPHA_SAPPHIRE: &'static str = "omega_ruby_alpha_sapphire";
pub const BDD_POKE_SUN_MOON: &'static str = "sun_moon";
pub const BDD_POKE_ULTRASUN_ULTRAMOON: &'static str = "ultrasun_ultramoon";
pub const BDD_POKE_LETSGOPIKACHU_LETSGOEEVEE: &'static str = "letsgopikachu_letsgoeevee";
pub const BDD_POKE_SWORD_SHIELD: &'static str = "sword_shield";
pub const BDD_POKE_BRILLANTDIAMOND_SHININGPEARL: &'static str = "brillantdiamond_shiningpearl";
pub const BDD_POKE_LEGENDARCEUS: &'static str = "legendarceus";
pub const BDD_POKE_SCARLET_VIOLET: &'static str = "scarlet_violet";
pub const BDD_POKE_DONJON_MYSTERE: &'static str = "donjon_mystere_dx";
pub const BDD_POKE_COLOSEUM: &'static str = "coloseum";
pub const BDD_POKE_STADIUM_EU: &'static str = "stadium_eu";
pub const BDD_POKE_STADIUM_JAP: &'static str = "stadium_jap";
pub const BDD_POKE_STADIUM_2: &'static str = "stadium_2";
pub const BDD_POKE_XD: &'static str = "xd";
pub const POKE_RED_GREEN_BLUE: &'static str = "Rouge/Vert/Bleu";
pub const POKE_YELLOW: &'static str = "Jaune";
pub const POKE_GOLD_SILVER: &'static str = "Or/Argent";
pub const POKE_CRYSTAL: &'static str = "Crystal";
pub const POKE_RUBY_SAPPHIRE: &'static str = "Ruby/Saphir";
pub const POKE_FIRERED_LEAFGREEN: &'static str = "Rouge feu/Vert feuille";
pub const POKE_EMERALD: &'static str = "Emeraude";
pub const POKE_DIAMOND_PEARL: &'static str = "Diamant/Perle";
pub const POKE_PLATINUM: &'static str = "Platine";
pub const POKE_HEARTGOLD_SOULSILVER: &'static str = "Heartgold/Soulsilver";
pub const POKE_BLACK_WHITE: &'static str = "Blanc/Noir";
pub const POKE_BLACK2_WHITE2: &'static str = "Blanc2/Noir2";
pub const POKE_X_Y: &'static str = "X/Y";
pub const POKE_OMEGA_RUBY_ALPHA_SAPPHIRE: &'static str = "Ruby oméga/Saphir alpha";
pub const POKE_SUN_MOON: &'static str = "Soleil/Lune";
pub const POKE_ULTRASUN_ULTRAMOON: &'static str = "UltraSoleil/UltraLune";
pub const POKE_LETSGOPIKACHU_LETSGOEEVEE: &'static str = "Let's go Pikachu/\nLet's go Evoli";
pub const POKE_SWORD_SHIELD: &'static str = "Epée/Bouclier";
pub const POKE_BRILLANTDIAMOND_SHININGPEARL: &'static str = "Diamant Eteincelant/\nPerle Scintillante";
pub const POKE_LEGENDARCEUS: &'static str = "Légendes Arceus";
pub const POKE_SCARLET_VIOLET: &'static str = "Ecarlate/Violet";
pub const POKE_DONJON_MYSTERE: &'static str = "Donjon Mystère DX (switch)";
pub const POKE_COLOSEUM: &'static str = "Coloseum";
pub const POKE_STADIUM_EU: &'static str = "Stadium EU";
pub const POKE_STADIUM_JAP: &'static str = "Stadium JAP";
pub const POKE_STADIUM_2: &'static str = "Stadium 2";
pub const POKE_XD: &'static str = "XD";
pub const MESSAGE_ID: &'static str = "message_id";
pub const TRAINER_NAME: &'static str = "trainer_name";
pub const MORE_INFO: &'static str = "more_info";

/// Slash command that locks versions of an edition.
pub const LOCK_VERSION: &'static str = "lock_version";
/// Slash command with which a player declares the versions they own.
pub const VERSION_PLAYER_SETUP: &'static str = "version_player_setup";
/// Custom-id prefix of the select menu that ends the player version declaration.
pub const VERSION_PLAYER_MODAL: &'static str = "version_player_modal";
/// Slash command with which a player sends proofs of ownership.
pub const ADD_PROOF: &'static str = "add_proof";
/// Custom-id prefix of the select menu that ends the proof submission.
pub const PROOFS_MODAL: &'static str = "proofs_modal";
/// Custom-id prefix of the select menu that ends the trainer name submission.
pub const ADD_NAMES_MODAL: &'static str = "add_names_modal";
/// Custom id of the modal in which trainer names are typed.
pub const ADD_NAMES_REACTOR: &'static str = "add_names_reactor";
/// Player document field holding the trainer names.
pub const TRAINER_NAMES: &'static str = "trainer_names";

/// Stored value of a version that the player does not own (the default).
pub const NON_POSSEDE_VALUE: i32 = 0;
/// Stored value of a version that the edition forbids.
pub const VERSION_INTERDITE_VALUE: i32 = -1;

/// Which of the four dates of an edition a change is about.
#[derive(Clone, Copy, Debug, PartialEq, Eq)]
pub enum TypeDate {
    StartRegistration,
    EndRegistration,
    StartCompetition,
    EndCompetition,
}

} // verus!
