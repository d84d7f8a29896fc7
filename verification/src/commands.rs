//! The slash commands the bot registers, described as plain data: names,
//! descriptions, sub-commands and options, who may use them. The caller turns a
//! description into the Discord API's builders.

use vstd::prelude::*;
use crate::versions::versions_spec;
use crate::constants::{
    BDD_POKE_BLACK2_WHITE2,
    BDD_POKE_BLACK_WHITE,
    BDD_POKE_BRILLANTDIAMOND_SHININGPEARL,
    BDD_POKE_COLOSEUM,
    BDD_POKE_CRYSTAL,
    BDD_POKE_DIAMOND_PEARL,
    BDD_POKE_DONJON_MYSTERE,
    BDD_POKE_EMERALD,
    BDD_POKE_FIRERED_LEAFGREEN,
    BDD_POKE_GOLD_SILVER,
    BDD_POKE_HEARTGOLD_SOULSILVER,
    BDD_POKE_LEGENDARCEUS,
    BDD_POKE_LETSGOPIKACHU_LETSGOEEVEE,
    BDD_POKE_OMEGA_RUBY_ALPHA_SAPPHIRE,
    BDD_POKE_PLATINUM,
    BDD_POKE_RED_GREEN_BLUE,
    BDD_POKE_RUBY_SAPPHIRE,
    BDD_POKE_SCARLET_VIOLET,
    BDD_POKE_STADIUM_2,
    BDD_POKE_STADIUM_EU,
    BDD_POKE_STADIUM_JAP,
    BDD_POKE_SUN_MOON,
    BDD_POKE_SWORD_SHIELD,
    BDD_POKE_ULTRASUN_ULTRAMOON,
    BDD_POKE_XD,
    BDD_POKE_X_Y,
    BDD_POKE_YELLOW,
    POKE_BLACK2_WHITE2,
    POKE_BLACK_WHITE,
    POKE_BRILLANTDIAMOND_SHININGPEARL,
    POKE_COLOSEUM,
    POKE_CRYSTAL,
    POKE_DIAMOND_PEARL,
    POKE_DONJON_MYSTERE,
    POKE_EMERALD,
    POKE_FIRERED_LEAFGREEN,
    POKE_GOLD_SILVER,
    POKE_HEARTGOLD_SOULSILVER,
    POKE_LEGENDARCEUS,
    POKE_OMEGA_RUBY_ALPHA_SAPPHIRE,
    POKE_PLATINUM,
    POKE_RED_GREEN_BLUE,
    POKE_RUBY_SAPPHIRE,
    POKE_SCARLET_VIOLET,
    POKE_STADIUM_2,
    POKE_STADIUM_EU,
    POKE_SUN_MOON,
    POKE_SWORD_SHIELD,
    POKE_ULTRASUN_ULTRAMOON,
    POKE_XD,
    POKE_YELLOW,
    DELETE_EDITION, EDIT_END_COMPETITION, EDIT_END_INSCRIPTIONS, EDIT_START_COMPETITION,
    EDIT_START_INSCRIPTIONS, GET_EDITION, LOCK_VERSION, NEW_EDITION, PING, PRINT_VERSIONS,
    REGISTRATION, SETUP_ENV, VERSION_PLAYER_SETUP, VERSION_SETUP,
};

verus! {

/// The type of a command option.
#[derive(Clone, Copy, Debug, PartialEq, Eq)]
pub enum OptionKind {
    SubCommand,
    Boolean,
    Integer,
    Text,
}

/// An option the user fills in: its name, description, type, whether it is required
/// and the fixed choices offered for it.
pub struct LeafOption {
    pub name: &'static str,
    pub description: &'static str,
    pub kind: OptionKind,
    pub required: bool,
    pub string_choices: Vec<(&'static str, &'static str)>,
    pub int_choices: Vec<(&'static str, i64)>,
}

/// A sub-command and the options it takes.
pub struct SubcommandSpec {
    pub name: &'static str,
    pub description: &'static str,
    pub options: Vec<LeafOption>,
}

/// A slash command: name, description, sub-commands or options, whether only
/// administrators may use it, and whether it may be used in private messages
/// (`None` leaving Discord's default).
pub struct CommandSpec {
    pub name: &'static str,
    pub description: &'static str,
    pub subcommands: Vec<SubcommandSpec>,
    pub options: Vec<LeafOption>,
    pub admin_only: bool,
    pub dm_permission: Option<bool>,
}

pub struct LeafOptionView {
    pub name: &'static str,
    pub description: &'static str,
    pub kind: OptionKind,
    pub required: bool,
    pub string_choices: Seq<(&'static str, &'static str)>,
    pub int_choices: Seq<(&'static str, i64)>,
}

pub struct SubcommandView {
    pub name: &'static str,
    pub description: &'static str,
    pub options: Seq<LeafOptionView>,
}

pub struct CommandView {
    pub name: &'static str,
    pub description: &'static str,
    pub subcommands: Seq<SubcommandView>,
    pub options: Seq<LeafOptionView>,
    pub admin_only: bool,
    pub dm_permission: Option<bool>,
}

impl View for LeafOption {
    type V = LeafOptionView;

    open spec fn view(&self) -> LeafOptionView {
        LeafOptionView {
            name: self.name,
            description: self.description,
            kind: self.kind,
            required: self.required,
            string_choices: self.string_choices@,
            int_choices: self.int_choices@,
        }
    }
}

pub open spec fn leaf_views(v: Seq<LeafOption>) -> Seq<LeafOptionView> {
    v.map_values(|o: LeafOption| o@)
}

impl View for SubcommandSpec {
    type V = SubcommandView;

    open spec fn view(&self) -> SubcommandView {
        SubcommandView { name: self.name, description: self.description, options: leaf_views(self.options@) }
    }
}

impl View for CommandSpec {
    type V = CommandView;

    open spec fn view(&self) -> CommandView {
        CommandView {
            name: self.name,
            description: self.description,
            subcommands: self.subcommands@.map_values(|s: SubcommandSpec| s@),
            options: leaf_views(self.options@),
            admin_only: self.admin_only,
            dm_permission: self.dm_permission,
        }
    }
}

/// The versions grouped by generation, as the version commands offer them:
/// each generation with its versions' option names and descriptions.
pub open spec fn generation_table_spec() -> Seq<(&'static str, Seq<(&'static str, &'static str)>)> {
    seq![
        ("gen_1", seq![(BDD_POKE_RED_GREEN_BLUE, POKE_RED_GREEN_BLUE), (BDD_POKE_YELLOW, POKE_YELLOW), (BDD_POKE_STADIUM_EU, POKE_STADIUM_EU), (BDD_POKE_STADIUM_JAP, BDD_POKE_STADIUM_JAP)]),
        ("gen_2", seq![(BDD_POKE_GOLD_SILVER, POKE_GOLD_SILVER), (BDD_POKE_CRYSTAL, POKE_CRYSTAL), (BDD_POKE_STADIUM_2, POKE_STADIUM_2)]),
        ("gen_3", seq![(BDD_POKE_RUBY_SAPPHIRE, POKE_RUBY_SAPPHIRE), (BDD_POKE_EMERALD, POKE_EMERALD), (BDD_POKE_FIRERED_LEAFGREEN, POKE_FIRERED_LEAFGREEN), (BDD_POKE_COLOSEUM, POKE_COLOSEUM), (BDD_POKE_XD, POKE_XD)]),
        ("gen_4", seq![(BDD_POKE_DIAMOND_PEARL, POKE_DIAMOND_PEARL), (BDD_POKE_PLATINUM, POKE_PLATINUM), (BDD_POKE_HEARTGOLD_SOULSILVER, POKE_HEARTGOLD_SOULSILVER), (BDD_POKE_BLACK_WHITE, POKE_BLACK_WHITE)]),
        ("gen_5", seq![(BDD_POKE_BLACK2_WHITE2, POKE_BLACK2_WHITE2)]),
        ("gen_6", seq![(BDD_POKE_X_Y, BDD_POKE_X_Y), (BDD_POKE_OMEGA_RUBY_ALPHA_SAPPHIRE, POKE_OMEGA_RUBY_ALPHA_SAPPHIRE)]),
        ("gen_7", seq![(BDD_POKE_SUN_MOON, POKE_SUN_MOON), (BDD_POKE_ULTRASUN_ULTRAMOON, POKE_ULTRASUN_ULTRAMOON), (BDD_POKE_LETSGOPIKACHU_LETSGOEEVEE, "select generation")]),
        ("gen_8", seq![(BDD_POKE_DONJON_MYSTERE, POKE_DONJON_MYSTERE), (BDD_POKE_SWORD_SHIELD, POKE_SWORD_SHIELD), (BDD_POKE_BRILLANTDIAMOND_SHININGPEARL, POKE_BRILLANTDIAMOND_SHININGPEARL), (BDD_POKE_LEGENDARCEUS, POKE_LEGENDARCEUS)]),
        ("gen_9", seq![(BDD_POKE_SCARLET_VIOLET, POKE_SCARLET_VIOLET)])
    ]
}

/// The versions grouped by generation (see `generation_table_spec`).
pub fn generation_table() -> (res: Vec<(&'static str, Vec<(&'static str, &'static str)>)>)
    ensures
        res@.map_values(|g: (&'static str, Vec<(&'static str, &'static str)>)| (g.0, g.1@))
            == generation_table_spec(),
{
    let mut res: Vec<(&'static str, Vec<(&'static str, &'static str)>)> = Vec::new();
    let g0 = vec![(BDD_POKE_RED_GREEN_BLUE, POKE_RED_GREEN_BLUE), (BDD_POKE_YELLOW, POKE_YELLOW), (BDD_POKE_STADIUM_EU, POKE_STADIUM_EU), (BDD_POKE_STADIUM_JAP, BDD_POKE_STADIUM_JAP)];
    assert(g0@ =~= seq![(BDD_POKE_RED_GREEN_BLUE, POKE_RED_GREEN_BLUE), (BDD_POKE_YELLOW, POKE_YELLOW), (BDD_POKE_STADIUM_EU, POKE_STADIUM_EU), (BDD_POKE_STADIUM_JAP, BDD_POKE_STADIUM_JAP)]);
    res.push(("gen_1", g0));
    let g1 = vec![(BDD_POKE_GOLD_SILVER, POKE_GOLD_SILVER), (BDD_POKE_CRYSTAL, POKE_CRYSTAL), (BDD_POKE_STADIUM_2, POKE_STADIUM_2)];
    assert(g1@ =~= seq![(BDD_POKE_GOLD_SILVER, POKE_GOLD_SILVER), (BDD_POKE_CRYSTAL, POKE_CRYSTAL), (BDD_POKE_STADIUM_2, POKE_STADIUM_2)]);
    res.push(("gen_2", g1));
    let g2 = vec![(BDD_POKE_RUBY_SAPPHIRE, POKE_RUBY_SAPPHIRE), (BDD_POKE_EMERALD, POKE_EMERALD), (BDD_POKE_FIRERED_LEAFGREEN, POKE_FIRERED_LEAFGREEN), (BDD_POKE_COLOSEUM, POKE_COLOSEUM), (BDD_POKE_XD, POKE_XD)];
    assert(g2@ =~= seq![(BDD_POKE_RUBY_SAPPHIRE, POKE_RUBY_SAPPHIRE), (BDD_POKE_EMERALD, POKE_EMERALD), (BDD_POKE_FIRERED_LEAFGREEN, POKE_FIRERED_LEAFGREEN), (BDD_POKE_COLOSEUM, POKE_COLOSEUM), (BDD_POKE_XD, POKE_XD)]);
    res.push(("gen_3", g2));
    let g3 = vec![(BDD_POKE_DIAMOND_PEARL, POKE_DIAMOND_PEARL), (BDD_POKE_PLATINUM, POKE_PLATINUM), (BDD_POKE_HEARTGOLD_SOULSILVER, POKE_HEARTGOLD_SOULSILVER), (BDD_POKE_BLACK_WHITE, POKE_BLACK_WHITE)];
    assert(g3@ =~= seq![(BDD_POKE_DIAMOND_PEARL, POKE_DIAMOND_PEARL), (BDD_POKE_PLATINUM, POKE_PLATINUM), (BDD_POKE_HEARTGOLD_SOULSILVER, POKE_HEARTGOLD_SOULSILVER), (BDD_POKE_BLACK_WHITE, POKE_BLACK_WHITE)]);
    res.push(("gen_4", g3));
    let g4 = vec![(BDD_POKE_BLACK2_WHITE2, POKE_BLACK2_WHITE2)];
    assert(g4@ =~= seq![(BDD_POKE_BLACK2_WHITE2, POKE_BLACK2_WHITE2)]);
    res.push(("gen_5", g4));
    let g5 = vec![(BDD_POKE_X_Y, BDD_POKE_X_Y), (BDD_POKE_OMEGA_RUBY_ALPHA_SAPPHIRE, POKE_OMEGA_RUBY_ALPHA_SAPPHIRE)];
    assert(g5@ =~= seq![(BDD_POKE_X_Y, BDD_POKE_X_Y), (BDD_POKE_OMEGA_RUBY_ALPHA_SAPPHIRE, POKE_OMEGA_RUBY_ALPHA_SAPPHIRE)]);
    res.push(("gen_6", g5));
    let g6 = vec![(BDD_POKE_SUN_MOON, POKE_SUN_MOON), (BDD_POKE_ULTRASUN_ULTRAMOON, POKE_ULTRASUN_ULTRAMOON), (BDD_POKE_LETSGOPIKACHU_LETSGOEEVEE, "select generation")];
    assert(g6@ =~= seq![(BDD_POKE_SUN_MOON, POKE_SUN_MOON), (BDD_POKE_ULTRASUN_ULTRAMOON, POKE_ULTRASUN_ULTRAMOON), (BDD_POKE_LETSGOPIKACHU_LETSGOEEVEE, "select generation")]);
    res.push(("gen_7", g6));
    let g7 = vec![(BDD_POKE_DONJON_MYSTERE, POKE_DONJON_MYSTERE), (BDD_POKE_SWORD_SHIELD, POKE_SWORD_SHIELD), (BDD_POKE_BRILLANTDIAMOND_SHININGPEARL, POKE_BRILLANTDIAMOND_SHININGPEARL), (BDD_POKE_LEGENDARCEUS, POKE_LEGENDARCEUS)];
    assert(g7@ =~= seq![(BDD_POKE_DONJON_MYSTERE, POKE_DONJON_MYSTERE), (BDD_POKE_SWORD_SHIELD, POKE_SWORD_SHIELD), (BDD_POKE_BRILLANTDIAMOND_SHININGPEARL, POKE_BRILLANTDIAMOND_SHININGPEARL), (BDD_POKE_LEGENDARCEUS, POKE_LEGENDARCEUS)]);
    res.push(("gen_8", g7));
    let g8 = vec![(BDD_POKE_SCARLET_VIOLET, POKE_SCARLET_VIOLET)];
    assert(g8@ =~= seq![(BDD_POKE_SCARLET_VIOLET, POKE_SCARLET_VIOLET)]);
    res.push(("gen_9", g8));
    assert(res@.map_values(|g: (&'static str, Vec<(&'static str, &'static str)>)| (g.0, g.1@))
        =~= generation_table_spec());
    res
}

/// The choices offered for a version the player owns or not.
pub open spec fn ownership_choices_spec() -> Seq<(&'static str, i64)> {
    seq![
        ("Non possédé (défaut)", 0i64),
        ("Possédé sans Charme Chroma", 1i64),
        ("Possédé avec Charme Chroma", 2i64),
    ]
}

/// The option of one version in a version command: a yes/no for the organizer,
/// an ownership choice for the player.
pub open spec fn version_option_spec(v: (&'static str, &'static str), kind: OptionKind) -> LeafOptionView {
    LeafOptionView {
        name: v.0,
        description: v.1,
        kind: kind,
        required: false,
        string_choices: Seq::empty(),
        int_choices: if kind == OptionKind::Integer { ownership_choices_spec() } else { Seq::empty() },
    }
}

/// One sub-command per generation, each with an option per version.
pub open spec fn version_subcommands_spec(kind: OptionKind) -> Seq<SubcommandView> {
    generation_table_spec().map_values(
        |g: (&'static str, Seq<(&'static str, &'static str)>)|
            SubcommandView {
                name: g.0,
                description: "select generation",
                options: g.1.map_values(|v: (&'static str, &'static str)| version_option_spec(v, kind)),
            },
    )
}

fn ownership_choices() -> (res: Vec<(&'static str, i64)>)
    ensures
        res@ == ownership_choices_spec(),
{
    let res = vec![
        ("Non possédé (défaut)", 0i64),
        ("Possédé sans Charme Chroma", 1i64),
        ("Possédé avec Charme Chroma", 2i64),
    ];
    assert(res@ =~= ownership_choices_spec());
    res
}

fn version_option(v: (&'static str, &'static str), kind: OptionKind) -> (res: LeafOption)
    ensures
        res@ == version_option_spec(v, kind),
{
    let int_choices = match kind {
        OptionKind::Integer => ownership_choices(),
        _ => Vec::new(),
    };
    let res = LeafOption {
        name: v.0,
        description: v.1,
        kind,
        required: false,
        string_choices: Vec::new(),
        int_choices,
    };
    assert(res@.string_choices =~= Seq::<(&'static str, &'static str)>::empty());
    res
}

fn version_subcommands(kind: OptionKind) -> (res: Vec<SubcommandSpec>)
    ensures
        res@.map_values(|s: SubcommandSpec| s@) == version_subcommands_spec(kind),
{
    let table = generation_table();
    let ghost spec_table = generation_table_spec();
    let mut res: Vec<SubcommandSpec> = Vec::new();
    let mut i: usize = 0;
    while i < table.len()
        invariant
            table@.map_values(|g: (&'static str, Vec<(&'static str, &'static str)>)| (g.0, g.1@))
                == spec_table,
            spec_table == generation_table_spec(),
            i <= table@.len(),
            res@.map_values(|s: SubcommandSpec| s@) == version_subcommands_spec(kind).take(i as int),
        decreases table.len() - i,
    {
        let ghost row = spec_table[i as int];
        assert(row == (table@[i as int].0, table@[i as int].1@));
        let versions = &table[i].1;
        let mut options: Vec<LeafOption> = Vec::new();
        let mut j: usize = 0;
        while j < versions.len()
            invariant
                versions@ == row.1,
                j <= versions@.len(),
                leaf_views(options@) == row.1.take(j as int).map_values(
                    |v: (&'static str, &'static str)| version_option_spec(v, kind),
                ),
            decreases versions.len() - j,
        {
            let ghost before = leaf_views(options@);
            let o = version_option(versions[j], kind);
            options.push(o);
            assert(leaf_views(options@) =~= before.push(version_option_spec(row.1[j as int], kind)));
            assert(row.1.take(j + 1) =~= row.1.take(j as int).push(row.1[j as int]));
            j = j + 1;
            assert(leaf_views(options@) =~= row.1.take(j as int).map_values(
                |v: (&'static str, &'static str)| version_option_spec(v, kind),
            ));
        }
        assert(row.1.take(versions@.len() as int) =~= row.1);
        let sub = SubcommandSpec { name: table[i].0, description: "select generation", options };
        let ghost before = res@.map_values(|s: SubcommandSpec| s@);
        let ghost sv = sub@;
        assert(sv == version_subcommands_spec(kind)[i as int]);
        res.push(sub);
        assert(res@.map_values(|s: SubcommandSpec| s@) =~= before.push(sv));
        assert(version_subcommands_spec(kind).take(i + 1) =~= version_subcommands_spec(kind).take(
            i as int,
        ).push(version_subcommands_spec(kind)[i as int]));
        i = i + 1;
        assert(res@.map_values(|s: SubcommandSpec| s@) =~= version_subcommands_spec(kind).take(
            i as int,
        ));
    }
    assert(version_subcommands_spec(kind).take(table@.len() as int) =~= version_subcommands_spec(
        kind,
    ));
    res
}

/// A command with no options.
pub open spec fn plain_command_spec(name: &'static str, description: &'static str, admin_only: bool) -> CommandView {
    CommandView {
        name: name,
        description: description,
        subcommands: Seq::empty(),
        options: Seq::empty(),
        admin_only: admin_only,
        dm_permission: None,
    }
}

fn plain_command(name: &'static str, description: &'static str, admin_only: bool) -> (res: CommandSpec)
    ensures
        res@ == plain_command_spec(name, description, admin_only),
{
    let res = CommandSpec {
        name,
        description,
        subcommands: Vec::new(),
        options: Vec::new(),
        admin_only,
        dm_permission: None,
    };
    assert(res@.subcommands =~= Seq::<SubcommandView>::empty());
    assert(res@.options =~= Seq::<LeafOptionView>::empty());
    res
}

/// The organizer's command that allows or forbids versions for an edition.
pub open spec fn version_setup_command_spec() -> CommandView {
    CommandView {
        name: VERSION_SETUP,
        description: "Bloque une version poour l'édition choisie",
        subcommands: version_subcommands_spec(OptionKind::Boolean),
        options: Seq::empty(),
        admin_only: true,
        dm_permission: None,
    }
}

pub fn version_setup_command() -> (res: CommandSpec)
    ensures
        res@ == version_setup_command_spec(),
{
    let res = CommandSpec {
        name: VERSION_SETUP,
        description: "Bloque une version poour l'édition choisie",
        subcommands: version_subcommands(OptionKind::Boolean),
        options: Vec::new(),
        admin_only: true,
        dm_permission: None,
    };
    assert(res@.options =~= Seq::<LeafOptionView>::empty());
    res
}

/// The command that locks versions of an edition (same options, open to everyone).
pub open spec fn lock_version_command_spec() -> CommandView {
    CommandView {
        name: LOCK_VERSION,
        description: "Bloque une version poour l'édition choisie",
        subcommands: version_subcommands_spec(OptionKind::Boolean),
        options: Seq::empty(),
        admin_only: false,
        dm_permission: None,
    }
}

pub fn lock_version_command() -> (res: CommandSpec)
    ensures
        res@ == lock_version_command_spec(),
{
    let res = CommandSpec {
        name: LOCK_VERSION,
        description: "Bloque une version poour l'édition choisie",
        subcommands: version_subcommands(OptionKind::Boolean),
        options: Vec::new(),
        admin_only: false,
        dm_permission: None,
    };
    assert(res@.options =~= Seq::<LeafOptionView>::empty());
    res
}

/// The player's command declaring the versions they own, usable in private messages.
pub open spec fn version_player_command_spec() -> CommandView {
    CommandView {
        name: VERSION_PLAYER_SETUP,
        description: "Sers à indiquer les versions possédées",
        subcommands: version_subcommands_spec(OptionKind::Integer),
        options: Seq::empty(),
        admin_only: false,
        dm_permission: Some(true),
    }
}

pub fn version_player_command() -> (res: CommandSpec)
    ensures
        res@ == version_player_command_spec(),
{
    let res = CommandSpec {
        name: VERSION_PLAYER_SETUP,
        description: "Sers à indiquer les versions possédées",
        subcommands: version_subcommands(OptionKind::Integer),
        options: Vec::new(),
        admin_only: false,
        dm_permission: Some(true),
    };
    assert(res@.options =~= Seq::<LeafOptionView>::empty());
    res
}

pub fn ping_command() -> (res: CommandSpec)
    ensures
        res@ == plain_command_spec(PING, "Reply with Pong", false),
{
    plain_command(PING, "Reply with Pong", false)
}

pub fn new_edition_command() -> (res: CommandSpec)
    ensures
        res@ == plain_command_spec(NEW_EDITION, "Créé une nouvelle édition.", true),
{
    plain_command(NEW_EDITION, "Créé une nouvelle édition.", true)
}

pub fn delete_edition_command() -> (res: CommandSpec)
    ensures
        res@ == plain_command_spec(DELETE_EDITION, "Supprime une édition.", true),
{
    plain_command(DELETE_EDITION, "Supprime une édition.", true)
}

pub fn get_edition_command() -> (res: CommandSpec)
    ensures
        res@ == plain_command_spec(GET_EDITION, "Permet d'afficher les informations d'une édition.", true),
{
    plain_command(GET_EDITION, "Permet d'afficher les informations d'une édition.", true)
}

pub fn setup_env_command() -> (res: CommandSpec)
    ensures
        res@ == plain_command_spec(SETUP_ENV, "Permet de setup les salons d'un serveur.", true),
{
    plain_command(SETUP_ENV, "Permet de setup les salons d'un serveur.", true)
}

pub fn registration_command() -> (res: CommandSpec)
    ensures
        res@ == plain_command_spec(REGISTRATION, "Sers à s'inscrire à une édition.", false),
{
    plain_command(REGISTRATION, "Sers à s'inscrire à une édition.", false)
}

pub fn print_versions_command() -> (res: CommandSpec)
    ensures
        res@ == plain_command_spec(PRINT_VERSIONS, "Affiche les versions autorisées pour l'édition", false),
{
    plain_command(PRINT_VERSIONS, "Affiche les versions autorisées pour l'édition", false)
}

/// A required text option with fixed choices (label, value).
pub open spec fn text_option_spec(
    name: &'static str,
    description: &'static str,
    choices: Seq<(&'static str, &'static str)>,
) -> LeafOptionView {
    LeafOptionView {
        name: name,
        description: description,
        kind: OptionKind::Text,
        required: true,
        string_choices: choices,
        int_choices: Seq::empty(),
    }
}

/// The choices of the date to edit, with the values the date menus are routed by.
pub open spec fn edit_date_choices_spec() -> Seq<(&'static str, &'static str)> {
    seq![
        ("Date de début des inscriptions", EDIT_START_INSCRIPTIONS),
        ("Date de fin des inscriptions", EDIT_END_INSCRIPTIONS),
        ("Date de début de la compétition", EDIT_START_COMPETITION),
        ("Date de fin de la compétition", EDIT_END_COMPETITION),
    ]
}

/// The organizer's command to change one date of an edition.
pub open spec fn edit_edition_command_spec() -> CommandView {
    CommandView {
        name: "edit_edition",
        description: "Permet d'éditer une édition actuelle ou future.",
        subcommands: Seq::empty(),
        options: seq![text_option_spec("edition", "Nom de l'édition à éditer.", edit_date_choices_spec())],
        admin_only: true,
        dm_permission: None,
    }
}

pub fn edit_edition_command() -> (res: CommandSpec)
    ensures
        res@ == edit_edition_command_spec(),
{
    let choices = vec![
        ("Date de début des inscriptions", EDIT_START_INSCRIPTIONS),
        ("Date de fin des inscriptions", EDIT_END_INSCRIPTIONS),
        ("Date de début de la compétition", EDIT_START_COMPETITION),
        ("Date de fin de la compétition", EDIT_END_COMPETITION),
    ];
    assert(choices@ =~= edit_date_choices_spec());
    let option = LeafOption {
        name: "edition",
        description: "Nom de l'édition à éditer.",
        kind: OptionKind::Text,
        required: true,
        string_choices: choices,
        int_choices: Vec::new(),
    };
    assert(option@.int_choices =~= Seq::<(&'static str, i64)>::empty());
    let mut options = Vec::new();
    options.push(option);
    let res = CommandSpec {
        name: "edit_edition",
        description: "Permet d'éditer une édition actuelle ou future.",
        subcommands: Vec::new(),
        options,
        admin_only: true,
        dm_permission: None,
    };
    assert(res@.subcommands =~= Seq::<SubcommandView>::empty());
    assert(res@.options =~= seq![text_option_spec("edition", "Nom de l'édition à éditer.", edit_date_choices_spec())]);
    res
}

/// The first form of the new-edition command, which took the edition's name and number.
pub open spec fn named_new_edition_command_spec() -> CommandView {
    CommandView {
        name: "new_edition",
        description: "Create a new edition",
        subcommands: Seq::empty(),
        options: seq![
            text_option_spec("name", "Name of the edition", Seq::empty()),
            text_option_spec("number", "Number of the edition", Seq::empty()),
        ],
        admin_only: false,
        dm_permission: None,
    }
}

pub fn named_new_edition_command() -> (res: CommandSpec)
    ensures
        res@ == named_new_edition_command_spec(),
{
    let name = LeafOption {
        name: "name",
        description: "Name of the edition",
        kind: OptionKind::Text,
        required: true,
        string_choices: Vec::new(),
        int_choices: Vec::new(),
    };
    let number = LeafOption {
        name: "number",
        description: "Number of the edition",
        kind: OptionKind::Text,
        required: true,
        string_choices: Vec::new(),
        int_choices: Vec::new(),
    };
    assert(name@ == text_option_spec("name", "Name of the edition", Seq::empty()));
    assert(number@ == text_option_spec("number", "Number of the edition", Seq::empty()));
    let mut options = Vec::new();
    options.push(name);
    options.push(number);
    let res = CommandSpec {
        name: "new_edition",
        description: "Create a new edition",
        subcommands: Vec::new(),
        options,
        admin_only: false,
        dm_permission: None,
    };
    assert(res@.subcommands =~= Seq::<SubcommandView>::empty());
    assert(res@.options =~= named_new_edition_command_spec().options);
    res
}


// ---------------------------------------------------------------------------
// Every version offered once
// ---------------------------------------------------------------------------

/// The positions in the catalogue of the versions each generation offers, in the
/// order of its options.
pub open spec fn generation_positions_spec() -> Seq<Seq<int>> {
    seq![
        seq![0int, 1, 23, 24],
        seq![2int, 3, 25],
        seq![4int, 6, 5, 22, 26],
        seq![7int, 8, 9, 10],
        seq![11int],
        seq![12int, 13],
        seq![14int, 15, 16],
        seq![21int, 17, 18, 19],
        seq![20int],
    ]
}

/// The same positions, generation after generation.
pub open spec fn offered_positions_spec() -> Seq<int> {
    seq![0int, 1, 23, 24, 2, 3, 25, 4, 6, 5, 22, 26, 7, 8, 9, 10, 11, 12, 13, 14, 15, 16, 21, 17, 18, 19, 20]
}

/// The version commands (the organizer's yes/no ones and the player's ownership
/// one) offer each version of the catalogue exactly once: option `k` of generation
/// `g` is the version at catalogue position `generation_positions_spec()[g][k]`,
/// named by its database key and of the command's option type, and those
/// positions, taken together, are the 27 positions of the catalogue, each once.
pub proof fn law_version_commands_offer_each_version_once(kind: OptionKind)
    ensures
        version_subcommands_spec(kind).len() == generation_positions_spec().len(),
        forall|g: int|
            0 <= g < generation_positions_spec().len() ==> (#[trigger] version_subcommands_spec(kind)[g]).options.len()
                == generation_positions_spec()[g].len(),
        forall|g: int, k: int|
            0 <= g < generation_positions_spec().len() && 0 <= k < generation_positions_spec()[g].len() ==> {
                let o = #[trigger] version_subcommands_spec(kind)[g].options[k];
                &&& o.name == versions_spec()[generation_positions_spec()[g][k]].0
                &&& o.kind == kind
            },
        generation_positions_spec()[0] + generation_positions_spec()[1] + generation_positions_spec()[2]
            + generation_positions_spec()[3] + generation_positions_spec()[4] + generation_positions_spec()[5]
            + generation_positions_spec()[6] + generation_positions_spec()[7] + generation_positions_spec()[8]
            == offered_positions_spec(),
        offered_positions_spec().len() == versions_spec().len(),
        offered_positions_spec().no_duplicates(),
        forall|v: int| 0 <= v < versions_spec().len() ==> offered_positions_spec().contains(v),
{
    broadcast use vstd::seq_lib::group_seq_properties;
    let subs = version_subcommands_spec(kind);
    let pos = generation_positions_spec();
    assert forall|g: int, k: int| 0 <= g < pos.len() && 0 <= k < pos[g].len() implies {
        let o = #[trigger] subs[g].options[k];
        &&& o.name == versions_spec()[pos[g][k]].0
        &&& o.kind == kind
    } by {
        assert(subs[g].options[k] == version_option_spec(generation_table_spec()[g].1[k], kind));
    }
    assert(pos[0] + pos[1] + pos[2] + pos[3] + pos[4] + pos[5] + pos[6] + pos[7] + pos[8]
        =~= offered_positions_spec());
    let flat = offered_positions_spec();
    assert forall|v: int| 0 <= v < 27 implies flat.contains(v) by {
        let i = choose|i: int| 0 <= i < 27 && flat[i] == v;
        assert(flat[i] == v);
    }
}

} // verus!
