//! The catalogue of Pokémon versions and the ways the bot shows and stores
//! a version's state.

use vstd::prelude::*;
use crate::text::concat2;
use crate::constants::{
    NON_POSSEDE_VALUE, VERSION_INTERDITE_VALUE,
    BDD_POKE_BLACK2_WHITE2,
    BDD_POKE_BLACK_WHITE,
    BDD_POKE_BRILLANTDIAMOND_SHININGPEARL,
    BDD_POKE_COLOSEUM,
    BDD_POKE_CRYSTAL,
    BDD_POKE_DIAMOND_PEARL,
    BDD_POKE_DONJON_MYSTERE,
    BDD_POKE_EMERALD,
    BDD_POKE_FIRERED_LEAFGREEN,
    BDD_POKE_GOLD_SILVER,
    BDD_POKE_HEARTGOLD_SOULSILVER,
    BDD_POKE_LEGENDARCEUS,
    BDD_POKE_LETSGOPIKACHU_LETSGOEEVEE,
    BDD_POKE_OMEGA_RUBY_ALPHA_SAPPHIRE,
    BDD_POKE_PLATINUM,
    BDD_POKE_RED_GREEN_BLUE,
    BDD_POKE_RUBY_SAPPHIRE,
    BDD_POKE_SCARLET_VIOLET,
    BDD_POKE_STADIUM_2,
    BDD_POKE_STADIUM_EU,
    BDD_POKE_STADIUM_JAP,
    BDD_POKE_SUN_MOON,
    BDD_POKE_SWORD_SHIELD,
    BDD_POKE_ULTRASUN_ULTRAMOON,
    BDD_POKE_XD,
    BDD_POKE_X_Y,
    BDD_POKE_YELLOW,
    POKE_BLACK2_WHITE2,
    POKE_BLACK_WHITE,
    POKE_BRILLANTDIAMOND_SHININGPEARL,
    POKE_COLOSEUM,
    POKE_CRYSTAL,
    POKE_DIAMOND_PEARL,
    POKE_DONJON_MYSTERE,
    POKE_EMERALD,
    POKE_FIRERED_LEAFGREEN,
    POKE_GOLD_SILVER,
    POKE_HEARTGOLD_SOULSILVER,
    POKE_LEGENDARCEUS,
    POKE_LETSGOPIKACHU_LETSGOEEVEE,
    POKE_OMEGA_RUBY_ALPHA_SAPPHIRE,
    POKE_PLATINUM,
    POKE_RED_GREEN_BLUE,
    POKE_RUBY_SAPPHIRE,
    POKE_SCARLET_VIOLET,
    POKE_STADIUM_2,
    POKE_STADIUM_EU,
    POKE_STADIUM_JAP,
    POKE_SUN_MOON,
    POKE_SWORD_SHIELD,
    POKE_ULTRASUN_ULTRAMOON,
    POKE_XD,
    POKE_X_Y,
    POKE_YELLOW,
};

verus! {

/// Every version the bot knows, as (database field, display label), in the
/// order in which the bot lists them.
pub open spec fn versions_spec() -> Seq<(&'static str, &'static str)> {
    seq![
        (BDD_POKE_RED_GREEN_BLUE, POKE_RED_GREEN_BLUE),
        (BDD_POKE_YELLOW, POKE_YELLOW),
        (BDD_POKE_GOLD_SILVER, POKE_GOLD_SILVER),
        (BDD_POKE_CRYSTAL, POKE_CRYSTAL),
        (BDD_POKE_RUBY_SAPPHIRE, POKE_RUBY_SAPPHIRE),
        (BDD_POKE_FIRERED_LEAFGREEN, POKE_FIRERED_LEAFGREEN),
        (BDD_POKE_EMERALD, POKE_EMERALD),
        (BDD_POKE_DIAMOND_PEARL, POKE_DIAMOND_PEARL),
        (BDD_POKE_PLATINUM, POKE_PLATINUM),
        (BDD_POKE_HEARTGOLD_SOULSILVER, POKE_HEARTGOLD_SOULSILVER),
        (BDD_POKE_BLACK_WHITE, POKE_BLACK_WHITE),
        (BDD_POKE_BLACK2_WHITE2, POKE_BLACK2_WHITE2),
        (BDD_POKE_X_Y, POKE_X_Y),
        (BDD_POKE_OMEGA_RUBY_ALPHA_SAPPHIRE, POKE_OMEGA_RUBY_ALPHA_SAPPHIRE),
        (BDD_POKE_SUN_MOON, POKE_SUN_MOON),
        (BDD_POKE_ULTRASUN_ULTRAMOON, POKE_ULTRASUN_ULTRAMOON),
        (BDD_POKE_LETSGOPIKACHU_LETSGOEEVEE, POKE_LETSGOPIKACHU_LETSGOEEVEE),
        (BDD_POKE_SWORD_SHIELD, POKE_SWORD_SHIELD),
        (BDD_POKE_BRILLANTDIAMOND_SHININGPEARL, POKE_BRILLANTDIAMOND_SHININGPEARL),
        (BDD_POKE_LEGENDARCEUS, POKE_LEGENDARCEUS),
        (BDD_POKE_SCARLET_VIOLET, POKE_SCARLET_VIOLET),
        (BDD_POKE_DONJON_MYSTERE, POKE_DONJON_MYSTERE),
        (BDD_POKE_COLOSEUM, POKE_COLOSEUM),
        (BDD_POKE_STADIUM_EU, POKE_STADIUM_EU),
        (BDD_POKE_STADIUM_JAP, POKE_STADIUM_JAP),
        (BDD_POKE_STADIUM_2, POKE_STADIUM_2),
        (BDD_POKE_XD, POKE_XD)
    ]
}

/// The catalogue of versions: each database field name with its display label.
pub fn get_versions_list_tuple() -> (res: Vec<(&'static str, &'static str)>)
    ensures
        res@ == versions_spec(),
{
    vec![
        (BDD_POKE_RED_GREEN_BLUE, POKE_RED_GREEN_BLUE),
        (BDD_POKE_YELLOW, POKE_YELLOW),
        (BDD_POKE_GOLD_SILVER, POKE_GOLD_SILVER),
        (BDD_POKE_CRYSTAL, POKE_CRYSTAL),
        (BDD_POKE_RUBY_SAPPHIRE, POKE_RUBY_SAPPHIRE),
        (BDD_POKE_FIRERED_LEAFGREEN, POKE_FIRERED_LEAFGREEN),
        (BDD_POKE_EMERALD, POKE_EMERALD),
        (BDD_POKE_DIAMOND_PEARL, POKE_DIAMOND_PEARL),
        (BDD_POKE_PLATINUM, POKE_PLATINUM),
        (BDD_POKE_HEARTGOLD_SOULSILVER, POKE_HEARTGOLD_SOULSILVER),
        (BDD_POKE_BLACK_WHITE, POKE_BLACK_WHITE),
        (BDD_POKE_BLACK2_WHITE2, POKE_BLACK2_WHITE2),
        (BDD_POKE_X_Y, POKE_X_Y),
        (BDD_POKE_OMEGA_RUBY_ALPHA_SAPPHIRE, POKE_OMEGA_RUBY_ALPHA_SAPPHIRE),
        (BDD_POKE_SUN_MOON, POKE_SUN_MOON),
        (BDD_POKE_ULTRASUN_ULTRAMOON, POKE_ULTRASUN_ULTRAMOON),
        (BDD_POKE_LETSGOPIKACHU_LETSGOEEVEE, POKE_LETSGOPIKACHU_LETSGOEEVEE),
        (BDD_POKE_SWORD_SHIELD, POKE_SWORD_SHIELD),
        (BDD_POKE_BRILLANTDIAMOND_SHININGPEARL, POKE_BRILLANTDIAMOND_SHININGPEARL),
        (BDD_POKE_LEGENDARCEUS, POKE_LEGENDARCEUS),
        (BDD_POKE_SCARLET_VIOLET, POKE_SCARLET_VIOLET),
        (BDD_POKE_DONJON_MYSTERE, POKE_DONJON_MYSTERE),
        (BDD_POKE_COLOSEUM, POKE_COLOSEUM),
        (BDD_POKE_STADIUM_EU, POKE_STADIUM_EU),
        (BDD_POKE_STADIUM_JAP, POKE_STADIUM_JAP),
        (BDD_POKE_STADIUM_2, POKE_STADIUM_2),
        (BDD_POKE_XD, POKE_XD)
    ]
}

/// How an edition's version setting is shown to organizers: 0 forbidden, 1 allowed.
pub fn organizer_version_emote(value: i32) -> (res: &'static str)
    ensures
        res == (if value == 0 {
            "❌"
        } else if value == 1 {
            "✅"
        } else {
            "Erreur"
        }),
{
    match value {
        0 => "❌",
        1 => "✅",
        _ => "Erreur",
    }
}

/// How a player's version declaration is shown: 0 not owned, 1 owned, 2 owned with
/// the shiny charm.
pub fn player_version_emote(value: i32) -> (res: &'static str)
    ensures
        res == (if value == 0 {
            "❌"
        } else if value == 1 {
            "✅"
        } else if value == 2 {
            "✅💫"
        } else {
            "Erreur"
        }),
{
    match value {
        0 => "❌",
        1 => "✅",
        2 => "✅💫",
        _ => "Erreur",
    }
}

/// How a version is shown in a registration recap: forbidden by the edition (0) or
/// not yet declared.
pub fn registration_version_emote(value: i32) -> (res: &'static str)
    ensures
        res == (if value == 0 {
            "⛔"
        } else {
            "❌"
        }),
{
    match value {
        0 => "⛔",
        _ => "❌",
    }
}

/// The value a new player's declaration starts from: forbidden when the edition
/// forbids the version (0), not owned otherwise.
pub fn registration_version_value(value: i32) -> (res: i32)
    ensures
        res == (if value == 0 {
            VERSION_INTERDITE_VALUE
        } else {
            NON_POSSEDE_VALUE
        }),
{
    match value {
        0 => VERSION_INTERDITE_VALUE,
        _ => NON_POSSEDE_VALUE,
    }
}

/// How an edition's version setting is shown by the version listing: allowed (1) or not.
pub fn listing_version_emote(value: i32) -> (res: &'static str)
    ensures
        res == (if value == 1 {
            "✅"
        } else {
            "❌"
        }),
{
    if value == 1 {
        "✅"
    } else {
        "❌"
    }
}

pub open spec fn field_name_spec(label: Seq<char>, state: Seq<char>) -> Seq<char> {
    label + " : \n"@ + state + "\n--------------------------"@
}

pub open spec fn field_value_spec(label: Seq<char>, state: Seq<char>) -> Seq<char> {
    "**"@ + label + " : \n"@ + state + "\n--------------------------**"@
}

/// The embed fields that list versions two by two: each pair shares a field, the
/// first in its name and the second (in bold) in its value; an odd last version
/// gets a field of its own with an empty value.
pub open spec fn paired_fields_spec(entries: Seq<(Seq<char>, Seq<char>)>) -> Seq<(Seq<char>, Seq<char>)> {
    let pairs = Seq::new(
        entries.len() / 2,
        |k: int|
            (
                field_name_spec(entries[2 * k].0, entries[2 * k].1),
                field_value_spec(entries[2 * k + 1].0, entries[2 * k + 1].1),
            ),
    );
    if entries.len() % 2 == 1 {
        pairs.push(
            (field_name_spec(entries.last().0, entries.last().1), Seq::<char>::empty()),
        )
    } else {
        pairs
    }
}

pub open spec fn entry_views(v: Seq<(&'static str, &'static str)>) -> Seq<(Seq<char>, Seq<char>)> {
    v.map_values(|e: (&'static str, &'static str)| (e.0@, e.1@))
}

pub open spec fn string_pair_views(v: Seq<(String, String)>) -> Seq<(Seq<char>, Seq<char>)> {
    v.map_values(|e: (String, String)| (e.0@, e.1@))
}

fn field_name(label: &str, state: &str) -> (res: String)
    ensures
        res@ == field_name_spec(label@, state@),
{
    let s = concat2(label, " : \n");
    let s = concat2(s.as_str(), state);
    concat2(s.as_str(), "\n--------------------------")
}

fn field_value(label: &str, state: &str) -> (res: String)
    ensures
        res@ == field_value_spec(label@, state@),
{
    let s = concat2("**", label);
    let s = concat2(s.as_str(), " : \n");
    let s = concat2(s.as_str(), state);
    concat2(s.as_str(), "\n--------------------------**")
}

/// Lays out (label, state) entries two by two as embed fields (see `paired_fields_spec`).
pub fn paired_fields(entries: &Vec<(&'static str, &'static str)>) -> (res: Vec<(String, String)>)
    requires
        entries@.len() >= 1,
    ensures
        string_pair_views(res@) == paired_fields_spec(entry_views(entries@)),
{
    let ghost e = entry_views(entries@);
    let n = entries.len();
    let mut res: Vec<(String, String)> = Vec::new();
    let mut i: usize = 0;
    while i + 1 < n
        invariant
            n == entries@.len(),
            e == entry_views(entries@),
            i % 2 == 0,
            i <= n,
            string_pair_views(res@) == paired_fields_spec(e).take((i / 2) as int),
            res@.len() == i / 2,
        decreases n - i,
    {
        let name = field_name(entries[i].0, entries[i].1);
        let value = field_value(entries[i + 1].0, entries[i + 1].1);
        let ghost before = string_pair_views(res@);
        let ghost pair = (name@, value@);
        res.push((name, value));
        assert(string_pair_views(res@) =~= before.push(pair));
        assert(pair == paired_fields_spec(e)[(i / 2) as int]);
        assert(paired_fields_spec(e).take((i / 2 + 1) as int) =~= paired_fields_spec(e).take((i / 2) as int).push(
            paired_fields_spec(e)[(i / 2) as int],
        ));
        i = i + 2;
    }
    if n % 2 == 1 {
        let name = field_name(entries[n - 1].0, entries[n - 1].1);
        let ghost before = string_pair_views(res@);
        let ghost pair = (name@, Seq::<char>::empty());
        res.push((name, String::new()));
        assert(string_pair_views(res@) =~= before.push(pair));
        assert(paired_fields_spec(e) =~= paired_fields_spec(e).take((n / 2) as int).push(pair));
    } else {
        assert(paired_fields_spec(e).take((n / 2) as int) =~= paired_fields_spec(e));
    }
    res
}

/// Each version's display label paired with a state text, in catalogue order.
pub open spec fn labelled_states_spec(states: Seq<&'static str>) -> Seq<(&'static str, &'static str)> {
    Seq::new(versions_spec().len(), |k: int| (versions_spec()[k].1, states[k]))
}

/// The embed fields listing every version of the catalogue with its state text
/// (`states` holds one text per version, in catalogue order).
pub fn version_state_fields(states: &Vec<&'static str>) -> (res: Vec<(String, String)>)
    requires
        states@.len() == versions_spec().len(),
    ensures
        string_pair_views(res@) == paired_fields_spec(entry_views(labelled_states_spec(states@))),
{
    let versions = get_versions_list_tuple();
    let mut entries: Vec<(&'static str, &'static str)> = Vec::new();
    let mut i: usize = 0;
    while i < versions.len()
        invariant
            versions@ == versions_spec(),
            states@.len() == versions_spec().len(),
            i <= versions@.len(),
            entries@ == labelled_states_spec(states@).take(i as int),
        decreases versions.len() - i,
    {
        entries.push((versions[i].1, states[i]));
        i = i + 1;
        assert(entries@ =~= labelled_states_spec(states@).take(i as int));
    }
    assert(labelled_states_spec(states@).take(versions@.len() as int) =~= labelled_states_spec(
        states@,
    ));
    paired_fields(&entries)
}

/// The layout of the version listing: which version opens each field and which,
/// if any, completes it (positions in the catalogue).
pub open spec fn listing_layout_spec() -> Seq<(usize, Option<usize>)> {
    seq![(0usize, Some(1usize)), (2usize, Some(3usize)), (4usize, Some(5usize)), (6usize, Some(7usize)), (8usize, Some(9usize)), (10usize, Some(11usize)), (12usize, Some(13usize)), (14usize, Some(15usize)), (16usize, Some(17usize)), (18usize, Some(19usize)), (20usize, Some(21usize)), (23usize, Some(24usize)), (25usize, None), (26usize, None), (22usize, None)]
}

pub open spec fn listing_emote_spec(value: i32) -> Seq<char> {
    if value == 1 {
        "✅"@
    } else {
        "❌"@
    }
}

pub open spec fn listing_name_spec(label: Seq<char>, state: Seq<char>) -> Seq<char> {
    label + " : \n"@ + state + "\n---------------------------"@
}

pub open spec fn listing_value_spec(label: Seq<char>, state: Seq<char>) -> Seq<char> {
    "**"@ + label + " : \n"@ + state + "**\n---------------------------"@
}

/// The fields of the version listing of an edition, `values` holding its setting
/// for each version in catalogue order.
pub open spec fn listing_fields_spec(values: Seq<i32>) -> Seq<(Seq<char>, Seq<char>)> {
    listing_layout_spec().map_values(
        |p: (usize, Option<usize>)|
            (
                listing_name_spec(versions_spec()[p.0 as int].1@, listing_emote_spec(values[p.0 as int])),
                match p.1 {
                    Some(r) => listing_value_spec(
                        versions_spec()[r as int].1@,
                        listing_emote_spec(values[r as int]),
                    ),
                    None => Seq::<char>::empty(),
                },
            ),
    )
}

fn listing_layout() -> (res: Vec<(usize, Option<usize>)>)
    ensures
        res@ == listing_layout_spec(),
{
    let res = vec![(0usize, Some(1usize)), (2usize, Some(3usize)), (4usize, Some(5usize)), (6usize, Some(7usize)), (8usize, Some(9usize)), (10usize, Some(11usize)), (12usize, Some(13usize)), (14usize, Some(15usize)), (16usize, Some(17usize)), (18usize, Some(19usize)), (20usize, Some(21usize)), (23usize, Some(24usize)), (25usize, None), (26usize, None), (22usize, None)];
    assert(res@ =~= listing_layout_spec());
    res
}

/// The fields of the version listing (see `listing_fields_spec`).
pub fn listing_fields(values: &Vec<i32>) -> (res: Vec<(String, String)>)
    requires
        values@.len() == versions_spec().len(),
    ensures
        string_pair_views(res@) == listing_fields_spec(values@),
{
    let versions = get_versions_list_tuple();
    let layout = listing_layout();
    let mut res: Vec<(String, String)> = Vec::new();
    let mut i: usize = 0;
    while i < layout.len()
        invariant
            versions@ == versions_spec(),
            layout@ == listing_layout_spec(),
            values@.len() == versions_spec().len(),
            i <= layout@.len(),
            string_pair_views(res@) == listing_fields_spec(values@).take(i as int),
        decreases layout.len() - i,
    {
        let (l, r) = layout[i];
        let s = concat2(versions[l].1, " : \n");
        let s = concat2(s.as_str(), listing_version_emote(values[l]));
        let name = concat2(s.as_str(), "\n---------------------------");
        let value = match r {
            Some(r) => {
                let s = concat2("**", versions[r].1);
                let s = concat2(s.as_str(), " : \n");
                let s = concat2(s.as_str(), listing_version_emote(values[r]));
                concat2(s.as_str(), "**\n---------------------------")
            },
            None => String::new(),
        };
        let ghost before = string_pair_views(res@);
        let ghost pair = (name@, value@);
        proof {
            reveal_strlit("✅");
            reveal_strlit("❌");
        }
        assert(pair == listing_fields_spec(values@)[i as int]);
        res.push((name, value));
        assert(string_pair_views(res@) =~= before.push(pair));
        assert(listing_fields_spec(values@).take(i + 1) =~= listing_fields_spec(values@).take(
            i as int,
        ).push(pair));
        i = i + 1;
    }
    assert(listing_fields_spec(values@).take(layout@.len() as int) =~= listing_fields_spec(values@));
    res
}

/// The title of the embed that lists an edition's versions.
pub fn versions_title(edition_name: &str) -> (res: String)
    ensures
        res@ == "Versions autorisées pour l'édition "@ + edition_name@,
{
    concat2("Versions autorisées pour l'édition ", edition_name)
}

pub open spec fn organizer_emote_spec(value: i32) -> &'static str {
    if value == 0 {
        "❌"
    } else if value == 1 {
        "✅"
    } else {
        "Erreur"
    }
}

pub open spec fn player_emote_spec(value: i32) -> &'static str {
    if value == 0 {
        "❌"
    } else if value == 1 {
        "✅"
    } else if value == 2 {
        "✅💫"
    } else {
        "Erreur"
    }
}

/// The fields listing an edition's stored settings (one value per version, in
/// catalogue order), as organizers see them.
pub fn organizer_version_fields(values: &Vec<i32>) -> (res: Vec<(String, String)>)
    requires
        values@.len() == versions_spec().len(),
    ensures
        string_pair_views(res@) == paired_fields_spec(
            entry_views(labelled_states_spec(values@.map_values(|v: i32| organizer_emote_spec(v)))),
        ),
{
    let mut states: Vec<&'static str> = Vec::new();
    let mut i: usize = 0;
    while i < values.len()
        invariant
            i <= values@.len(),
            states@ == values@.take(i as int).map_values(|v: i32| organizer_emote_spec(v)),
        decreases values.len() - i,
    {
        states.push(organizer_version_emote(values[i]));
        i = i + 1;
        assert(states@ =~= values@.take(i as int).map_values(|v: i32| organizer_emote_spec(v)));
    }
    assert(values@.take(values@.len() as int) =~= values@);
    version_state_fields(&states)
}

/// The fields listing a player's declarations (one value per version, in
/// catalogue order).
pub fn player_version_fields(values: &Vec<i32>) -> (res: Vec<(String, String)>)
    requires
        values@.len() == versions_spec().len(),
    ensures
        string_pair_views(res@) == paired_fields_spec(
            entry_views(labelled_states_spec(values@.map_values(|v: i32| player_emote_spec(v)))),
        ),
{
    let mut states: Vec<&'static str> = Vec::new();
    let mut i: usize = 0;
    while i < values.len()
        invariant
            i <= values@.len(),
            states@ == values@.take(i as int).map_values(|v: i32| player_emote_spec(v)),
        decreases values.len() - i,
    {
        states.push(player_version_emote(values[i]));
        i = i + 1;
        assert(states@ =~= values@.take(i as int).map_values(|v: i32| player_emote_spec(v)));
    }
    assert(values@.take(values@.len() as int) =~= values@);
    version_state_fields(&states)
}

/// The catalogue positions the version listing shows, field after field (the
/// first version of a field, then the one completing it, if any).
pub open spec fn listed_positions(layout: Seq<(usize, Option<usize>)>) -> Seq<int>
    decreases layout.len(),
{
    if layout.len() == 0 {
        Seq::empty()
    } else {
        let p = layout.last();
        let rest = listed_positions(layout.drop_last());
        match p.1 {
            Some(r) => rest.push(p.0 as int).push(r as int),
            None => rest.push(p.0 as int),
        }
    }
}

/// The version listing shows each version of the catalogue exactly once.
pub proof fn law_listing_shows_each_version_once()
    ensures
        listed_positions(listing_layout_spec()).len() == versions_spec().len(),
        listed_positions(listing_layout_spec()).no_duplicates(),
        forall|v: int| 0 <= v < versions_spec().len() ==> listed_positions(listing_layout_spec()).contains(v),
{
    broadcast use vstd::seq_lib::group_seq_properties;
    reveal_with_fuel(listed_positions, 16);
    let flat = listed_positions(listing_layout_spec());
    assert(flat =~= seq![0int, 1, 2, 3, 4, 5, 6, 7, 8, 9, 10, 11, 12, 13, 14, 15, 16, 17, 18, 19, 20, 21, 23, 24, 25, 26, 22]);
    assert forall|v: int| 0 <= v < 27 implies flat.contains(v) by {
        if v <= 21 {
            assert(flat[v] == v);
        } else if v == 22 {
            assert(flat[26] == v);
        } else {
            assert(flat[v - 1] == v);
        }
    }
}

} // verus!
