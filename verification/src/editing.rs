//! What an organizer does with an edition after creating it: picking it from a
//! menu, changing one of its four dates, showing it, deleting it; and the menu in
//! which a player picks an edition to update.

use vstd::prelude::*;
use crate::constants::{
    COMPETITION_END_DATE, COMPETITION_START_DATE, INSCRIPTION_END_DATE, INSCRIPTION_START_DATE,
    TypeDate,
};
use crate::dates::{
    canonical_dmy, canonical_dmy_timestamp, day_label, day_label_spec, dmy_text_timestamp,
    timestamp_in_chrono_range, typed_date_timestamp,
};
use crate::selection::edition_choice_value;
use crate::text::{concat2, decimal_spec, owned, parse_unsigned, parse_unsigned_spec, push_char, u64_to_decimal};

verus! {

// ---------------------------------------------------------------------------
// Choosing an edition
// ---------------------------------------------------------------------------

pub const NO_EDITION_TO_EDIT: &'static str = "Vous n'avez aucune édition en cours ou future qui puisse être modifiée.\nVous ne pouvez pas modifier une édition qui a déjà eu lieu.\n\nPour toute demande de modification d'édition passée, veuillez contacter le développeur à l'adresse mail **contact.cgbots@gmail.com**";
pub const NO_EDITION_TO_DELETE: &'static str = "Vous n'avez aucune édition en cours ou future qui puisse être supprimée.\nVous ne pouvez pas supprimer une édition qui a déjà eu lieu.\n\nPour toute demande de suppression d'édition passée, veuillez contacter le développeur à l'adresse mail **contact.cgbots@gmail.com**";
pub const EDITION_MENU_PLACEHOLDER: &'static str = "Choisissez une édition";

/// Whether the query (organizer id, end bound) selects a stored edition organized
/// by `organizer` whose competition ends at `competition_end`: one that ends after
/// the bound.
pub open spec fn open_editions_query_selects(q: (String, i64), organizer: Seq<char>, competition_end: int) -> bool {
    organizer == q.0@ && competition_end > q.1
}

/// The editions an organizer may still change: those they organize whose
/// competition ends after `now`. The query is (organizer id, end bound).
pub fn open_editions_query(organizer_id: &str, now: i64) -> (res: (String, i64))
    ensures
        res.0@ == organizer_id@,
        res.1 == now,
        forall|organizer: Seq<char>, competition_end: int|
            #[trigger] open_editions_query_selects(res, organizer, competition_end) <==> (organizer == organizer_id@
                && competition_end > now),
{
    (owned(organizer_id), now)
}

/// A select menu of editions, whose options are the edition names, each both
/// label and value.
pub struct EditionMenu {
    pub custom_id: String,
    pub placeholder: &'static str,
    pub options: Vec<(String, String)>,
}

/// The menu of an organizer's editions: when there is none, only the error is
/// sent (`deletion` tells which), and no menu.
pub fn edition_menu(custom_id: &str, names: &Vec<String>, deletion: bool) -> (res: Result<EditionMenu, &'static str>)
    ensures
        names@.len() == 0 ==> res == Err::<EditionMenu, &'static str>(
            if deletion { NO_EDITION_TO_DELETE } else { NO_EDITION_TO_EDIT },
        ),
        names@.len() > 0 ==> res is Ok,
        res matches Ok(m) ==> {
            &&& m.custom_id@ == custom_id@
            &&& m.placeholder == EDITION_MENU_PLACEHOLDER
            &&& m.options@.len() == names@.len()
            &&& forall|k: int|
                0 <= k < names@.len() ==> #[trigger] m.options@[k].0@ == names@[k]@ && m.options@[k].1@
                    == names@[k]@
        },
{
    if names.len() == 0 {
        return Err(if deletion { NO_EDITION_TO_DELETE } else { NO_EDITION_TO_EDIT });
    }
    Ok(EditionMenu { custom_id: owned(custom_id), placeholder: EDITION_MENU_PLACEHOLDER, options: menu_options(names) })
}

fn menu_options(names: &Vec<String>) -> (res: Vec<(String, String)>)
    ensures
        res@.len() == names@.len(),
        forall|k: int|
            0 <= k < names@.len() ==> #[trigger] res@[k].0@ == names@[k]@ && res@[k].1@ == names@[k]@,
{
    let mut options: Vec<(String, String)> = Vec::new();
    let mut i: usize = 0;
    while i < names.len()
        invariant
            i <= names@.len(),
            options@.len() == i,
            forall|k: int|
                0 <= k < i ==> #[trigger] options@[k].0@ == names@[k]@ && options@[k].1@ == names@[k]@,
        decreases names.len() - i,
    {
        options.push((owned(names[i].as_str()), owned(names[i].as_str())));
        i = i + 1;
    }
    options
}

pub const NO_EDITION_TO_LOCK: &'static str = "Aucune édition n'est actuellement modifiable.";
pub const NO_EDITION_TO_LIST: &'static str = "Aucune édition n'est actuellement affichable.";
pub const VERSION_MENU_PLACEHOLDER: &'static str = "Choisis une édition";

/// The menu of editions whose versions are locked (`listing` false) or listed
/// (`listing` true): refused with a message, and no menu, when there is none.
pub fn version_edition_menu(custom_id: &str, names: &Vec<String>, listing: bool) -> (res: Result<EditionMenu, &'static str>)
    ensures
        names@.len() == 0 ==> res == Err::<EditionMenu, &'static str>(
            if listing { NO_EDITION_TO_LIST } else { NO_EDITION_TO_LOCK },
        ),
        res matches Ok(m) ==> {
            &&& names@.len() > 0
            &&& m.custom_id@ == custom_id@
            &&& m.placeholder == VERSION_MENU_PLACEHOLDER
            &&& m.options@.len() == names@.len()
            &&& forall|k: int|
                0 <= k < names@.len() ==> #[trigger] m.options@[k].0@ == names@[k]@ && m.options@[k].1@
                    == names@[k]@
        },
        names@.len() > 0 ==> res is Ok,
{
    if names.len() == 0 {
        return Err(if listing { NO_EDITION_TO_LIST } else { NO_EDITION_TO_LOCK });
    }
    Ok(EditionMenu {
        custom_id: owned(custom_id),
        placeholder: VERSION_MENU_PLACEHOLDER,
        options: menu_options(names),
    })
}

pub const GUILD_ONLY_MESSAGE: &'static str = "Cette commande ne peut être utilisée que dans un serveur";
pub const ADMIN_ONLY_MESSAGE: &'static str = "Tu n'as pas les permissions nécessaires pour utiliser cette commande";
pub const VERSION_SETUP_CONTENT: &'static str = "Sélectionne l'édition à modifier";
pub const PLAYER_MENU_PLACEHOLDER: &'static str = "Sélectionne une édition";

/// Who may choose which versions an edition allows: a member of a server with the
/// administrator permission.
pub fn version_setup_gate(in_guild: bool, is_admin: bool) -> (res: Result<(), &'static str>)
    ensures
        !in_guild ==> res == Err::<(), &'static str>(GUILD_ONLY_MESSAGE),
        in_guild && !is_admin ==> res == Err::<(), &'static str>(ADMIN_ONLY_MESSAGE),
        in_guild && is_admin ==> res is Ok,
{
    if !in_guild {
        Err(GUILD_ONLY_MESSAGE)
    } else if !is_admin {
        Err(ADMIN_ONLY_MESSAGE)
    } else {
        Ok(())
    }
}

/// The menu of a server's editions in which the chosen version settings are
/// applied; its custom id carries the settings (see `encode_version_flags`).
pub fn version_setup_menu(custom_id: &str, names: &Vec<String>) -> (res: EditionMenu)
    ensures
        res.custom_id@ == custom_id@,
        res.placeholder == PLAYER_MENU_PLACEHOLDER,
        res.options@.len() == names@.len(),
        forall|k: int|
            0 <= k < names@.len() ==> #[trigger] res.options@[k].0@ == names@[k]@ && res.options@[k].1@
                == names@[k]@,
{
    EditionMenu {
        custom_id: owned(custom_id),
        placeholder: PLAYER_MENU_PLACEHOLDER,
        options: menu_options(names),
    }
}

pub const PRIVATE_ONLY_MESSAGE: &'static str = "This command must be used here, in private message.";

/// A stored text with its double quotes taken out.
pub open spec fn without_quotes(s: Seq<char>) -> Seq<char>
    decreases s.len(),
{
    if s.len() == 0 {
        s
    } else if s.last() == '"' {
        without_quotes(s.drop_last())
    } else {
        without_quotes(s.drop_last()).push(s.last())
    }
}

/// Reads the id of a player's recap message as stored: the stored value written
/// out, quotes taken out, read as an unsigned integer; `None` when it is not one.
pub fn stored_message_id(stored: &str) -> (res: Option<u64>)
    ensures
        match parse_unsigned_spec(without_quotes(stored@), u64::MAX as nat) {
            Some(v) => res == Some(v as u64),
            None => res is None,
        },
{
    let n = stored.unicode_len();
    let mut kept = String::new();
    let mut i: usize = 0;
    while i < n
        invariant
            n == stored@.len(),
            i <= n,
            kept@ == without_quotes(stored@.take(i as int)),
        decreases n - i,
    {
        let c = stored.get_char(i);
        assert(stored@.take(i + 1).drop_last() =~= stored@.take(i as int));
        if c != '"' {
            push_char(&mut kept, c);
        }
        i = i + 1;
    }
    assert(stored@.take(n as int) =~= stored@);
    parse_unsigned(kept.as_str(), u64::MAX)
}

pub const NOT_REGISTERED_ANYWHERE: &'static str = "Tu n'est inscrit à aucune compétition dont la validation est à faire.";
pub const PLAYER_MENU_CONTENT: &'static str = "Sélectionne l'édition à mettre à jour";

/// The menu in which a player picks one of the editions they registered to and
/// that still await verification.
pub struct PlayerEditionMenu {
    pub custom_id: String,
    pub options: Vec<(String, String)>,
}

/// The player's menu for editions given as (edition name, guild id, guild name):
/// `None` when there is none (the player is told `NOT_REGISTERED_ANYWHERE`);
/// otherwise each option is labelled `name | guild name` and valued `name-guild id`.
pub fn player_edition_menu(custom_id: &str, editions: &Vec<(String, String, String)>) -> (res: Option<PlayerEditionMenu>)
    ensures
        editions@.len() == 0 <==> res is None,
        res matches Some(m) ==> {
            &&& m.custom_id@ == custom_id@
            &&& m.options@.len() == editions@.len()
            &&& forall|k: int|
                0 <= k < editions@.len() ==> #[trigger] m.options@[k].0@ == editions@[k].0@ + " | "@
                    + editions@[k].2@ && m.options@[k].1@ == editions@[k].0@ + seq!['-'] + editions@[k].1@
        },
{
    if editions.len() == 0 {
        return None;
    }
    let mut options: Vec<(String, String)> = Vec::new();
    let mut i: usize = 0;
    while i < editions.len()
        invariant
            i <= editions@.len(),
            options@.len() == i,
            forall|k: int|
                0 <= k < i ==> #[trigger] options@[k].0@ == editions@[k].0@ + " | "@ + editions@[k].2@
                    && options@[k].1@ == editions@[k].0@ + seq!['-'] + editions@[k].1@,
        decreases editions.len() - i,
    {
        let e = &editions[i];
        let label = concat2(e.0.as_str(), " | ");
        let label = concat2(label.as_str(), e.2.as_str());
        let value = edition_choice_value(e.0.as_str(), e.1.as_str());
        options.push((label, value));
        i = i + 1;
    }
    Some(PlayerEditionMenu { custom_id: owned(custom_id), options })
}

// ---------------------------------------------------------------------------
// Changing a date
// ---------------------------------------------------------------------------

/// The four dates of an edition, as stored.
#[derive(Clone, Copy, Debug, PartialEq, Eq)]
pub struct EditionDates {
    pub start_registration: i64,
    pub end_registration: i64,
    pub start_competition: i64,
    pub end_competition: i64,
}

pub open spec fn min_i64(a: i64, b: i64) -> i64 {
    if a <= b { a } else { b }
}

pub open spec fn max_i64(a: i64, b: i64) -> i64 {
    if a >= b { a } else { b }
}

/// The earlier of the end of registration and the start of the competition: the
/// bound below which a new start of registration must fall.
pub open spec fn lower_bound(d: EditionDates) -> i64 {
    min_i64(d.start_competition, d.end_registration)
}

/// The later of the two: the bound above which a new end of competition must fall.
pub open spec fn upper_bound(d: EditionDates) -> i64 {
    max_i64(d.start_competition, d.end_registration)
}

/// The stored field a change of this date writes.
pub open spec fn date_field_spec(kind: TypeDate) -> &'static str {
    match kind {
        TypeDate::StartRegistration => INSCRIPTION_START_DATE,
        TypeDate::EndRegistration => INSCRIPTION_END_DATE,
        TypeDate::StartCompetition => COMPETITION_START_DATE,
        TypeDate::EndCompetition => COMPETITION_END_DATE,
    }
}

pub fn date_field(kind: TypeDate) -> (res: &'static str)
    ensures
        res == date_field_spec(kind),
{
    match kind {
        TypeDate::StartRegistration => INSCRIPTION_START_DATE,
        TypeDate::EndRegistration => INSCRIPTION_END_DATE,
        TypeDate::StartCompetition => COMPETITION_START_DATE,
        TypeDate::EndCompetition => COMPETITION_END_DATE,
    }
}

/// Whether the dates a prompt shows are days chrono can write.
pub open spec fn prompt_dates_in_range(kind: TypeDate, d: EditionDates) -> bool {
    match kind {
        TypeDate::StartRegistration => timestamp_in_chrono_range(lower_bound(d) as int),
        TypeDate::EndCompetition => timestamp_in_chrono_range(upper_bound(d) as int),
        _ => timestamp_in_chrono_range(d.start_registration as int) && timestamp_in_chrono_range(
            d.end_competition as int,
        ),
    }
}

/// The placeholder of the field in which the new date is typed: the bounds it
/// should respect.
pub open spec fn prompt_placeholder_spec(kind: TypeDate, d: EditionDates) -> Seq<char> {
    match kind {
        TypeDate::StartRegistration => "JJ/MM/AAAA (< "@ + day_label_spec(lower_bound(d) as int) + ")"@,
        TypeDate::EndCompetition => "JJ/MM/AAAA (> "@ + day_label_spec(upper_bound(d) as int) + ")"@,
        _ => "("@ + day_label_spec(d.start_registration as int) + " <) JJ/MM/AAAA (< "@ + day_label_spec(
            d.end_competition as int,
        ) + ")"@,
    }
}

/// The form in which the new date is typed: ten characters, required.
pub struct DatePrompt {
    pub title: &'static str,
    pub label: String,
    pub placeholder: String,
    pub min_length: u64,
    pub max_length: u64,
}

pub const DATE_PROMPT_TITLE: &'static str = "Dates de la compétition";

/// The form asking an organizer for a new date of this kind.
pub fn date_prompt(kind: TypeDate, dates: EditionDates) -> (res: DatePrompt)
    requires
        prompt_dates_in_range(kind, dates),
    ensures
        res.title == DATE_PROMPT_TITLE,
        res.label@ == "Date de "@ + date_field_spec(kind)@,
        res.placeholder@ == prompt_placeholder_spec(kind, dates),
        res.min_length == 10,
        res.max_length == 10,
{
    let placeholder = match kind {
        TypeDate::StartRegistration => {
            let low = if dates.start_competition <= dates.end_registration {
                dates.start_competition
            } else {
                dates.end_registration
            };
            let s = concat2("JJ/MM/AAAA (< ", day_label(low).as_str());
            concat2(s.as_str(), ")")
        },
        TypeDate::EndCompetition => {
            let high = if dates.start_competition >= dates.end_registration {
                dates.start_competition
            } else {
                dates.end_registration
            };
            let s = concat2("JJ/MM/AAAA (> ", day_label(high).as_str());
            concat2(s.as_str(), ")")
        },
        _ => {
            let s = concat2("(", day_label(dates.start_registration).as_str());
            let s = concat2(s.as_str(), " <) JJ/MM/AAAA (< ");
            let s = concat2(s.as_str(), day_label(dates.end_competition).as_str());
            concat2(s.as_str(), ")")
        },
    };
    DatePrompt {
        title: DATE_PROMPT_TITLE,
        label: concat2("Date de ", date_field(kind)),
        placeholder,
        min_length: 10,
        max_length: 10,
    }
}

/// Whether a new date, at timestamp `t`, is refused: a start of registration after
/// the lower bound, an end of competition before the upper bound, or one of the
/// two middle dates not strictly between the start of registration and the end of
/// the competition.
pub open spec fn date_refused(kind: TypeDate, t: int, d: EditionDates) -> bool {
    match kind {
        TypeDate::StartRegistration => t > lower_bound(d),
        TypeDate::EndCompetition => t < upper_bound(d),
        _ => !(d.start_registration < t && t < d.end_competition),
    }
}

/// When a new date is refused, for each of the four dates: a start of registration
/// that comes after the end of registration or after the start of the competition;
/// an end of competition that comes before either of them; an end of registration
/// or a start of competition that is not strictly between the start of
/// registration and the end of the competition.
pub proof fn law_date_refusals(t: int, d: EditionDates)
    ensures
        date_refused(TypeDate::StartRegistration, t, d) <==> (t > d.end_registration || t > d.start_competition),
        date_refused(TypeDate::EndCompetition, t, d) <==> (t < d.end_registration || t < d.start_competition),
        date_refused(TypeDate::EndRegistration, t, d) <==> (t <= d.start_registration || t >= d.end_competition),
        date_refused(TypeDate::StartCompetition, t, d) <==> (t <= d.start_registration || t >= d.end_competition),
{
}

/// The timestamp a refusal message shows.
pub open spec fn refusal_bound(kind: TypeDate, d: EditionDates) -> i64 {
    match kind {
        TypeDate::StartRegistration => lower_bound(d),
        TypeDate::EndCompetition => upper_bound(d),
        TypeDate::EndRegistration => d.start_registration,
        TypeDate::StartCompetition => d.end_competition,
    }
}

pub open spec fn refusal_text(kind: TypeDate) -> Seq<char> {
    match kind {
        TypeDate::StartRegistration => "La date de début des inscriptions ne peut pas être supérieure à la date de fin des inscriptions ou de début de la compétition.\n\nRéessaye en entrant une date inférieure à **"@,
        TypeDate::EndCompetition => "La date de de fin de la copétition ne peut pas être inférieure à la date de fin des inscriptions ou de début de la compétition.\n\nRéessaye en entrant une date supérieure à **"@,
        TypeDate::EndRegistration => "La date de fin des inscriptions ne peut pas être inférieure à la date de début des inscriptions.\n\nRéessaye en entrant une date supérieure à **"@,
        TypeDate::StartCompetition => "La date de début des inscriptions ne peut pas être supérieure à la date de fin des inscriptions.\n\nRéessaye en entrant une date inférieure à **"@,
    }
}

pub open spec fn refusal_message_spec(kind: TypeDate, d: EditionDates) -> Seq<char> {
    refusal_text(kind) + day_label_spec(refusal_bound(kind, d) as int) + "**"@
}

/// Checks a new date, at timestamp `t`, against the stored ones (see
/// `date_refused`); a refusal carries the message sent back.
pub fn check_new_date(kind: TypeDate, t: i64, dates: EditionDates) -> (res: Result<(), String>)
    requires
        timestamp_in_chrono_range(refusal_bound(kind, dates) as int),
    ensures
        res is Err <==> date_refused(kind, t as int, dates),
        res matches Err(msg) ==> msg@ == refusal_message_spec(kind, dates),
{
    let low = if dates.start_competition <= dates.end_registration {
        dates.start_competition
    } else {
        dates.end_registration
    };
    let high = if dates.start_competition >= dates.end_registration {
        dates.start_competition
    } else {
        dates.end_registration
    };
    let (refused, text, bound) = match kind {
        TypeDate::StartRegistration => (
            t > low,
            "La date de début des inscriptions ne peut pas être supérieure à la date de fin des inscriptions ou de début de la compétition.\n\nRéessaye en entrant une date inférieure à **",
            low,
        ),
        TypeDate::EndCompetition => (
            t < high,
            "La date de de fin de la copétition ne peut pas être inférieure à la date de fin des inscriptions ou de début de la compétition.\n\nRéessaye en entrant une date supérieure à **",
            high,
        ),
        TypeDate::EndRegistration => (
            !(dates.start_registration < t && t < dates.end_competition),
            "La date de fin des inscriptions ne peut pas être inférieure à la date de début des inscriptions.\n\nRéessaye en entrant une date supérieure à **",
            dates.start_registration,
        ),
        TypeDate::StartCompetition => (
            !(dates.start_registration < t && t < dates.end_competition),
            "La date de début des inscriptions ne peut pas être supérieure à la date de fin des inscriptions.\n\nRéessaye en entrant une date inférieure à **",
            dates.end_competition,
        ),
    };
    if refused {
        let s = concat2(text, day_label(bound).as_str());
        Err(concat2(s.as_str(), "**"))
    } else {
        Ok(())
    }
}

/// Reads a new date typed by the organizer and checks it: `None` when chrono does
/// not read the text as a date; otherwise the refusal message, or the timestamp
/// to store.
pub fn new_date_from_text(kind: TypeDate, typed: &str, dates: EditionDates) -> (res: Option<Result<i64, String>>)
    requires
        timestamp_in_chrono_range(refusal_bound(kind, dates) as int),
    ensures
        canonical_dmy(typed@) ==> dmy_text_timestamp(typed@) == canonical_dmy_timestamp(typed@),
        match dmy_text_timestamp(typed@) {
            None => res is None,
            Some(t) => match res {
                Some(Ok(v)) => v == t && !date_refused(kind, t as int, dates),
                Some(Err(msg)) => date_refused(kind, t as int, dates) && msg@ == refusal_message_spec(kind, dates),
                None => false,
            },
        },
{
    match typed_date_timestamp(typed) {
        None => None,
        Some(t) => match check_new_date(kind, t, dates) {
            Ok(()) => Some(Ok(t)),
            Err(msg) => Some(Err(msg)),
        },
    }
}

/// How long the bot waits for the new date to be typed, in seconds.
pub const DATE_FORM_TIMEOUT_SECS: u64 = 60;
/// The reply when the new date is not typed in time.
pub const DATE_FORM_TIMED_OUT: &'static str = "Timed out";

pub const DATE_CHANGED_TITLE: &'static str = "Date modifiée avec succès";

/// The answer once a date is changed (whichever date it was).
pub fn date_changed_message(edition_name: &str) -> (res: String)
    ensures
        res@ == "La date de début des inscriptions de la compétition **"@ + edition_name@
            + "** a bien été modifiée."@,
{
    let s = concat2("La date de début des inscriptions de la compétition **", edition_name);
    concat2(s.as_str(), "** a bien été modifiée.")
}

// ---------------------------------------------------------------------------
// Showing and deleting an edition
// ---------------------------------------------------------------------------

/// The embed that shows an edition.
pub struct EditionInfo {
    pub title: String,
    pub description: String,
    pub fields: Vec<(&'static str, String)>,
}

pub open spec fn dates_in_range(d: EditionDates) -> bool {
    &&& timestamp_in_chrono_range(d.start_registration as int)
    &&& timestamp_in_chrono_range(d.end_registration as int)
    &&& timestamp_in_chrono_range(d.start_competition as int)
    &&& timestamp_in_chrono_range(d.end_competition as int)
}

pub open spec fn info_fields_spec(d: EditionDates) -> Seq<(Seq<char>, Seq<char>)> {
    seq![
        ("Date de début des inscriptions"@, day_label_spec(d.start_registration as int)),
        ("Date de fin des inscriptions"@, day_label_spec(d.end_registration as int)),
        ("Date de début de la compétition"@, day_label_spec(d.start_competition as int)),
        ("Date de fin de la compétition"@, day_label_spec(d.end_competition as int)),
    ]
}

/// The embed showing an edition picked from the menu (`picked`) as stored
/// (`stored_name`), with its four dates.
pub fn edition_info(picked: &str, stored_name: &str, dates: EditionDates) -> (res: EditionInfo)
    requires
        dates_in_range(dates),
    ensures
        res.title@ == picked@,
        res.description@ == "Voici les informations de l'édition "@ + stored_name@,
        res.fields@.map_values(|f: (&'static str, String)| (f.0@, f.1@)) == info_fields_spec(dates),
{
    let fields = vec![
        ("Date de début des inscriptions", day_label(dates.start_registration)),
        ("Date de fin des inscriptions", day_label(dates.end_registration)),
        ("Date de début de la compétition", day_label(dates.start_competition)),
        ("Date de fin de la compétition", day_label(dates.end_competition)),
    ];
    assert(fields@.map_values(|f: (&'static str, String)| (f.0@, f.1@)) =~= info_fields_spec(dates));
    EditionInfo {
        title: owned(picked),
        description: concat2("Voici les informations de l'édition ", stored_name),
        fields,
    }
}

pub const DELETION_FAILED: &'static str = "Une erreur est survenue lors de la suppression de l'édition.\nVeuillez contacter le développeur à l'adresse mail **contact.cgbots@gmail.com**";
pub const DELETED_TITLE: &'static str = "Edition supprimée";
pub const DELETED_DESCRIPTION: &'static str = "L'édition à été supprimée avec succès !";

/// The answer to a deletion, from the number of editions the database removed:
/// an error when none was.
pub fn deletion_outcome(deleted_count: u64) -> (res: Result<(&'static str, &'static str), &'static str>)
    ensures
        deleted_count == 0 ==> res == Err::<(&'static str, &'static str), &'static str>(DELETION_FAILED),
        deleted_count != 0 ==> res == Ok::<(&'static str, &'static str), &'static str>((DELETED_TITLE, DELETED_DESCRIPTION)),
{
    if deleted_count == 0 {
        Err(DELETION_FAILED)
    } else {
        Ok((DELETED_TITLE, DELETED_DESCRIPTION))
    }
}

/// Whether the filter (name, organizer id) selects a stored edition named `name`
/// organized by `organizer`.
pub open spec fn organizer_filter_selects(f: (String, String), name: Seq<char>, organizer: Seq<char>) -> bool {
    name == f.0@ && organizer == f.1@
}

/// The edition an organizer picked, as the bot finds, changes and deletes it: the
/// picked name among the editions of the organizer who asked (name, organizer id
/// in decimal).
pub fn organizer_edition_filter(edition_name: &str, organizer_id: u64) -> (res: (String, String))
    ensures
        res.0@ == edition_name@,
        res.1@ == decimal_spec(organizer_id as nat),
        forall|name: Seq<char>, organizer: Seq<char>|
            #[trigger] organizer_filter_selects(res, name, organizer) <==> (name == edition_name@ && organizer
                == decimal_spec(organizer_id as nat)),
{
    (owned(edition_name), u64_to_decimal(organizer_id))
}

} // verus!
