//! Creating an edition: reading the organizer's form, checking the four dates,
//! refusing past or overlapping editions and names already used, and the record
//! and summary the bot stores and shows.
//!
//! The checks run in the order the bot makes them; between them the caller asks
//! the database (how many editions overlap, whether the name is taken). Each stage
//! is a value that only the previous stage can produce.

use vstd::prelude::*;
use crate::dates::{
    day_label, day_label_spec, get_timestamp_from_date, invalid_date_message, is_valid_date,
    law_midnight_shown_as_typed, lemma_midnight_timestamp_fits, malformed_pair_message,
    midnight_timestamp, one_date_spec, parse_two_dates, timestamp_in_chrono_range,
    two_dates_readable, year_label, Date,
};
use crate::constants::{
    CREATE_EDITION_COMPETITION_ID, CREATE_EDITION_INSCRIPTION_ID, EDITION_NAME,
    MODERATION_CONVERSATION_CHANNEL_NAME,
};
use crate::text::{concat2, decimal_spec, owned, split_spec, str_eq, u64_to_decimal, zero_pad_spec};
use crate::versions::{get_versions_list_tuple, versions_spec};

verus! {

pub const START_DATE_INVALID: &'static str = "la date de début n'est pas valide !";
pub const END_DATE_INVALID: &'static str = "la date de fin n'est pas valide !";
pub const END_BEFORE_START: &'static str = "La date de fin est avant la date de début !";
pub const OVERLAPPING_EDITION: &'static str = "L'édition chevauche une édition existante !";
pub const PAST_EDITION: &'static str = "Tu ne peut pas ajouter d'édition passée.";
pub const NAME_ALREADY_USED: &'static str = "Une edition porte déjà ce nom.";

/// The editions of a guild whose registration period meets the period
/// `[start, end]`: those that neither open after `end` nor close before `start`.
#[derive(Debug)]
pub struct OverlapQuery {
    pub guild_id: String,
    pub start: i64,
    pub end: i64,
}

/// Whether the query selects a stored edition of the guild `guild` whose
/// registration runs from `inscription_start` to `inscription_end`: one that
/// neither opens after the query's end nor closes before its start.
pub open spec fn overlap_query_selects(q: OverlapQuery, guild: Seq<char>, inscription_start: int, inscription_end: int) -> bool {
    &&& guild == q.guild_id@
    &&& !(inscription_start > q.end)
    &&& !(inscription_end < q.start)
}

/// What an overlap query selects is what it is meant to: the stored editions of
/// its guild whose registration period shares at least one instant with the
/// query's period.
pub proof fn law_overlap_query_selects_meeting_periods(q: OverlapQuery, guild: Seq<char>, inscription_start: int, inscription_end: int)
    requires
        q.start <= q.end,
        inscription_start <= inscription_end,
    ensures
        overlap_query_selects(q, guild, inscription_start, inscription_end) <==> (guild == q.guild_id@ && exists|t: int|
            #[trigger] instant_within(t, inscription_start, inscription_end) && instant_within(t, q.start as int, q.end as int)),
{
    if overlap_query_selects(q, guild, inscription_start, inscription_end) {
        let t = if inscription_start < q.start { q.start as int } else { inscription_start };
        assert(instant_within(t, inscription_start, inscription_end) && instant_within(t, q.start as int, q.end as int));
    }
}

/// Whether the instant `t` lies in the period from `start` to `end`, both included.
pub open spec fn instant_within(t: int, start: int, end: int) -> bool {
    start <= t <= end
}

/// The checks on an edition's period that need no database: both ends must be
/// real dates (a timestamp of 0 stands for a date that does not exist) and the
/// end must not come before the start. When they pass, the query that finds the
/// editions of the guild that the new one would overlap.
pub fn edition_overlap_check(timestamp_debut: i64, timestamp_fin: i64, guild_id: u64) -> (res: Result<OverlapQuery, String>)
    ensures
        (timestamp_debut == 0 || timestamp_fin == 0) ==> (res matches Err(e) && e@ == (if timestamp_fin == 0 {
            END_DATE_INVALID@
        } else {
            START_DATE_INVALID@
        })),
        (timestamp_debut != 0 && timestamp_fin != 0 && timestamp_fin < timestamp_debut) ==> (res matches Err(e)
            && e@ == END_BEFORE_START@),
        (timestamp_debut != 0 && timestamp_fin != 0 && timestamp_debut <= timestamp_fin) ==> (res matches Ok(q) && q.guild_id@
            == decimal_spec(guild_id as nat) && q.start == timestamp_debut && q.end == timestamp_fin),
        res matches Ok(q) ==> forall|guild: Seq<char>, s: int, e: int|
            #[trigger] overlap_query_selects(q, guild, s, e) <==> (guild == decimal_spec(guild_id as nat)
                && s <= timestamp_fin && e >= timestamp_debut),
{
    if timestamp_debut == 0 || timestamp_fin == 0 {
        return if timestamp_fin == 0 {
            Err(owned(END_DATE_INVALID))
        } else {
            Err(owned(START_DATE_INVALID))
        };
    }
    if timestamp_fin < timestamp_debut {
        return Err(owned(END_BEFORE_START));
    }
    Ok(OverlapQuery { guild_id: u64_to_decimal(guild_id), start: timestamp_debut, end: timestamp_fin })
}

/// The verdict once the database has counted the editions the query selects.
pub fn overlap_count_check(count: u64) -> (res: Result<(), String>)
    ensures
        count > 0 ==> (res matches Err(e) && e@ == OVERLAPPING_EDITION@),
        count == 0 ==> res is Ok,
{
    if count > 0 {
        return Err(owned(OVERLAPPING_EDITION));
    }
    Ok(())
}

/// The document stored for a new edition. Every version starts out allowed-with-0.
pub struct EditionRecord {
    pub organizer: String,
    pub edition_name: String,
    pub guild_id: String,
    pub inscription_start: i64,
    pub inscription_end: i64,
    pub competition_start: i64,
    pub competition_end: i64,
    pub versions: Vec<(&'static str, i32)>,
}

/// The version fields of a new edition: every version of the catalogue, set to 0.
pub open spec fn initial_versions_spec() -> Seq<(&'static str, i32)> {
    versions_spec().map_values(|v: (&'static str, &'static str)| (v.0, 0i32))
}

fn initial_versions() -> (res: Vec<(&'static str, i32)>)
    ensures
        res@ == initial_versions_spec(),
{
    let all = get_versions_list_tuple();
    let mut res: Vec<(&'static str, i32)> = Vec::new();
    let mut i: usize = 0;
    while i < all.len()
        invariant
            all@ == versions_spec(),
            i <= all.len(),
            res@ == versions_spec().take(i as int).map_values(
                |v: (&'static str, &'static str)| (v.0, 0i32),
            ),
        decreases all.len() - i,
    {
        res.push((all[i].0, 0));
        i = i + 1;
        assert(res@ =~= versions_spec().take(i as int).map_values(
            |v: (&'static str, &'static str)| (v.0, 0i32),
        ));
    }
    assert(versions_spec().take(all.len() as int) =~= versions_spec());
    res
}

/// The dates that the form's two fields hold, in the order registration start,
/// registration end, competition start, competition end.
pub open spec fn form_dates_spec(inscription: Seq<char>, competition: Seq<char>) -> Seq<Date> {
    let a = split_spec(inscription, '-');
    let b = split_spec(competition, '-');
    seq![
        one_date_spec(a[0]).unwrap(),
        one_date_spec(a[1]).unwrap(),
        one_date_spec(b[0]).unwrap(),
        one_date_spec(b[1]).unwrap(),
    ]
}

/// The timestamp the bot gives a typed date: midnight of it, or 0 when it does not exist.
pub open spec fn date_timestamp_spec(d: Date) -> int {
    if is_valid_date(d.annee as int, d.mois as int, d.jour as int) {
        midnight_timestamp(d.annee as int, d.mois as int, d.jour as int)
    } else {
        0
    }
}

/// The notices sent for the typed dates that do not exist, in the order of the dates.
pub open spec fn invalid_date_notices(dates: Seq<Date>) -> Seq<Seq<char>>
    decreases dates.len(),
{
    if dates.len() == 0 {
        Seq::empty()
    } else {
        let rest = invalid_date_notices(dates.drop_last());
        let d = dates.last();
        if is_valid_date(d.annee as int, d.mois as int, d.jour as int) {
            rest
        } else {
            rest.push(invalid_date_message(d))
        }
    }
}

/// Whether an edition's period passes the checks made before the database is asked.
pub open spec fn schedule_acceptable(start: int, end: int, now: int) -> bool {
    start != 0 && end != 0 && start <= end && end >= now
}

/// An edition whose form has been read and whose dates passed every check that
/// needs no database; next the caller counts the editions that `query()` selects.
pub struct PendingEdition {
    record: EditionRecord,
    query: OverlapQuery,
    now: i64,
}

impl PendingEdition {
    pub closed spec fn record_spec(&self) -> EditionRecord {
        self.record
    }

    pub closed spec fn query_spec(&self) -> OverlapQuery {
        self.query
    }

    pub closed spec fn now_spec(&self) -> i64 {
        self.now
    }

    #[verifier::type_invariant]
    closed spec fn inv(&self) -> bool {
        &&& schedule_acceptable(
            self.record.inscription_start as int,
            self.record.competition_end as int,
            self.now as int,
        )
        &&& self.query.start == self.record.inscription_start
        &&& self.query.end == self.record.competition_end
        &&& self.query.guild_id@ == self.record.guild_id@
        &&& record_dates_in_range(self.record)
    }

    /// The query the database must count: it selects the stored editions of the
    /// new edition's guild whose registration neither opens after the new
    /// competition ends nor closes before the new registration opens.
    pub fn query(&self) -> (res: &OverlapQuery)
        ensures
            *res == self.query_spec(),
            forall|guild: Seq<char>, s: int, e: int|
                #[trigger] overlap_query_selects(*res, guild, s, e) <==> (guild == self.record_spec().guild_id@
                    && s <= self.record_spec().competition_end && e >= self.record_spec().inscription_start),
    {
        proof {
            use_type_invariant(self);
        }
        &self.query
    }

    /// Continues once the database has counted the overlapping editions: any
    /// overlap ends the creation with the message to send.
    pub fn after_overlap_count(self, count: u64) -> (res: Result<NamedEdition, String>)
        ensures
            count > 0 ==> (res matches Err(e) && e@ == OVERLAPPING_EDITION@),
            count == 0 ==> (res matches Ok(n) && n.record_spec() == self.record_spec()
                && n.now_spec() == self.now_spec()),
    {
        proof {
            use_type_invariant(&self);
        }
        match overlap_count_check(count) {
            Err(e) => Err(e),
            Ok(()) => Ok(NamedEdition { record: self.record, now: self.now }),
        }
    }
}

/// Whether every date of a record is one chrono can show.
pub open spec fn record_dates_in_range(r: EditionRecord) -> bool {
    &&& timestamp_in_chrono_range(r.inscription_start as int)
    &&& timestamp_in_chrono_range(r.inscription_end as int)
    &&& timestamp_in_chrono_range(r.competition_start as int)
    &&& timestamp_in_chrono_range(r.competition_end as int)
}

/// An edition that overlaps no other; next the caller looks whether its
/// organizer already has an edition of that name in the guild.
pub struct NamedEdition {
    record: EditionRecord,
    now: i64,
}

impl NamedEdition {
    pub closed spec fn record_spec(&self) -> EditionRecord {
        self.record
    }

    pub closed spec fn now_spec(&self) -> i64 {
        self.now
    }

    #[verifier::type_invariant]
    closed spec fn inv(&self) -> bool {
        &&& schedule_acceptable(
            self.record.inscription_start as int,
            self.record.competition_end as int,
            self.now as int,
        )
        &&& record_dates_in_range(self.record)
    }

    /// The organizer, guild and name whose existing edition the caller looks for:
    /// the key of the new record (`edition_key`), which a stored edition matches
    /// when its own key is the same (`name_taken`).
    pub fn lookup_key(&self) -> (res: (&String, &String, &String))
        ensures
            res.0 == self.record_spec().organizer,
            res.1 == self.record_spec().guild_id,
            res.2 == self.record_spec().edition_name,
            (res.0@, res.1@, res.2@) == edition_key(self.record_spec()),
    {
        (&self.record.organizer, &self.record.guild_id, &self.record.edition_name)
    }

    /// Continues once the database has answered whether the name is taken: a taken
    /// name ends the creation with the message to send, otherwise the record to store.
    /// A record handed back for storing always has real registration-start and
    /// competition-end dates, in that order, the competition ending no earlier than
    /// the moment the form was read.
    ///
    /// When `taken` is the answer of the lookup of `lookup_key` among the stored
    /// editions, keys stay unique: on editions unique by key, storing what this
    /// hands back (nothing on a refusal) leaves them unique by key.
    pub fn after_name_lookup(self, taken: bool) -> (res: Result<EditionRecord, String>)
        ensures
            taken ==> (res matches Err(e) && e@ == NAME_ALREADY_USED@),
            !taken ==> res == Ok::<EditionRecord, String>(self.record_spec()),
            res matches Ok(r) ==> schedule_acceptable(
                r.inscription_start as int,
                r.competition_end as int,
                self.now_spec() as int,
            ) && record_dates_in_range(r),
            forall|stored: Seq<(Seq<char>, Seq<char>, Seq<char>)>|
                stored.no_duplicates() && taken == name_taken(stored, self.record_spec()) ==> (#[trigger] stored_after(
                    stored,
                    res,
                )).no_duplicates(),
    {
        proof {
            use_type_invariant(&self);
        }
        let ghost r = self.record_spec();
        let res = if taken {
            Err(owned(NAME_ALREADY_USED))
        } else {
            Ok(self.record)
        };
        proof {
            assert forall|stored: Seq<(Seq<char>, Seq<char>, Seq<char>)>|
                stored.no_duplicates() && taken == name_taken(stored, r) implies (#[trigger] stored_after(
                stored,
                res,
            )).no_duplicates() by {
                if !taken {
                    law_edition_keys_stay_unique(stored, r);
                }
            }
        }
        res
    }
}

/// What reading the form gives: either the messages to send and whether the
/// handler then stops short (as on a malformed date pair), or the notices about
/// dates that do not exist together with the edition to continue with.
pub enum NewEditionCheck {
    Rejected { messages: Vec<String>, abort: bool },
    Proceed { messages: Vec<String>, pending: PendingEdition },
}

pub open spec fn views_of_strings(v: Seq<String>) -> Seq<Seq<char>> {
    v.map_values(|s: String| s@)
}

proof fn lemma_dates_in_range(d: Date)
    ensures
        timestamp_in_chrono_range(date_timestamp_spec(d)),
{
    if is_valid_date(d.annee as int, d.mois as int, d.jour as int) {
        lemma_midnight_timestamp_fits(d.annee as int, d.mois as int, d.jour as int);
        assert(crate::dates::days_before_year(-262143) == -95745764);
        assert(crate::dates::days_before_year(262142) == 95745400);
        assert(crate::dates::days_before_month(262142, 12) == 334) by {
            reveal_with_fuel(crate::dates::days_before_month, 12);
        }
        assert(crate::dates::days_before_month(-262143, 1) == 0);
    } else {
        assert(crate::dates::days_before_year(-262143) == -95745764);
        assert(crate::dates::days_before_year(262142) == 95745400);
        assert(crate::dates::days_before_month(262142, 12) == 334) by {
            reveal_with_fuel(crate::dates::days_before_month, 12);
        }
    }
}

/// The timestamps of typed dates (0 for a day that does not exist) and the
/// notices about the dates that do not exist.
fn timestamps_and_notices(dates: &Vec<Date>) -> (res: (Vec<i64>, Vec<String>))
    ensures
        res.0@.len() == dates@.len(),
        forall|k: int| 0 <= k < dates@.len() ==> res.0@[k] as int == date_timestamp_spec(#[trigger] dates@[k]),
        views_of_strings(res.1@) == invalid_date_notices(dates@),
{
    let mut ts: Vec<i64> = Vec::new();
    let mut messages: Vec<String> = Vec::new();
    let mut i: usize = 0;
    assert(dates@.take(0) =~= Seq::<Date>::empty());
    while i < dates.len()
        invariant
            i <= dates@.len(),
            ts@.len() == i,
            forall|k: int| 0 <= k < i ==> ts@[k] as int == date_timestamp_spec(#[trigger] dates@[k]),
            views_of_strings(messages@) == invalid_date_notices(dates@.take(i as int)),
        decreases dates.len() - i,
    {
        let (t, m) = get_timestamp_from_date(&dates[i]);
        let ghost before = views_of_strings(messages@);
        assert(dates@.take(i + 1).drop_last() =~= dates@.take(i as int));
        match m {
            Some(msg) => {
                let ghost mv = msg@;
                messages.push(msg);
                assert(views_of_strings(messages@) =~= before.push(mv));
            },
            None => {},
        }
        ts.push(t);
        i = i + 1;
    }
    assert(dates@.take(dates@.len() as int) =~= dates@);
    (ts, messages)
}

/// Reads the new-edition form (its name field, its registration and competition
/// date pairs) submitted by `organizer` in `guild_id` at Unix time `now`.
///
/// A date pair that is not two `-`-separated parts ends the handler after its
/// message. Each date that does not exist is told about and counts as 0. Then an
/// edition ending before `now` is refused, and so is a period the overlap check
/// refuses; otherwise the edition goes on to the database checks.
pub fn new_edition_form(
    name: &str,
    inscription: &str,
    competition: &str,
    organizer: u64,
    guild_id: u64,
    now: i64,
) -> (res: NewEditionCheck)
    requires
        two_dates_readable(inscription@),
        two_dates_readable(competition@),
    ensures
        split_spec(inscription@, '-').len() != 2 ==> (res matches NewEditionCheck::Rejected {
            messages,
            abort,
        } && abort && views_of_strings(messages@) == seq![malformed_pair_message(inscription@)]),
        split_spec(inscription@, '-').len() == 2 && split_spec(competition@, '-').len() != 2 ==> (
        res matches NewEditionCheck::Rejected { messages, abort } && abort && views_of_strings(
            messages@,
        ) == seq![malformed_pair_message(competition@)]),
        split_spec(inscription@, '-').len() == 2 && split_spec(competition@, '-').len() == 2 ==> ({
            let dates = form_dates_spec(inscription@, competition@);
            let start = date_timestamp_spec(dates[0]);
            let end = date_timestamp_spec(dates[3]);
            let notices = invalid_date_notices(dates);
            if end < now {
                res matches NewEditionCheck::Rejected { messages, abort } && !abort
                    && views_of_strings(messages@) == notices.push(PAST_EDITION@)
            } else if start == 0 || end == 0 || end < start {
                res matches NewEditionCheck::Rejected { messages, abort } && !abort
                    && views_of_strings(messages@) == notices.push(
                    if end == 0 {
                        END_DATE_INVALID@
                    } else if start == 0 {
                        START_DATE_INVALID@
                    } else {
                        END_BEFORE_START@
                    },
                )
            } else {
                res matches NewEditionCheck::Proceed { messages, pending } && views_of_strings(
                    messages@,
                ) == notices && pending.now_spec() == now && pending.query_spec().start == start
                    && pending.query_spec().end == end && pending.query_spec().guild_id@
                    == decimal_spec(guild_id as nat) && pending.record_spec().organizer@
                    == decimal_spec(organizer as nat) && pending.record_spec().guild_id@
                    == decimal_spec(guild_id as nat) && pending.record_spec().edition_name@
                    == name@ && pending.record_spec().inscription_start == start
                    && pending.record_spec().inscription_end == date_timestamp_spec(dates[1])
                    && pending.record_spec().competition_start == date_timestamp_spec(dates[2])
                    && pending.record_spec().competition_end == end
                    && pending.record_spec().versions@ == initial_versions_spec()
            }
        }),
{
    let date_inscription = parse_two_dates(inscription);
    let date_competition = parse_two_dates(competition);
    let ins = match date_inscription {
        Ok(d) => d,
        Err(e) => {
            let mut messages = Vec::new();
            messages.push(e);
            assert(views_of_strings(messages@) =~= seq![malformed_pair_message(inscription@)]);
            return NewEditionCheck::Rejected { messages, abort: true };
        },
    };
    let comp = match date_competition {
        Ok(d) => d,
        Err(e) => {
            let mut messages = Vec::new();
            messages.push(e);
            assert(views_of_strings(messages@) =~= seq![malformed_pair_message(competition@)]);
            return NewEditionCheck::Rejected { messages, abort: true };
        },
    };
    let mut dates: Vec<Date> = Vec::new();
    dates.push(ins.0);
    dates.push(ins.1);
    dates.push(comp.0);
    dates.push(comp.1);
    assert(dates@ =~= form_dates_spec(inscription@, competition@));
    let (ts, mut messages) = timestamps_and_notices(&dates);
    let t0 = ts[0];
    let t1 = ts[1];
    let t2 = ts[2];
    let t3 = ts[3];
    proof {
        lemma_dates_in_range(dates@[0]);
        lemma_dates_in_range(dates@[1]);
        lemma_dates_in_range(dates@[2]);
        lemma_dates_in_range(dates@[3]);
    }
    if t3 < now {
        let ghost before = views_of_strings(messages@);
        messages.push(owned(PAST_EDITION));
        assert(views_of_strings(messages@) =~= before.push(PAST_EDITION@));
        return NewEditionCheck::Rejected { messages, abort: false };
    }
    match edition_overlap_check(t0, t3, guild_id) {
        Err(e) => {
            let ghost before = views_of_strings(messages@);
            let ghost ev = e@;
            messages.push(e);
            assert(views_of_strings(messages@) =~= before.push(ev));
            NewEditionCheck::Rejected { messages, abort: false }
        },
        Ok(query) => {
            let record = EditionRecord {
                organizer: u64_to_decimal(organizer),
                edition_name: owned(name),
                guild_id: u64_to_decimal(guild_id),
                inscription_start: t0,
                inscription_end: t1,
                competition_start: t2,
                competition_end: t3,
                versions: initial_versions(),
            };
            let pending = PendingEdition { record, query, now };
            NewEditionCheck::Proceed { messages, pending }
        },
    }
}

pub const NEXT_STEPS_TITLE: &'static str = "Que faire ensuite ?";
pub const NEXT_STEPS_TEXT: &'static str = "- Modifier les valeurs de probabilité en faisant \"/edit_methode\"\n- Modifier les valeurs de temps en faisant \"/edit_time\"\n";

/// The embed the bot answers with once an edition is stored: the edition's name,
/// a sentence, one field per date (written `JJ/MM/AAAA`) and what to do next.
pub struct EditionSummary {
    pub title: String,
    pub description: String,
    pub fields: Vec<(&'static str, String)>,
}

pub open spec fn summary_description_spec(name: Seq<char>) -> Seq<char> {
    "Voici les informations de l'édition "@ + name
}

/// The labels and dates of the summary's fields, for a record.
pub open spec fn summary_fields_spec(r: EditionRecord) -> Seq<(Seq<char>, Seq<char>)> {
    seq![
        ("Date de début des inscriptions"@, day_label_spec(r.inscription_start as int)),
        ("Date de fin des inscriptions"@, day_label_spec(r.inscription_end as int)),
        ("Date de début de la compétition"@, day_label_spec(r.competition_start as int)),
        ("Date de fin de la compétition"@, day_label_spec(r.competition_end as int)),
        (NEXT_STEPS_TITLE@, NEXT_STEPS_TEXT@),
    ]
}

pub open spec fn field_views(v: Seq<(&'static str, String)>) -> Seq<(Seq<char>, Seq<char>)> {
    v.map_values(|f: (&'static str, String)| (f.0@, f.1@))
}

/// How a typed date is written back: day and month on two digits, then the year.
pub open spec fn typed_label(d: Date) -> Seq<char> {
    zero_pad_spec(decimal_spec(d.jour as nat), 2) + seq!['/'] + zero_pad_spec(decimal_spec(d.mois as nat), 2)
        + seq!['/'] + year_label(d.annee as int)
}

/// The summary of a stored edition shows each of its four dates as the organizer
/// typed it, when the day exists.
pub proof fn law_summary_shows_typed_dates(r: EditionRecord, dates: Seq<Date>)
    requires
        dates.len() == 4,
        forall|k: int| 0 <= k < 4 ==> is_valid_date(#[trigger] dates[k].annee as int, dates[k].mois as int, dates[k].jour as int),
        r.inscription_start as int == date_timestamp_spec(dates[0]),
        r.inscription_end as int == date_timestamp_spec(dates[1]),
        r.competition_start as int == date_timestamp_spec(dates[2]),
        r.competition_end as int == date_timestamp_spec(dates[3]),
    ensures
        forall|k: int| 0 <= k < 4 ==> #[trigger] summary_fields_spec(r)[k].1 == typed_label(dates[k]),
{
    assert forall|k: int| 0 <= k < 4 implies #[trigger] summary_fields_spec(r)[k].1 == typed_label(dates[k]) by {
        let d = dates[k];
        assert(is_valid_date(d.annee as int, d.mois as int, d.jour as int));
        law_midnight_shown_as_typed(d.annee as int, d.mois as int, d.jour as int);
    }
}

/// The summary of a stored edition.
pub fn edition_summary(record: &EditionRecord) -> (res: EditionSummary)
    requires
        record_dates_in_range(*record),
    ensures
        res.title@ == record.edition_name@,
        res.description@ == summary_description_spec(record.edition_name@),
        field_views(res.fields@) == summary_fields_spec(*record),
{
    let mut fields: Vec<(&'static str, String)> = Vec::new();
    fields.push(("Date de début des inscriptions", day_label(record.inscription_start)));
    fields.push(("Date de fin des inscriptions", day_label(record.inscription_end)));
    fields.push(("Date de début de la compétition", day_label(record.competition_start)));
    fields.push(("Date de fin de la compétition", day_label(record.competition_end)));
    fields.push((NEXT_STEPS_TITLE, owned(NEXT_STEPS_TEXT)));
    assert(field_views(fields@) =~= summary_fields_spec(*record));
    EditionSummary {
        title: owned(record.edition_name.as_str()),
        description: concat2("Voici les informations de l'édition ", record.edition_name.as_str()),
        fields,
    }
}

// ---------------------------------------------------------------------------
// Before the form: who may create an edition, and where
// ---------------------------------------------------------------------------

/// The answer to `/new_edition` before the form is shown.
#[derive(Clone, Copy, Debug, PartialEq, Eq)]
pub enum NewEditionGate {
    /// The server has no admin role: it was not set up.
    NoAdminRole,
    /// The member does not have the admin role.
    NotAdmin,
    /// The server already plans as many editions as it may.
    TooManyEditions,
    /// The command was not typed in the moderation discussion channel.
    WrongChannel,
    /// The form may be shown.
    ShowForm,
}

pub const NO_ADMIN_ROLE_MESSAGE: &'static str = "Le rôle **@Admin** n'existe pas. Est-tu sûr que le serveur est setup ? Si tu n'est pas sûr, fais --__/setup__**. **IMPORTANT**, __le serveur doit être communautaire__ pour que cette commande fonctionne.";
pub const NOT_ADMIN_MESSAGE: &'static str = "Tu n'as pas les droits réquis pour cette commande. Seul les **@Admin** ont le droit de créer une nouvelle édition.";
pub const TOO_MANY_EDITIONS_TITLE: &'static str = "Limite maximale d'édition atteinte !";
pub const TOO_MANY_EDITIONS_MESSAGE: &'static str = "Tu as atteint la limite de 25 édition planifiable simultanément.";
pub const WRONG_EDITION_CHANNEL_MESSAGE: &'static str = "Pour ajouter une édition rends toi dans le salon #discussions de la catégorie Arbitrage";

/// How many editions a server may plan at once.
pub const MAX_PLANNED_EDITIONS: u64 = 25;

pub open spec fn new_edition_gate_spec(admin_role: Option<u64>, member_roles: Seq<u64>, edition_count: u64, channel_name: Seq<char>) -> NewEditionGate {
    match admin_role {
        None => NewEditionGate::NoAdminRole,
        Some(r) => if !member_roles.contains(r) {
            NewEditionGate::NotAdmin
        } else if edition_count >= MAX_PLANNED_EDITIONS {
            NewEditionGate::TooManyEditions
        } else if channel_name != MODERATION_CONVERSATION_CHANNEL_NAME@ {
            NewEditionGate::WrongChannel
        } else {
            NewEditionGate::ShowForm
        },
    }
}

/// The role check of `/new_edition` looks for the admin role among all the
/// member's roles: a member holding it anywhere passes, one without it is refused
/// as not admin, and reordering the member's roles changes no answer.
pub proof fn law_admin_role_anywhere(r: u64, member_roles: Seq<u64>, edition_count: u64, channel_name: Seq<char>)
    ensures
        member_roles.contains(r) ==> new_edition_gate_spec(Some(r), member_roles, edition_count, channel_name)
            != NewEditionGate::NotAdmin,
        !member_roles.contains(r) ==> new_edition_gate_spec(Some(r), member_roles, edition_count, channel_name)
            == NewEditionGate::NotAdmin,
        member_roles.contains(r) && edition_count >= 25 ==> new_edition_gate_spec(
            Some(r),
            member_roles,
            edition_count,
            channel_name,
        ) == NewEditionGate::TooManyEditions,
        member_roles.contains(r) && edition_count < 25 ==> (new_edition_gate_spec(
            Some(r),
            member_roles,
            edition_count,
            channel_name,
        ) == NewEditionGate::ShowForm <==> channel_name == "discussions"@),
        new_edition_gate_spec(None, member_roles, edition_count, channel_name) == NewEditionGate::NoAdminRole,
        forall|other: Seq<u64>|
            #[trigger] other.to_multiset() == member_roles.to_multiset() ==> new_edition_gate_spec(
                Some(r),
                other,
                edition_count,
                channel_name,
            ) == new_edition_gate_spec(Some(r), member_roles, edition_count, channel_name),
{
    broadcast use vstd::seq_lib::group_to_multiset_ensures;
    assert forall|other: Seq<u64>| #[trigger] other.to_multiset() == member_roles.to_multiset() implies (
    other.contains(r) <==> member_roles.contains(r)) by {
        assert(other.to_multiset().count(r) == member_roles.to_multiset().count(r));
    }
}

/// The checks `/new_edition` makes, in order: the server's admin role exists, the
/// member has it, fewer than `MAX_PLANNED_EDITIONS` editions are counted, and the
/// command was typed in the moderation discussion channel.
pub fn new_edition_gate(admin_role: Option<u64>, member_roles: &Vec<u64>, edition_count: u64, channel_name: &str) -> (res: NewEditionGate)
    ensures
        res == new_edition_gate_spec(admin_role, member_roles@, edition_count, channel_name@),
{
    match admin_role {
        None => NewEditionGate::NoAdminRole,
        Some(r) => {
            let mut i: usize = 0;
            let mut holds_role = false;
            while i < member_roles.len()
                invariant
                    i <= member_roles@.len(),
                    holds_role == exists|k: int| 0 <= k < i && member_roles@[k] == r,
                decreases member_roles.len() - i,
            {
                if member_roles[i] == r {
                    holds_role = true;
                }
                i = i + 1;
            }
            if !holds_role {
                NewEditionGate::NotAdmin
            } else if edition_count >= MAX_PLANNED_EDITIONS {
                NewEditionGate::TooManyEditions
            } else if !str_eq(channel_name, MODERATION_CONVERSATION_CHANNEL_NAME) {
                NewEditionGate::WrongChannel
            } else {
                NewEditionGate::ShowForm
            }
        },
    }
}

/// Whether the query (guild, organizer) selects a stored edition of the guild
/// `guild` organized by `organizer`.
pub open spec fn planned_query_selects(q: (String, String), guild: Seq<char>, organizer: Seq<char>) -> bool {
    guild == q.0@ && organizer == q.1@
}

/// The editions counted against the limit: those the member organizes in the
/// server; the query's guild field is the server's id and its organizer field the
/// member's id, both in decimal.
pub fn planned_editions_query(guild_id: u64, member_id: u64) -> (res: (String, String))
    ensures
        res.0@ == decimal_spec(guild_id as nat),
        res.1@ == decimal_spec(member_id as nat),
        forall|guild: Seq<char>, organizer: Seq<char>|
            #[trigger] planned_query_selects(res, guild, organizer) <==> (guild == decimal_spec(guild_id as nat)
                && organizer == decimal_spec(member_id as nat)),
{
    (u64_to_decimal(guild_id), u64_to_decimal(member_id))
}

/// One text field of a form.
#[derive(Clone, Copy, Debug, PartialEq, Eq)]
pub struct TextInput {
    pub custom_id: &'static str,
    pub placeholder: &'static str,
    pub min_length: u64,
    pub max_length: u64,
    pub label: &'static str,
}

pub const NEW_EDITION_FORM_TITLE: &'static str = "Dates de la compétition";

pub open spec fn new_edition_inputs_spec() -> Seq<TextInput> {
    seq![
        TextInput {
            custom_id: EDITION_NAME,
            placeholder: "Le couple nom/numéro doit être différent des anciennes éditions",
            min_length: 4,
            max_length: 50,
            label: "Nom de l'édition avec un numéro (ou année).",
        },
        TextInput {
            custom_id: CREATE_EDITION_INSCRIPTION_ID,
            placeholder: "JJ/MM/AAAA-JJ/MM/AAAA",
            min_length: 21,
            max_length: 21,
            label: "Date de début et de fin des inscription",
        },
        TextInput {
            custom_id: CREATE_EDITION_COMPETITION_ID,
            placeholder: "JJ/MM/AAAA-JJ/MM/AAAA",
            min_length: 21,
            max_length: 21,
            label: "Date de début et de fin de la compétition",
        },
    ]
}

/// The three required fields of the form that creates an edition (its title is
/// `NEW_EDITION_FORM_TITLE`, its custom id `CREATE_NEW_EDITION`).
pub fn new_edition_inputs() -> (res: Vec<TextInput>)
    ensures
        res@ == new_edition_inputs_spec(),
{
    let v = vec![
        TextInput {
            custom_id: EDITION_NAME,
            placeholder: "Le couple nom/numéro doit être différent des anciennes éditions",
            min_length: 4,
            max_length: 50,
            label: "Nom de l'édition avec un numéro (ou année).",
        },
        TextInput {
            custom_id: CREATE_EDITION_INSCRIPTION_ID,
            placeholder: "JJ/MM/AAAA-JJ/MM/AAAA",
            min_length: 21,
            max_length: 21,
            label: "Date de début et de fin des inscription",
        },
        TextInput {
            custom_id: CREATE_EDITION_COMPETITION_ID,
            placeholder: "JJ/MM/AAAA-JJ/MM/AAAA",
            min_length: 21,
            max_length: 21,
            label: "Date de début et de fin de la compétition",
        },
    ];
    assert(v@ =~= new_edition_inputs_spec());
    v
}

/// The label of an edition in the first form of the bot, where an edition was
/// given as a name and a number: the two separated by a space.
pub fn numbered_edition_label(name: &str, number: &str) -> (res: String)
    ensures
        res@ == name@ + " "@ + number@,
{
    let s = concat2(name, " ");
    concat2(s.as_str(), number)
}

/// The answer of the bot's first test form: the typed text, echoed.
pub fn form_echo(text: &str) -> (res: String)
    ensures
        res@ == "You said: "@ + text@,
{
    concat2("You said: ", text)
}

/// The single field of the bot's first date form (its title and custom id are
/// `FIRST_FORM_TITLE` and `FIRST_FORM_CUSTOM_ID`).
pub const FIRST_FORM_TITLE: &'static str = "date_debut_inscriptions";
pub const FIRST_FORM_CUSTOM_ID: &'static str = "modal_app_cmd";

pub fn first_form_input() -> (res: TextInput)
    ensures
        res == (TextInput {
            custom_id: "date_debut_inscriptions",
            placeholder: "Date de début des inscriptions",
            min_length: 10,
            max_length: 10,
            label: "Date de début des inscriptions",
        }),
{
    TextInput {
        custom_id: "date_debut_inscriptions",
        placeholder: "Date de début des inscriptions",
        min_length: 10,
        max_length: 10,
        label: "Date de début des inscriptions",
    }
}

/// The key that editions are unique by: organizer, server and name.
pub open spec fn edition_key(r: EditionRecord) -> (Seq<char>, Seq<char>, Seq<char>) {
    (r.organizer@, r.guild_id@, r.edition_name@)
}

/// Whether a stored edition has the key of `r`: what the lookup of `lookup_key`
/// answers.
pub open spec fn name_taken(stored: Seq<(Seq<char>, Seq<char>, Seq<char>)>, r: EditionRecord) -> bool {
    stored.contains(edition_key(r))
}

/// The keys of the stored editions once the outcome of a creation is stored: the
/// new record's key added on success, nothing on a refusal.
pub open spec fn stored_after(stored: Seq<(Seq<char>, Seq<char>, Seq<char>)>, res: Result<EditionRecord, String>) -> Seq<(Seq<char>, Seq<char>, Seq<char>)> {
    match res {
        Ok(r) => stored.push(edition_key(r)),
        Err(_) => stored,
    }
}

/// A name already used is never stored twice: `after_name_lookup` hands a record
/// back only when the lookup of its key (`lookup_key`) found nothing, and storing
/// such a record keeps the stored editions unique by key.
pub proof fn law_edition_keys_stay_unique(stored: Seq<(Seq<char>, Seq<char>, Seq<char>)>, r: EditionRecord)
    requires
        stored.no_duplicates(),
        !stored.contains(edition_key(r)),
    ensures
        stored.push(edition_key(r)).no_duplicates(),
{
    let t = stored.push(edition_key(r));
    assert forall|i: int, j: int| 0 <= i < t.len() && 0 <= j < t.len() && i != j implies t[i] != t[j] by {
        if i == stored.len() {
            assert(t[j] == stored[j]);
        } else if j == stored.len() {
            assert(t[i] == stored[i]);
        } else {
            assert(t[i] == stored[i] && t[j] == stored[j]);
        }
    }
}

} // verus!
