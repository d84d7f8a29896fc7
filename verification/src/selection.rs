//! What the bot writes into component custom ids and select-menu values so that a
//! later interaction can read it back: the version settings a command was given
//! (`<prefix>*<version>-<value>*...`) and the edition a player picked (`<name>-<guild>`).

use vstd::prelude::*;
use crate::constants::{
    BDD_POKE_RED_GREEN_BLUE,
    BDD_POKE_YELLOW,
    BDD_POKE_GOLD_SILVER,
    BDD_POKE_CRYSTAL,
    BDD_POKE_RUBY_SAPPHIRE,
    BDD_POKE_FIRERED_LEAFGREEN,
    BDD_POKE_EMERALD,
    BDD_POKE_DIAMOND_PEARL,
    BDD_POKE_PLATINUM,
    BDD_POKE_HEARTGOLD_SOULSILVER,
    BDD_POKE_BLACK_WHITE,
    BDD_POKE_BLACK2_WHITE2,
    BDD_POKE_X_Y,
    BDD_POKE_OMEGA_RUBY_ALPHA_SAPPHIRE,
    BDD_POKE_SUN_MOON,
    BDD_POKE_ULTRASUN_ULTRAMOON,
    BDD_POKE_LETSGOPIKACHU_LETSGOEEVEE,
    BDD_POKE_SWORD_SHIELD,
    BDD_POKE_BRILLANTDIAMOND_SHININGPEARL,
    BDD_POKE_LEGENDARCEUS,
    BDD_POKE_SCARLET_VIOLET,
    BDD_POKE_DONJON_MYSTERE,
    BDD_POKE_COLOSEUM,
    BDD_POKE_STADIUM_EU,
    BDD_POKE_STADIUM_JAP,
    BDD_POKE_STADIUM_2,
    BDD_POKE_XD,
    LOCK_VERSION_MODAL, VERSION_PLAYER_MODAL,
};
use crate::versions::versions_spec;
use crate::text::{
    all_digits, decimal_spec, digits_value, i64_to_decimal, is_digit, lemma_split_concat,
    lemma_split_nonempty, lemma_split_without_separator, parse_bool, parse_bool_spec, parse_i32,
    parse_i32_spec, parse_unsigned_spec, signed_decimal_spec, split_on, split_spec, views_of,
};

verus! {

pub open spec fn bool_text(b: bool) -> Seq<char> {
    if b {
        "true"@
    } else {
        "false"@
    }
}

/// One setting as written in a custom id: `*`, the version, `-`, the value.
pub open spec fn setting_piece(name: Seq<char>, value: Seq<char>) -> Seq<char> {
    seq!['*'] + name + seq!['-'] + value
}

/// A custom id carrying settings: the prefix, then one piece per setting.
pub open spec fn encoded_settings_spec(prefix: Seq<char>, settings: Seq<(Seq<char>, Seq<char>)>) -> Seq<char>
    decreases settings.len(),
{
    if settings.len() == 0 {
        prefix
    } else {
        encoded_settings_spec(prefix, settings.drop_last()) + setting_piece(
            settings.last().0,
            settings.last().1,
        )
    }
}

pub open spec fn flag_settings_view(opts: Seq<(String, bool)>) -> Seq<(Seq<char>, Seq<char>)> {
    opts.map_values(|o: (String, bool)| (o.0@, bool_text(o.1)))
}

pub open spec fn choice_settings_view(opts: Seq<(String, i64)>) -> Seq<(Seq<char>, Seq<char>)> {
    opts.map_values(|o: (String, i64)| (o.0@, signed_decimal_spec(o.1 as int)))
}

/// The custom id of the menu that ends the organizer's version settings: the prefix
/// followed by `*version-true` or `*version-false` for each option given.
pub fn encode_version_flags(prefix: &str, opts: &Vec<(String, bool)>) -> (res: String)
    ensures
        res@ == encoded_settings_spec(prefix@, flag_settings_view(opts@)),
{
    let mut res = String::from_str(prefix);
    let mut i: usize = 0;
    proof {
        reveal_strlit("*");
        reveal_strlit("-");
        reveal_strlit("true");
        reveal_strlit("false");
        assert("true"@ =~= seq!['t', 'r', 'u', 'e']);
        assert("false"@ =~= seq!['f', 'a', 'l', 's', 'e']);
        assert("*"@ =~= seq!['*']);
        assert("-"@ =~= seq!['-']);
        assert(flag_settings_view(opts@).take(0) =~= Seq::<(Seq<char>, Seq<char>)>::empty());
    }
    while i < opts.len()
        invariant
            i <= opts@.len(),
            res@ == encoded_settings_spec(prefix@, flag_settings_view(opts@).take(i as int)),
            "true"@ == seq!['t', 'r', 'u', 'e'],
            "false"@ == seq!['f', 'a', 'l', 's', 'e'],
            "*"@ == seq!['*'],
            "-"@ == seq!['-'],
        decreases opts.len() - i,
    {
        let ghost before = res@;
        res.append("*");
        assert(res@ == before + seq!['*']);
        res.append(opts[i].0.as_str());
        assert(res@ == before + seq!['*'] + opts@[i as int].0@);
        res.append("-");
        assert(res@ == before + seq!['*'] + opts@[i as int].0@ + seq!['-']);
        if opts[i].1 {
            res.append("true");
        } else {
            res.append("false");
        }
        assert(res@ == before + seq!['*'] + opts@[i as int].0@ + seq!['-'] + bool_text(opts@[i as int].1));
        proof {
            let v = flag_settings_view(opts@);
            assert(v[i as int] == (opts@[i as int].0@, bool_text(opts@[i as int].1)));
            assert(v.take(i + 1).drop_last() =~= v.take(i as int));
            assert(res@ =~= before + setting_piece(v[i as int].0, v[i as int].1));
        }
        i = i + 1;
    }
    assert(flag_settings_view(opts@).take(opts@.len() as int) =~= flag_settings_view(opts@));
    res
}

/// The custom id of the menu that ends a player's version declaration: the prefix
/// followed by `*version-<number>` for each option given.
pub fn encode_version_choices(prefix: &str, opts: &Vec<(String, i64)>) -> (res: String)
    ensures
        res@ == encoded_settings_spec(prefix@, choice_settings_view(opts@)),
{
    let mut res = String::from_str(prefix);
    let mut i: usize = 0;
    proof {
        reveal_strlit("*");
        reveal_strlit("-");
        assert("*"@ =~= seq!['*']);
        assert("-"@ =~= seq!['-']);
        assert(choice_settings_view(opts@).take(0) =~= Seq::<(Seq<char>, Seq<char>)>::empty());
    }
    while i < opts.len()
        invariant
            i <= opts@.len(),
            res@ == encoded_settings_spec(prefix@, choice_settings_view(opts@).take(i as int)),
            "*"@ == seq!['*'],
            "-"@ == seq!['-'],
        decreases opts.len() - i,
    {
        let ghost before = res@;
        res.append("*");
        assert(res@ == before + seq!['*']);
        res.append(opts[i].0.as_str());
        assert(res@ == before + seq!['*'] + opts@[i as int].0@);
        res.append("-");
        assert(res@ == before + seq!['*'] + opts@[i as int].0@ + seq!['-']);
        let number = i64_to_decimal(opts[i].1);
        res.append(number.as_str());
        proof {
            let v = choice_settings_view(opts@);
            assert(v[i as int] == (opts@[i as int].0@, signed_decimal_spec(opts@[i as int].1 as int)));
            assert(v.take(i + 1).drop_last() =~= v.take(i as int));
            assert(res@ =~= before + setting_piece(v[i as int].0, v[i as int].1));
        }
        i = i + 1;
    }
    assert(choice_settings_view(opts@).take(opts@.len() as int) =~= choice_settings_view(opts@));
    res
}

/// The settings pieces of a custom id: what follows each `*`.
pub open spec fn setting_pieces(custom_id: Seq<char>) -> Seq<Seq<char>> {
    split_spec(custom_id, '*').drop_first()
}

/// Whether reading the organizer's settings back does not abort: each piece has a
/// `-` followed by `true` or `false`.
pub open spec fn flag_settings_readable(custom_id: Seq<char>) -> bool {
    forall|k: int|
        0 <= k < setting_pieces(custom_id).len() ==> {
            let p = #[trigger] split_spec(setting_pieces(custom_id)[k], '-');
            p.len() >= 2 && parse_bool_spec(p[1]) is Some
        }
}

/// The database value each organizer setting stands for: 1 when allowed, 0 when not.
pub open spec fn flag_value(b: bool) -> u32 {
    if b {
        1
    } else {
        0
    }
}

/// The (version, value) updates a custom id carries for the organizer's settings.
pub open spec fn flag_updates_spec(custom_id: Seq<char>) -> Seq<(Seq<char>, u32)> {
    setting_pieces(custom_id).map_values(
        |piece: Seq<char>|
            {
                let p = split_spec(piece, '-');
                (p[0], flag_value(parse_bool_spec(p[1]).unwrap()))
            },
    )
}

/// Reads back the organizer's settings from the custom id of the menu: for each
/// piece the version and 1 (allowed) or 0 (forbidden).
pub fn decode_version_flags<'a>(custom_id: &'a str) -> (res: Vec<(&'a str, u32)>)
    requires
        flag_settings_readable(custom_id@),
    ensures
        res@.map_values(|u: (&'a str, u32)| (u.0@, u.1)) == flag_updates_spec(custom_id@),
{
    let mut options = split_on(custom_id, '*');
    proof {
        lemma_split_nonempty(custom_id@, '*');
    }
    let ghost pieces = views_of(options@).drop_first();
    assert(pieces == setting_pieces(custom_id@));
    options.remove(0);
    assert(views_of(options@) =~= pieces);
    let mut res: Vec<(&'a str, u32)> = Vec::new();
    let mut i: usize = 0;
    while i < options.len()
        invariant
            views_of(options@) == pieces,
            pieces == setting_pieces(custom_id@),
            flag_settings_readable(custom_id@),
            i <= options@.len(),
            res@.map_values(|u: (&'a str, u32)| (u.0@, u.1)) == flag_updates_spec(custom_id@).take(
                i as int,
            ),
        decreases options.len() - i,
    {
        assert(views_of(options@)[i as int] == options@[i as int]@);
        let param = split_on(options[i], '-');
        assert(split_spec(pieces[i as int], '-') == views_of(param@));
        assert(views_of(param@)[0] == param@[0]@);
        assert(views_of(param@)[1] == param@[1]@);
        let allowed = parse_bool(param[1]).unwrap();
        let value: u32 = if allowed { 1 } else { 0 };
        let ghost before = res@.map_values(|u: (&'a str, u32)| (u.0@, u.1));
        res.push((param[0], value));
        assert(res@.map_values(|u: (&'a str, u32)| (u.0@, u.1)) =~= before.push(
            flag_updates_spec(custom_id@)[i as int],
        ));
        assert(flag_updates_spec(custom_id@).take(i + 1) =~= flag_updates_spec(custom_id@).take(
            i as int,
        ).push(flag_updates_spec(custom_id@)[i as int]));
        i = i + 1;
    }
    assert(flag_updates_spec(custom_id@).take(options@.len() as int) =~= flag_updates_spec(
        custom_id@,
    ));
    res
}

/// Whether the organizer's settings can be read back (see `flag_settings_readable`),
/// checked on the custom id.
pub fn flag_settings_are_readable(custom_id: &str) -> (res: bool)
    ensures
        res == flag_settings_readable(custom_id@),
{
    let options = split_on(custom_id, '*');
    proof {
        lemma_split_nonempty(custom_id@, '*');
    }
    let ghost pieces = views_of(options@).drop_first();
    assert(pieces == setting_pieces(custom_id@));
    let mut i: usize = 1;
    while i < options.len()
        invariant
            1 <= i <= options@.len(),
            options@.len() >= 1,
            pieces == views_of(options@).drop_first(),
            pieces == setting_pieces(custom_id@),
            forall|k: int|
                0 <= k < i - 1 ==> {
                    let p = #[trigger] split_spec(pieces[k], '-');
                    p.len() >= 2 && parse_bool_spec(p[1]) is Some
                },
        decreases options.len() - i,
    {
        assert(views_of(options@)[i as int] == options@[i as int]@);
        assert(pieces[i - 1] == options@[i as int]@);
        let param = split_on(options[i], '-');
        if param.len() < 2 {
            return false;
        }
        assert(views_of(param@)[1] == param@[1]@);
        if parse_bool(param[1]).is_none() {
            return false;
        }
        i = i + 1;
    }
    true
}

/// Whether reading a player's settings back does not abort: each piece has a `-`
/// followed by an `i32`.
pub open spec fn choice_settings_readable(custom_id: Seq<char>) -> bool {
    forall|k: int|
        0 <= k < setting_pieces(custom_id).len() ==> {
            let p = #[trigger] split_spec(setting_pieces(custom_id)[k], '-');
            p.len() >= 2 && parse_i32_spec(p[1]) is Some
        }
}

/// The (version, value) updates a custom id carries for a player's settings.
pub open spec fn choice_updates_spec(custom_id: Seq<char>) -> Seq<(Seq<char>, i32)> {
    setting_pieces(custom_id).map_values(
        |piece: Seq<char>|
            {
                let p = split_spec(piece, '-');
                (p[0], parse_i32_spec(p[1]).unwrap() as i32)
            },
    )
}

/// Whether a player's settings can be read back (see `choice_settings_readable`),
/// checked on the custom id.
pub fn choice_settings_are_readable(custom_id: &str) -> (res: bool)
    ensures
        res == choice_settings_readable(custom_id@),
{
    let options = split_on(custom_id, '*');
    proof {
        lemma_split_nonempty(custom_id@, '*');
    }
    let ghost pieces = views_of(options@).drop_first();
    assert(pieces == setting_pieces(custom_id@));
    let mut i: usize = 1;
    while i < options.len()
        invariant
            1 <= i <= options@.len(),
            options@.len() >= 1,
            pieces == views_of(options@).drop_first(),
            pieces == setting_pieces(custom_id@),
            forall|k: int|
                0 <= k < i - 1 ==> {
                    let p = #[trigger] split_spec(pieces[k], '-');
                    p.len() >= 2 && parse_i32_spec(p[1]) is Some
                },
        decreases options.len() - i,
    {
        assert(views_of(options@)[i as int] == options@[i as int]@);
        assert(pieces[i - 1] == options@[i as int]@);
        let param = split_on(options[i], '-');
        if param.len() < 2 {
            return false;
        }
        assert(views_of(param@)[1] == param@[1]@);
        if parse_i32(param[1]).is_none() {
            return false;
        }
        i = i + 1;
    }
    true
}

/// Whether a player's edition choice has the two pieces `read_edition_choice` needs.
pub fn edition_choice_is_readable(value: &str) -> (res: bool)
    ensures
        res == (split_spec(value@, '-').len() >= 2),
{
    split_on(value, '-').len() >= 2
}

/// Reads back a player's settings from the custom id of the menu.
pub fn decode_version_choices<'a>(custom_id: &'a str) -> (res: Vec<(&'a str, i32)>)
    requires
        choice_settings_readable(custom_id@),
    ensures
        res@.map_values(|u: (&'a str, i32)| (u.0@, u.1)) == choice_updates_spec(custom_id@),
{
    let mut options = split_on(custom_id, '*');
    proof {
        lemma_split_nonempty(custom_id@, '*');
    }
    let ghost pieces = views_of(options@).drop_first();
    assert(pieces == setting_pieces(custom_id@));
    options.remove(0);
    assert(views_of(options@) =~= pieces);
    let mut res: Vec<(&'a str, i32)> = Vec::new();
    let mut i: usize = 0;
    while i < options.len()
        invariant
            views_of(options@) == pieces,
            pieces == setting_pieces(custom_id@),
            choice_settings_readable(custom_id@),
            i <= options@.len(),
            res@.map_values(|u: (&'a str, i32)| (u.0@, u.1)) == choice_updates_spec(custom_id@).take(
                i as int,
            ),
        decreases options.len() - i,
    {
        assert(views_of(options@)[i as int] == options@[i as int]@);
        let param = split_on(options[i], '-');
        assert(split_spec(pieces[i as int], '-') == views_of(param@));
        assert(views_of(param@)[0] == param@[0]@);
        assert(views_of(param@)[1] == param@[1]@);
        let value = parse_i32(param[1]).unwrap();
        let ghost before = res@.map_values(|u: (&'a str, i32)| (u.0@, u.1));
        res.push((param[0], value));
        assert(res@.map_values(|u: (&'a str, i32)| (u.0@, u.1)) =~= before.push(
            choice_updates_spec(custom_id@)[i as int],
        ));
        assert(choice_updates_spec(custom_id@).take(i + 1) =~= choice_updates_spec(
            custom_id@,
        ).take(i as int).push(choice_updates_spec(custom_id@)[i as int]));
        i = i + 1;
    }
    assert(choice_updates_spec(custom_id@).take(options@.len() as int) =~= choice_updates_spec(
        custom_id@,
    ));
    res
}

// ---------------------------------------------------------------------------
// Reading back what was written
// ---------------------------------------------------------------------------

pub open spec fn plain_name(s: Seq<char>) -> bool {
    !s.contains('*') && !s.contains('-')
}

proof fn lemma_concat_lacks(a: Seq<char>, b: Seq<char>, c: char)
    requires
        !a.contains(c),
        !b.contains(c),
    ensures
        !(a + b).contains(c),
{
    if (a + b).contains(c) {
        let k = choose|k: int| 0 <= k < (a + b).len() && (a + b)[k] == c;
        if k < a.len() {
            assert(a[k] == c);
        } else {
            assert(b[k - a.len()] == c);
        }
    }
}

/// A setting written and split back on `*` gives the prefix then each `version-value`.
proof fn lemma_settings_split(prefix: Seq<char>, settings: Seq<(Seq<char>, Seq<char>)>)
    requires
        !prefix.contains('*'),
        forall|k: int| 0 <= k < settings.len() ==> !(#[trigger] settings[k]).0.contains('*') && !settings[k].1.contains('*'),
    ensures
        split_spec(encoded_settings_spec(prefix, settings), '*') == seq![prefix] + settings.map_values(
            |s: (Seq<char>, Seq<char>)| s.0 + seq!['-'] + s.1,
        ),
    decreases settings.len(),
{
    let f = |s: (Seq<char>, Seq<char>)| s.0 + seq!['-'] + s.1;
    if settings.len() == 0 {
        lemma_split_without_separator(prefix, '*');
        assert(seq![prefix] + settings.map_values(f) =~= seq![prefix]);
    } else {
        let init = settings.drop_last();
        let last = settings.last();
        assert forall|k: int| 0 <= k < init.len() implies !(#[trigger] init[k]).0.contains('*')
            && !init[k].1.contains('*') by {
            assert(init[k] == settings[k]);
        }
        lemma_settings_split(prefix, init);
        let body = last.0 + seq!['-'] + last.1;
        assert(!last.0.contains('*') && !last.1.contains('*')) by {
            assert(settings[settings.len() - 1] == last);
        }
        assert(!seq!['-'].contains('*')) by {
            if seq!['-'].contains('*') {
                let k = choose|k: int| 0 <= k < 1 && seq!['-'][k] == '*';
            }
        }
        lemma_concat_lacks(last.0, seq!['-'], '*');
        lemma_concat_lacks(last.0 + seq!['-'], last.1, '*');
        lemma_split_without_separator(body, '*');
        let before = encoded_settings_spec(prefix, init);
        assert(encoded_settings_spec(prefix, settings) =~= before + seq!['*'] + body);
        lemma_split_concat(before, body, '*');
        assert(settings.map_values(f) =~= init.map_values(f).push(body));
        assert(seq![prefix] + settings.map_values(f) =~= seq![prefix] + init.map_values(f) + seq![body]);
    }
}

/// `version-value` split on `-` gives the version and the value.
proof fn lemma_piece_split(name: Seq<char>, value: Seq<char>)
    requires
        !name.contains('-'),
        !value.contains('-'),
    ensures
        split_spec(name + seq!['-'] + value, '-') == seq![name, value],
{
    lemma_split_concat(name, value, '-');
    lemma_split_without_separator(name, '-');
    lemma_split_without_separator(value, '-');
    assert(seq![name] + seq![value] =~= seq![name, value]);
}

proof fn lemma_bool_text(b: bool)
    ensures
        !bool_text(b).contains('*'),
        !bool_text(b).contains('-'),
        parse_bool_spec(bool_text(b)) == Some(b),
{
    reveal_strlit("true");
    reveal_strlit("false");
    assert("true"@ =~= seq!['t', 'r', 'u', 'e']);
    assert("false"@ =~= seq!['f', 'a', 'l', 's', 'e']);
    if bool_text(b).contains('*') {
        let k = choose|k: int| 0 <= k < bool_text(b).len() && bool_text(b)[k] == '*';
    }
    if bool_text(b).contains('-') {
        let k = choose|k: int| 0 <= k < bool_text(b).len() && bool_text(b)[k] == '-';
    }
}

proof fn lemma_digit_char(d: nat)
    requires
        d < 10,
    ensures
        (crate::text::digit_char(d) as int) - ('0' as int) == d,
        is_digit(crate::text::digit_char(d)),
{
}

proof fn lemma_decimal_digits(n: nat)
    ensures
        all_digits(decimal_spec(n)),
        decimal_spec(n).len() >= 1,
        digits_value(decimal_spec(n)) == n,
    decreases n,
{
    lemma_digit_char(n % 10);
    let c = crate::text::digit_char(n % 10);
    if n < 10 {
        let s = decimal_spec(n);
        assert(s == seq![c]);
        assert(s.drop_last() =~= Seq::<char>::empty());
        assert(digits_value(Seq::<char>::empty()) == 0);
        assert(s.last() == c);
        assert(digits_value(s) == digits_value(s.drop_last()) * 10 + ((c as int) - ('0' as int)));
        assert forall|i: int| 0 <= i < s.len() implies is_digit(#[trigger] s[i]) by {
            assert(s[i] == c);
        }
    } else {
        lemma_decimal_digits(n / 10);
        let d = decimal_spec(n / 10);
        let s = d.push(c);
        assert(decimal_spec(n) == s);
        assert(s.drop_last() =~= d);
        assert(s.last() == c);
        assert(digits_value(s) == digits_value(d) * 10 + ((c as int) - ('0' as int)));
        assert((n / 10) * 10 + n % 10 == n);
        assert forall|i: int| 0 <= i < s.len() implies is_digit(#[trigger] s[i]) by {
            if i < d.len() {
                assert(s[i] == d[i]);
            }
        }
    }
}

proof fn lemma_natural_text(v: i64)
    requires
        0 <= v <= 0x7fff_ffff,
    ensures
        !signed_decimal_spec(v as int).contains('*'),
        !signed_decimal_spec(v as int).contains('-'),
        parse_i32_spec(signed_decimal_spec(v as int)) == Some(v as int),
{
    let s = decimal_spec(v as nat);
    lemma_decimal_digits(v as nat);
    assert(signed_decimal_spec(v as int) == s);
    if s.contains('*') {
        let k = choose|k: int| 0 <= k < s.len() && s[k] == '*';
        assert(is_digit(s[k]));
    }
    if s.contains('-') {
        let k = choose|k: int| 0 <= k < s.len() && s[k] == '-';
        assert(is_digit(s[k]));
    }
    assert(is_digit(s[0]));
    assert(parse_unsigned_spec(s, 0x7fff_ffff) == Some(v as nat));
}

/// What the organizer's settings are read back as, for the settings written.
pub open spec fn flag_updates_of(opts: Seq<(String, bool)>) -> Seq<(Seq<char>, u32)> {
    opts.map_values(|o: (String, bool)| (o.0@, flag_value(o.1)))
}

/// Settings written into a custom id by `encode_version_flags` are read back by
/// `decode_version_flags` as exactly those settings (allowed as 1, forbidden as 0),
/// when neither the prefix nor a version name holds `*`, and no name holds `-`.
pub proof fn lemma_version_flags_round_trip(prefix: Seq<char>, opts: Seq<(String, bool)>)
    requires
        !prefix.contains('*'),
        forall|k: int| 0 <= k < opts.len() ==> plain_name((#[trigger] opts[k]).0@),
    ensures
        flag_settings_readable(encoded_settings_spec(prefix, flag_settings_view(opts))),
        flag_updates_spec(encoded_settings_spec(prefix, flag_settings_view(opts)))
            == flag_updates_of(opts),
{
    let settings = flag_settings_view(opts);
    let id = encoded_settings_spec(prefix, settings);
    assert forall|k: int| 0 <= k < settings.len() implies !(#[trigger] settings[k]).0.contains('*')
        && !settings[k].1.contains('*') by {
        lemma_bool_text(opts[k].1);
    }
    lemma_settings_split(prefix, settings);
    let f = |s: (Seq<char>, Seq<char>)| s.0 + seq!['-'] + s.1;
    assert(setting_pieces(id) =~= settings.map_values(f));
    assert forall|k: int| 0 <= k < setting_pieces(id).len() implies split_spec(
        #[trigger] setting_pieces(id)[k],
        '-',
    ) == seq![opts[k].0@, bool_text(opts[k].1)] by {
        lemma_bool_text(opts[k].1);
        lemma_piece_split(opts[k].0@, bool_text(opts[k].1));
    }
    assert forall|k: int| 0 <= k < setting_pieces(id).len() implies {
        let p = #[trigger] split_spec(setting_pieces(id)[k], '-');
        p.len() >= 2 && parse_bool_spec(p[1]) is Some
    } by {
        lemma_bool_text(opts[k].1);
    }
    assert forall|k: int| 0 <= k < opts.len() implies #[trigger] flag_updates_spec(id)[k]
        == flag_updates_of(opts)[k] by {
        lemma_bool_text(opts[k].1);
    }
    assert(flag_updates_spec(id) =~= flag_updates_of(opts));
}

/// What a player's settings are read back as, for the settings written.
pub open spec fn choice_updates_of(opts: Seq<(String, i64)>) -> Seq<(Seq<char>, i32)> {
    opts.map_values(|o: (String, i64)| (o.0@, o.1 as i32))
}

/// A player's settings written by `encode_version_choices` are read back by
/// `decode_version_choices` as exactly those settings, when the prefix holds no `*`,
/// no version name holds `*` or `-`, and every value lies between 0 and `i32::MAX`
/// (a negative value would bring its own `-`).
pub proof fn lemma_version_choices_round_trip(prefix: Seq<char>, opts: Seq<(String, i64)>)
    requires
        !prefix.contains('*'),
        forall|k: int|
            0 <= k < opts.len() ==> plain_name((#[trigger] opts[k]).0@) && 0 <= opts[k].1
                <= 0x7fff_ffff,
    ensures
        choice_settings_readable(encoded_settings_spec(prefix, choice_settings_view(opts))),
        choice_updates_spec(encoded_settings_spec(prefix, choice_settings_view(opts)))
            == choice_updates_of(opts),
{
    let settings = choice_settings_view(opts);
    let id = encoded_settings_spec(prefix, settings);
    assert forall|k: int| 0 <= k < settings.len() implies !(#[trigger] settings[k]).0.contains('*')
        && !settings[k].1.contains('*') by {
        lemma_natural_text(opts[k].1);
    }
    lemma_settings_split(prefix, settings);
    let f = |s: (Seq<char>, Seq<char>)| s.0 + seq!['-'] + s.1;
    assert(setting_pieces(id) =~= settings.map_values(f));
    assert forall|k: int| 0 <= k < setting_pieces(id).len() implies split_spec(
        #[trigger] setting_pieces(id)[k],
        '-',
    ) == seq![opts[k].0@, signed_decimal_spec(opts[k].1 as int)] by {
        lemma_natural_text(opts[k].1);
        lemma_piece_split(opts[k].0@, signed_decimal_spec(opts[k].1 as int));
    }
    assert forall|k: int| 0 <= k < setting_pieces(id).len() implies {
        let p = #[trigger] split_spec(setting_pieces(id)[k], '-');
        p.len() >= 2 && parse_i32_spec(p[1]) is Some
    } by {
        lemma_natural_text(opts[k].1);
    }
    assert forall|k: int| 0 <= k < opts.len() implies #[trigger] choice_updates_spec(id)[k]
        == choice_updates_of(opts)[k] by {
        lemma_natural_text(opts[k].1);
    }
    assert(choice_updates_spec(id) =~= choice_updates_of(opts));
}

// ---------------------------------------------------------------------------
// The edition a player picks
// ---------------------------------------------------------------------------

/// The value of a player's edition choice: the edition's name, `-`, the guild id.
pub fn edition_choice_value(edition_name: &str, guild_id: &str) -> (res: String)
    ensures
        res@ == edition_name@ + seq!['-'] + guild_id@,
{
    let mut res = String::from_str(edition_name);
    proof {
        reveal_strlit("-");
    }
    assert("-"@ =~= seq!['-']);
    res.append("-");
    res.append(guild_id);
    res
}

/// Reads a player's edition choice back as (edition name, guild id): the first two
/// `-`-separated pieces.
pub fn read_edition_choice<'a>(value: &'a str) -> (res: (&'a str, &'a str))
    requires
        split_spec(value@, '-').len() >= 2,
    ensures
        res.0@ == split_spec(value@, '-')[0],
        res.1@ == split_spec(value@, '-')[1],
{
    let parts = split_on(value, '-');
    assert(views_of(parts@)[0] == parts@[0]@);
    assert(views_of(parts@)[1] == parts@[1]@);
    (parts[0], parts[1])
}

/// An edition choice is read back as the edition and guild it was made of, when
/// neither holds `-`.
pub proof fn lemma_edition_choice_round_trip(edition_name: Seq<char>, guild_id: Seq<char>)
    requires
        !edition_name.contains('-'),
        !guild_id.contains('-'),
    ensures
        split_spec(edition_name + seq!['-'] + guild_id, '-').len() >= 2,
        split_spec(edition_name + seq!['-'] + guild_id, '-')[0] == edition_name,
        split_spec(edition_name + seq!['-'] + guild_id, '-')[1] == guild_id,
{
    lemma_piece_split(edition_name, guild_id);
}


// ---------------------------------------------------------------------------
// The catalogue's keys in custom ids
// ---------------------------------------------------------------------------

/// Whether `name` is the database key of a version of the catalogue.
pub open spec fn catalogue_key(name: Seq<char>) -> bool {
    exists|j: int| 0 <= j < versions_spec().len() && name == (#[trigger] versions_spec()[j]).0@
}

/// No database key of the catalogue holds `*` or `-`, and neither do the prefixes
/// of the two settings menus.
pub proof fn law_catalogue_keys_are_plain()
    ensures
        forall|j: int| 0 <= j < versions_spec().len() ==> plain_name(#[trigger] versions_spec()[j].0@),
        !LOCK_VERSION_MODAL@.contains('*'),
        !VERSION_PLAYER_MODAL@.contains('*'),
{
    broadcast use vstd::seq_lib::group_seq_properties;
    reveal_strlit("red_green_blue");
    assert(BDD_POKE_RED_GREEN_BLUE@ =~= seq!['r', 'e', 'd', '_', 'g', 'r', 'e', 'e', 'n', '_', 'b', 'l', 'u', 'e']);
    reveal_strlit("yellow");
    assert(BDD_POKE_YELLOW@ =~= seq!['y', 'e', 'l', 'l', 'o', 'w']);
    reveal_strlit("gold_silver");
    assert(BDD_POKE_GOLD_SILVER@ =~= seq!['g', 'o', 'l', 'd', '_', 's', 'i', 'l', 'v', 'e', 'r']);
    reveal_strlit("crystal");
    assert(BDD_POKE_CRYSTAL@ =~= seq!['c', 'r', 'y', 's', 't', 'a', 'l']);
    reveal_strlit("ruby_sapphire");
    assert(BDD_POKE_RUBY_SAPPHIRE@ =~= seq!['r', 'u', 'b', 'y', '_', 's', 'a', 'p', 'p', 'h', 'i', 'r', 'e']);
    reveal_strlit("firered_leafgreen");
    assert(BDD_POKE_FIRERED_LEAFGREEN@ =~= seq!['f', 'i', 'r', 'e', 'r', 'e', 'd', '_', 'l', 'e', 'a', 'f', 'g', 'r', 'e', 'e', 'n']);
    reveal_strlit("emerald");
    assert(BDD_POKE_EMERALD@ =~= seq!['e', 'm', 'e', 'r', 'a', 'l', 'd']);
    reveal_strlit("diamond_pearl");
    assert(BDD_POKE_DIAMOND_PEARL@ =~= seq!['d', 'i', 'a', 'm', 'o', 'n', 'd', '_', 'p', 'e', 'a', 'r', 'l']);
    reveal_strlit("platinum");
    assert(BDD_POKE_PLATINUM@ =~= seq!['p', 'l', 'a', 't', 'i', 'n', 'u', 'm']);
    reveal_strlit("heartgold_soulsilver");
    assert(BDD_POKE_HEARTGOLD_SOULSILVER@ =~= seq!['h', 'e', 'a', 'r', 't', 'g', 'o', 'l', 'd', '_', 's', 'o', 'u', 'l', 's', 'i', 'l', 'v', 'e', 'r']);
    reveal_strlit("black_chite");
    assert(BDD_POKE_BLACK_WHITE@ =~= seq!['b', 'l', 'a', 'c', 'k', '_', 'c', 'h', 'i', 't', 'e']);
    reveal_strlit("black2_white2");
    assert(BDD_POKE_BLACK2_WHITE2@ =~= seq!['b', 'l', 'a', 'c', 'k', '2', '_', 'w', 'h', 'i', 't', 'e', '2']);
    reveal_strlit("x_y");
    assert(BDD_POKE_X_Y@ =~= seq!['x', '_', 'y']);
    reveal_strlit("omega_ruby_alpha_sapphire");
    assert(BDD_POKE_OMEGA_RUBY_ALPHA_SAPPHIRE@ =~= seq!['o', 'm', 'e', 'g', 'a', '_', 'r', 'u', 'b', 'y', '_', 'a', 'l', 'p', 'h', 'a', '_', 's', 'a', 'p', 'p', 'h', 'i', 'r', 'e']);
    reveal_strlit("sun_moon");
    assert(BDD_POKE_SUN_MOON@ =~= seq!['s', 'u', 'n', '_', 'm', 'o', 'o', 'n']);
    reveal_strlit("ultrasun_ultramoon");
    assert(BDD_POKE_ULTRASUN_ULTRAMOON@ =~= seq!['u', 'l', 't', 'r', 'a', 's', 'u', 'n', '_', 'u', 'l', 't', 'r', 'a', 'm', 'o', 'o', 'n']);
    reveal_strlit("letsgopikachu_letsgoeevee");
    assert(BDD_POKE_LETSGOPIKACHU_LETSGOEEVEE@ =~= seq!['l', 'e', 't', 's', 'g', 'o', 'p', 'i', 'k', 'a', 'c', 'h', 'u', '_', 'l', 'e', 't', 's', 'g', 'o', 'e', 'e', 'v', 'e', 'e']);
    reveal_strlit("sword_shield");
    assert(BDD_POKE_SWORD_SHIELD@ =~= seq!['s', 'w', 'o', 'r', 'd', '_', 's', 'h', 'i', 'e', 'l', 'd']);
    reveal_strlit("brillantdiamond_shiningpearl");
    assert(BDD_POKE_BRILLANTDIAMOND_SHININGPEARL@ =~= seq!['b', 'r', 'i', 'l', 'l', 'a', 'n', 't', 'd', 'i', 'a', 'm', 'o', 'n', 'd', '_', 's', 'h', 'i', 'n', 'i', 'n', 'g', 'p', 'e', 'a', 'r', 'l']);
    reveal_strlit("legendarceus");
    assert(BDD_POKE_LEGENDARCEUS@ =~= seq!['l', 'e', 'g', 'e', 'n', 'd', 'a', 'r', 'c', 'e', 'u', 's']);
    reveal_strlit("scarlet_violet");
    assert(BDD_POKE_SCARLET_VIOLET@ =~= seq!['s', 'c', 'a', 'r', 'l', 'e', 't', '_', 'v', 'i', 'o', 'l', 'e', 't']);
    reveal_strlit("donjon_mystere_dx");
    assert(BDD_POKE_DONJON_MYSTERE@ =~= seq!['d', 'o', 'n', 'j', 'o', 'n', '_', 'm', 'y', 's', 't', 'e', 'r', 'e', '_', 'd', 'x']);
    reveal_strlit("coloseum");
    assert(BDD_POKE_COLOSEUM@ =~= seq!['c', 'o', 'l', 'o', 's', 'e', 'u', 'm']);
    reveal_strlit("stadium_eu");
    assert(BDD_POKE_STADIUM_EU@ =~= seq!['s', 't', 'a', 'd', 'i', 'u', 'm', '_', 'e', 'u']);
    reveal_strlit("stadium_jap");
    assert(BDD_POKE_STADIUM_JAP@ =~= seq!['s', 't', 'a', 'd', 'i', 'u', 'm', '_', 'j', 'a', 'p']);
    reveal_strlit("stadium_2");
    assert(BDD_POKE_STADIUM_2@ =~= seq!['s', 't', 'a', 'd', 'i', 'u', 'm', '_', '2']);
    reveal_strlit("xd");
    assert(BDD_POKE_XD@ =~= seq!['x', 'd']);
    reveal_strlit("lock_version_modal");
    assert(LOCK_VERSION_MODAL@ =~= seq!['l', 'o', 'c', 'k', '_', 'v', 'e', 'r', 's', 'i', 'o', 'n', '_', 'm', 'o', 'd', 'a', 'l']);
    reveal_strlit("version_player_modal");
    assert(VERSION_PLAYER_MODAL@ =~= seq!['v', 'e', 'r', 's', 'i', 'o', 'n', '_', 'p', 'l', 'a', 'y', 'e', 'r', '_', 'm', 'o', 'd', 'a', 'l']);
}

/// The organizer's settings, written into the version menu's custom id for
/// versions of the catalogue, are read back as exactly those settings.
pub proof fn law_catalogue_flags_round_trip(opts: Seq<(String, bool)>)
    requires
        forall|k: int| 0 <= k < opts.len() ==> catalogue_key(#[trigger] opts[k].0@),
    ensures
        flag_settings_readable(encoded_settings_spec(LOCK_VERSION_MODAL@, flag_settings_view(opts))),
        flag_updates_spec(encoded_settings_spec(LOCK_VERSION_MODAL@, flag_settings_view(opts)))
            == flag_updates_of(opts),
{
    law_catalogue_keys_are_plain();
    assert forall|k: int| 0 <= k < opts.len() implies plain_name((#[trigger] opts[k]).0@) by {
        assert(catalogue_key(opts[k].0@));
        let j = choose|j: int| 0 <= j < versions_spec().len() && opts[k].0@ == (#[trigger] versions_spec()[j]).0@;
        assert(plain_name(versions_spec()[j].0@));
    }
    lemma_version_flags_round_trip(LOCK_VERSION_MODAL@, opts);
}

/// A player's settings (values 0 to 2, as the command offers), written into the
/// menu's custom id for versions of the catalogue, are read back as exactly those
/// settings.
pub proof fn law_catalogue_choices_round_trip(opts: Seq<(String, i64)>)
    requires
        forall|k: int| 0 <= k < opts.len() ==> catalogue_key(#[trigger] opts[k].0@) && 0 <= opts[k].1 <= 2,
    ensures
        choice_settings_readable(encoded_settings_spec(VERSION_PLAYER_MODAL@, choice_settings_view(opts))),
        choice_updates_spec(encoded_settings_spec(VERSION_PLAYER_MODAL@, choice_settings_view(opts)))
            == choice_updates_of(opts),
{
    law_catalogue_keys_are_plain();
    assert forall|k: int| 0 <= k < opts.len() implies plain_name((#[trigger] opts[k]).0@) && 0 <= opts[k].1
        <= 0x7fff_ffff by {
        assert(catalogue_key(opts[k].0@));
        let j = choose|j: int| 0 <= j < versions_spec().len() && opts[k].0@ == (#[trigger] versions_spec()[j]).0@;
        assert(plain_name(versions_spec()[j].0@));
    }
    lemma_version_choices_round_trip(VERSION_PLAYER_MODAL@, opts);
}

} // verus!
