//! A player's registration to the edition whose registration window is open:
//! who may register and where, and what is stored and shown for a new player.

use vstd::prelude::*;
use crate::constants::{ADD_NAMES, ADD_PROOF, NON_POSSEDE_VALUE, VERSION_PLAYER_SETUP};
use crate::text::{concat2, decimal_spec, str_eq, u64_to_decimal};
use crate::versions::{
    entry_views, get_versions_list_tuple, labelled_states_spec, paired_fields_spec,
    string_pair_views, version_state_fields, versions_spec,
};

verus! {

/// What the bot knows of a server's setup that registration needs.
pub struct ServerSetup {
    /// The id of the registration channel, in decimal, as the setup saved it.
    pub registration_channel_id: String,
    /// The id of the role that registered players get.
    pub registered_role_id: u64,
}

/// Why a registration is refused before any edition is looked at.
#[derive(Clone, Copy, Debug, PartialEq, Eq)]
pub enum RegistrationRefusal {
    /// The server was never set up.
    NotSetUp,
    /// The command was not typed in the registration channel.
    WrongChannel,
    /// The member already has the registered role.
    AlreadyRegistered,
}

pub const NOT_SET_UP_MESSAGE: &'static str = "Le serveur n'est pas setup. Demande à un membre ayant les permissions admin de faire la commande **__/setup__**";
pub const ALREADY_REGISTERED_MESSAGE: &'static str = "Tu est déjà isncrit à la compétition !";
pub const WRONG_CHANNEL_TITLE: &'static str = "Inscription";
pub const WRONG_CHANNEL_NOTICE: &'static str = "Pour t'inscrire, il fait faire /inscription dans le salon 1-inscriptions. Si tu ne vois pas ce salon et que tu n'est pas déjà inscrit, demande à un admin.";
pub const REGISTRATION_CLOSED_TITLE: &'static str = "Inscriptions closes";
pub const REGISTRATION_CLOSED_DESCRIPTION: &'static str = "Aucune édition n'est actuellement en phase d'inscription.";

pub open spec fn registration_gate_spec(setup: Option<(Seq<char>, u64)>, channel_id: u64, member_roles: Seq<u64>) -> Result<u64, RegistrationRefusal> {
    match setup {
        None => Err(RegistrationRefusal::NotSetUp),
        Some(st) => if decimal_spec(channel_id as nat) != st.0 {
            Err(RegistrationRefusal::WrongChannel)
        } else if member_roles.contains(st.1) {
            Err(RegistrationRefusal::AlreadyRegistered)
        } else {
            Ok(st.1)
        },
    }
}

/// On a set-up server, in the registration channel, a member is refused as already
/// registered exactly when the registered role is among their roles, wherever it
/// stands; otherwise they get that role. Whatever the order of their roles, a member
/// who holds it is never let through.
pub proof fn law_registered_role_anywhere_refuses(channel: Seq<char>, role: u64, channel_id: u64, member_roles: Seq<u64>)
    ensures
        registration_gate_spec(Some((channel, role)), channel_id, member_roles) is Ok ==> !member_roles.contains(role),
        decimal_spec(channel_id as nat) == channel && member_roles.contains(role) ==> registration_gate_spec(
            Some((channel, role)),
            channel_id,
            member_roles,
        ) == Err::<u64, RegistrationRefusal>(RegistrationRefusal::AlreadyRegistered),
        decimal_spec(channel_id as nat) == channel && !member_roles.contains(role) ==> registration_gate_spec(
            Some((channel, role)),
            channel_id,
            member_roles,
        ) == Ok::<u64, RegistrationRefusal>(role),
        forall|other: Seq<u64>|
            #[trigger] other.to_multiset() == member_roles.to_multiset() ==> registration_gate_spec(
                Some((channel, role)),
                channel_id,
                other,
            ) == registration_gate_spec(Some((channel, role)), channel_id, member_roles),
{
    broadcast use vstd::seq_lib::group_to_multiset_ensures;
    assert forall|other: Seq<u64>| #[trigger] other.to_multiset() == member_roles.to_multiset() implies (
    other.contains(role) <==> member_roles.contains(role)) by {
        assert(other.to_multiset().count(role) == member_roles.to_multiset().count(role));
    }
}

pub open spec fn setup_view(setup: Option<ServerSetup>) -> Option<(Seq<char>, u64)> {
    match setup {
        None => None,
        Some(st) => Some((st.registration_channel_id@, st.registered_role_id)),
    }
}

/// The checks a registration goes through before the edition is looked up: the
/// server must be set up, the command typed in the registration channel (whose id
/// is compared in decimal with the saved one), and the member not registered yet.
/// On success, the role to give the new player.
pub fn registration_gate(setup: &Option<ServerSetup>, channel_id: u64, member_roles: &Vec<u64>) -> (res: Result<u64, RegistrationRefusal>)
    ensures
        res == registration_gate_spec(setup_view(*setup), channel_id, member_roles@),
{
    match setup {
        None => Err(RegistrationRefusal::NotSetUp),
        Some(st) => {
            let channel = u64_to_decimal(channel_id);
            if !str_eq(channel.as_str(), st.registration_channel_id.as_str()) {
                return Err(RegistrationRefusal::WrongChannel);
            }
            let mut i: usize = 0;
            while i < member_roles.len()
                invariant
                    setup_view(*setup) == Some((st.registration_channel_id@, st.registered_role_id)),
                    decimal_spec(channel_id as nat) == st.registration_channel_id@,
                    i <= member_roles@.len(),
                    forall|k: int| 0 <= k < i ==> member_roles@[k] != st.registered_role_id,
                decreases member_roles.len() - i,
            {
                if member_roles[i] == st.registered_role_id {
                    assert(member_roles@.contains(st.registered_role_id));
                    return Err(RegistrationRefusal::AlreadyRegistered);
                }
                i = i + 1;
            }
            Ok(st.registered_role_id)
        },
    }
}

/// Registering twice is refused: when a member is accepted and then given the role
/// that the acceptance names, the same member is refused as already registered.
pub proof fn law_second_registration_refused(setup: Option<(Seq<char>, u64)>, channel_id: u64, member_roles: Seq<u64>)
    requires
        registration_gate_spec(setup, channel_id, member_roles) is Ok,
    ensures
        registration_gate_spec(
            setup,
            channel_id,
            member_roles.push(registration_gate_spec(setup, channel_id, member_roles)->Ok_0),
        ) == Err::<u64, RegistrationRefusal>(RegistrationRefusal::AlreadyRegistered),
{
    let r = registration_gate_spec(setup, channel_id, member_roles)->Ok_0;
    assert(member_roles.push(r)[member_roles.len() as int] == r);
}

/// The message a refusal is answered with (sent privately for the wrong channel).
pub fn refusal_message(r: RegistrationRefusal) -> (res: &'static str)
    ensures
        res == match r {
            RegistrationRefusal::NotSetUp => NOT_SET_UP_MESSAGE,
            RegistrationRefusal::WrongChannel => WRONG_CHANNEL_NOTICE,
            RegistrationRefusal::AlreadyRegistered => ALREADY_REGISTERED_MESSAGE,
        },
{
    match r {
        RegistrationRefusal::NotSetUp => NOT_SET_UP_MESSAGE,
        RegistrationRefusal::WrongChannel => WRONG_CHANNEL_NOTICE,
        RegistrationRefusal::AlreadyRegistered => ALREADY_REGISTERED_MESSAGE,
    }
}

/// Whether registration is open at `timestamp` for an edition whose registration
/// runs from `start` to `end`: strictly between the two.
pub fn registration_open(timestamp: i64, start: i64, end: i64) -> (res: bool)
    ensures
        res == (start < timestamp && timestamp < end),
{
    timestamp > start && timestamp < end
}

/// Whether the query (guild id, instant) selects a stored edition of the guild
/// `guild` whose registration runs from `start` to `end`: one whose window holds
/// the instant, bounds included.
pub open spec fn registration_query_selects(q: (String, i64), guild: Seq<char>, start: int, end: int) -> bool {
    guild == q.0@ && start <= q.1 && q.1 <= end
}

/// The edition a registration made at `timestamp` in the guild is for: the
/// query (guild id in decimal, instant) that selects it.
pub fn registration_window_query(guild_id: u64, timestamp: i64) -> (res: (String, i64))
    ensures
        res.0@ == decimal_spec(guild_id as nat),
        res.1 == timestamp,
        forall|guild: Seq<char>, start: int, end: int|
            #[trigger] registration_query_selects(res, guild, start, end) <==> (guild == decimal_spec(guild_id as nat)
                && start <= timestamp && timestamp <= end),
{
    (u64_to_decimal(guild_id), timestamp)
}

/// The answer on registration once the edition whose registration window holds
/// `timestamp` (bounds included) has been looked up: closed when there is none or
/// when `timestamp` is on one of its bounds (title and description of the
/// answer), open otherwise.
pub fn registration_decision(edition: Option<(i64, i64)>, timestamp: i64) -> (res: Result<(), (&'static str, &'static str)>)
    ensures
        res is Ok <==> (edition matches Some(w) && w.0 < timestamp && timestamp < w.1),
        res matches Err(e) ==> e == (REGISTRATION_CLOSED_TITLE, REGISTRATION_CLOSED_DESCRIPTION),
{
    match edition {
        Some((start, end)) => if registration_open(timestamp, start, end) {
            Ok(())
        } else {
            Err((REGISTRATION_CLOSED_TITLE, REGISTRATION_CLOSED_DESCRIPTION))
        },
        None => Err((REGISTRATION_CLOSED_TITLE, REGISTRATION_CLOSED_DESCRIPTION)),
    }
}

// ---------------------------------------------------------------------------
// What a new player gets
// ---------------------------------------------------------------------------

pub open spec fn guide_spec() -> Seq<char> {
    "__**`Pour continuer ta vérification, ça se passe ici. Voici un petit guide pour t'aider dans cette tache.`**__\n- La commande **/"@
        + ADD_NAMES@
        + "** sers à indiquer **__TOUS__** les noms de dresseur utilisé dans les versions que tu possède. Inutile d'indiquer la version.\n- La commande **/"@
        + VERSION_PLAYER_SETUP@
        + "** vas te permettre d'indiquer par génération les versions que tu possède ainsi que si tu a AU MOINS UN charme chroma pour une version concerné.\n    Autrement dit, si tu as plusieurs fois la même version et que tu possède le charme sur au moins l'une d'elle, tu dois indiquer que tu possède le charme.\n    Par ailleurs il est recommandé d'indiquer TOUTES les versions possédés afin de simplifier les futures inscriptions.\n- La commande **"@
        + ADD_PROOF@
        + "** sers quand à elle à fournir les preuves de possessions des versions pokémon.\n    Les formats acceptés sont : liens youtube, liens google drive (drive.google.com) et les photos dirrectement via discord.\n\n=> Si tu as besoin d'aide ou que tu as un doute, n'hésite pas à demander aux Host/Admin sur le serveur concerné.\n    ❌ signifie que tu ne possède pas la version. C'est également la valeur par défaut des champs.\n    ✅ signifie que tu possède la version SANS charme chroma.\n    ✅💫 signifie que tu possède la version AVEC au moins 1 charme chroma.\n\n_Voici le récap des infos :_"@
}

/// The guide a new player receives privately, naming the commands that follow.
pub fn registration_guide() -> (res: String)
    ensures
        res@ == guide_spec(),
{
    let s = concat2(
        "__**`Pour continuer ta vérification, ça se passe ici. Voici un petit guide pour t'aider dans cette tache.`**__\n- La commande **/",
        ADD_NAMES,
    );
    let s = concat2(
        s.as_str(),
        "** sers à indiquer **__TOUS__** les noms de dresseur utilisé dans les versions que tu possède. Inutile d'indiquer la version.\n- La commande **/",
    );
    let s = concat2(s.as_str(), VERSION_PLAYER_SETUP);
    let s = concat2(
        s.as_str(),
        "** vas te permettre d'indiquer par génération les versions que tu possède ainsi que si tu a AU MOINS UN charme chroma pour une version concerné.\n    Autrement dit, si tu as plusieurs fois la même version et que tu possède le charme sur au moins l'une d'elle, tu dois indiquer que tu possède le charme.\n    Par ailleurs il est recommandé d'indiquer TOUTES les versions possédés afin de simplifier les futures inscriptions.\n- La commande **",
    );
    let s = concat2(s.as_str(), ADD_PROOF);
    concat2(
        s.as_str(),
        "** sers quand à elle à fournir les preuves de possessions des versions pokémon.\n    Les formats acceptés sont : liens youtube, liens google drive (drive.google.com) et les photos dirrectement via discord.\n\n=> Si tu as besoin d'aide ou que tu as un doute, n'hésite pas à demander aux Host/Admin sur le serveur concerné.\n    ❌ signifie que tu ne possède pas la version. C'est également la valeur par défaut des champs.\n    ✅ signifie que tu possède la version SANS charme chroma.\n    ✅💫 signifie que tu possède la version AVEC au moins 1 charme chroma.\n\n_Voici le récap des infos :_",
    )
}

pub const RECAP_DESCRIPTION: &'static str = "Toutes les infos que tu auras indiqués se trouvent ici.";
pub const RECAP_FOOTER: &'static str = "noms de dresseur : ";
pub const RECAP_BUTTON_LABEL: &'static str = "Valider définitivement";

/// The title of a new player's recap.
pub fn recap_title(edition_name: &str) -> (res: String)
    ensures
        res@ == "Récap de l'inscription pour l'édition "@ + edition_name@,
{
    concat2("Récap de l'inscription pour l'édition ", edition_name)
}

/// Every version marked as not owned, in catalogue order.
pub open spec fn unowned_states_spec() -> Seq<&'static str> {
    Seq::new(versions_spec().len(), |k: int| "❌")
}

/// The recap's fields: every version marked as not owned, two by two.
pub fn recap_fields() -> (res: Vec<(String, String)>)
    ensures
        string_pair_views(res@) == paired_fields_spec(entry_views(labelled_states_spec(unowned_states_spec()))),
{
    let versions = get_versions_list_tuple();
    let mut states: Vec<&'static str> = Vec::new();
    let mut i: usize = 0;
    while i < versions.len()
        invariant
            versions@ == versions_spec(),
            i <= versions@.len(),
            states@ == Seq::new(i as nat, |k: int| "❌"),
        decreases versions.len() - i,
    {
        states.push("❌");
        i = i + 1;
        assert(states@ =~= Seq::new(i as nat, |k: int| "❌"));
    }
    assert(states@ =~= unowned_states_spec());
    version_state_fields(&states)
}

/// What is stored for a newly registered player.
pub struct PlayerRecord {
    pub player_id: String,
    pub edition_name: String,
    pub guild_id: String,
    /// The id of the player's team role; none at registration.
    pub team: Option<String>,
    /// Whether the player was checked by the organizers.
    pub verified: bool,
    /// The id of the recap message, in decimal.
    pub message_id: String,
    pub trainer_names: String,
    pub more_info: String,
    /// One declaration per version (database field, value), in catalogue order.
    pub versions: Vec<(&'static str, i32)>,
}

/// Every version declared as not owned.
pub open spec fn unowned_versions_spec() -> Seq<(&'static str, i32)> {
    Seq::new(versions_spec().len(), |k: int| (versions_spec()[k].0, NON_POSSEDE_VALUE))
}

/// The record of a new player: ids in decimal, no team, not verified, no trainer
/// name and every version declared as not owned.
pub fn new_player_record(user_id: u64, edition_name: &str, guild_id: u64, message_id: u64) -> (res: PlayerRecord)
    ensures
        res.player_id@ == decimal_spec(user_id as nat),
        res.edition_name@ == edition_name@,
        res.guild_id@ == decimal_spec(guild_id as nat),
        res.team is None,
        !res.verified,
        res.message_id@ == decimal_spec(message_id as nat),
        res.trainer_names@ == Seq::<char>::empty(),
        res.more_info@ == Seq::<char>::empty(),
        res.versions@ == unowned_versions_spec(),
{
    let versions = get_versions_list_tuple();
    let mut decl: Vec<(&'static str, i32)> = Vec::new();
    let mut i: usize = 0;
    while i < versions.len()
        invariant
            versions@ == versions_spec(),
            i <= versions@.len(),
            decl@ == unowned_versions_spec().take(i as int),
        decreases versions.len() - i,
    {
        decl.push((versions[i].0, NON_POSSEDE_VALUE));
        i = i + 1;
        assert(decl@ =~= unowned_versions_spec().take(i as int));
    }
    assert(decl@ =~= unowned_versions_spec());
    PlayerRecord {
        player_id: u64_to_decimal(user_id),
        edition_name: String::from_str(edition_name),
        guild_id: u64_to_decimal(guild_id),
        team: None,
        verified: false,
        message_id: u64_to_decimal(message_id),
        trainer_names: String::new(),
        more_info: String::new(),
        versions: decl,
    }
}

pub const REGISTERED_TITLE: &'static str = "Inscription validée";

/// The public answer once a player is registered.
pub fn registered_message(user_name: &str, edition_name: &str) -> (res: String)
    ensures
        res@ == user_name@ + " s'est inscrit avec succès à l'édition **"@ + edition_name@ + "**"@,
{
    let s = concat2(user_name, " s'est inscrit avec succès à l'édition **");
    let s = concat2(s.as_str(), edition_name);
    concat2(s.as_str(), "**")
}

} // verus!
