//! Setting up a server: finding which of the bot's categories, channels and roles
//! already exist (by name, and for channels by the category they sit in), and
//! planning what to create so that nothing that exists is created again.

use vstd::prelude::*;
use crate::constants::{
    ADMIN_ROLE_NAME, BAN_AND_EXCLUSION_CHANNEL_NAME, BOT_RETURN_CHANNEL_NAME,
    COMPETITION_ANNOUNCES_CHANNEL_NAME, COMPETITION_CATEGORY_NAME, EVERYONE_ROLE_NAME,
    FAQ_CHANNEL_NAME, GENERAL_CATEGORY_NAME, GENERAL_CHANNEL_NAME, GENERAL_VOCAL_CHANNEL_NAME,
    HOST_ROLE_NAME, MODERATION_CATEGORY_NAME, MODERATION_CONVERSATION_CHANNEL_NAME,
    MODERATION_ROLE_NAME, MODERATION_VOCAL_CONVERSATION_CHANNEL_NAME,
    PROBLEMATIC_PLAYERS_CHANNEL_NAME, RANKING_CHANNEL_NAME, REGISTERED_ROLE_NAME,
    REGISTRATION_CHANNEL_NAME, RULES_AND_INFOS_CHANNEL_NAME, RULES_CHANNEL_NAME,
    TEAM_CREATION_CHANNEL_NAME, VALIDATED_CAPTURES_CHANNEL_NAME, VERIFIED_ROLE_NAME,
    VERSIONS_AND_CHARMS_CHANNEL_NAME, WAITING_VALIDATION_CHANNEL_NAME, WELCOME_CHANNEL_NAME,
};
use crate::text::{decimal_spec, str_eq, u64_to_decimal};

verus! {

/// Everything the setup keeps track of: the three categories, their channels and
/// the bot's roles.
#[derive(Clone, Copy, Debug, PartialEq, Eq, Hash)]
pub enum Slot {
    ModerationCategory,
    WaitingValidation,
    ProblematicPlayers,
    BanAndExclusion,
    ModerationConversation,
    ModerationVocal,
    GeneralCategory,
    CompetitionCategory,
    RulesAndInfos,
    CompetitionAnnounces,
    Ranking,
    ValidatedCaptures,
    Registration,
    VersionsAndCharms,
    TeamCreation,
    AdminRole,
    ModeratorRole,
    HostRole,
    VerifiedRole,
    RegisteredRole,
    Faq,
    BotReturn,
    GeneralVocal,
    General,
    Rules,
    Welcome,
    EveryoneRole,
}

pub open spec fn slot_index(s: Slot) -> int {
    match s {
        Slot::ModerationCategory => 0,
        Slot::WaitingValidation => 1,
        Slot::ProblematicPlayers => 2,
        Slot::BanAndExclusion => 3,
        Slot::ModerationConversation => 4,
        Slot::ModerationVocal => 5,
        Slot::GeneralCategory => 6,
        Slot::CompetitionCategory => 7,
        Slot::RulesAndInfos => 8,
        Slot::CompetitionAnnounces => 9,
        Slot::Ranking => 10,
        Slot::ValidatedCaptures => 11,
        Slot::Registration => 12,
        Slot::VersionsAndCharms => 13,
        Slot::TeamCreation => 14,
        Slot::AdminRole => 15,
        Slot::ModeratorRole => 16,
        Slot::HostRole => 17,
        Slot::VerifiedRole => 18,
        Slot::RegisteredRole => 19,
        Slot::Faq => 20,
        Slot::BotReturn => 21,
        Slot::GeneralVocal => 22,
        Slot::General => 23,
        Slot::Rules => 24,
        Slot::Welcome => 25,
        Slot::EveryoneRole => 26,
    }
}

/// The position of a slot in the table of what was found.
pub fn slot_position(s: Slot) -> (res: usize)
    ensures
        res as int == slot_index(s),
        res < 27,
{
    match s {
        Slot::ModerationCategory => 0,
        Slot::WaitingValidation => 1,
        Slot::ProblematicPlayers => 2,
        Slot::BanAndExclusion => 3,
        Slot::ModerationConversation => 4,
        Slot::ModerationVocal => 5,
        Slot::GeneralCategory => 6,
        Slot::CompetitionCategory => 7,
        Slot::RulesAndInfos => 8,
        Slot::CompetitionAnnounces => 9,
        Slot::Ranking => 10,
        Slot::ValidatedCaptures => 11,
        Slot::Registration => 12,
        Slot::VersionsAndCharms => 13,
        Slot::TeamCreation => 14,
        Slot::AdminRole => 15,
        Slot::ModeratorRole => 16,
        Slot::HostRole => 17,
        Slot::VerifiedRole => 18,
        Slot::RegisteredRole => 19,
        Slot::Faq => 20,
        Slot::BotReturn => 21,
        Slot::GeneralVocal => 22,
        Slot::General => 23,
        Slot::Rules => 24,
        Slot::Welcome => 25,
        Slot::EveryoneRole => 26,
    }
}

pub open spec fn is_category_slot(s: Slot) -> bool {
    s == Slot::ModerationCategory || s == Slot::GeneralCategory || s == Slot::CompetitionCategory
}

pub open spec fn is_role_slot(s: Slot) -> bool {
    s == Slot::AdminRole || s == Slot::ModeratorRole || s == Slot::HostRole || s
        == Slot::VerifiedRole || s == Slot::RegisteredRole || s == Slot::EveryoneRole
}

pub open spec fn is_channel_slot(s: Slot) -> bool {
    !is_category_slot(s) && !is_role_slot(s)
}

/// The name under which a slot exists on the server.
pub open spec fn slot_name_spec(s: Slot) -> &'static str {
    match s {
        Slot::ModerationCategory => MODERATION_CATEGORY_NAME,
        Slot::WaitingValidation => WAITING_VALIDATION_CHANNEL_NAME,
        Slot::ProblematicPlayers => PROBLEMATIC_PLAYERS_CHANNEL_NAME,
        Slot::BanAndExclusion => BAN_AND_EXCLUSION_CHANNEL_NAME,
        Slot::ModerationConversation => MODERATION_CONVERSATION_CHANNEL_NAME,
        Slot::ModerationVocal => MODERATION_VOCAL_CONVERSATION_CHANNEL_NAME,
        Slot::GeneralCategory => GENERAL_CATEGORY_NAME,
        Slot::CompetitionCategory => COMPETITION_CATEGORY_NAME,
        Slot::RulesAndInfos => RULES_AND_INFOS_CHANNEL_NAME,
        Slot::CompetitionAnnounces => COMPETITION_ANNOUNCES_CHANNEL_NAME,
        Slot::Ranking => RANKING_CHANNEL_NAME,
        Slot::ValidatedCaptures => VALIDATED_CAPTURES_CHANNEL_NAME,
        Slot::Registration => REGISTRATION_CHANNEL_NAME,
        Slot::VersionsAndCharms => VERSIONS_AND_CHARMS_CHANNEL_NAME,
        Slot::TeamCreation => TEAM_CREATION_CHANNEL_NAME,
        Slot::AdminRole => ADMIN_ROLE_NAME,
        Slot::ModeratorRole => MODERATION_ROLE_NAME,
        Slot::HostRole => HOST_ROLE_NAME,
        Slot::VerifiedRole => VERIFIED_ROLE_NAME,
        Slot::RegisteredRole => REGISTERED_ROLE_NAME,
        Slot::Faq => FAQ_CHANNEL_NAME,
        Slot::BotReturn => BOT_RETURN_CHANNEL_NAME,
        Slot::GeneralVocal => GENERAL_VOCAL_CHANNEL_NAME,
        Slot::General => GENERAL_CHANNEL_NAME,
        Slot::Rules => RULES_CHANNEL_NAME,
        Slot::Welcome => WELCOME_CHANNEL_NAME,
        Slot::EveryoneRole => EVERYONE_ROLE_NAME,
    }
}

/// The name under which a slot exists on the server.
pub fn slot_name(s: Slot) -> (res: &'static str)
    ensures
        res == slot_name_spec(s),
{
    match s {
        Slot::ModerationCategory => MODERATION_CATEGORY_NAME,
        Slot::WaitingValidation => WAITING_VALIDATION_CHANNEL_NAME,
        Slot::ProblematicPlayers => PROBLEMATIC_PLAYERS_CHANNEL_NAME,
        Slot::BanAndExclusion => BAN_AND_EXCLUSION_CHANNEL_NAME,
        Slot::ModerationConversation => MODERATION_CONVERSATION_CHANNEL_NAME,
        Slot::ModerationVocal => MODERATION_VOCAL_CONVERSATION_CHANNEL_NAME,
        Slot::GeneralCategory => GENERAL_CATEGORY_NAME,
        Slot::CompetitionCategory => COMPETITION_CATEGORY_NAME,
        Slot::RulesAndInfos => RULES_AND_INFOS_CHANNEL_NAME,
        Slot::CompetitionAnnounces => COMPETITION_ANNOUNCES_CHANNEL_NAME,
        Slot::Ranking => RANKING_CHANNEL_NAME,
        Slot::ValidatedCaptures => VALIDATED_CAPTURES_CHANNEL_NAME,
        Slot::Registration => REGISTRATION_CHANNEL_NAME,
        Slot::VersionsAndCharms => VERSIONS_AND_CHARMS_CHANNEL_NAME,
        Slot::TeamCreation => TEAM_CREATION_CHANNEL_NAME,
        Slot::AdminRole => ADMIN_ROLE_NAME,
        Slot::ModeratorRole => MODERATION_ROLE_NAME,
        Slot::HostRole => HOST_ROLE_NAME,
        Slot::VerifiedRole => VERIFIED_ROLE_NAME,
        Slot::RegisteredRole => REGISTERED_ROLE_NAME,
        Slot::Faq => FAQ_CHANNEL_NAME,
        Slot::BotReturn => BOT_RETURN_CHANNEL_NAME,
        Slot::GeneralVocal => GENERAL_VOCAL_CHANNEL_NAME,
        Slot::General => GENERAL_CHANNEL_NAME,
        Slot::Rules => RULES_CHANNEL_NAME,
        Slot::Welcome => WELCOME_CHANNEL_NAME,
        Slot::EveryoneRole => EVERYONE_ROLE_NAME,
    }
}

/// What was found on the server: for each slot, `None` while the slot is not tracked
/// yet, otherwise its Discord id, 0 standing for "not found".
pub struct Founds {
    ids: Vec<Option<u64>>,
}

impl View for Founds {
    type V = Seq<Option<u64>>;

    closed spec fn view(&self) -> Seq<Option<u64>> {
        self.ids@
    }
}

pub open spec fn found(m: Seq<Option<u64>>, s: Slot) -> Option<u64> {
    m[slot_index(s)]
}

/// What the setup starts from: every slot tracked as not found, except the
/// `@everyone` role, which is only tracked once the roles are known.
pub open spec fn new_founds_spec() -> Seq<Option<u64>> {
    Seq::new(27, |i: int| if i == 26 { None } else { Some(0u64) })
}

impl Founds {
    #[verifier::type_invariant]
    closed spec fn inv(&self) -> bool {
        self.ids@.len() == 27
    }

    /// The id recorded for a slot, if the slot is tracked.
    pub fn get(&self, s: Slot) -> (res: Option<u64>)
        ensures
            res == found(self@, s),
    {
        proof {
            use_type_invariant(self);
        }
        self.ids[slot_position(s)]
    }

    /// Records the id of a slot.
    pub fn insert(&mut self, s: Slot, id: u64)
        ensures
            final(self)@ == old(self)@.update(slot_index(s), Some(id)),
    {
        proof {
            use_type_invariant(&*self);
        }
        let p = slot_position(s);
        self.ids[p] = Some(id);
    }
}

/// The table the setup starts from (see `new_founds_spec`).
pub fn new_founds() -> (res: Founds)
    ensures
        res@ == new_founds_spec(),
{
    let mut ids: Vec<Option<u64>> = Vec::new();
    let mut i: usize = 0;
    while i < 26
        invariant
            i <= 26,
            ids@ == Seq::new(i as nat, |k: int| Some(0u64)),
        decreases 26 - i,
    {
        ids.push(Some(0));
        i = i + 1;
        assert(ids@ =~= Seq::new(i as nat, |k: int| Some(0u64)));
    }
    ids.push(None);
    assert(ids@ =~= new_founds_spec());
    Founds { ids }
}

// ---------------------------------------------------------------------------
// What the server holds
// ---------------------------------------------------------------------------

#[derive(Clone, Copy, Debug, PartialEq, Eq)]
pub enum ChannelKind {
    Category,
    Text,
    Voice,
    Forum,
    Other,
}

/// A channel of the server as the setup reads it.
pub struct ChannelInfo {
    pub kind: ChannelKind,
    pub name: String,
    pub id: u64,
    pub parent_id: Option<u64>,
}

/// A role of the server as the setup reads it.
pub struct RoleInfo {
    pub name: String,
    pub id: u64,
}

/// What one channel or role tells about a slot: its id, provided (for a channel)
/// that it sits in the category recorded for `under`.
pub struct Claim {
    pub slot: Slot,
    pub under: Option<(Slot, u64)>,
    pub id: u64,
}

pub open spec fn claim_holds(m: Seq<Option<u64>>, c: Claim) -> bool {
    match c.under {
        None => true,
        Some(u) => found(m, u.0) == Some(u.1),
    }
}

/// Applying claims in order: each claim that holds records its id for its slot.
pub open spec fn apply_claims(m: Seq<Option<u64>>, claims: Seq<Option<Claim>>) -> Seq<Option<u64>>
    decreases claims.len(),
{
    if claims.len() == 0 {
        m
    } else {
        let before = apply_claims(m, claims.drop_last());
        match claims.last() {
            Some(c) => if claim_holds(before, c) {
                before.update(slot_index(c.slot), Some(c.id))
            } else {
                before
            },
            None => before,
        }
    }
}

pub open spec fn category_slot_spec(name: Seq<char>) -> Option<Slot> {
    if name == GENERAL_CATEGORY_NAME@ {
        Some(Slot::GeneralCategory)
    } else if name == MODERATION_CATEGORY_NAME@ {
        Some(Slot::ModerationCategory)
    } else if name == COMPETITION_CATEGORY_NAME@ {
        Some(Slot::CompetitionCategory)
    } else {
        None
    }
}

/// What a channel tells about the categories: a category of one of the bot's names.
pub open spec fn category_claim(ch: ChannelInfo) -> Option<Claim> {
    if ch.kind == ChannelKind::Category {
        match category_slot_spec(ch.name@) {
            Some(s) => Some(Claim { slot: s, under: None, id: ch.id }),
            None => None,
        }
    } else {
        None
    }
}

/// The text channels of the bot, each with the category it belongs in.
pub open spec fn text_slot_spec(name: Seq<char>) -> Option<(Slot, Slot)> {
    if name == WAITING_VALIDATION_CHANNEL_NAME@ {
        Some((Slot::WaitingValidation, Slot::ModerationCategory))
    } else if name == PROBLEMATIC_PLAYERS_CHANNEL_NAME@ {
        Some((Slot::ProblematicPlayers, Slot::ModerationCategory))
    } else if name == MODERATION_CONVERSATION_CHANNEL_NAME@ {
        Some((Slot::ModerationConversation, Slot::ModerationCategory))
    } else if name == BAN_AND_EXCLUSION_CHANNEL_NAME@ {
        Some((Slot::BanAndExclusion, Slot::ModerationCategory))
    } else if name == VALIDATED_CAPTURES_CHANNEL_NAME@ {
        Some((Slot::ValidatedCaptures, Slot::CompetitionCategory))
    } else if name == RULES_AND_INFOS_CHANNEL_NAME@ {
        Some((Slot::RulesAndInfos, Slot::CompetitionCategory))
    } else if name == COMPETITION_ANNOUNCES_CHANNEL_NAME@ {
        Some((Slot::CompetitionAnnounces, Slot::CompetitionCategory))
    } else if name == TEAM_CREATION_CHANNEL_NAME@ {
        Some((Slot::TeamCreation, Slot::CompetitionCategory))
    } else if name == REGISTRATION_CHANNEL_NAME@ {
        Some((Slot::Registration, Slot::CompetitionCategory))
    } else if name == RANKING_CHANNEL_NAME@ {
        Some((Slot::Ranking, Slot::CompetitionCategory))
    } else if name == VERSIONS_AND_CHARMS_CHANNEL_NAME@ {
        Some((Slot::VersionsAndCharms, Slot::CompetitionCategory))
    } else if name == BOT_RETURN_CHANNEL_NAME@ {
        Some((Slot::BotReturn, Slot::GeneralCategory))
    } else if name == WELCOME_CHANNEL_NAME@ {
        Some((Slot::Welcome, Slot::GeneralCategory))
    } else if name == GENERAL_CHANNEL_NAME@ {
        Some((Slot::General, Slot::GeneralCategory))
    } else if name == RULES_CHANNEL_NAME@ {
        Some((Slot::Rules, Slot::GeneralCategory))
    } else {
        None
    }
}

/// The voice channels of the bot, each with the category it belongs in.
pub open spec fn voice_slot_spec(name: Seq<char>) -> Option<(Slot, Slot)> {
    if name == MODERATION_VOCAL_CONVERSATION_CHANNEL_NAME@ {
        Some((Slot::ModerationVocal, Slot::ModerationCategory))
    } else if name == GENERAL_VOCAL_CHANNEL_NAME@ {
        Some((Slot::GeneralVocal, Slot::GeneralCategory))
    } else {
        None
    }
}

/// The forum channel of the bot with the category it belongs in.
pub open spec fn forum_slot_spec(name: Seq<char>) -> Option<(Slot, Slot)> {
    if name == FAQ_CHANNEL_NAME@ {
        Some((Slot::Faq, Slot::CompetitionCategory))
    } else {
        None
    }
}

/// The slot a channel of this kind and name would fill, with its category.
pub open spec fn channel_slot_spec(kind: ChannelKind, name: Seq<char>) -> Option<(Slot, Slot)> {
    match kind {
        ChannelKind::Text => text_slot_spec(name),
        ChannelKind::Voice => voice_slot_spec(name),
        ChannelKind::Forum => forum_slot_spec(name),
        _ => None,
    }
}

/// What a channel tells about the bot's channels: one of the bot's channels, if it
/// sits in a category and that category is the one recorded for the slot.
pub open spec fn channel_claim(ch: ChannelInfo) -> Option<Claim> {
    match (channel_slot_spec(ch.kind, ch.name@), ch.parent_id) {
        (Some(sc), Some(p)) => Some(Claim { slot: sc.0, under: Some((sc.1, p)), id: ch.id }),
        _ => None,
    }
}

pub open spec fn role_slot_spec(name: Seq<char>) -> Option<Slot> {
    if name == ADMIN_ROLE_NAME@ {
        Some(Slot::AdminRole)
    } else if name == MODERATION_ROLE_NAME@ {
        Some(Slot::ModeratorRole)
    } else if name == HOST_ROLE_NAME@ {
        Some(Slot::HostRole)
    } else if name == REGISTERED_ROLE_NAME@ {
        Some(Slot::RegisteredRole)
    } else if name == VERIFIED_ROLE_NAME@ {
        Some(Slot::VerifiedRole)
    } else {
        None
    }
}

pub open spec fn role_claim(r: RoleInfo) -> Option<Claim> {
    match role_slot_spec(r.name@) {
        Some(s) => Some(Claim { slot: s, under: None, id: r.id }),
        None => None,
    }
}

pub open spec fn category_claims(chs: Seq<ChannelInfo>) -> Seq<Option<Claim>> {
    chs.map_values(|ch: ChannelInfo| category_claim(ch))
}

pub open spec fn channel_claims(chs: Seq<ChannelInfo>) -> Seq<Option<Claim>> {
    chs.map_values(|ch: ChannelInfo| channel_claim(ch))
}

pub open spec fn role_claims(rs: Seq<RoleInfo>) -> Seq<Option<Claim>> {
    rs.map_values(|r: RoleInfo| role_claim(r))
}

/// Whether the three categories are tracked, which the channel scan needs.
pub open spec fn categories_tracked(m: Seq<Option<u64>>) -> bool {
    &&& m.len() == 27
    &&& found(m, Slot::ModerationCategory) is Some
    &&& found(m, Slot::GeneralCategory) is Some
    &&& found(m, Slot::CompetitionCategory) is Some
}

fn category_slot(name: &str) -> (res: Option<Slot>)
    ensures
        res == category_slot_spec(name@),
{
    if str_eq(name, GENERAL_CATEGORY_NAME) {
        Some(Slot::GeneralCategory)
    } else if str_eq(name, MODERATION_CATEGORY_NAME) {
        Some(Slot::ModerationCategory)
    } else if str_eq(name, COMPETITION_CATEGORY_NAME) {
        Some(Slot::CompetitionCategory)
    } else {
        None
    }
}

fn text_slot(name: &str) -> (res: Option<(Slot, Slot)>)
    ensures
        res == text_slot_spec(name@),
{
    if str_eq(name, WAITING_VALIDATION_CHANNEL_NAME) {
        Some((Slot::WaitingValidation, Slot::ModerationCategory))
    } else if str_eq(name, PROBLEMATIC_PLAYERS_CHANNEL_NAME) {
        Some((Slot::ProblematicPlayers, Slot::ModerationCategory))
    } else if str_eq(name, MODERATION_CONVERSATION_CHANNEL_NAME) {
        Some((Slot::ModerationConversation, Slot::ModerationCategory))
    } else if str_eq(name, BAN_AND_EXCLUSION_CHANNEL_NAME) {
        Some((Slot::BanAndExclusion, Slot::ModerationCategory))
    } else if str_eq(name, VALIDATED_CAPTURES_CHANNEL_NAME) {
        Some((Slot::ValidatedCaptures, Slot::CompetitionCategory))
    } else if str_eq(name, RULES_AND_INFOS_CHANNEL_NAME) {
        Some((Slot::RulesAndInfos, Slot::CompetitionCategory))
    } else if str_eq(name, COMPETITION_ANNOUNCES_CHANNEL_NAME) {
        Some((Slot::CompetitionAnnounces, Slot::CompetitionCategory))
    } else if str_eq(name, TEAM_CREATION_CHANNEL_NAME) {
        Some((Slot::TeamCreation, Slot::CompetitionCategory))
    } else if str_eq(name, REGISTRATION_CHANNEL_NAME) {
        Some((Slot::Registration, Slot::CompetitionCategory))
    } else if str_eq(name, RANKING_CHANNEL_NAME) {
        Some((Slot::Ranking, Slot::CompetitionCategory))
    } else if str_eq(name, VERSIONS_AND_CHARMS_CHANNEL_NAME) {
        Some((Slot::VersionsAndCharms, Slot::CompetitionCategory))
    } else if str_eq(name, BOT_RETURN_CHANNEL_NAME) {
        Some((Slot::BotReturn, Slot::GeneralCategory))
    } else if str_eq(name, WELCOME_CHANNEL_NAME) {
        Some((Slot::Welcome, Slot::GeneralCategory))
    } else if str_eq(name, GENERAL_CHANNEL_NAME) {
        Some((Slot::General, Slot::GeneralCategory))
    } else if str_eq(name, RULES_CHANNEL_NAME) {
        Some((Slot::Rules, Slot::GeneralCategory))
    } else {
        None
    }
}

fn channel_slot(kind: ChannelKind, name: &str) -> (res: Option<(Slot, Slot)>)
    ensures
        res == channel_slot_spec(kind, name@),
{
    match kind {
        ChannelKind::Text => text_slot(name),
        ChannelKind::Voice => {
            if str_eq(name, MODERATION_VOCAL_CONVERSATION_CHANNEL_NAME) {
                Some((Slot::ModerationVocal, Slot::ModerationCategory))
            } else if str_eq(name, GENERAL_VOCAL_CHANNEL_NAME) {
                Some((Slot::GeneralVocal, Slot::GeneralCategory))
            } else {
                None
            }
        },
        ChannelKind::Forum => {
            if str_eq(name, FAQ_CHANNEL_NAME) {
                Some((Slot::Faq, Slot::CompetitionCategory))
            } else {
                None
            }
        },
        _ => None,
    }
}

fn role_slot(name: &str) -> (res: Option<Slot>)
    ensures
        res == role_slot_spec(name@),
{
    if str_eq(name, ADMIN_ROLE_NAME) {
        Some(Slot::AdminRole)
    } else if str_eq(name, MODERATION_ROLE_NAME) {
        Some(Slot::ModeratorRole)
    } else if str_eq(name, HOST_ROLE_NAME) {
        Some(Slot::HostRole)
    } else if str_eq(name, REGISTERED_ROLE_NAME) {
        Some(Slot::RegisteredRole)
    } else if str_eq(name, VERIFIED_ROLE_NAME) {
        Some(Slot::VerifiedRole)
    } else {
        None
    }
}

/// Records the bot's categories found among the server's channels; a later channel
/// of the same name wins.
pub fn get_categories_existance(channels: &Vec<ChannelInfo>, map: Founds) -> (res: Founds)
    ensures
        res@ == apply_claims(map@, category_claims(channels@)),
{
    let mut map = map;
    let mut i: usize = 0;
    let ghost m0 = map@;
    let ghost claims = category_claims(channels@);
    assert(claims.take(0) =~= Seq::<Option<Claim>>::empty());
    while i < channels.len()
        invariant
            claims == category_claims(channels@),
            i <= channels@.len(),
            map@ == apply_claims(m0, claims.take(i as int)),
        decreases channels.len() - i,
    {
        let ch = &channels[i];
        assert(claims.take(i + 1).drop_last() =~= claims.take(i as int));
        assert(claims.take(i + 1).last() == category_claim(channels@[i as int]));
        match ch.kind {
            ChannelKind::Category => {
                match category_slot(ch.name.as_str()) {
                    Some(s) => {
                        map.insert(s, ch.id);
                    },
                    None => {},
                }
            },
            _ => {},
        }
        i = i + 1;
    }
    assert(claims.take(channels@.len() as int) =~= claims);
    map
}

/// Records the bot's channels found on the server: a text, voice or forum channel
/// of one of the bot's names counts when it sits in the category recorded for it.
pub fn get_channels_existance(channels: &Vec<ChannelInfo>, map: Founds) -> (res: Founds)
    requires
        categories_tracked(map@),
    ensures
        res@ == apply_claims(map@, channel_claims(channels@)),
{
    let mut map = map;
    let mut i: usize = 0;
    let ghost m0 = map@;
    let ghost claims = channel_claims(channels@);
    assert(claims.take(0) =~= Seq::<Option<Claim>>::empty());
    while i < channels.len()
        invariant
            claims == channel_claims(channels@),
            i <= channels@.len(),
            map@ == apply_claims(m0, claims.take(i as int)),
            categories_tracked(m0),
            categories_same(map@, m0),
        decreases channels.len() - i,
    {
        let ch = &channels[i];
        assert(claims.take(i + 1).drop_last() =~= claims.take(i as int));
        assert(claims.take(i + 1).last() == channel_claim(channels@[i as int]));
        match ch.parent_id {
            Some(p) => {
                match channel_slot(ch.kind, ch.name.as_str()) {
                    Some((s, cat)) => {
                        proof {
                            lemma_channel_slot_placed(ch.kind, ch.name@);
                        }
                        let recorded = map.get(cat);
                        match recorded {
                            Some(c) => {
                                if p == c {
                                    map.insert(s, ch.id);
                                }
                            },
                            None => {
                                proof {
                                    assert(false);
                                }
                            },
                        }
                    },
                    None => {},
                }
            },
            None => {},
        }
        i = i + 1;
    }
    assert(claims.take(channels@.len() as int) =~= claims);
    map
}

/// Records the bot's roles found among the server's roles.
pub fn get_roles_existance(roles: &Vec<RoleInfo>, map: Founds) -> (res: Founds)
    ensures
        res@ == apply_claims(map@, role_claims(roles@)),
{
    let mut map = map;
    let mut i: usize = 0;
    let ghost m0 = map@;
    let ghost claims = role_claims(roles@);
    assert(claims.take(0) =~= Seq::<Option<Claim>>::empty());
    while i < roles.len()
        invariant
            claims == role_claims(roles@),
            i <= roles@.len(),
            map@ == apply_claims(m0, claims.take(i as int)),
        decreases roles.len() - i,
    {
        let r = &roles[i];
        assert(claims.take(i + 1).drop_last() =~= claims.take(i as int));
        assert(claims.take(i + 1).last() == role_claim(roles@[i as int]));
        match role_slot(r.name.as_str()) {
            Some(s) => {
                map.insert(s, r.id);
            },
            None => {},
        }
        i = i + 1;
    }
    assert(claims.take(roles@.len() as int) =~= claims);
    map
}

// ---------------------------------------------------------------------------
// What the scans keep
// ---------------------------------------------------------------------------

pub open spec fn categories_same(a: Seq<Option<u64>>, b: Seq<Option<u64>>) -> bool {
    &&& a.len() == b.len()
    &&& found(a, Slot::ModerationCategory) == found(b, Slot::ModerationCategory)
    &&& found(a, Slot::GeneralCategory) == found(b, Slot::GeneralCategory)
    &&& found(a, Slot::CompetitionCategory) == found(b, Slot::CompetitionCategory)
}

/// Whether every claim that depends on a category depends on one, and is about a
/// slot that is no category: what the channel scan's claims are.
pub open spec fn claims_well_placed(claims: Seq<Option<Claim>>) -> bool {
    forall|k: int|
        0 <= k < claims.len() ==> (#[trigger] claims[k] matches Some(c) ==> (!is_category_slot(c.slot) && match c.under {
            Some(u) => is_category_slot(u.0),
            None => true,
        }))
}

/// Whether no claim depends on anything: what the category and role scans' claims are.
pub open spec fn claims_unconditional(claims: Seq<Option<Claim>>) -> bool {
    forall|k: int| 0 <= k < claims.len() ==> (#[trigger] claims[k] matches Some(c) ==> c.under is None)
}

/// Whether every claim is about a slot satisfying `class`.
pub open spec fn claims_about(claims: Seq<Option<Claim>>, class: spec_fn(Slot) -> bool) -> bool {
    forall|k: int| 0 <= k < claims.len() ==> (#[trigger] claims[k] matches Some(c) ==> class(c.slot))
}

/// The id of the last claim for slot `i` that holds, if any.
pub open spec fn last_claim(m: Seq<Option<u64>>, claims: Seq<Option<Claim>>, i: int) -> Option<u64>
    decreases claims.len(),
{
    if claims.len() == 0 {
        None
    } else {
        match claims.last() {
            Some(c) => if slot_index(c.slot) == i && claim_holds(m, c) {
                Some(c.id)
            } else {
                last_claim(m, claims.drop_last(), i)
            },
            None => last_claim(m, claims.drop_last(), i),
        }
    }
}

proof fn lemma_claims_prefix(claims: Seq<Option<Claim>>, class: spec_fn(Slot) -> bool)
    requires
        claims.len() > 0,
    ensures
        claims_well_placed(claims) ==> claims_well_placed(claims.drop_last()),
        claims_unconditional(claims) ==> claims_unconditional(claims.drop_last()),
        claims_about(claims, class) ==> claims_about(claims.drop_last(), class),
{
    assert forall|k: int| 0 <= k < claims.drop_last().len() implies #[trigger] claims.drop_last()[k]
        == claims[k] by {}
}

/// Under claims that are well placed or unconditional, whether a claim holds is the
/// same on the table the scan starts from and on every table it goes through; so
/// each slot ends with the id of its last claim that holds, if any, and otherwise
/// keeps what it had.
proof fn lemma_apply_claims_shape(m: Seq<Option<u64>>, claims: Seq<Option<Claim>>)
    requires
        m.len() == 27,
        claims_well_placed(claims) || claims_unconditional(claims),
    ensures
        apply_claims(m, claims).len() == 27,
        claims_well_placed(claims) ==> categories_same(apply_claims(m, claims), m),
        forall|i: int|
            0 <= i < 27 ==> #[trigger] apply_claims(m, claims)[i] == match last_claim(m, claims, i) {
                Some(id) => Some(id),
                None => m[i],
            },
    decreases claims.len(),
{
    if claims.len() > 0 {
        lemma_claims_prefix(claims, |s: Slot| true);
        lemma_apply_claims_shape(m, claims.drop_last());
        let before = apply_claims(m, claims.drop_last());
        let last = claims.last();
        assert(claims[claims.len() - 1] == last);
        match last {
            Some(c) => {
                if claims_well_placed(claims) {
                    assert(claim_holds(before, c) == claim_holds(m, c)) by {
                        match c.under {
                            Some(u) => {
                                assert(is_category_slot(u.0));
                            },
                            None => {},
                        }
                    }
                    assert(!is_category_slot(c.slot));
                } else {
                    assert(c.under is None);
                }
            },
            None => {},
        }
    }
}

proof fn lemma_last_claim_same(m1: Seq<Option<u64>>, m2: Seq<Option<u64>>, claims: Seq<Option<Claim>>, i: int)
    requires
        (claims_well_placed(claims) && categories_same(m1, m2)) || claims_unconditional(claims),
    ensures
        last_claim(m1, claims, i) == last_claim(m2, claims, i),
    decreases claims.len(),
{
    if claims.len() > 0 {
        lemma_claims_prefix(claims, |s: Slot| true);
        lemma_last_claim_same(m1, m2, claims.drop_last(), i);
        let last = claims.last();
        assert(claims[claims.len() - 1] == last);
        match last {
            Some(c) => {
                match c.under {
                    Some(u) => {
                        if claims_well_placed(claims) && categories_same(m1, m2) {
                            assert(is_category_slot(u.0));
                        }
                    },
                    None => {},
                }
            },
            None => {},
        }
    }
}

/// A slot that no claim is about gets no id from them.
proof fn lemma_last_claim_none(m: Seq<Option<u64>>, claims: Seq<Option<Claim>>, s: Slot, class: spec_fn(Slot) -> bool)
    requires
        claims_about(claims, class),
        forall|t: Slot| #[trigger] class(t) ==> slot_index(t) != slot_index(s),
    ensures
        last_claim(m, claims, slot_index(s)) is None,
    decreases claims.len(),
{
    if claims.len() > 0 {
        lemma_claims_prefix(claims, class);
        lemma_last_claim_none(m, claims.drop_last(), s, class);
        assert(claims[claims.len() - 1] == claims.last());
    }
}

proof fn lemma_apply_claims_idempotent(m: Seq<Option<u64>>, claims: Seq<Option<Claim>>)
    requires
        m.len() == 27,
        claims_well_placed(claims) || claims_unconditional(claims),
    ensures
        apply_claims(apply_claims(m, claims), claims) == apply_claims(m, claims),
{
    let once = apply_claims(m, claims);
    lemma_apply_claims_shape(m, claims);
    lemma_apply_claims_shape(once, claims);
    assert forall|i: int| 0 <= i < 27 implies #[trigger] apply_claims(once, claims)[i] == once[i] by {
        lemma_last_claim_same(once, m, claims, i);
    }
    assert(apply_claims(once, claims) =~= once);
}

/// A channel of the bot never fills a category, and the slot it is checked
/// against is always a category.
proof fn lemma_channel_slot_placed(kind: ChannelKind, name: Seq<char>)
    ensures
        match channel_slot_spec(kind, name) {
            Some(sc) => !is_category_slot(sc.0) && is_category_slot(sc.1) && is_channel_slot(sc.0),
            None => true,
        },
{
}

proof fn lemma_channel_claims_well_placed(chs: Seq<ChannelInfo>)
    ensures
        claims_well_placed(channel_claims(chs)),
        claims_about(channel_claims(chs), |s: Slot| is_channel_slot(s)),
{
    let claims = channel_claims(chs);
    assert forall|k: int| 0 <= k < claims.len() implies (#[trigger] claims[k] matches Some(c) ==> (
    !is_category_slot(c.slot) && match c.under {
        Some(u) => is_category_slot(u.0),
        None => true,
    })) by {
        lemma_channel_slot_placed(chs[k].kind, chs[k].name@);
    }
    assert forall|k: int| 0 <= k < claims.len() implies (#[trigger] claims[k] matches Some(c) ==> (
    |s: Slot| is_channel_slot(s))(c.slot)) by {
        lemma_channel_slot_placed(chs[k].kind, chs[k].name@);
    }
}

proof fn lemma_category_claims_shape(chs: Seq<ChannelInfo>)
    ensures
        claims_unconditional(category_claims(chs)),
        claims_about(category_claims(chs), |s: Slot| is_category_slot(s)),
{
}

proof fn lemma_role_claims_shape(rs: Seq<RoleInfo>)
    ensures
        claims_unconditional(role_claims(rs)),
        claims_about(role_claims(rs), |s: Slot| is_role_slot(s)),
{
}

// ---------------------------------------------------------------------------
// Laws of the scans
// ---------------------------------------------------------------------------

/// Scanning the same channels for categories a second time changes nothing.
pub proof fn law_category_scan_idempotent(m: Seq<Option<u64>>, chs: Seq<ChannelInfo>)
    requires
        m.len() == 27,
    ensures
        apply_claims(apply_claims(m, category_claims(chs)), category_claims(chs)) == apply_claims(
            m,
            category_claims(chs),
        ),
{
    lemma_category_claims_shape(chs);
    lemma_apply_claims_idempotent(m, category_claims(chs));
}

/// Scanning the same channels for the bot's channels a second time changes nothing.
pub proof fn law_channel_scan_idempotent(m: Seq<Option<u64>>, chs: Seq<ChannelInfo>)
    requires
        m.len() == 27,
    ensures
        apply_claims(apply_claims(m, channel_claims(chs)), channel_claims(chs)) == apply_claims(
            m,
            channel_claims(chs),
        ),
{
    lemma_channel_claims_well_placed(chs);
    lemma_apply_claims_idempotent(m, channel_claims(chs));
}

/// Scanning the same roles a second time changes nothing.
pub proof fn law_role_scan_idempotent(m: Seq<Option<u64>>, rs: Seq<RoleInfo>)
    requires
        m.len() == 27,
    ensures
        apply_claims(apply_claims(m, role_claims(rs)), role_claims(rs)) == apply_claims(
            m,
            role_claims(rs),
        ),
{
    lemma_role_claims_shape(rs);
    lemma_apply_claims_idempotent(m, role_claims(rs));
}

/// The category scan records categories only.
pub proof fn law_category_scan_touches_categories_only(m: Seq<Option<u64>>, chs: Seq<ChannelInfo>, s: Slot)
    requires
        m.len() == 27,
        !is_category_slot(s),
    ensures
        found(apply_claims(m, category_claims(chs)), s) == found(m, s),
{
    let claims = category_claims(chs);
    lemma_category_claims_shape(chs);
    lemma_apply_claims_shape(m, claims);
    lemma_last_claim_none(m, claims, s, |t: Slot| is_category_slot(t));
    assert(apply_claims(m, claims)[slot_index(s)] == m[slot_index(s)]);
}

/// The channel scan records the bot's channels only: categories and roles keep
/// what they had.
pub proof fn law_channel_scan_touches_channels_only(m: Seq<Option<u64>>, chs: Seq<ChannelInfo>, s: Slot)
    requires
        m.len() == 27,
        !is_channel_slot(s),
    ensures
        found(apply_claims(m, channel_claims(chs)), s) == found(m, s),
{
    let claims = channel_claims(chs);
    lemma_channel_claims_well_placed(chs);
    lemma_apply_claims_shape(m, claims);
    lemma_last_claim_none(m, claims, s, |t: Slot| is_channel_slot(t));
    assert(apply_claims(m, claims)[slot_index(s)] == m[slot_index(s)]);
}

/// The role scan records roles only.
pub proof fn law_role_scan_touches_roles_only(m: Seq<Option<u64>>, rs: Seq<RoleInfo>, s: Slot)
    requires
        m.len() == 27,
        !is_role_slot(s),
    ensures
        found(apply_claims(m, role_claims(rs)), s) == found(m, s),
{
    let claims = role_claims(rs);
    lemma_role_claims_shape(rs);
    lemma_apply_claims_shape(m, claims);
    lemma_last_claim_none(m, claims, s, |t: Slot| is_role_slot(t));
    assert(apply_claims(m, claims)[slot_index(s)] == m[slot_index(s)]);
}

/// When a claim about slot `i` holds and no claim carries the id 0, slot `i`
/// gets an id other than 0.
proof fn lemma_last_claim_found(m: Seq<Option<u64>>, claims: Seq<Option<Claim>>, i: int, k: int)
    requires
        0 <= k < claims.len(),
        claims[k] matches Some(c) && slot_index(c.slot) == i && claim_holds(m, c),
        forall|j: int| 0 <= j < claims.len() ==> (#[trigger] claims[j] matches Some(d) ==> d.id != 0),
    ensures
        last_claim(m, claims, i) matches Some(id) && id != 0,
    decreases claims.len(),
{
    assert(claims[claims.len() - 1] == claims.last());
    if k < claims.len() - 1 {
        match claims.last() {
            Some(c) => {
                if !(slot_index(c.slot) == i && claim_holds(m, c)) {
                    assert forall|j: int| 0 <= j < claims.drop_last().len() implies (
                    #[trigger] claims.drop_last()[j] matches Some(d) ==> d.id != 0) by {
                        assert(claims.drop_last()[j] == claims[j]);
                    }
                    assert(claims.drop_last()[k] == claims[k]);
                    lemma_last_claim_found(m, claims.drop_last(), i, k);
                }
            },
            None => {
                assert forall|j: int| 0 <= j < claims.drop_last().len() implies (
                #[trigger] claims.drop_last()[j] matches Some(d) ==> d.id != 0) by {
                    assert(claims.drop_last()[j] == claims[j]);
                }
                assert(claims.drop_last()[k] == claims[k]);
                lemma_last_claim_found(m, claims.drop_last(), i, k);
            },
        }
    }
}

/// A channel of the bot that sits in the category recorded for it is found by the
/// channel scan (Discord ids are never 0), so the setup fetches it instead of
/// creating it again.
pub proof fn law_existing_channel_is_found(m: Seq<Option<u64>>, chs: Seq<ChannelInfo>, k: int)
    requires
        m.len() == 27,
        0 <= k < chs.len(),
        forall|j: int| 0 <= j < chs.len() ==> (#[trigger] chs[j]).id != 0,
        channel_claim(chs[k]) matches Some(c) && claim_holds(m, c),
    ensures
        channel_claim(chs[k]) matches Some(c) && (found(apply_claims(m, channel_claims(chs)), c.slot) matches Some(
            id,
        ) && id != 0),
{
    let claims = channel_claims(chs);
    let c = channel_claim(chs[k])->0;
    lemma_channel_claims_well_placed(chs);
    lemma_apply_claims_shape(m, claims);
    assert forall|j: int| 0 <= j < claims.len() implies (#[trigger] claims[j] matches Some(d) ==> d.id != 0) by {
        assert(claims[j] == channel_claim(chs[j]));
    }
    assert(claims[k] == channel_claim(chs[k]));
    lemma_last_claim_found(m, claims, slot_index(c.slot), k);
    assert(apply_claims(m, claims)[slot_index(c.slot)] == match last_claim(m, claims, slot_index(c.slot)) {
        Some(id) => Some(id),
        None => m[slot_index(c.slot)],
    });
}

/// A category of the bot's names is found by the category scan.
pub proof fn law_existing_category_is_found(m: Seq<Option<u64>>, chs: Seq<ChannelInfo>, k: int)
    requires
        m.len() == 27,
        0 <= k < chs.len(),
        forall|j: int| 0 <= j < chs.len() ==> (#[trigger] chs[j]).id != 0,
        category_claim(chs[k]) is Some,
    ensures
        found(apply_claims(m, category_claims(chs)), category_claim(chs[k])->0.slot) matches Some(id) && id != 0,
{
    let claims = category_claims(chs);
    let c = category_claim(chs[k])->0;
    lemma_category_claims_shape(chs);
    lemma_apply_claims_shape(m, claims);
    assert forall|j: int| 0 <= j < claims.len() implies (#[trigger] claims[j] matches Some(d) ==> d.id != 0) by {
        assert(claims[j] == category_claim(chs[j]));
    }
    assert(claims[k] == category_claim(chs[k]));
    lemma_last_claim_found(m, claims, slot_index(c.slot), k);
    assert(apply_claims(m, claims)[slot_index(c.slot)] == match last_claim(m, claims, slot_index(c.slot)) {
        Some(id) => Some(id),
        None => m[slot_index(c.slot)],
    });
}

/// A role of one of the bot's names is found by the role scan, so the setup looks
/// it up instead of creating it again.
pub proof fn law_existing_role_is_found(m: Seq<Option<u64>>, rs: Seq<RoleInfo>, k: int)
    requires
        m.len() == 27,
        0 <= k < rs.len(),
        forall|j: int| 0 <= j < rs.len() ==> (#[trigger] rs[j]).id != 0,
        role_claim(rs[k]) is Some,
    ensures
        found(apply_claims(m, role_claims(rs)), role_claim(rs[k])->0.slot) matches Some(id) && id != 0,
{
    let claims = role_claims(rs);
    let c = role_claim(rs[k])->0;
    lemma_role_claims_shape(rs);
    lemma_apply_claims_shape(m, claims);
    assert forall|j: int| 0 <= j < claims.len() implies (#[trigger] claims[j] matches Some(d) ==> d.id != 0) by {
        assert(claims[j] == role_claim(rs[j]));
    }
    assert(claims[k] == role_claim(rs[k]));
    lemma_last_claim_found(m, claims, slot_index(c.slot), k);
    assert(apply_claims(m, claims)[slot_index(c.slot)] == match last_claim(m, claims, slot_index(c.slot)) {
        Some(id) => Some(id),
        None => m[slot_index(c.slot)],
    });
}

/// A slot that is tracked stays tracked through any scan: scans only record ids.
pub proof fn law_scans_keep_slots_tracked(m: Seq<Option<u64>>, claims: Seq<Option<Claim>>, s: Slot)
    requires
        m.len() == 27,
        found(m, s) is Some,
    ensures
        apply_claims(m, claims).len() == 27,
        found(apply_claims(m, claims), s) is Some,
    decreases claims.len(),
{
    if claims.len() > 0 {
        law_scans_keep_slots_tracked(m, claims.drop_last(), s);
    }
}

// ---------------------------------------------------------------------------
// A server that already holds everything
// ---------------------------------------------------------------------------

/// The slot at a position of the table.
pub open spec fn slot_at(i: int) -> Slot {
    if i == 0 { Slot::ModerationCategory }
    else if i == 1 { Slot::WaitingValidation }
    else if i == 2 { Slot::ProblematicPlayers }
    else if i == 3 { Slot::BanAndExclusion }
    else if i == 4 { Slot::ModerationConversation }
    else if i == 5 { Slot::ModerationVocal }
    else if i == 6 { Slot::GeneralCategory }
    else if i == 7 { Slot::CompetitionCategory }
    else if i == 8 { Slot::RulesAndInfos }
    else if i == 9 { Slot::CompetitionAnnounces }
    else if i == 10 { Slot::Ranking }
    else if i == 11 { Slot::ValidatedCaptures }
    else if i == 12 { Slot::Registration }
    else if i == 13 { Slot::VersionsAndCharms }
    else if i == 14 { Slot::TeamCreation }
    else if i == 15 { Slot::AdminRole }
    else if i == 16 { Slot::ModeratorRole }
    else if i == 17 { Slot::HostRole }
    else if i == 18 { Slot::VerifiedRole }
    else if i == 19 { Slot::RegisteredRole }
    else if i == 20 { Slot::Faq }
    else if i == 21 { Slot::BotReturn }
    else if i == 22 { Slot::GeneralVocal }
    else if i == 23 { Slot::General }
    else if i == 24 { Slot::Rules }
    else if i == 25 { Slot::Welcome }
    else { Slot::EveryoneRole }
}

proof fn lemma_slot_at(i: int)
    requires
        0 <= i < 27,
    ensures
        slot_index(slot_at(i)) == i,
{
}

/// The categories the category scan records from the server's channels, starting
/// from the setup's initial table.
pub open spec fn category_table(chs: Seq<ChannelInfo>) -> Seq<Option<u64>> {
    apply_claims(new_founds_spec(), category_claims(chs))
}

/// What the two channel scans record from the server's channels, categories first:
/// what the setup does before planning and again once it has built everything.
pub open spec fn rescan(m: Seq<Option<u64>>, chs: Seq<ChannelInfo>) -> Seq<Option<u64>> {
    apply_claims(apply_claims(m, category_claims(chs)), channel_claims(chs))
}

/// The table the setup plans from: the three scans run on the initial table.
pub open spec fn scanned_table(chs: Seq<ChannelInfo>, rs: Seq<RoleInfo>) -> Seq<Option<u64>> {
    apply_claims(rescan(new_founds_spec(), chs), role_claims(rs))
}

/// Whether the server holds everything the setup makes: a category of each of the
/// bot's category names, each of the bot's channels sitting in the category of its
/// name that the scan records, and a role of each of the bot's role names (Discord
/// ids are never 0).
pub open spec fn server_holds_everything(chs: Seq<ChannelInfo>, rs: Seq<RoleInfo>) -> bool {
    &&& forall|j: int| 0 <= j < chs.len() ==> (#[trigger] chs[j]).id != 0
    &&& forall|j: int| 0 <= j < rs.len() ==> (#[trigger] rs[j]).id != 0
    &&& forall|s: Slot|
        #[trigger] is_category_slot(s) ==> exists|k: int|
            0 <= k < chs.len() && (#[trigger] category_claim(chs[k]) matches Some(c) && c.slot == s)
    &&& forall|s: Slot|
        #[trigger] is_channel_slot(s) ==> exists|k: int|
            0 <= k < chs.len() && (#[trigger] channel_claim(chs[k]) matches Some(c) && c.slot == s
                && claim_holds(category_table(chs), c))
    &&& forall|s: Slot|
        #[trigger] is_role_slot(s) && s != Slot::EveryoneRole ==> exists|k: int|
            0 <= k < rs.len() && (#[trigger] role_claim(rs[k]) matches Some(c) && c.slot == s)
}

/// Whether every slot the setup creates or fills is recorded with a real id.
pub open spec fn setup_complete(m: Seq<Option<u64>>) -> bool {
    forall|s: Slot| s != Slot::EveryoneRole ==> (#[trigger] found(m, s) matches Some(id) && id != 0)
}

/// On a server that holds everything, the channel scans record the same category
/// and channel ids whatever table they start from.
proof fn lemma_rescan_records_server(m: Seq<Option<u64>>, chs: Seq<ChannelInfo>, rs: Seq<RoleInfo>, s: Slot)
    requires
        m.len() == 27,
        server_holds_everything(chs, rs),
        !is_role_slot(s),
    ensures
        rescan(m, chs).len() == 27,
        found(rescan(m, chs), s) == found(rescan(new_founds_spec(), chs), s),
        found(rescan(m, chs), s) matches Some(id) && id != 0,
{
    let n = new_founds_spec();
    let catc = category_claims(chs);
    let chc = channel_claims(chs);
    let cm = apply_claims(m, catc);
    let cn = apply_claims(n, catc);
    assert(n.len() == 27);
    lemma_category_claims_shape(chs);
    lemma_channel_claims_well_placed(chs);
    lemma_apply_claims_shape(m, catc);
    lemma_apply_claims_shape(n, catc);
    lemma_apply_claims_shape(cm, chc);
    lemma_apply_claims_shape(cn, chc);
    assert forall|t: Slot| is_category_slot(t) implies found(cm, t) == found(cn, t) && (found(cn, t) matches Some(
        id,
    ) && id != 0) by {
        let k = choose|k: int|
            0 <= k < chs.len() && (#[trigger] category_claim(chs[k]) matches Some(c) && c.slot == t);
        law_existing_category_is_found(n, chs, k);
        law_existing_category_is_found(m, chs, k);
        lemma_last_claim_same(m, n, catc, slot_index(t));
    }
    assert(categories_same(cm, cn)) by {
        assert(is_category_slot(Slot::ModerationCategory));
        assert(is_category_slot(Slot::GeneralCategory));
        assert(is_category_slot(Slot::CompetitionCategory));
    }
    if is_category_slot(s) {
        law_channel_scan_touches_channels_only(cm, chs, s);
        law_channel_scan_touches_channels_only(cn, chs, s);
    } else {
        assert(is_channel_slot(s));
        let k = choose|k: int|
            0 <= k < chs.len() && (#[trigger] channel_claim(chs[k]) matches Some(c) && c.slot == s
                && claim_holds(category_table(chs), c));
        law_existing_channel_is_found(cn, chs, k);
        lemma_last_claim_same(cm, cn, chc, slot_index(s));
        law_category_scan_touches_categories_only(n, chs, s);
        assert(found(cn, s) == Some(0u64));
    }
}

/// On a server that holds everything, the scans record every slot of the setup
/// with a real id; and the channel scans, run again from any table that agrees
/// with what they recorded on the categories and channels, give that table back,
/// whatever the roles hold. Whatever table they start from, they record the
/// categories and channels the first scans recorded.
pub proof fn law_rescan_of_complete_server(chs: Seq<ChannelInfo>, rs: Seq<RoleInfo>, m: Seq<Option<u64>>)
    requires
        server_holds_everything(chs, rs),
        m.len() == 27,
        forall|s: Slot| !is_role_slot(s) ==> #[trigger] found(m, s) == found(scanned_table(chs, rs), s),
    ensures
        setup_complete(scanned_table(chs, rs)),
        rescan(m, chs) == m,
        forall|m2: Seq<Option<u64>>, s: Slot|
            m2.len() == 27 && !is_role_slot(s) ==> #[trigger] found(rescan(m2, chs), s) == found(
                scanned_table(chs, rs),
                s,
            ),
{
    let n = new_founds_spec();
    let rn = rescan(n, chs);
    let sc = scanned_table(chs, rs);
    assert(n.len() == 27);
    lemma_rescan_records_server(n, chs, rs, Slot::ModerationCategory);
    assert forall|m2: Seq<Option<u64>>, s: Slot|
        m2.len() == 27 && !is_role_slot(s) implies #[trigger] found(rescan(m2, chs), s) == found(sc, s) by {
        lemma_rescan_records_server(m2, chs, rs, s);
        law_role_scan_touches_roles_only(rn, rs, s);
    }
    assert forall|s: Slot| s != Slot::EveryoneRole implies (#[trigger] found(sc, s) matches Some(id) && id != 0) by {
        if is_role_slot(s) {
            let k = choose|k: int| 0 <= k < rs.len() && (#[trigger] role_claim(rs[k]) matches Some(c) && c.slot == s);
            law_existing_role_is_found(rn, rs, k);
        } else {
            lemma_rescan_records_server(n, chs, rs, s);
            law_role_scan_touches_roles_only(rn, rs, s);
        }
    }
    let r = rescan(m, chs);
    lemma_rescan_records_server(m, chs, rs, Slot::ModerationCategory);
    assert forall|i: int| 0 <= i < 27 implies #[trigger] r[i] == m[i] by {
        let s = slot_at(i);
        lemma_slot_at(i);
        if is_role_slot(s) {
            law_category_scan_touches_categories_only(m, chs, s);
            lemma_category_claims_shape(chs);
            lemma_apply_claims_shape(m, category_claims(chs));
            law_channel_scan_touches_channels_only(apply_claims(m, category_claims(chs)), chs, s);
            assert(found(r, s) == found(m, s));
        } else {
            assert(found(r, s) == found(sc, s));
            assert(found(m, s) == found(sc, s));
        }
        assert(found(r, s) == r[i]);
    }
    assert(r =~= m);
}

// ---------------------------------------------------------------------------
// The server's record
// ---------------------------------------------------------------------------

/// Whether the server's features hold the one that makes it a community server,
/// which the setup needs.
pub fn is_community(features: &Vec<String>) -> (res: bool)
    ensures
        res == exists|k: int| 0 <= k < features@.len() && #[trigger] features@[k]@ == "COMMUNITY"@,
{
    let mut i: usize = 0;
    while i < features.len()
        invariant
            i <= features@.len(),
            forall|k: int| 0 <= k < i ==> #[trigger] features@[k]@ != "COMMUNITY"@,
        decreases features.len() - i,
    {
        if str_eq(features[i].as_str(), "COMMUNITY") {
            assert(features@[i as int]@ == "COMMUNITY"@);
            return true;
        }
        i = i + 1;
    }
    false
}

/// What the setup saves about a server: its id and those of the bot's roles,
/// categories and registration channel, each in decimal.
pub struct ServerRecord {
    pub guild_id: String,
    pub admin_role_id: String,
    pub moderator_role_id: String,
    pub host_role_id: String,
    pub registered_role_id: String,
    pub moderation_category_id: String,
    pub competition_category_id: String,
    pub registration_channel_id: String,
}

/// The slots whose ids the server's record keeps.
pub open spec fn recorded_slots_tracked(m: Seq<Option<u64>>) -> bool {
    &&& found(m, Slot::AdminRole) is Some
    &&& found(m, Slot::ModeratorRole) is Some
    &&& found(m, Slot::HostRole) is Some
    &&& found(m, Slot::RegisteredRole) is Some
    &&& found(m, Slot::ModerationCategory) is Some
    &&& found(m, Slot::CompetitionCategory) is Some
    &&& found(m, Slot::Registration) is Some
}

pub open spec fn recorded_id(m: Seq<Option<u64>>, s: Slot) -> Seq<char> {
    decimal_spec(found(m, s)->0 as nat)
}

fn recorded(founds: &Founds, s: Slot) -> (res: String)
    requires
        found(founds@, s) is Some,
    ensures
        res@ == recorded_id(founds@, s),
{
    match founds.get(s) {
        Some(id) => u64_to_decimal(id),
        None => String::new(),
    }
}

/// The record the setup saves for a server once everything exists.
pub fn server_record(guild_id: u64, founds: &Founds) -> (res: ServerRecord)
    requires
        recorded_slots_tracked(founds@),
    ensures
        res.guild_id@ == decimal_spec(guild_id as nat),
        res.admin_role_id@ == recorded_id(founds@, Slot::AdminRole),
        res.moderator_role_id@ == recorded_id(founds@, Slot::ModeratorRole),
        res.host_role_id@ == recorded_id(founds@, Slot::HostRole),
        res.registered_role_id@ == recorded_id(founds@, Slot::RegisteredRole),
        res.moderation_category_id@ == recorded_id(founds@, Slot::ModerationCategory),
        res.competition_category_id@ == recorded_id(founds@, Slot::CompetitionCategory),
        res.registration_channel_id@ == recorded_id(founds@, Slot::Registration),
{
    ServerRecord {
        guild_id: u64_to_decimal(guild_id),
        admin_role_id: recorded(founds, Slot::AdminRole),
        moderator_role_id: recorded(founds, Slot::ModeratorRole),
        host_role_id: recorded(founds, Slot::HostRole),
        registered_role_id: recorded(founds, Slot::RegisteredRole),
        moderation_category_id: recorded(founds, Slot::ModerationCategory),
        competition_category_id: recorded(founds, Slot::CompetitionCategory),
        registration_channel_id: recorded(founds, Slot::Registration),
    }
}

/// What the setup answers on a server that is not a community server.
pub const NOT_COMMUNITY_TITLE: &'static str = "Le serveur n'est pas \"communutaire\" !";
pub const NOT_COMMUNITY_DESCRIPTION: &'static str = "Rends toi dans les paramètres > Communauté pour l'activer.\nParamètre tout par défaut, puis reviens ici faire la commande /setup.";
pub const NOT_COMMUNITY_MORE_TITLE: &'static str = "Plus d'infos";
pub const NOT_COMMUNITY_MORE: &'static str = "Le salons **#règlement-du-serveur** et le salon **#discussions** pourrons selon ton souhait, servir de salon de substitution à ceux qui seront créés.\nLes salons ne sont pas remplacés affin de ne pas casser une éventuelle mise en place précédente.\nLes salons qui sont créés sont en revanche uniques par leur noms qui ne doit pas être modifié, et il n'est pas recommandé de les supprimer.";
/// What the setup answers while it works.
pub const SETUP_RUNNING_TITLE: &'static str = "Setup du serveur en cours...";
pub const SETUP_RUNNING_DESCRIPTION: &'static str = "Les catégories et les salons necessaires à la compétition sont en cours de création.";
/// What the setup answers once done.
pub const SETUP_DONE_TITLE: &'static str = "Setup du serveur terminé !";
pub const SETUP_DONE_DESCRIPTION: &'static str = "Les catégories et les salons necessaires à la compétition ont été créés avec succès.\nPour ajouter une édition, rends toi dans le salon #discussions puis tape la commande **/new_edition\nPour éditer les versions autorisées ou non fait la commande /version_setup.\nSi tu as fait une erreur de saisie, tu peux également modifier ou supprimer les dates avec :\n/edit_edition et /delete_edition. Le nom ne peut être changé.";
/// What the setup says when the server's record cannot be saved.
pub const SETUP_SAVE_FAILED: &'static str = "Erreur a l'insertion des informations discord pour le serveur ! Envoie un mail à contact.cgbots@gmail.com pour obtenir de l'aide.";

} // verus!
