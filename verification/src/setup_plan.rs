//! What the server setup creates: the bot's roles, its three categories and their
//! channels, with the permissions each of them grants, and the order the channels
//! are put in. Whatever the scans found is fetched, never created again.

use vstd::prelude::*;
use crate::constants::{
    ADMIN_ROLE_NAME, HOST_ROLE_NAME, MODERATION_ROLE_NAME, REGISTERED_ROLE_NAME,
    VERIFIED_ROLE_NAME,
};
use crate::setup_env::{
    channel_slot_spec, found, is_role_slot, law_rescan_of_complete_server, rescan, scanned_table,
    server_holds_everything, setup_complete, slot_index, slot_name, slot_name_spec, ChannelInfo,
    ChannelKind, Founds, RoleInfo, Slot,
};

verus! {

/// The Discord permissions the setup grants or denies.
#[derive(Clone, Copy, Debug, PartialEq, Eq)]
pub enum Perm {
    Administrator,
    ViewChannel,
    SendMessages,
    SendMessagesInThreads,
    CreatePublicThreads,
    ReadMessageHistory,
    MentionEveryone,
    AddReactions,
    UseSlashCommands,
    Connect,
    Speak,
    Stream,
    UseVad,
    UseEmbeddedActivities,
    MoveMembers,
    MuteMembers,
    DeafenMembers,
    KickMembers,
    BanMembers,
    ModerateMembers,
    ChangeNickname,
    ManageMessages,
    ManageThreads,
    PrioritySpeaker,
    ManageNicknames,
}

/// The sets of permissions the setup uses.
#[derive(Clone, Copy, Debug, PartialEq, Eq)]
pub enum PermSet {
    Nothing,
    /// Every permission Discord knows.
    Everything,
    Waiting,
    Staff,
    StaffVoice,
    VoiceGuest,
    ModerationView,
    SendOnly,
    ViewSend,
    GeneralVoice,
    ViewOnly,
    Announce,
    Faq,
    Register,
    HostPost,
    ReadOnly,
    AdminRole,
    ModeratorRole,
    HostRole,
    SpeakOnly,
    HostCategory,
    ViewSendRead,
    ViewSendManageRead,
    FirstHostRole,
}

pub open spec fn perm_set_spec(set: PermSet) -> Seq<Perm> {
    match set {
        PermSet::Nothing => seq![],
        PermSet::Everything => seq![],
        PermSet::Waiting => seq![
            Perm::ViewChannel,
            Perm::MentionEveryone,
            Perm::AddReactions,
            Perm::ReadMessageHistory,
            Perm::UseSlashCommands,
        ],
        PermSet::Staff => seq![
            Perm::ViewChannel,
            Perm::MentionEveryone,
            Perm::AddReactions,
            Perm::ReadMessageHistory,
            Perm::UseSlashCommands,
            Perm::SendMessages,
        ],
        PermSet::StaffVoice => seq![
            Perm::ViewChannel,
            Perm::MentionEveryone,
            Perm::AddReactions,
            Perm::ReadMessageHistory,
            Perm::UseSlashCommands,
            Perm::SendMessages,
            Perm::Connect,
            Perm::MoveMembers,
            Perm::MuteMembers,
            Perm::KickMembers,
            Perm::DeafenMembers,
            Perm::Speak,
            Perm::Stream,
        ],
        PermSet::VoiceGuest => seq![
            Perm::AddReactions,
            Perm::ReadMessageHistory,
            Perm::UseSlashCommands,
            Perm::SendMessages,
            Perm::Speak,
            Perm::Stream,
        ],
        PermSet::ModerationView => seq![Perm::ViewChannel, Perm::MentionEveryone],
        PermSet::SendOnly => seq![Perm::SendMessages],
        PermSet::ViewSend => seq![Perm::ViewChannel, Perm::SendMessages],
        PermSet::GeneralVoice => seq![
            Perm::ViewChannel,
            Perm::SendMessages,
            Perm::Connect,
            Perm::Stream,
            Perm::Speak,
            Perm::UseEmbeddedActivities,
            Perm::UseVad,
        ],
        PermSet::ViewOnly => seq![Perm::ViewChannel],
        PermSet::Announce => seq![Perm::ViewChannel, Perm::SendMessages, Perm::MentionEveryone],
        PermSet::Faq => seq![
            Perm::ViewChannel,
            Perm::SendMessages,
            Perm::SendMessagesInThreads,
            Perm::CreatePublicThreads,
        ],
        PermSet::Register => seq![
            Perm::ViewChannel,
            Perm::SendMessages,
            Perm::ReadMessageHistory,
            Perm::UseSlashCommands,
        ],
        PermSet::HostPost => seq![
            Perm::ViewChannel,
            Perm::SendMessages,
            Perm::ReadMessageHistory,
            Perm::MentionEveryone,
        ],
        PermSet::ReadOnly => seq![Perm::ViewChannel, Perm::ReadMessageHistory],
        PermSet::AdminRole => seq![Perm::Administrator],
        PermSet::ModeratorRole => seq![
            Perm::ModerateMembers,
            Perm::ViewChannel,
            Perm::MentionEveryone,
            Perm::BanMembers,
            Perm::ChangeNickname,
            Perm::Connect,
            Perm::DeafenMembers,
            Perm::ManageMessages,
            Perm::KickMembers,
            Perm::MuteMembers,
            Perm::PrioritySpeaker,
            Perm::ReadMessageHistory,
            Perm::MoveMembers,
            Perm::SendMessages,
            Perm::SendMessagesInThreads,
            Perm::ManageThreads,
            Perm::UseSlashCommands,
        ],
        PermSet::HostRole => seq![
            Perm::ModerateMembers,
            Perm::MentionEveryone,
            Perm::ChangeNickname,
            Perm::PrioritySpeaker,
            Perm::ReadMessageHistory,
            Perm::MoveMembers,
            Perm::SendMessages,
            Perm::SendMessagesInThreads,
            Perm::UseSlashCommands,
        ],
        PermSet::SpeakOnly => seq![Perm::Speak],
        PermSet::HostCategory => seq![
            Perm::ViewChannel,
            Perm::SendMessages,
            Perm::ReadMessageHistory,
            Perm::MoveMembers,
            Perm::Speak,
            Perm::Connect,
        ],
        PermSet::ViewSendRead => seq![Perm::ViewChannel, Perm::SendMessages, Perm::ReadMessageHistory],
        PermSet::ViewSendManageRead => seq![
            Perm::ViewChannel,
            Perm::SendMessages,
            Perm::ManageMessages,
            Perm::ReadMessageHistory,
        ],
        PermSet::FirstHostRole => seq![
            Perm::ManageNicknames,
            Perm::DeafenMembers,
            Perm::ManageMessages,
            Perm::ViewChannel,
            Perm::KickMembers,
            Perm::MentionEveryone,
            Perm::MuteMembers,
            Perm::MoveMembers,
            Perm::ModerateMembers,
            Perm::ReadMessageHistory,
            Perm::Connect,
            Perm::Speak,
            Perm::Stream,
        ],
    }
}

/// The permissions of a set, or `None` for `Everything`, which stands for every
/// permission Discord knows rather than for a list.
pub fn perm_set_members(set: PermSet) -> (res: Option<Vec<Perm>>)
    ensures
        match res {
            None => set == PermSet::Everything,
            Some(v) => set != PermSet::Everything && v@ == perm_set_spec(set),
        },
{
    let v: Vec<Perm> = match set {
        PermSet::Everything => {
            return None;
        },
        PermSet::Nothing => vec![],
        PermSet::Waiting => vec![
            Perm::ViewChannel,
            Perm::MentionEveryone,
            Perm::AddReactions,
            Perm::ReadMessageHistory,
            Perm::UseSlashCommands,
        ],
        PermSet::Staff => vec![
            Perm::ViewChannel,
            Perm::MentionEveryone,
            Perm::AddReactions,
            Perm::ReadMessageHistory,
            Perm::UseSlashCommands,
            Perm::SendMessages,
        ],
        PermSet::StaffVoice => vec![
            Perm::ViewChannel,
            Perm::MentionEveryone,
            Perm::AddReactions,
            Perm::ReadMessageHistory,
            Perm::UseSlashCommands,
            Perm::SendMessages,
            Perm::Connect,
            Perm::MoveMembers,
            Perm::MuteMembers,
            Perm::KickMembers,
            Perm::DeafenMembers,
            Perm::Speak,
            Perm::Stream,
        ],
        PermSet::VoiceGuest => vec![
            Perm::AddReactions,
            Perm::ReadMessageHistory,
            Perm::UseSlashCommands,
            Perm::SendMessages,
            Perm::Speak,
            Perm::Stream,
        ],
        PermSet::ModerationView => vec![Perm::ViewChannel, Perm::MentionEveryone],
        PermSet::SendOnly => vec![Perm::SendMessages],
        PermSet::ViewSend => vec![Perm::ViewChannel, Perm::SendMessages],
        PermSet::GeneralVoice => vec![
            Perm::ViewChannel,
            Perm::SendMessages,
            Perm::Connect,
            Perm::Stream,
            Perm::Speak,
            Perm::UseEmbeddedActivities,
            Perm::UseVad,
        ],
        PermSet::ViewOnly => vec![Perm::ViewChannel],
        PermSet::Announce => vec![Perm::ViewChannel, Perm::SendMessages, Perm::MentionEveryone],
        PermSet::Faq => vec![
            Perm::ViewChannel,
            Perm::SendMessages,
            Perm::SendMessagesInThreads,
            Perm::CreatePublicThreads,
        ],
        PermSet::Register => vec![
            Perm::ViewChannel,
            Perm::SendMessages,
            Perm::ReadMessageHistory,
            Perm::UseSlashCommands,
        ],
        PermSet::HostPost => vec![
            Perm::ViewChannel,
            Perm::SendMessages,
            Perm::ReadMessageHistory,
            Perm::MentionEveryone,
        ],
        PermSet::ReadOnly => vec![Perm::ViewChannel, Perm::ReadMessageHistory],
        PermSet::AdminRole => vec![Perm::Administrator],
        PermSet::ModeratorRole => vec![
            Perm::ModerateMembers,
            Perm::ViewChannel,
            Perm::MentionEveryone,
            Perm::BanMembers,
            Perm::ChangeNickname,
            Perm::Connect,
            Perm::DeafenMembers,
            Perm::ManageMessages,
            Perm::KickMembers,
            Perm::MuteMembers,
            Perm::PrioritySpeaker,
            Perm::ReadMessageHistory,
            Perm::MoveMembers,
            Perm::SendMessages,
            Perm::SendMessagesInThreads,
            Perm::ManageThreads,
            Perm::UseSlashCommands,
        ],
        PermSet::HostRole => vec![
            Perm::ModerateMembers,
            Perm::MentionEveryone,
            Perm::ChangeNickname,
            Perm::PrioritySpeaker,
            Perm::ReadMessageHistory,
            Perm::MoveMembers,
            Perm::SendMessages,
            Perm::SendMessagesInThreads,
            Perm::UseSlashCommands,
        ],
        PermSet::SpeakOnly => vec![Perm::Speak],
        PermSet::HostCategory => vec![
            Perm::ViewChannel,
            Perm::SendMessages,
            Perm::ReadMessageHistory,
            Perm::MoveMembers,
            Perm::Speak,
            Perm::Connect,
        ],
        PermSet::ViewSendRead => vec![Perm::ViewChannel, Perm::SendMessages, Perm::ReadMessageHistory],
        PermSet::ViewSendManageRead => vec![
            Perm::ViewChannel,
            Perm::SendMessages,
            Perm::ManageMessages,
            Perm::ReadMessageHistory,
        ],
        PermSet::FirstHostRole => vec![
            Perm::ManageNicknames,
            Perm::DeafenMembers,
            Perm::ManageMessages,
            Perm::ViewChannel,
            Perm::KickMembers,
            Perm::MentionEveryone,
            Perm::MuteMembers,
            Perm::MoveMembers,
            Perm::ModerateMembers,
            Perm::ReadMessageHistory,
            Perm::Connect,
            Perm::Speak,
            Perm::Stream,
        ],
    };
    assert(v@ =~= perm_set_spec(set));
    Some(v)
}

/// One permission overwrite of a channel or category: what a role is granted and
/// denied there.
#[derive(Clone, Copy, Debug, PartialEq, Eq)]
pub struct Overwrite {
    pub allow: PermSet,
    pub deny: PermSet,
    pub role: Slot,
}

pub open spec fn ow(allow: PermSet, deny: PermSet, role: Slot) -> Overwrite {
    Overwrite { allow, deny, role }
}

fn make_ow(allow: PermSet, deny: PermSet, role: Slot) -> (res: Overwrite)
    ensures
        res == ow(allow, deny, role),
{
    Overwrite { allow, deny, role }
}

/// Everything is denied to the role.
pub open spec fn shut(role: Slot) -> Overwrite {
    ow(PermSet::Nothing, PermSet::Everything, role)
}

fn make_shut(role: Slot) -> (res: Overwrite)
    ensures
        res == shut(role),
{
    make_ow(PermSet::Nothing, PermSet::Everything, role)
}

/// The permission overwrites a category or channel of the bot is created with.
pub open spec fn overwrites_spec(s: Slot) -> Seq<Overwrite> {
    match s {
        Slot::ModerationCategory => seq![
            ow(PermSet::ModerationView, PermSet::SendOnly, Slot::ModeratorRole),
            shut(Slot::EveryoneRole),
            shut(Slot::VerifiedRole),
            shut(Slot::RegisteredRole),
        ],
        Slot::WaitingValidation => seq![
            ow(PermSet::Waiting, PermSet::Nothing, Slot::HostRole),
            shut(Slot::RegisteredRole),
            shut(Slot::VerifiedRole),
            shut(Slot::EveryoneRole),
        ],
        Slot::ProblematicPlayers | Slot::BanAndExclusion | Slot::ModerationConversation => seq![
            ow(PermSet::Staff, PermSet::Nothing, Slot::HostRole),
            ow(PermSet::Staff, PermSet::Nothing, Slot::ModeratorRole),
            shut(Slot::RegisteredRole),
            shut(Slot::VerifiedRole),
            shut(Slot::EveryoneRole),
        ],
        Slot::ModerationVocal => seq![
            ow(PermSet::StaffVoice, PermSet::Nothing, Slot::HostRole),
            ow(PermSet::StaffVoice, PermSet::Nothing, Slot::ModeratorRole),
            ow(PermSet::VoiceGuest, PermSet::Everything, Slot::EveryoneRole),
            shut(Slot::RegisteredRole),
            shut(Slot::VerifiedRole),
            shut(Slot::EveryoneRole),
        ],
        Slot::GeneralCategory | Slot::CompetitionCategory => seq![
            ow(PermSet::Everything, PermSet::Everything, Slot::EveryoneRole),
        ],
        Slot::Welcome => seq![shut(Slot::EveryoneRole)],
        Slot::Rules | Slot::General | Slot::BotReturn => seq![
            ow(PermSet::ViewSend, PermSet::Everything, Slot::EveryoneRole),
        ],
        Slot::GeneralVocal => seq![ow(PermSet::GeneralVoice, PermSet::Everything, Slot::EveryoneRole)],
        Slot::RulesAndInfos | Slot::Ranking | Slot::ValidatedCaptures => seq![
            ow(PermSet::ViewOnly, PermSet::Everything, Slot::EveryoneRole),
        ],
        Slot::CompetitionAnnounces => seq![
            ow(PermSet::ViewOnly, PermSet::Everything, Slot::EveryoneRole),
            ow(PermSet::Announce, PermSet::Everything, Slot::HostRole),
        ],
        Slot::Faq => seq![ow(PermSet::Faq, PermSet::Everything, Slot::EveryoneRole)],
        Slot::Registration => seq![
            ow(PermSet::Register, PermSet::Everything, Slot::EveryoneRole),
            ow(PermSet::HostPost, PermSet::Everything, Slot::HostRole),
            shut(Slot::RegisteredRole),
            shut(Slot::VerifiedRole),
        ],
        Slot::VersionsAndCharms => seq![
            ow(PermSet::ReadOnly, PermSet::Everything, Slot::RegisteredRole),
            ow(PermSet::HostPost, PermSet::Everything, Slot::HostRole),
            shut(Slot::VerifiedRole),
            shut(Slot::EveryoneRole),
        ],
        Slot::TeamCreation => seq![
            ow(PermSet::Register, PermSet::Everything, Slot::VerifiedRole),
            ow(PermSet::HostPost, PermSet::Everything, Slot::HostRole),
            shut(Slot::RegisteredRole),
            shut(Slot::EveryoneRole),
        ],
        _ => seq![],
    }
}

/// The permission overwrites a category or channel of the bot is created with
/// (none for a role).
pub fn overwrites(s: Slot) -> (res: Vec<Overwrite>)
    ensures
        res@ == overwrites_spec(s),
{
    let v: Vec<Overwrite> = match s {
        Slot::ModerationCategory => vec![
            make_ow(PermSet::ModerationView, PermSet::SendOnly, Slot::ModeratorRole),
            make_shut(Slot::EveryoneRole),
            make_shut(Slot::VerifiedRole),
            make_shut(Slot::RegisteredRole),
        ],
        Slot::WaitingValidation => vec![
            make_ow(PermSet::Waiting, PermSet::Nothing, Slot::HostRole),
            make_shut(Slot::RegisteredRole),
            make_shut(Slot::VerifiedRole),
            make_shut(Slot::EveryoneRole),
        ],
        Slot::ProblematicPlayers | Slot::BanAndExclusion | Slot::ModerationConversation => vec![
            make_ow(PermSet::Staff, PermSet::Nothing, Slot::HostRole),
            make_ow(PermSet::Staff, PermSet::Nothing, Slot::ModeratorRole),
            make_shut(Slot::RegisteredRole),
            make_shut(Slot::VerifiedRole),
            make_shut(Slot::EveryoneRole),
        ],
        Slot::ModerationVocal => vec![
            make_ow(PermSet::StaffVoice, PermSet::Nothing, Slot::HostRole),
            make_ow(PermSet::StaffVoice, PermSet::Nothing, Slot::ModeratorRole),
            make_ow(PermSet::VoiceGuest, PermSet::Everything, Slot::EveryoneRole),
            make_shut(Slot::RegisteredRole),
            make_shut(Slot::VerifiedRole),
            make_shut(Slot::EveryoneRole),
        ],
        Slot::GeneralCategory | Slot::CompetitionCategory => vec![
            make_ow(PermSet::Everything, PermSet::Everything, Slot::EveryoneRole),
        ],
        Slot::Welcome => vec![make_shut(Slot::EveryoneRole)],
        Slot::Rules | Slot::General | Slot::BotReturn => vec![
            make_ow(PermSet::ViewSend, PermSet::Everything, Slot::EveryoneRole),
        ],
        Slot::GeneralVocal => vec![make_ow(PermSet::GeneralVoice, PermSet::Everything, Slot::EveryoneRole)],
        Slot::RulesAndInfos | Slot::Ranking | Slot::ValidatedCaptures => vec![
            make_ow(PermSet::ViewOnly, PermSet::Everything, Slot::EveryoneRole),
        ],
        Slot::CompetitionAnnounces => vec![
            make_ow(PermSet::ViewOnly, PermSet::Everything, Slot::EveryoneRole),
            make_ow(PermSet::Announce, PermSet::Everything, Slot::HostRole),
        ],
        Slot::Faq => vec![make_ow(PermSet::Faq, PermSet::Everything, Slot::EveryoneRole)],
        Slot::Registration => vec![
            make_ow(PermSet::Register, PermSet::Everything, Slot::EveryoneRole),
            make_ow(PermSet::HostPost, PermSet::Everything, Slot::HostRole),
            make_shut(Slot::RegisteredRole),
            make_shut(Slot::VerifiedRole),
        ],
        Slot::VersionsAndCharms => vec![
            make_ow(PermSet::ReadOnly, PermSet::Everything, Slot::RegisteredRole),
            make_ow(PermSet::HostPost, PermSet::Everything, Slot::HostRole),
            make_shut(Slot::VerifiedRole),
            make_shut(Slot::EveryoneRole),
        ],
        Slot::TeamCreation => vec![
            make_ow(PermSet::Register, PermSet::Everything, Slot::VerifiedRole),
            make_ow(PermSet::HostPost, PermSet::Everything, Slot::HostRole),
            make_shut(Slot::RegisteredRole),
            make_shut(Slot::EveryoneRole),
        ],
        _ => vec![],
    };
    assert(v@ =~= overwrites_spec(s));
    v
}

// ---------------------------------------------------------------------------
// Roles
// ---------------------------------------------------------------------------

/// What the setup does about one of its roles.
#[derive(Clone, Copy, Debug, PartialEq, Eq)]
pub enum RoleStep {
    /// The role exists: take the server's role of this name.
    Lookup { slot: Slot, name: &'static str },
    /// The role was not found: create it.
    Create { slot: Slot, name: &'static str, permissions: PermSet, colour: u32 },
}

/// The roles the setup creates or looks up, in the order it handles them.
pub open spec fn setup_roles_spec() -> Seq<Slot> {
    seq![Slot::AdminRole, Slot::ModeratorRole, Slot::HostRole, Slot::VerifiedRole, Slot::RegisteredRole]
}

pub open spec fn role_permissions_spec(s: Slot) -> PermSet {
    match s {
        Slot::AdminRole => PermSet::AdminRole,
        Slot::ModeratorRole => PermSet::ModeratorRole,
        Slot::HostRole => PermSet::HostRole,
        _ => PermSet::Nothing,
    }
}

pub open spec fn role_colour_spec(s: Slot) -> u32 {
    match s {
        Slot::AdminRole => 0x24aff9,
        Slot::ModeratorRole => 0xff191b,
        Slot::HostRole => 0xff5d47,
        Slot::VerifiedRole => 0x0a8800,
        Slot::RegisteredRole => 0x4f8342,
        _ => 0,
    }
}

/// The step for a role: created when the scan did not find it (id 0), looked up
/// by name otherwise.
pub open spec fn role_step_spec(s: Slot, found_id: u64) -> RoleStep {
    if found_id == 0 {
        RoleStep::Create {
            slot: s,
            name: slot_name_spec(s),
            permissions: role_permissions_spec(s),
            colour: role_colour_spec(s),
        }
    } else {
        RoleStep::Lookup { slot: s, name: slot_name_spec(s) }
    }
}

pub open spec fn roles_tracked(m: Seq<Option<u64>>) -> bool {
    forall|k: int| 0 <= k < setup_roles_spec().len() ==> found(m, #[trigger] setup_roles_spec()[k]) is Some
}

fn role_step(s: Slot, found_id: u64) -> (res: RoleStep)
    ensures
        res == role_step_spec(s, found_id),
{
    let name = slot_name(s);
    if found_id == 0 {
        let (permissions, colour) = match s {
            Slot::AdminRole => (PermSet::AdminRole, 0x24aff9u32),
            Slot::ModeratorRole => (PermSet::ModeratorRole, 0xff191bu32),
            Slot::HostRole => (PermSet::HostRole, 0xff5d47u32),
            Slot::VerifiedRole => (PermSet::Nothing, 0x0a8800u32),
            Slot::RegisteredRole => (PermSet::Nothing, 0x4f8342u32),
            _ => (PermSet::Nothing, 0u32),
        };
        RoleStep::Create { slot: s, name, permissions, colour }
    } else {
        RoleStep::Lookup { slot: s, name }
    }
}

/// What to do about each of the bot's roles, given what the role scan found.
pub fn role_steps(founds: &Founds) -> (res: Vec<RoleStep>)
    requires
        roles_tracked(founds@),
    ensures
        res@.len() == setup_roles_spec().len(),
        forall|k: int|
            0 <= k < res@.len() ==> #[trigger] res@[k] == role_step_spec(
                setup_roles_spec()[k],
                found(founds@, setup_roles_spec()[k])->0,
            ),
{
    let slots = vec![Slot::AdminRole, Slot::ModeratorRole, Slot::HostRole, Slot::VerifiedRole, Slot::RegisteredRole];
    assert(slots@ =~= setup_roles_spec());
    let mut res: Vec<RoleStep> = Vec::new();
    let mut i: usize = 0;
    while i < slots.len()
        invariant
            slots@ == setup_roles_spec(),
            roles_tracked(founds@),
            i <= slots@.len(),
            res@.len() == i,
            forall|k: int|
                0 <= k < i ==> #[trigger] res@[k] == role_step_spec(
                    setup_roles_spec()[k],
                    found(founds@, setup_roles_spec()[k])->0,
                ),
        decreases slots.len() - i,
    {
        let s = slots[i];
        assert(found(founds@, setup_roles_spec()[i as int]) is Some);
        let id = match founds.get(s) {
            Some(id) => id,
            None => 0,
        };
        res.push(role_step(s, id));
        i = i + 1;
    }
    res
}

/// The positions the roles are moved to, from the bottom: `@everyone`, then the
/// registered, verified, host, moderator and admin roles.
pub open spec fn role_positions_spec() -> Seq<(Slot, u64)> {
    seq![
        (Slot::EveryoneRole, 0),
        (Slot::RegisteredRole, 1),
        (Slot::VerifiedRole, 2),
        (Slot::HostRole, 3),
        (Slot::ModeratorRole, 4),
        (Slot::AdminRole, 5),
    ]
}

pub fn role_positions() -> (res: Vec<(Slot, u64)>)
    ensures
        res@ == role_positions_spec(),
{
    let v = vec![
        (Slot::EveryoneRole, 0u64),
        (Slot::RegisteredRole, 1u64),
        (Slot::VerifiedRole, 2u64),
        (Slot::HostRole, 3u64),
        (Slot::ModeratorRole, 4u64),
        (Slot::AdminRole, 5u64),
    ];
    assert(v@ =~= role_positions_spec());
    v
}

// ---------------------------------------------------------------------------
// Categories and channels
// ---------------------------------------------------------------------------

/// The three parts of the server the setup builds, each a category with its channels.
#[derive(Clone, Copy, Debug, PartialEq, Eq)]
pub enum Section {
    Moderation,
    General,
    Competition,
}

pub open spec fn section_category_spec(sec: Section) -> Slot {
    match sec {
        Section::Moderation => Slot::ModerationCategory,
        Section::General => Slot::GeneralCategory,
        Section::Competition => Slot::CompetitionCategory,
    }
}

/// The channels of a section, in the order the setup handles them.
pub open spec fn section_channels_spec(sec: Section) -> Seq<Slot> {
    match sec {
        Section::Moderation => seq![
            Slot::WaitingValidation,
            Slot::ProblematicPlayers,
            Slot::BanAndExclusion,
            Slot::ModerationConversation,
            Slot::ModerationVocal,
        ],
        Section::General => seq![
            Slot::BotReturn,
            Slot::GeneralVocal,
            Slot::General,
            Slot::Rules,
            Slot::Welcome,
        ],
        Section::Competition => seq![
            Slot::RulesAndInfos,
            Slot::CompetitionAnnounces,
            Slot::Ranking,
            Slot::ValidatedCaptures,
            Slot::Registration,
            Slot::VersionsAndCharms,
            Slot::TeamCreation,
            Slot::Faq,
        ],
    }
}

/// The kind of channel a slot is created as.
pub open spec fn channel_kind_spec(s: Slot) -> ChannelKind {
    match s {
        Slot::ModerationVocal | Slot::GeneralVocal => ChannelKind::Voice,
        Slot::Faq => ChannelKind::Forum,
        Slot::ModerationCategory | Slot::GeneralCategory | Slot::CompetitionCategory => ChannelKind::Category,
        _ => ChannelKind::Text,
    }
}

fn channel_kind(s: Slot) -> (res: ChannelKind)
    ensures
        res == channel_kind_spec(s),
{
    match s {
        Slot::ModerationVocal | Slot::GeneralVocal => ChannelKind::Voice,
        Slot::Faq => ChannelKind::Forum,
        Slot::ModerationCategory | Slot::GeneralCategory | Slot::CompetitionCategory => ChannelKind::Category,
        _ => ChannelKind::Text,
    }
}

/// The positions the channels of a section are put in once they all exist; the
/// general voice channel keeps its place. The competition's channels follow the
/// bot's documented layout: rules and infos, announces, ranking, validated
/// captures, FAQ, then the three numbered channels.
pub open spec fn section_order_spec(sec: Section) -> Seq<(Slot, u64)> {
    match sec {
        Section::Moderation => seq![
            (Slot::WaitingValidation, 0),
            (Slot::ProblematicPlayers, 1),
            (Slot::BanAndExclusion, 2),
            (Slot::ModerationConversation, 3),
            (Slot::ModerationVocal, 4),
        ],
        Section::General => seq![
            (Slot::Welcome, 0),
            (Slot::Rules, 1),
            (Slot::BotReturn, 3),
            (Slot::General, 4),
        ],
        Section::Competition => seq![
            (Slot::RulesAndInfos, 0),
            (Slot::CompetitionAnnounces, 1),
            (Slot::Ranking, 2),
            (Slot::ValidatedCaptures, 3),
            (Slot::Faq, 4),
            (Slot::Registration, 5),
            (Slot::VersionsAndCharms, 6),
            (Slot::TeamCreation, 7),
        ],
    }
}

pub fn section_order(sec: Section) -> (res: Vec<(Slot, u64)>)
    ensures
        res@ == section_order_spec(sec),
{
    let v = match sec {
        Section::Moderation => vec![
            (Slot::WaitingValidation, 0u64),
            (Slot::ProblematicPlayers, 1u64),
            (Slot::BanAndExclusion, 2u64),
            (Slot::ModerationConversation, 3u64),
            (Slot::ModerationVocal, 4u64),
        ],
        Section::General => vec![
            (Slot::Welcome, 0u64),
            (Slot::Rules, 1u64),
            (Slot::BotReturn, 3u64),
            (Slot::General, 4u64),
        ],
        Section::Competition => vec![
            (Slot::RulesAndInfos, 0u64),
            (Slot::CompetitionAnnounces, 1u64),
            (Slot::Ranking, 2u64),
            (Slot::ValidatedCaptures, 3u64),
            (Slot::Faq, 4u64),
            (Slot::Registration, 5u64),
            (Slot::VersionsAndCharms, 6u64),
            (Slot::TeamCreation, 7u64),
        ],
    };
    assert(v@ =~= section_order_spec(sec));
    v
}

fn section_channels(sec: Section) -> (res: Vec<Slot>)
    ensures
        res@ == section_channels_spec(sec),
{
    let v = match sec {
        Section::Moderation => vec![
            Slot::WaitingValidation,
            Slot::ProblematicPlayers,
            Slot::BanAndExclusion,
            Slot::ModerationConversation,
            Slot::ModerationVocal,
        ],
        Section::General => vec![
            Slot::BotReturn,
            Slot::GeneralVocal,
            Slot::General,
            Slot::Rules,
            Slot::Welcome,
        ],
        Section::Competition => vec![
            Slot::RulesAndInfos,
            Slot::CompetitionAnnounces,
            Slot::Ranking,
            Slot::ValidatedCaptures,
            Slot::Registration,
            Slot::VersionsAndCharms,
            Slot::TeamCreation,
            Slot::Faq,
        ],
    };
    assert(v@ =~= section_channels_spec(sec));
    v
}

/// Whether the category and the channels of a section are tracked.
pub open spec fn section_tracked(m: Seq<Option<u64>>, sec: Section) -> bool {
    &&& found(m, section_category_spec(sec)) is Some
    &&& forall|k: int|
        0 <= k < section_channels_spec(sec).len() ==> found(m, #[trigger] section_channels_spec(sec)[k]) is Some
}

/// What the setup does about a section's category.
pub enum CategoryStep {
    /// The category was found: its id.
    Existing(u64),
    /// The category was not found (id 0): create it.
    Create { slot: Slot, name: &'static str, overwrites: Vec<Overwrite> },
}

pub open spec fn category_step_ok(step: CategoryStep, s: Slot, found_id: u64) -> bool {
    match step {
        CategoryStep::Existing(id) => found_id != 0 && id == found_id,
        CategoryStep::Create { slot, name, overwrites } => found_id == 0 && slot == s && name
            == slot_name_spec(s) && overwrites@ == overwrites_spec(s),
    }
}

/// What to do about a section's category, given what the scans found.
pub fn category_step(sec: Section, founds: &Founds) -> (res: CategoryStep)
    requires
        found(founds@, section_category_spec(sec)) is Some,
    ensures
        category_step_ok(res, section_category_spec(sec), found(founds@, section_category_spec(sec))->0),
{
    let s = match sec {
        Section::Moderation => Slot::ModerationCategory,
        Section::General => Slot::GeneralCategory,
        Section::Competition => Slot::CompetitionCategory,
    };
    let id = match founds.get(s) {
        Some(id) => id,
        None => 0,
    };
    if id != 0 {
        CategoryStep::Existing(id)
    } else {
        CategoryStep::Create { slot: s, name: slot_name(s), overwrites: overwrites(s) }
    }
}

/// What the setup does about one channel of a section.
pub enum ChannelStep {
    /// The channel was found: fetch it by its id.
    Fetch { slot: Slot, id: u64 },
    /// The channel was not found (id 0): create it in the section's category.
    Create { slot: Slot, name: &'static str, kind: ChannelKind, parent: u64, overwrites: Vec<Overwrite> },
}

pub open spec fn channel_step_ok(step: ChannelStep, s: Slot, found_id: u64, parent: u64) -> bool {
    match step {
        ChannelStep::Fetch { slot, id } => found_id != 0 && slot == s && id == found_id,
        ChannelStep::Create { slot, name, kind, parent: p, overwrites } => found_id == 0 && slot == s
            && name == slot_name_spec(s) && kind == channel_kind_spec(s) && p == parent && overwrites@
            == overwrites_spec(s),
    }
}

/// What to do about each channel of a section, in the order of
/// `section_channels_spec`: a channel the scans found is fetched, never created
/// again; one they did not find is created under `parent`.
pub fn channel_steps(sec: Section, founds: &Founds, parent: u64) -> (res: Vec<ChannelStep>)
    requires
        section_tracked(founds@, sec),
    ensures
        res@.len() == section_channels_spec(sec).len(),
        forall|k: int|
            0 <= k < res@.len() ==> channel_step_ok(
                #[trigger] res@[k],
                section_channels_spec(sec)[k],
                found(founds@, section_channels_spec(sec)[k])->0,
                parent,
            ),
{
    let slots = section_channels(sec);
    let mut res: Vec<ChannelStep> = Vec::new();
    let mut i: usize = 0;
    while i < slots.len()
        invariant
            slots@ == section_channels_spec(sec),
            section_tracked(founds@, sec),
            i <= slots@.len(),
            res@.len() == i,
            forall|k: int|
                0 <= k < i ==> channel_step_ok(
                    #[trigger] res@[k],
                    section_channels_spec(sec)[k],
                    found(founds@, section_channels_spec(sec)[k])->0,
                    parent,
                ),
        decreases slots.len() - i,
    {
        let s = slots[i];
        assert(found(founds@, section_channels_spec(sec)[i as int]) is Some);
        let id = match founds.get(s) {
            Some(id) => id,
            None => 0,
        };
        let step = if id != 0 {
            ChannelStep::Fetch { slot: s, id }
        } else {
            ChannelStep::Create {
                slot: s,
                name: slot_name(s),
                kind: channel_kind(s),
                parent,
                overwrites: overwrites(s),
            }
        };
        res.push(step);
        i = i + 1;
    }
    res
}

/// A channel that the scans found is never created again: its step fetches it.
pub proof fn law_found_channel_is_fetched(step: ChannelStep, s: Slot, found_id: u64, parent: u64)
    requires
        channel_step_ok(step, s, found_id, parent),
        found_id != 0,
    ensures
        step == (ChannelStep::Fetch { slot: s, id: found_id }),
{
}

/// Once every role, category and channel of the setup is recorded with a real id
/// (as the scans record them when a first setup has created them all, see
/// `law_existing_channel_is_found` and its siblings), a second setup creates
/// nothing: each role is looked up, each category taken as it is, each channel
/// fetched.
pub proof fn law_second_setup_creates_nothing(m: Seq<Option<u64>>, parent: u64)
    requires
        setup_complete(m),
    ensures
        forall|k: int|
            0 <= k < setup_roles_spec().len() ==> (#[trigger] role_step_spec(
                setup_roles_spec()[k],
                found(m, setup_roles_spec()[k])->0,
            )) is Lookup,
        forall|sec: Section, step: CategoryStep|
            #[trigger] category_step_ok(step, section_category_spec(sec), found(m, section_category_spec(sec))->0)
                ==> step is Existing,
        forall|sec: Section, k: int, step: ChannelStep|
            0 <= k < section_channels_spec(sec).len() && #[trigger] channel_step_ok(
                step,
                section_channels_spec(sec)[k],
                found(m, section_channels_spec(sec)[k])->0,
                parent,
            ) ==> step is Fetch,
{
    assert forall|k: int| 0 <= k < setup_roles_spec().len() implies (#[trigger] role_step_spec(
        setup_roles_spec()[k],
        found(m, setup_roles_spec()[k])->0,
    )) is Lookup by {
        let s = setup_roles_spec()[k];
        assert(found(m, s) matches Some(id) && id != 0);
    }
    assert forall|sec: Section, step: CategoryStep|
        #[trigger] category_step_ok(step, section_category_spec(sec), found(m, section_category_spec(sec))->0)
        implies step is Existing by {
        assert(found(m, section_category_spec(sec)) matches Some(id) && id != 0);
    }
    assert forall|sec: Section, k: int, step: ChannelStep|
        0 <= k < section_channels_spec(sec).len() && #[trigger] channel_step_ok(
            step,
            section_channels_spec(sec)[k],
            found(m, section_channels_spec(sec)[k])->0,
            parent,
        ) implies step is Fetch by {
        let s = section_channels_spec(sec)[k];
        assert(s != Slot::EveryoneRole);
        assert(found(m, s) matches Some(id) && id != 0);
    }
}

/// A second `/setup` on a server that still holds every role, category and channel
/// of the setup, each channel in the category of its name, changes nothing: the
/// scans record every slot with a real id, so every role is looked up, every
/// category kept and every channel fetched, none created; and the scan after
/// building gives back the table the setup built from (`m`: the scanned table with
/// the roles and `@everyone` as looked up), so the record saved holds the ids the
/// server already had. Whatever table a setup's last scan starts from, it records
/// the same categories and channels.
pub proof fn law_second_setup_changes_nothing(
    chs: Seq<ChannelInfo>,
    rs: Seq<RoleInfo>,
    m: Seq<Option<u64>>,
    parent: u64,
)
    requires
        server_holds_everything(chs, rs),
        m.len() == 27,
        forall|s: Slot| !is_role_slot(s) ==> #[trigger] found(m, s) == found(scanned_table(chs, rs), s),
    ensures
        setup_complete(scanned_table(chs, rs)),
        forall|k: int|
            0 <= k < setup_roles_spec().len() ==> (#[trigger] role_step_spec(
                setup_roles_spec()[k],
                found(scanned_table(chs, rs), setup_roles_spec()[k])->0,
            )) is Lookup,
        forall|sec: Section, step: CategoryStep|
            #[trigger] category_step_ok(step, section_category_spec(sec), found(m, section_category_spec(sec))->0)
                ==> step is Existing,
        forall|sec: Section, k: int, step: ChannelStep|
            0 <= k < section_channels_spec(sec).len() && #[trigger] channel_step_ok(
                step,
                section_channels_spec(sec)[k],
                found(m, section_channels_spec(sec)[k])->0,
                parent,
            ) ==> step is Fetch,
        rescan(m, chs) == m,
        forall|m2: Seq<Option<u64>>, s: Slot|
            m2.len() == 27 && !is_role_slot(s) ==> #[trigger] found(rescan(m2, chs), s) == found(m, s),
{
    let sc = scanned_table(chs, rs);
    law_rescan_of_complete_server(chs, rs, m);
    law_second_setup_creates_nothing(sc, parent);
    assert forall|sec: Section, step: CategoryStep|
        #[trigger] category_step_ok(step, section_category_spec(sec), found(m, section_category_spec(sec))->0)
        implies step is Existing by {
        let c = section_category_spec(sec);
        assert(!is_role_slot(c));
        assert(found(m, c) == found(sc, c));
        assert(category_step_ok(step, c, found(sc, c)->0));
    }
    assert forall|sec: Section, k: int, step: ChannelStep|
        0 <= k < section_channels_spec(sec).len() && #[trigger] channel_step_ok(
            step,
            section_channels_spec(sec)[k],
            found(m, section_channels_spec(sec)[k])->0,
            parent,
        ) implies step is Fetch by {
        let c = section_channels_spec(sec)[k];
        assert(!is_role_slot(c));
        assert(found(m, c) == found(sc, c));
        assert(channel_step_ok(step, c, found(sc, c)->0, parent));
    }
    assert forall|m2: Seq<Option<u64>>, s: Slot|
        m2.len() == 27 && !is_role_slot(s) implies #[trigger] found(rescan(m2, chs), s) == found(m, s) by {
        assert(found(rescan(m2, chs), s) == found(sc, s));
    }
}

/// Every channel the setup creates is created with the kind under which the scan
/// recognises its name, in the category of its section: a later setup finds it
/// again (the voice channels are voice channels, the FAQ a forum, the others
/// text channels).
pub proof fn law_created_channels_are_recognised(sec: Section, k: int)
    requires
        0 <= k < section_channels_spec(sec).len(),
    ensures
        channel_slot_spec(
            channel_kind_spec(section_channels_spec(sec)[k]),
            slot_name_spec(section_channels_spec(sec)[k])@,
        ) == Some((section_channels_spec(sec)[k], section_category_spec(sec))),
{
    reveal_strlit("validations-en-attente");
    reveal_strlit("joueurs-a-problèmes");
    reveal_strlit("bans-et-exclusions");
    reveal_strlit("discussions");
    reveal_strlit("discussions-vocal");
    reveal_strlit("retour-bot");
    reveal_strlit("acceuil");
    reveal_strlit("général");
    reveal_strlit("vocal-général");
    reveal_strlit("règlement-du-serveur");
    reveal_strlit("règlement-et-infos");
    reveal_strlit("annonces");
    reveal_strlit("classement");
    reveal_strlit("captures-validées");
    reveal_strlit("1-inscriptions");
    reveal_strlit("2-infos-dresseur");
    reveal_strlit("3-constitution-des-équipes");
    reveal_strlit("faq-bot");
    assert("validations-en-attente"@.len() == 22 && "validations-en-attente"@[0] == 'v');
    assert("joueurs-a-problèmes"@.len() == 19 && "joueurs-a-problèmes"@[0] == 'j');
    assert("bans-et-exclusions"@.len() == 18 && "bans-et-exclusions"@[0] == 'b');
    assert("discussions"@.len() == 11 && "discussions"@[0] == 'd');
    assert("discussions-vocal"@.len() == 17 && "discussions-vocal"@[0] == 'd');
    assert("retour-bot"@.len() == 10 && "retour-bot"@[0] == 'r');
    assert("acceuil"@.len() == 7 && "acceuil"@[0] == 'a');
    assert("général"@.len() == 7 && "général"@[0] == 'g');
    assert("vocal-général"@.len() == 13 && "vocal-général"@[0] == 'v');
    assert("règlement-du-serveur"@.len() == 20 && "règlement-du-serveur"@[0] == 'r');
    assert("règlement-et-infos"@.len() == 18 && "règlement-et-infos"@[0] == 'r');
    assert("annonces"@.len() == 8 && "annonces"@[0] == 'a');
    assert("classement"@.len() == 10 && "classement"@[0] == 'c');
    assert("captures-validées"@.len() == 17 && "captures-validées"@[0] == 'c');
    assert("1-inscriptions"@.len() == 14 && "1-inscriptions"@[0] == '1');
    assert("2-infos-dresseur"@.len() == 16 && "2-infos-dresseur"@[0] == '2');
    assert("3-constitution-des-équipes"@.len() == 26 && "3-constitution-des-équipes"@[0] == '3');
    assert("faq-bot"@.len() == 7 && "faq-bot"@[0] == 'f');
}

/// A channel that `channel_steps` creates is one the channel scan of a later setup
/// recognises, under the category of its section.
pub proof fn law_created_step_is_recognised(sec: Section, k: int, step: ChannelStep, parent: u64)
    requires
        0 <= k < section_channels_spec(sec).len(),
        channel_step_ok(step, section_channels_spec(sec)[k], 0, parent),
    ensures
        step matches ChannelStep::Create { slot, name, kind, .. } && channel_slot_spec(kind, name@) == Some(
            (slot, section_category_spec(sec)),
        ),
{
    law_created_channels_are_recognised(sec, k);
}

} // verus!
