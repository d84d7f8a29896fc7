//! The first way the bot prepared a server, when an edition was created: roles
//! and categories looked up by name and created when missing, a moderation
//! category with its channels and one category per edition.

use vstd::prelude::*;
use crate::constants::{ADMIN_ROLE_NAME, HOST_ROLE_NAME, MODERATION_CATEGORY_NAME, REGISTERED_ROLE_NAME};
use crate::setup_env::{ChannelKind, Slot};
use crate::setup_plan::{Overwrite, PermSet, ow};
use crate::text::{owned, str_eq};

verus! {

/// The first item of `items` (name, id) whose name is `name`, as the bot searched
/// the server's roles and channels by name.
pub open spec fn first_named(items: Seq<(Seq<char>, u64)>, name: Seq<char>) -> Option<u64>
    decreases items.len(),
{
    if items.len() == 0 {
        None
    } else if items[0].0 == name {
        Some(items[0].1)
    } else {
        first_named(items.drop_first(), name)
    }
}

pub open spec fn named_views(items: Seq<(String, u64)>) -> Seq<(Seq<char>, u64)> {
    items.map_values(|it: (String, u64)| (it.0@, it.1))
}

/// Finds a role or channel by name: the id of the first item so named, in the
/// order given; `None` when none is.
pub fn find_by_name(items: &Vec<(String, u64)>, name: &str) -> (res: Option<u64>)
    ensures
        res == first_named(named_views(items@), name@),
{
    let ghost all = named_views(items@);
    let mut i: usize = 0;
    assert(all.skip(0) =~= all);
    while i < items.len()
        invariant
            all == named_views(items@),
            i <= items@.len(),
            first_named(all, name@) == first_named(all.skip(i as int), name@),
        decreases items.len() - i,
    {
        assert(all.skip(i as int)[0] == (items@[i as int].0@, items@[i as int].1));
        if str_eq(items[i].0.as_str(), name) {
            return Some(items[i].1);
        }
        assert(all.skip(i as int).drop_first() =~= all.skip(i + 1));
        i = i + 1;
    }
    assert(all.skip(i as int).len() == 0);
    None
}

/// A role of the first setup: found, or to create with these settings (shown
/// apart in the member list, mentionable, at the bottom of the list).
#[derive(Clone, Copy, Debug, PartialEq, Eq)]
pub enum FirstRoleStep {
    Existing(u64),
    Create { name: &'static str, colour: u64, permissions: PermSet },
}

pub open spec fn first_role_step_spec(role: Slot, found: Option<u64>) -> FirstRoleStep {
    match found {
        Some(id) => FirstRoleStep::Existing(id),
        None => match role {
            Slot::AdminRole => FirstRoleStep::Create {
                name: ADMIN_ROLE_NAME,
                colour: 0xff0000,
                permissions: PermSet::AdminRole,
            },
            Slot::HostRole => FirstRoleStep::Create {
                name: HOST_ROLE_NAME,
                colour: 0xff8000,
                permissions: PermSet::FirstHostRole,
            },
            _ => FirstRoleStep::Create {
                name: REGISTERED_ROLE_NAME,
                colour: 0x5E9A78,
                permissions: PermSet::Nothing,
            },
        },
    }
}

/// The step for the admin, host or registered role, given what the search by
/// name found.
pub fn first_role_step(role: Slot, found: Option<u64>) -> (res: FirstRoleStep)
    requires
        role == Slot::AdminRole || role == Slot::HostRole || role == Slot::RegisteredRole,
    ensures
        res == first_role_step_spec(role, found),
{
    match found {
        Some(id) => FirstRoleStep::Existing(id),
        None => match role {
            Slot::AdminRole => FirstRoleStep::Create {
                name: ADMIN_ROLE_NAME,
                colour: 0xff0000,
                permissions: PermSet::AdminRole,
            },
            Slot::HostRole => FirstRoleStep::Create {
                name: HOST_ROLE_NAME,
                colour: 0xff8000,
                permissions: PermSet::FirstHostRole,
            },
            _ => FirstRoleStep::Create {
                name: REGISTERED_ROLE_NAME,
                colour: 0x5E9A78,
                permissions: PermSet::Nothing,
            },
        },
    }
}

/// A channel the first setup creates in a new category.
pub struct FirstChannel {
    pub name: &'static str,
    pub kind: ChannelKind,
    pub overwrites: Vec<Overwrite>,
}

/// What the first setup does about a category: take the one found, or create it
/// with its overwrites and then its channels.
pub enum FirstCategoryStep {
    Existing(u64),
    Create { name: String, overwrites: Vec<Overwrite>, channels: Vec<FirstChannel> },
}

pub open spec fn first_channel_view(c: FirstChannel) -> (&'static str, ChannelKind, Seq<Overwrite>) {
    (c.name, c.kind, c.overwrites@)
}

pub open spec fn host_category_overwrites_spec() -> Seq<Overwrite> {
    seq![
        ow(PermSet::SpeakOnly, PermSet::Everything, Slot::EveryoneRole),
        ow(PermSet::HostCategory, PermSet::Nothing, Slot::HostRole),
    ]
}

pub open spec fn host_category_channels_spec() -> Seq<(&'static str, ChannelKind, Seq<Overwrite>)> {
    seq![
        ("Validation", ChannelKind::Text, seq![]),
        ("Discussions", ChannelKind::Text, seq![]),
        ("Commandes", ChannelKind::Text, seq![]),
        ("Discussions", ChannelKind::Voice, seq![]),
    ]
}

pub open spec fn category_step_matches(
    step: FirstCategoryStep,
    found: Option<u64>,
    name: Seq<char>,
    overwrites: Seq<Overwrite>,
    channels: Seq<(&'static str, ChannelKind, Seq<Overwrite>)>,
) -> bool {
    match found {
        Some(id) => step == FirstCategoryStep::Existing(id),
        None => match step {
            FirstCategoryStep::Create { name: n, overwrites: o, channels: c } => n@ == name && o@
                == overwrites && c@.map_values(|ch: FirstChannel| first_channel_view(ch)) == channels,
            _ => false,
        },
    }
}

fn plain_channel(name: &'static str, kind: ChannelKind) -> (res: FirstChannel)
    ensures
        first_channel_view(res) == (name, kind, Seq::<Overwrite>::empty()),
{
    FirstChannel { name, kind, overwrites: Vec::new() }
}

/// The moderation category of the first setup, given what the search for a
/// category of its name found.
pub fn host_category_step(found: Option<u64>) -> (res: FirstCategoryStep)
    ensures
        category_step_matches(
            res,
            found,
            MODERATION_CATEGORY_NAME@,
            host_category_overwrites_spec(),
            host_category_channels_spec(),
        ),
{
    match found {
        Some(id) => FirstCategoryStep::Existing(id),
        None => {
            let overwrites = vec![
                Overwrite { allow: PermSet::SpeakOnly, deny: PermSet::Everything, role: Slot::EveryoneRole },
                Overwrite { allow: PermSet::HostCategory, deny: PermSet::Nothing, role: Slot::HostRole },
            ];
            assert(overwrites@ =~= host_category_overwrites_spec());
            let channels = vec![
                plain_channel("Validation", ChannelKind::Text),
                plain_channel("Discussions", ChannelKind::Text),
                plain_channel("Commandes", ChannelKind::Text),
                plain_channel("Discussions", ChannelKind::Voice),
            ];
            assert(channels@.map_values(|ch: FirstChannel| first_channel_view(ch))
                =~= host_category_channels_spec());
            FirstCategoryStep::Create { name: owned(MODERATION_CATEGORY_NAME), overwrites, channels }
        },
    }
}

pub open spec fn edition_category_channels_spec() -> Seq<(&'static str, ChannelKind, Seq<Overwrite>)> {
    seq![
        ("Règlement", ChannelKind::Text, seq![ow(PermSet::ViewOnly, PermSet::SendOnly, Slot::EveryoneRole)]),
        ("Inscriptions", ChannelKind::Text, seq![
            ow(PermSet::ViewSendRead, PermSet::Nothing, Slot::EveryoneRole),
            ow(PermSet::ViewOnly, PermSet::Nothing, Slot::HostRole),
        ]),
        ("Equipes", ChannelKind::Text, seq![
            ow(PermSet::Nothing, PermSet::Everything, Slot::EveryoneRole),
            ow(PermSet::ViewSendRead, PermSet::Nothing, Slot::RegisteredRole),
            ow(PermSet::ViewSendManageRead, PermSet::Nothing, Slot::HostRole),
        ]),
    ]
}

/// The category of an edition in the first setup, named after the edition, given
/// what the search for a channel of that name found.
pub fn edition_category_step(edition: &str, found: Option<u64>) -> (res: FirstCategoryStep)
    ensures
        category_step_matches(res, found, edition@, Seq::empty(), edition_category_channels_spec()),
{
    match found {
        Some(id) => FirstCategoryStep::Existing(id),
        None => {
            let rules = vec![
                Overwrite { allow: PermSet::ViewOnly, deny: PermSet::SendOnly, role: Slot::EveryoneRole },
            ];
            let registrations = vec![
                Overwrite { allow: PermSet::ViewSendRead, deny: PermSet::Nothing, role: Slot::EveryoneRole },
                Overwrite { allow: PermSet::ViewOnly, deny: PermSet::Nothing, role: Slot::HostRole },
            ];
            let teams = vec![
                Overwrite { allow: PermSet::Nothing, deny: PermSet::Everything, role: Slot::EveryoneRole },
                Overwrite { allow: PermSet::ViewSendRead, deny: PermSet::Nothing, role: Slot::RegisteredRole },
                Overwrite { allow: PermSet::ViewSendManageRead, deny: PermSet::Nothing, role: Slot::HostRole },
            ];
            let ghost views = (rules@, registrations@, teams@);
            let channels = vec![
                FirstChannel { name: "Règlement", kind: ChannelKind::Text, overwrites: rules },
                FirstChannel { name: "Inscriptions", kind: ChannelKind::Text, overwrites: registrations },
                FirstChannel { name: "Equipes", kind: ChannelKind::Text, overwrites: teams },
            ];
            assert(views.0 =~= seq![ow(PermSet::ViewOnly, PermSet::SendOnly, Slot::EveryoneRole)]);
            assert(views.1 =~= seq![
                ow(PermSet::ViewSendRead, PermSet::Nothing, Slot::EveryoneRole),
                ow(PermSet::ViewOnly, PermSet::Nothing, Slot::HostRole),
            ]);
            assert(views.2 =~= seq![
                ow(PermSet::Nothing, PermSet::Everything, Slot::EveryoneRole),
                ow(PermSet::ViewSendRead, PermSet::Nothing, Slot::RegisteredRole),
                ow(PermSet::ViewSendManageRead, PermSet::Nothing, Slot::HostRole),
            ]);
            assert(channels@.map_values(|ch: FirstChannel| first_channel_view(ch))
                =~= edition_category_channels_spec());
            let overwrites: Vec<Overwrite> = Vec::new();
            assert(overwrites@ =~= Seq::<Overwrite>::empty());
            FirstCategoryStep::Create { name: owned(edition), overwrites, channels }
        },
    }
}

} // verus!
