use rayquabot::setup_env::{
    get_categories_existance, get_channels_existance, get_roles_existance, is_community,
    new_founds, server_record, slot_name, slot_position, ChannelInfo, ChannelKind, Founds, RoleInfo, Slot,
};
use rayquabot::setup_plan::{
    category_step, channel_steps, overwrites, perm_set_members, role_positions, role_steps,
    section_order, CategoryStep, ChannelStep, Overwrite, Perm, PermSet, RoleStep, Section,
};

fn channel(kind: ChannelKind, name: &str, id: u64, parent: Option<u64>) -> ChannelInfo {
    ChannelInfo { kind, name: name.to_string(), id, parent_id: parent }
}

fn server() -> Vec<ChannelInfo> {
    vec![
        channel(ChannelKind::Category, "Arbitrage", 100, None),
        channel(ChannelKind::Category, "L'Arène", 300, None),
        channel(ChannelKind::Text, "discussions", 101, Some(100)),
        channel(ChannelKind::Text, "validations-en-attente", 102, Some(999)),
        channel(ChannelKind::Voice, "discussions-vocal", 103, Some(100)),
        channel(ChannelKind::Forum, "faq-bot", 301, Some(300)),
        channel(ChannelKind::Text, "faq-bot", 302, Some(300)),
        channel(ChannelKind::Text, "1-inscriptions", 303, Some(300)),
        channel(ChannelKind::Text, "1-inscriptions", 304, None),
    ]
}

fn scanned() -> Founds {
    let chs = server();
    let f = get_categories_existance(&chs, new_founds());
    get_channels_existance(&chs, f)
}

#[test]
fn new_founds_tracks_all_but_everyone() {
    let f = new_founds();
    assert_eq!(f.get(Slot::ModerationCategory), Some(0));
    assert_eq!(f.get(Slot::Welcome), Some(0));
    assert_eq!(f.get(Slot::AdminRole), Some(0));
    assert_eq!(f.get(Slot::EveryoneRole), None);
}

#[test]
fn scans_find_categories_and_channels_under_them() {
    let f = scanned();
    assert_eq!(f.get(Slot::ModerationCategory), Some(100));
    assert_eq!(f.get(Slot::CompetitionCategory), Some(300));
    assert_eq!(f.get(Slot::GeneralCategory), Some(0));
    assert_eq!(f.get(Slot::ModerationConversation), Some(101));
    // Not in the category recorded for it.
    assert_eq!(f.get(Slot::WaitingValidation), Some(0));
    assert_eq!(f.get(Slot::ModerationVocal), Some(103));
    // Only a forum counts for the FAQ.
    assert_eq!(f.get(Slot::Faq), Some(301));
    assert_eq!(f.get(Slot::Registration), Some(303));
}

#[test]
fn rescanning_changes_nothing() {
    let chs = server();
    let once = scanned();
    let twice = get_channels_existance(&chs, get_categories_existance(&chs, scanned()));
    for s in [Slot::ModerationCategory, Slot::Faq, Slot::Registration, Slot::WaitingValidation, Slot::Welcome] {
        assert_eq!(once.get(s), twice.get(s));
    }
}

#[test]
fn later_category_of_same_name_wins() {
    let chs = vec![
        channel(ChannelKind::Category, "Gradins", 1, None),
        channel(ChannelKind::Category, "Gradins", 2, None),
        channel(ChannelKind::Text, "Gradins", 3, None),
    ];
    let f = get_categories_existance(&chs, new_founds());
    assert_eq!(f.get(Slot::GeneralCategory), Some(2));
}

#[test]
fn roles_found_by_name() {
    let roles = vec![
        RoleInfo { name: "Admin".to_string(), id: 7 },
        RoleInfo { name: "Inscrit".to_string(), id: 8 },
        RoleInfo { name: "@everyone".to_string(), id: 9 },
    ];
    let f = get_roles_existance(&roles, new_founds());
    assert_eq!(f.get(Slot::AdminRole), Some(7));
    assert_eq!(f.get(Slot::RegisteredRole), Some(8));
    assert_eq!(f.get(Slot::HostRole), Some(0));
    assert_eq!(f.get(Slot::EveryoneRole), None);
}

#[test]
fn role_steps_create_missing_roles() {
    let roles = vec![RoleInfo { name: "Host".to_string(), id: 5 }];
    let f = get_roles_existance(&roles, new_founds());
    let steps = role_steps(&f);
    assert_eq!(steps.len(), 5);
    assert_eq!(
        steps[0],
        RoleStep::Create { slot: Slot::AdminRole, name: "Admin", permissions: PermSet::AdminRole, colour: 0x24aff9 }
    );
    assert_eq!(steps[2], RoleStep::Lookup { slot: Slot::HostRole, name: "Host" });
    assert_eq!(
        steps[4],
        RoleStep::Create { slot: Slot::RegisteredRole, name: "Inscrit", permissions: PermSet::Nothing, colour: 0x4f8342 }
    );
    let positions = role_positions();
    assert_eq!(positions[0], (Slot::EveryoneRole, 0));
    assert_eq!(positions[5], (Slot::AdminRole, 5));
}

#[test]
fn found_channels_are_fetched_not_created() {
    let f = scanned();
    match category_step(Section::Moderation, &f) {
        CategoryStep::Existing(id) => assert_eq!(id, 100),
        _ => panic!("the category exists"),
    }
    match category_step(Section::General, &f) {
        CategoryStep::Create { slot, name, overwrites } => {
            assert_eq!(slot, Slot::GeneralCategory);
            assert_eq!(name, "Gradins");
            assert_eq!(
                overwrites,
                vec![Overwrite { allow: PermSet::Everything, deny: PermSet::Everything, role: Slot::EveryoneRole }]
            );
        }
        _ => panic!("the category is missing"),
    }
    let steps = channel_steps(Section::Moderation, &f, 100);
    assert_eq!(steps.len(), 5);
    match &steps[0] {
        ChannelStep::Create { slot, name, kind, parent, overwrites } => {
            assert_eq!(*slot, Slot::WaitingValidation);
            assert_eq!(*name, "validations-en-attente");
            assert_eq!(*kind, ChannelKind::Text);
            assert_eq!(*parent, 100);
            assert_eq!(overwrites.len(), 4);
        }
        _ => panic!("the channel is missing"),
    }
    match &steps[3] {
        ChannelStep::Fetch { slot, id } => {
            assert_eq!(*slot, Slot::ModerationConversation);
            assert_eq!(*id, 101);
        }
        _ => panic!("the channel exists"),
    }
    let steps = channel_steps(Section::Competition, &f, 300);
    match &steps[7] {
        ChannelStep::Fetch { slot, id } => assert_eq!((*slot, *id), (Slot::Faq, 301)),
        _ => panic!("the forum exists"),
    }
}

#[test]
fn channel_permissions_and_order() {
    let o = overwrites(Slot::Registration);
    assert_eq!(o[0], Overwrite { allow: PermSet::Register, deny: PermSet::Everything, role: Slot::EveryoneRole });
    assert_eq!(o[1].role, Slot::HostRole);
    assert!(overwrites(Slot::AdminRole).is_empty());
    assert_eq!(perm_set_members(PermSet::Everything), None);
    assert_eq!(perm_set_members(PermSet::ReadOnly), Some(vec![Perm::ViewChannel, Perm::ReadMessageHistory]));
    assert_eq!(perm_set_members(PermSet::Nothing), Some(vec![]));
    let order = section_order(Section::General);
    assert_eq!(order, vec![(Slot::Welcome, 0), (Slot::Rules, 1), (Slot::BotReturn, 3), (Slot::General, 4)]);
    assert_eq!(slot_name(Slot::Rules), "règlement-du-serveur");
}

#[test]
fn community_and_record() {
    assert!(is_community(&vec!["NEWS".to_string(), "COMMUNITY".to_string()]));
    assert!(!is_community(&vec!["NEWS".to_string()]));
    let mut f = scanned();
    f.insert(Slot::AdminRole, 1);
    f.insert(Slot::ModeratorRole, 2);
    f.insert(Slot::HostRole, 3);
    f.insert(Slot::RegisteredRole, 4);
    let r = server_record(77, &f);
    assert_eq!(r.guild_id, "77");
    assert_eq!(r.admin_role_id, "1");
    assert_eq!(r.registered_role_id, "4");
    assert_eq!(r.moderation_category_id, "100");
    assert_eq!(r.competition_category_id, "300");
    assert_eq!(r.registration_channel_id, "303");
}

#[test]
fn competition_channels_follow_the_documented_layout() {
    assert_eq!(
        section_order(Section::Competition),
        vec![
            (Slot::RulesAndInfos, 0),
            (Slot::CompetitionAnnounces, 1),
            (Slot::Ranking, 2),
            (Slot::ValidatedCaptures, 3),
            (Slot::Faq, 4),
            (Slot::Registration, 5),
            (Slot::VersionsAndCharms, 6),
            (Slot::TeamCreation, 7),
        ]
    );
}

/// The channels of each section with their kinds, the category of the section first.
fn section_layout() -> Vec<(Slot, u64, Vec<(Slot, ChannelKind)>)> {
    vec![
        (
            Slot::ModerationCategory,
            1000,
            vec![
                (Slot::WaitingValidation, ChannelKind::Text),
                (Slot::ProblematicPlayers, ChannelKind::Text),
                (Slot::BanAndExclusion, ChannelKind::Text),
                (Slot::ModerationConversation, ChannelKind::Text),
                (Slot::ModerationVocal, ChannelKind::Voice),
            ],
        ),
        (
            Slot::GeneralCategory,
            2000,
            vec![
                (Slot::BotReturn, ChannelKind::Text),
                (Slot::GeneralVocal, ChannelKind::Voice),
                (Slot::General, ChannelKind::Text),
                (Slot::Rules, ChannelKind::Text),
                (Slot::Welcome, ChannelKind::Text),
            ],
        ),
        (
            Slot::CompetitionCategory,
            3000,
            vec![
                (Slot::RulesAndInfos, ChannelKind::Text),
                (Slot::CompetitionAnnounces, ChannelKind::Text),
                (Slot::Ranking, ChannelKind::Text),
                (Slot::ValidatedCaptures, ChannelKind::Text),
                (Slot::Registration, ChannelKind::Text),
                (Slot::VersionsAndCharms, ChannelKind::Text),
                (Slot::TeamCreation, ChannelKind::Text),
                (Slot::Faq, ChannelKind::Forum),
            ],
        ),
    ]
}

/// A server on which a first setup has made everything: every channel's id is its
/// category's id plus its place in the section.
fn complete_server() -> (Vec<ChannelInfo>, Vec<RoleInfo>) {
    let mut chs = vec![channel(ChannelKind::Text, "ailleurs", 9, None)];
    for (cat, cat_id, members) in section_layout() {
        chs.push(channel(ChannelKind::Category, slot_name(cat), cat_id, None));
        for (k, (slot, kind)) in members.into_iter().enumerate() {
            chs.push(channel(kind, slot_name(slot), cat_id + 1 + k as u64, Some(cat_id)));
        }
    }
    let roles = [Slot::AdminRole, Slot::ModeratorRole, Slot::HostRole, Slot::VerifiedRole, Slot::RegisteredRole]
        .iter()
        .enumerate()
        .map(|(k, s)| RoleInfo { name: slot_name(*s).to_string(), id: 50 + k as u64 })
        .collect();
    (chs, roles)
}

fn scan_all(chs: &Vec<ChannelInfo>, rs: &Vec<RoleInfo>) -> Founds {
    get_roles_existance(rs, get_channels_existance(chs, get_categories_existance(chs, new_founds())))
}

#[test]
fn second_setup_on_complete_server_changes_nothing() {
    let (chs, rs) = complete_server();
    let mut f = scan_all(&chs, &rs);
    for (cat, cat_id, members) in section_layout() {
        assert_eq!(f.get(cat), Some(cat_id));
        for (k, (slot, _)) in members.iter().enumerate() {
            assert_eq!(f.get(*slot), Some(cat_id + 1 + k as u64));
        }
    }
    for step in role_steps(&f) {
        assert!(matches!(step, RoleStep::Lookup { .. }));
    }
    f.insert(Slot::EveryoneRole, 1);
    for (section, cat_id) in [(Section::Moderation, 1000), (Section::General, 2000), (Section::Competition, 3000)] {
        assert!(matches!(category_step(section, &f), CategoryStep::Existing(id) if id == cat_id));
        for step in channel_steps(section, &f, cat_id) {
            assert!(matches!(step, ChannelStep::Fetch { .. }));
        }
    }
    let before = server_record(77, &f);
    let mut kept = scan_all(&chs, &rs);
    kept.insert(Slot::EveryoneRole, 1);
    let after = get_channels_existance(&chs, get_categories_existance(&chs, kept));
    for k in 0..27usize {
        let s = [
            Slot::ModerationCategory, Slot::WaitingValidation, Slot::ProblematicPlayers, Slot::BanAndExclusion,
            Slot::ModerationConversation, Slot::ModerationVocal, Slot::GeneralCategory, Slot::CompetitionCategory,
            Slot::RulesAndInfos, Slot::CompetitionAnnounces, Slot::Ranking, Slot::ValidatedCaptures,
            Slot::Registration, Slot::VersionsAndCharms, Slot::TeamCreation, Slot::AdminRole, Slot::ModeratorRole,
            Slot::HostRole, Slot::VerifiedRole, Slot::RegisteredRole, Slot::Faq, Slot::BotReturn,
            Slot::GeneralVocal, Slot::General, Slot::Rules, Slot::Welcome, Slot::EveryoneRole,
        ][k];
        assert_eq!(slot_position(s), k);
        assert_eq!(after.get(s), f.get(s));
    }
    let again = server_record(77, &after);
    assert_eq!(before.admin_role_id, again.admin_role_id);
    assert_eq!(before.moderator_role_id, again.moderator_role_id);
    assert_eq!(before.host_role_id, again.host_role_id);
    assert_eq!(before.registered_role_id, again.registered_role_id);
    assert_eq!(before.moderation_category_id, again.moderation_category_id);
    assert_eq!(before.competition_category_id, again.competition_category_id);
    assert_eq!(before.registration_channel_id, "3005");
    assert_eq!(again.registration_channel_id, "3005");
}
