use rayquabot::first_setup::{
    edition_category_step, find_by_name, first_role_step, host_category_step, FirstCategoryStep,
    FirstRoleStep,
};
use rayquabot::setup_env::{ChannelKind, Slot};
use rayquabot::setup_plan::{Overwrite, PermSet};

#[test]
fn find_by_name_takes_the_first() {
    let items = vec![("a".to_string(), 1u64), ("Host".to_string(), 2), ("Host".to_string(), 3)];
    assert_eq!(find_by_name(&items, "Host"), Some(2));
    assert_eq!(find_by_name(&items, "host"), None);
    assert_eq!(find_by_name(&vec![], "Host"), None);
}

#[test]
fn first_roles() {
    assert_eq!(first_role_step(Slot::AdminRole, Some(4)), FirstRoleStep::Existing(4));
    assert_eq!(
        first_role_step(Slot::HostRole, None),
        FirstRoleStep::Create { name: "Host", colour: 0xff8000, permissions: PermSet::FirstHostRole }
    );
    assert_eq!(
        first_role_step(Slot::RegisteredRole, None),
        FirstRoleStep::Create { name: "Inscrit", colour: 0x5E9A78, permissions: PermSet::Nothing }
    );
}

#[test]
fn first_categories() {
    match host_category_step(Some(9)) {
        FirstCategoryStep::Existing(id) => assert_eq!(id, 9),
        _ => panic!("found"),
    }
    match host_category_step(None) {
        FirstCategoryStep::Create { name, overwrites, channels } => {
            assert_eq!(name, "Arbitrage");
            assert_eq!(overwrites[0], Overwrite { allow: PermSet::SpeakOnly, deny: PermSet::Everything, role: Slot::EveryoneRole });
            assert_eq!(channels.len(), 4);
            assert_eq!(channels[3].name, "Discussions");
            assert_eq!(channels[3].kind, ChannelKind::Voice);
            assert!(channels[0].overwrites.is_empty());
        }
        _ => panic!("missing"),
    }
    match edition_category_step("Shiny 3", None) {
        FirstCategoryStep::Create { name, overwrites, channels } => {
            assert_eq!(name, "Shiny 3");
            assert!(overwrites.is_empty());
            assert_eq!(channels[2].name, "Equipes");
            assert_eq!(channels[2].overwrites.len(), 3);
            assert_eq!(channels[2].overwrites[1].role, Slot::RegisteredRole);
        }
        _ => panic!("missing"),
    }
}
