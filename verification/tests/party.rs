use ctviewer::character::EquipmentSlot;
use ctviewer::party::party::{Party, PartySlot};

fn ids(party: &Party) -> Vec<(usize, bool)> {
    party.get_party_slots().iter().map(|s| (s.character_id, s.disabled)).collect()
}

fn slot(character_id: usize, disabled: bool) -> PartySlot {
    PartySlot { character_id, disabled }
}

#[test]
fn a_new_game_starts_with_robo_marle_and_lucca() {
    let party = Party::new();
    assert_eq!(ids(&party), vec![(3, false), (1, false), (2, false), (6, false), (4, false), (5, true), (0, true)]);
    assert_eq!(party.get_active_party_slots(), vec![slot(3, false), slot(1, false), slot(2, false)]);
    assert_eq!(party.find_character_index(1), Some(1));
    assert_eq!(party.find_character_index(5), None);
    assert_eq!(party.find_active_character_index(2), Some(2));
    assert_eq!(party.find_active_character_index(6), None);
    assert!(party.is_character_recruited(0));
    assert_eq!(party.get_character(0).unwrap().name, "Crono");
    assert!(party.get_character(9).is_none());
}

#[test]
fn a_member_moved_to_the_reserve_tops_it() {
    let mut party = Party::new();
    party.move_character_from_party_into_reserve(1);
    assert_eq!(ids(&party), vec![(3, false), (2, false), (2, true), (1, false), (6, false), (4, false), (0, true)]);
    party.move_character_from_party_into_reserve(6);
    assert_eq!(ids(&party), vec![(3, false), (2, false), (2, true), (1, false), (6, false), (4, false), (0, true)]);
}

#[test]
fn a_character_added_to_the_party_takes_the_last_slot() {
    let mut party = Party::new();
    party.add_character_to_party(5);
    assert_eq!(ids(&party), vec![(3, false), (1, false), (5, false), (2, false), (6, false), (4, false), (0, true)]);
    assert_eq!(party.find_active_character_index(5), Some(2));
}

#[test]
fn a_deactivated_member_comes_back_to_its_slot() {
    let mut party = Party::new();
    party.deactivate_character(1);
    assert_eq!(party.find_active_character_index(1), None);
    party.add_character_to_party(1);
    assert_eq!(ids(&party), vec![(3, false), (1, false), (2, false), (6, false), (4, false), (5, true), (0, true)]);
}

#[test]
fn equipment_is_kept_per_character() {
    let mut party = Party::new();
    party.character_equip(0, EquipmentSlot::Weapon, Some(5));
    assert_eq!(party.get_character(0).unwrap().equipment.weapon, Some(5));
    assert_eq!(party.get_character(1).unwrap().equipment.weapon, None);
    party.gold_give(100);
    party.gold_take(30);
}
