use camp_misty::game_state::{
    CarPart, GameState, PlayError, RoundResult, RoundType, SECTION_COUNT, SUB_SECTION_COUNT,
};

#[test]
fn new_game_topology() {
    let gs = GameState::new();
    assert!(matches!(gs.round_type, RoundType::Normal));
    assert_eq!(gs.sections.len(), SECTION_COUNT);
    let letters = ['C', 'L', 'A', 'B', 'O'];
    for (i, section) in gs.sections.iter().enumerate() {
        assert_eq!(section.letter, letters[i]);
        assert!(!section.trapped);
        assert_eq!(section.sub_sections.len(), SUB_SECTION_COUNT);
        for sub in section.sub_sections.iter() {
            assert_eq!(sub.part, CarPart::Absent);
        }
    }
    assert_eq!(gs.sections[0].name, "(C)abin");
    assert_eq!(gs.sections[1].name, "(L)ake Misty");
    assert_eq!(gs.sections[2].sub_sections[0].name, "(M)aster bedroom");
    assert_eq!(gs.sections[4].sub_sections[4].name, "(H)ollow log");
    assert_eq!(gs.sections[3].sub_sections[1].letter, 'C');
}

#[test]
fn caught_when_same_exact_place() {
    let mut gs = GameState::new();
    let r = gs.play((0, 0), (0, 0));
    assert_eq!(r, Ok((RoundResult::Caught, CarPart::Absent)));
    assert_eq!(gs.round_type, RoundType::Normal);
}

#[test]
fn chase_begins_on_shared_section() {
    let mut gs = GameState::new();
    let r = gs.play((0, 0), (0, 1));
    assert_eq!(r, Ok((RoundResult::ChaseBegins, CarPart::Absent)));
    assert_eq!(gs.round_type, RoundType::Chase(0));
}

#[test]
fn evaded_during_chase() {
    let mut gs = GameState::new();
    gs.round_type = RoundType::Chase(0);
    let r = gs.play((0, 2), (0, 3));
    assert_eq!(r, Ok((RoundResult::Evaded, CarPart::Absent)));
    // the resolver ends the chase after the victim got away
    assert_eq!(gs.round_type, RoundType::Normal);
}

#[test]
fn nothing_on_different_sections() {
    let mut gs = GameState::new();
    let r = gs.play((0, 0), (1, 1));
    assert_eq!(r, Ok((RoundResult::Nothing, CarPart::Absent)));
    assert_eq!(gs.round_type, RoundType::Normal);
}

#[test]
fn trap_triggered_when_killer_section_trapped() {
    let mut gs = GameState::new();
    gs.sections[1].trapped = true;
    let r = gs.play((0, 0), (1, 0));
    assert_eq!(r, Ok((RoundResult::TrapTriggered, CarPart::Absent)));
}

#[test]
fn trap_beats_caught() {
    let mut gs = GameState::new();
    gs.sections[2].trapped = true;
    // same exact place, but the trap check wins
    let r = gs.play((2, 3), (2, 3));
    assert_eq!(r, Ok((RoundResult::TrapTriggered, CarPart::Absent)));
    assert_eq!(gs.round_type, RoundType::Normal);
}

#[test]
fn trap_beats_evaded_during_chase() {
    let mut gs = GameState::new();
    gs.sections[4].trapped = true;
    gs.round_type = RoundType::Chase(4);
    let r = gs.play((4, 0), (4, 1));
    assert_eq!(r, Ok((RoundResult::TrapTriggered, CarPart::Absent)));
    // the decisive round also ends the chase
    assert_eq!(gs.round_type, RoundType::Normal);
}

#[test]
fn out_of_bounds_indices_rejected() {
    let mut gs = GameState::new();
    assert_eq!(gs.play((5, 0), (0, 0)), Err(PlayError::OutOfBounds));
    assert_eq!(gs.play((0, 5), (0, 0)), Err(PlayError::OutOfBounds));
    assert_eq!(gs.play((0, 0), (5, 0)), Err(PlayError::OutOfBounds));
    assert_eq!(gs.play((0, 0), (0, 5)), Err(PlayError::OutOfBounds));
    // a rejected round leaves the round type alone
    assert_eq!(gs.round_type, RoundType::Normal);
}

#[test]
fn out_of_bounds_leaves_chase_untouched() {
    let mut gs = GameState::new();
    gs.round_type = RoundType::Chase(2);
    let r = gs.play((9, 0), (2, 0));
    assert_eq!(r, Err(PlayError::OutOfBounds));
    assert_eq!(gs.round_type, RoundType::Chase(2));
}

#[test]
fn chase_restricts_both_moves_to_its_section() {
    let mut gs = GameState::new();
    gs.round_type = RoundType::Chase(0);
    assert_eq!(gs.play((1, 0), (0, 0)), Err(PlayError::OutOfBounds));
    assert_eq!(gs.play((0, 0), (1, 0)), Err(PlayError::OutOfBounds));
    assert_eq!(gs.round_type, RoundType::Chase(0));
}

#[test]
fn hide_part_places_the_part() {
    let mut gs = GameState::new();
    gs.hide_part(2, 3, CarPart::Keys);
    assert_eq!(gs.sections[2].sub_sections[3].part, CarPart::Keys);
    // every other cell is untouched
    assert_eq!(gs.sections[2].sub_sections[2].part, CarPart::Absent);
    assert_eq!(gs.sections[3].sub_sections[3].part, CarPart::Absent);
    // a round at that cell reports the part without removing it
    let r = gs.play((2, 3), (4, 4));
    assert_eq!(r, Ok((RoundResult::Nothing, CarPart::Keys)));
    assert_eq!(gs.sections[2].sub_sections[3].part, CarPart::Keys);
}

#[test]
fn get_inds_finds_first_matching_pair() {
    let gs = GameState::new();
    assert_eq!(gs.get_inds_by_letter('L', 'D'), Some((1, 0)));
    assert_eq!(gs.get_inds_by_letter('C', 'A'), Some((0, 4)));
    assert_eq!(gs.get_inds_by_letter('O', 'H'), Some((4, 4)));
    // 'B' names the bonfire and its first sub-section is the shrubs
    assert_eq!(gs.get_inds_by_letter('B', 'S'), Some((3, 0)));
}

#[test]
fn get_inds_misses_return_none() {
    let gs = GameState::new();
    // no section carries the letter
    assert_eq!(gs.get_inds_by_letter('X', 'B'), None);
    // the cabin has no sub-section lettered 'Z'
    assert_eq!(gs.get_inds_by_letter('C', 'Z'), None);
    // 'D' names sub-sections of other sections, but none of the cabin's
    assert_eq!(gs.get_inds_by_letter('C', 'D'), None);
}
