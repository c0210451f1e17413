use ocg_duel::common::{
    ActivityType, Attribute, Opcode, Phase, Position, ATTRIBUTE_DIVINE, LOCATION_ALL,
    LOCATION_HAND, OPCODE_GETATTRIBUTE, PHASE_END, POS_FACEDOWN,
};
use ocg_duel::ocg::OcgPlayer;
use ocg_duel::Player;

#[test]
fn default_player_plays_by_the_standard_rules() {
    assert_eq!(
        OcgPlayer::from(Player::default()),
        OcgPlayer { starting_lp: 8000, starting_draw_count: 5, draw_count_per_turn: 1 }
    );
}

#[test]
fn player_converts_with_into() {
    let layout: OcgPlayer = Player::default().into();
    assert_eq!(layout.starting_lp, 8000);
    assert_eq!(layout.starting_draw_count, 5);
    assert_eq!(layout.draw_count_per_turn, 1);
}

#[test]
fn positions_have_their_bits() {
    assert_eq!(Position::FaceupAttack.bits(), 0x1);
    assert_eq!(Position::FacedownAttack.bits(), 0x2);
    assert_eq!(Position::FaceupDefense.bits(), 0x4);
    assert_eq!(Position::FacedownDefense.bits(), 0x8);
    assert_eq!(Position::Faceup.bits(), 0x5);
    assert_eq!(Position::Facedown.bits(), POS_FACEDOWN);
    assert_eq!(Position::Attack.bits(), 0x3);
    assert_eq!(Position::Defense.bits(), 0xc);
}

#[test]
fn attributes_have_their_bits() {
    assert_eq!(Attribute::Earth.bits(), 0x01);
    assert_eq!(Attribute::Dark.bits(), 0x20);
    assert_eq!(Attribute::Divine.bits(), ATTRIBUTE_DIVINE);
}

#[test]
fn phases_have_their_bits() {
    assert_eq!(Phase::Draw.bits(), 0x01);
    assert_eq!(Phase::Main2.bits(), 0x100);
    assert_eq!(Phase::End.bits(), PHASE_END);
}

#[test]
fn opcodes_have_their_bits() {
    assert_eq!(Opcode::IsType.bits(), 0x4000010200000000);
    assert_eq!(Opcode::GetAttribute.bits(), OPCODE_GETATTRIBUTE);
}

#[test]
fn activity_types_count_from_one() {
    assert_eq!(ActivityType::Summon.bits(), 1);
    assert_eq!(ActivityType::Attack.bits(), 5);
    assert_eq!(ActivityType::Chain.bits(), 7);
}

#[test]
fn locations_are_what_the_engine_knows() {
    assert_eq!(LOCATION_HAND, 0x02);
    assert_eq!(LOCATION_ALL, 0x3ff);
}
