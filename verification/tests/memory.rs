use prime_trainer::globals::{Facing, MemoryAddress, Player};
use prime_trainer::memory::{
    decode_facing, facing_address, global_address, parse_u16_le, parse_u32_le, parse_u8,
    player_field_address, MemoryReadErrors,
};

#[test]
fn parse_u16_little_endian() {
    assert_eq!(parse_u16_le(&[0x34, 0x12, 0x00, 0x00]), Some(0x1234));
    assert_eq!(parse_u16_le(&[0xFF, 0x00]), Some(255));
    assert_eq!(parse_u16_le(&[0x00, 0x01]), Some(256));
    assert_eq!(parse_u16_le(&[0x12]), None);
    assert_eq!(parse_u16_le(&[]), None);
}

#[test]
fn parse_u32_little_endian() {
    assert_eq!(parse_u32_le(&[0x01, 0x02, 0x03, 0x04]), Some(0x04030201));
    assert_eq!(parse_u32_le(&[0xFF, 0xFF, 0xFF, 0xFF]), Some(u32::MAX));
    assert_eq!(parse_u32_le(&[0x01, 0x02, 0x03]), None);
}

#[test]
fn parse_single_byte() {
    assert_eq!(parse_u8(&[7, 9, 9, 9]), Some(7));
    assert_eq!(parse_u8(&[]), None);
}

#[test]
fn player_field_addresses() {
    assert_eq!(
        player_field_address(Player::One, MemoryAddress::InputAttack),
        0x140000000 + 0x00342B780 + 0x16BC
    );
    assert_eq!(
        player_field_address(Player::Two, MemoryAddress::PlayerHealthOffset),
        0x140000000 + 0x00342E750 + 0x73C
    );
    assert_eq!(Player::One.base_address(), 0x00342B780);
    assert_eq!(Player::Two.base_address(), 0x00342E750);
}

#[test]
fn global_addresses() {
    assert_eq!(global_address(MemoryAddress::RoundTimerInFrames), 0x140000000 + 0x00340ECE4);
    assert_eq!(global_address(MemoryAddress::RoundCount), 0x140000000 + 0x00340EEB4);
    assert_eq!(facing_address(Player::One), 0x140000000 + 0x00341D6A0);
    assert_eq!(facing_address(Player::Two), 0x140000000 + 0x00341D6A4);
}

#[test]
fn facing_flag_decodes_or_reports_the_void() {
    assert_eq!(
        decode_facing(0, Player::One, 0x1000, String::from("facing")),
        Ok(Facing::Left)
    );
    assert_eq!(
        decode_facing(1, Player::Two, 0x1000, String::from("facing")),
        Ok(Facing::Right)
    );
    let err = decode_facing(7, Player::Two, 0x1000, String::from("facing"));
    assert!(matches!(err, Err(MemoryReadErrors::FacingTheVoid(Player::Two, _))));
}
