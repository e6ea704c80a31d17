use prime_trainer::codec::{decode_button, decode_direction, DecodeError, InputButton, InputDirection};
use prime_trainer::globals::{Character, Facing, Player};

const ALL_BUTTONS: [(InputButton, u16); 32] = [
    (InputButton::Neutral, 0),
    (InputButton::One, 512),
    (InputButton::Two, 1024),
    (InputButton::Three, 2048),
    (InputButton::Four, 4096),
    (InputButton::OnePlusTwo, 1536),
    (InputButton::OnePlusThree, 2560),
    (InputButton::OnePlusFour, 4608),
    (InputButton::TwoPlusThree, 3072),
    (InputButton::TwoPlusFour, 5120),
    (InputButton::ThreePlusFour, 6144),
    (InputButton::OnePlusTwoPlusThree, 3584),
    (InputButton::OnePlusTwoPlusFour, 5632),
    (InputButton::OnePlusThreePlusFour, 6656),
    (InputButton::TwoPlusThreePlusFour, 7168),
    (InputButton::OnePlusTwoPlusThreePlusFour, 7680),
    (InputButton::Rage, 8192),
    (InputButton::RagePlusOne, 8704),
    (InputButton::RagePlusTwo, 9216),
    (InputButton::RagePlusThree, 10240),
    (InputButton::RagePlusFour, 12288),
    (InputButton::RagePlusOnePlusTwo, 9728),
    (InputButton::RagePlusOnePlusThree, 10752),
    (InputButton::RagePlusOnePlusFour, 12800),
    (InputButton::RagePlusTwoPlusThree, 11264),
    (InputButton::RagePlusTwoPlusFour, 13312),
    (InputButton::RagePlusThreePlusFour, 14336),
    (InputButton::RagePlusOnePlusTwoPlusThree, 11776),
    (InputButton::RagePlusOnePlusTwoPlusFour, 13824),
    (InputButton::RagePlusOnePlusThreePlusFour, 14848),
    (InputButton::RagePlusTwoPlusThreePlusFour, 15360),
    (InputButton::RagePlusOnePlusTwoPlusThreePlusFour, 15872),
];

const ALL_DIRECTIONS: [(InputDirection, u16); 9] = [
    (InputDirection::Neutral, 32),
    (InputDirection::Back, 16),
    (InputDirection::DownBack, 2),
    (InputDirection::Down, 4),
    (InputDirection::DownForward, 8),
    (InputDirection::Forward, 64),
    (InputDirection::UpForward, 512),
    (InputDirection::Up, 256),
    (InputDirection::UpBack, 128),
];

#[test]
fn button_round_trip_all_defined_raws() {
    for (button, raw) in ALL_BUTTONS {
        let decoded = decode_button(raw).unwrap();
        assert_eq!(decoded, button);
        assert_eq!(decoded.raw_value(), raw);
    }
}

#[test]
fn direction_round_trip_all_defined_raws() {
    for (direction, raw) in ALL_DIRECTIONS {
        let decoded = decode_direction(raw).unwrap();
        assert_eq!(decoded, direction);
        assert_eq!(decoded.raw_value(), raw);
    }
}

#[test]
fn direction_zero_decodes_to_neutral() {
    assert_eq!(decode_direction(0), Ok(InputDirection::Neutral));
    assert_eq!(InputDirection::Neutral.raw_value(), 32);
}

#[test]
fn unknown_button_raw_is_an_error() {
    assert_eq!(decode_button(3), Err(DecodeError::UnknownEncoding(3)));
    assert_eq!(decode_button(513), Err(DecodeError::UnknownEncoding(513)));
    assert_eq!(decode_button(65535), Err(DecodeError::UnknownEncoding(65535)));
}

#[test]
fn unknown_direction_raw_is_an_error() {
    assert_eq!(decode_direction(1), Err(DecodeError::UnknownEncoding(1)));
    assert_eq!(decode_direction(65), Err(DecodeError::UnknownEncoding(65)));
    assert_eq!(decode_direction(1024), Err(DecodeError::UnknownEncoding(1024)));
}

#[test]
fn forward_on_left_side_is_d_on_right_side_is_a() {
    let forward = decode_direction(64).unwrap();
    assert_eq!(forward, InputDirection::Forward);
    assert_eq!(forward.to_input_key(&Player::One, Facing::Left.to_side()), "d");
    assert_eq!(forward.to_input_key(&Player::One, Facing::Right.to_side()), "a");
}

#[test]
fn button_labels() {
    assert_eq!(InputButton::Neutral.to_str(), "");
    assert_eq!(InputButton::One.to_str(), "1");
    assert_eq!(InputButton::OnePlusTwo.to_str(), "1+2");
    assert_eq!(InputButton::Rage.to_str(), "RD");
    assert_eq!(InputButton::RagePlusOnePlusTwoPlusThreePlusFour.to_str(), "1+2+3+4+RD");
}

#[test]
fn direction_labels() {
    assert_eq!(InputDirection::Neutral.to_str(), " ");
    assert_eq!(InputDirection::DownBack.to_str(), "d/b");
    assert_eq!(InputDirection::Forward.to_str(), "f");
}

#[test]
fn button_key_samples() {
    assert_eq!(InputButton::One.to_input_key(&Player::One), "u");
    assert_eq!(InputButton::One.to_input_key(&Player::Two), "7");
    assert_eq!(InputButton::OnePlusTwo.to_input_key(&Player::One), "ui");
    assert_eq!(InputButton::Rage.to_input_key(&Player::Two), "-");
    assert_eq!(InputButton::Neutral.to_input_key(&Player::One), "");
}

#[test]
fn button_key_bytes_agree_with_key_text() {
    for (button, _) in ALL_BUTTONS {
        for player in [Player::One, Player::Two] {
            let text = button.to_input_key(&player);
            let bytes = button.input_keys(&player);
            assert_eq!(text.as_bytes().to_vec(), bytes);
        }
    }
}

#[test]
fn direction_key_bytes_agree_with_key_text() {
    for (direction, _) in ALL_DIRECTIONS {
        for player in [Player::One, Player::Two] {
            for side in [Player::One, Player::Two] {
                let text = direction.to_input_key(&player, side);
                let bytes = direction.input_keys(&player, side);
                assert_eq!(text.as_bytes().to_vec(), bytes);
            }
        }
    }
}

#[test]
fn direction_keys_mirror_between_sides() {
    assert_eq!(InputDirection::Back.to_input_key(&Player::One, Player::One), "a");
    assert_eq!(InputDirection::Back.to_input_key(&Player::One, Player::Two), "d");
    assert_eq!(InputDirection::UpForward.to_input_key(&Player::Two, Player::One), "14");
    assert_eq!(InputDirection::UpForward.to_input_key(&Player::Two, Player::Two), "13");
    assert_eq!(InputDirection::Neutral.to_input_key(&Player::One, Player::One), "");
}

#[test]
fn character_ids_round_trip() {
    let all = [
        Character::Paul,
        Character::Law,
        Character::King,
        Character::Yoshimitsu,
        Character::Hwoarang,
        Character::Xiaoyu,
        Character::Jin,
        Character::Bryan,
        Character::Heihachi,
        Character::Kazuya,
        Character::Steve,
        Character::Jack7,
        Character::Asuka,
        Character::DevilJin,
        Character::Feng,
        Character::Lili,
        Character::Dragunov,
        Character::Leo,
        Character::Lars,
        Character::Alisa,
        Character::Claudio,
        Character::Katarina,
        Character::LuckyChloe,
        Character::Shaheen,
        Character::Josie,
        Character::Gigas,
        Character::Kazumi,
        Character::DevilKazumi,
        Character::Nina,
        Character::MasterRaven,
        Character::Lee,
        Character::Bob,
        Character::Akuma,
        Character::Kuma,
        Character::Panda,
        Character::Eddy,
        Character::Eliza,
        Character::Miguel,
        Character::TekkenForce,
        Character::KidKazuya,
        Character::Jack4,
        Character::YoungHeihachi,
        Character::Dummy,
        Character::Geese,
        Character::Noctis,
        Character::Anna,
        Character::Lei,
        Character::Marduk,
        Character::ArmorKing,
        Character::Julia,
        Character::Negan,
        Character::Zafina,
        Character::Ganryu,
        Character::Leroy,
        Character::Fahkumram,
        Character::Unloaded,
        Character::NotSelected,
    ];
    for character in all {
        assert_eq!(Character::from_id(character.id()), character);
    }
}

#[test]
fn character_table_corners() {
    assert_eq!(Character::from_id(0), Character::Paul);
    assert_eq!(Character::from_id(54), Character::Fahkumram);
    assert_eq!(Character::from_id(71), Character::Unloaded);
    assert_eq!(Character::from_id(255), Character::NotSelected);
    assert_eq!(Character::from_id(60), Character::NotSelected);
    assert_eq!(Character::Jack7.name(), "Jack-7");
    assert_eq!(Character::DevilJin.name(), "Devil Jin");
    assert_eq!(Character::NotSelected.name(), "Not selected");
}

#[test]
fn players_and_sides() {
    assert_eq!(Player::One.opposite(), Player::Two);
    assert_eq!(Player::Two.opposite(), Player::One);
    assert_eq!(Facing::Left.to_side(), Player::One);
    assert_eq!(Facing::Right.to_side(), Player::Two);
}
