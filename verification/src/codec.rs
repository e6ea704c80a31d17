use vstd::prelude::*;

use crate::globals::Player;

verus! {

/// Symbolic value of the attack bitmask: every combination of the four
/// primary buttons, each with or without the rage modifier, or no button
/// at all.
#[derive(Clone, Copy, Debug, PartialEq, Eq, Structural)]
pub enum InputButton {
    Neutral,
    One,
    Two,
    Three,
    Four,
    OnePlusTwo,
    OnePlusThree,
    OnePlusFour,
    TwoPlusThree,
    TwoPlusFour,
    ThreePlusFour,
    OnePlusTwoPlusThree,
    OnePlusTwoPlusFour,
    OnePlusThreePlusFour,
    TwoPlusThreePlusFour,
    OnePlusTwoPlusThreePlusFour,
    Rage,
    RagePlusOne,
    RagePlusTwo,
    RagePlusThree,
    RagePlusFour,
    RagePlusOnePlusTwo,
    RagePlusOnePlusThree,
    RagePlusOnePlusFour,
    RagePlusTwoPlusThree,
    RagePlusTwoPlusFour,
    RagePlusThreePlusFour,
    RagePlusOnePlusTwoPlusThree,
    RagePlusOnePlusTwoPlusFour,
    RagePlusOnePlusThreePlusFour,
    RagePlusTwoPlusThreePlusFour,
    RagePlusOnePlusTwoPlusThreePlusFour,
}

/// Symbolic value of the direction bitmask: neutral, the four cardinal
/// directions and the four diagonals, relative to the player's facing.
#[derive(Clone, Copy, Debug, PartialEq, Eq, Structural)]
pub enum InputDirection {
    Neutral,
    Back,
    DownBack,
    Down,
    DownForward,
    Forward,
    UpForward,
    Up,
    UpBack,
}

/// Failure to give a raw bitmask a symbolic value. The mapping has no safe
/// default: a raw value outside the table is reported, never coerced.
#[derive(Clone, Copy, Debug, PartialEq, Eq, Structural)]
pub enum DecodeError {
    UnknownEncoding(u16),
}

/// The raw bitmask each symbolic button value encodes to.
pub open spec fn spec_button_raw(b: InputButton) -> u16 {
    match b {
        InputButton::Neutral => 0,
        InputButton::One => 512,
        InputButton::Two => 1024,
        InputButton::Three => 2048,
        InputButton::Four => 4096,
        InputButton::OnePlusTwo => 1536,
        InputButton::OnePlusThree => 2560,
        InputButton::OnePlusFour => 4608,
        InputButton::TwoPlusThree => 3072,
        InputButton::TwoPlusFour => 5120,
        InputButton::ThreePlusFour => 6144,
        InputButton::OnePlusTwoPlusThree => 3584,
        InputButton::OnePlusTwoPlusFour => 5632,
        InputButton::OnePlusThreePlusFour => 6656,
        InputButton::TwoPlusThreePlusFour => 7168,
        InputButton::OnePlusTwoPlusThreePlusFour => 7680,
        InputButton::Rage => 8192,
        InputButton::RagePlusOne => 8704,
        InputButton::RagePlusTwo => 9216,
        InputButton::RagePlusThree => 10240,
        InputButton::RagePlusFour => 12288,
        InputButton::RagePlusOnePlusTwo => 9728,
        InputButton::RagePlusOnePlusThree => 10752,
        InputButton::RagePlusOnePlusFour => 12800,
        InputButton::RagePlusTwoPlusThree => 11264,
        InputButton::RagePlusTwoPlusFour => 13312,
        InputButton::RagePlusThreePlusFour => 14336,
        InputButton::RagePlusOnePlusTwoPlusThree => 11776,
        InputButton::RagePlusOnePlusTwoPlusFour => 13824,
        InputButton::RagePlusOnePlusThreePlusFour => 14848,
        InputButton::RagePlusTwoPlusThreePlusFour => 15360,
        InputButton::RagePlusOnePlusTwoPlusThreePlusFour => 15872,
    }
}

/// The defined attack bitmask constants: exactly the values the table
/// decodes.
pub open spec fn spec_valid_button_raw(raw: u16) -> bool {
    raw == 0
    || raw == 512
    || raw == 1024
    || raw == 2048
    || raw == 4096
    || raw == 1536
    || raw == 2560
    || raw == 4608
    || raw == 3072
    || raw == 5120
    || raw == 6144
    || raw == 3584
    || raw == 5632
    || raw == 6656
    || raw == 7168
    || raw == 7680
    || raw == 8192
    || raw == 8704
    || raw == 9216
    || raw == 10240
    || raw == 12288
    || raw == 9728
    || raw == 10752
    || raw == 12800
    || raw == 11264
    || raw == 13312
    || raw == 14336
    || raw == 11776
    || raw == 13824
    || raw == 14848
    || raw == 15360
    || raw == 15872
}

/// The symbolic value of a defined attack bitmask; meaningless outside
/// the defined constants, where decoding reports an error instead.
pub open spec fn spec_decode_button(raw: u16) -> InputButton {
    if raw == 0 {
        InputButton::Neutral
    } else if raw == 512 {
        InputButton::One
    } else if raw == 1024 {
        InputButton::Two
    } else if raw == 2048 {
        InputButton::Three
    } else if raw == 4096 {
        InputButton::Four
    } else if raw == 1536 {
        InputButton::OnePlusTwo
    } else if raw == 2560 {
        InputButton::OnePlusThree
    } else if raw == 4608 {
        InputButton::OnePlusFour
    } else if raw == 3072 {
        InputButton::TwoPlusThree
    } else if raw == 5120 {
        InputButton::TwoPlusFour
    } else if raw == 6144 {
        InputButton::ThreePlusFour
    } else if raw == 3584 {
        InputButton::OnePlusTwoPlusThree
    } else if raw == 5632 {
        InputButton::OnePlusTwoPlusFour
    } else if raw == 6656 {
        InputButton::OnePlusThreePlusFour
    } else if raw == 7168 {
        InputButton::TwoPlusThreePlusFour
    } else if raw == 7680 {
        InputButton::OnePlusTwoPlusThreePlusFour
    } else if raw == 8192 {
        InputButton::Rage
    } else if raw == 8704 {
        InputButton::RagePlusOne
    } else if raw == 9216 {
        InputButton::RagePlusTwo
    } else if raw == 10240 {
        InputButton::RagePlusThree
    } else if raw == 12288 {
        InputButton::RagePlusFour
    } else if raw == 9728 {
        InputButton::RagePlusOnePlusTwo
    } else if raw == 10752 {
        InputButton::RagePlusOnePlusThree
    } else if raw == 12800 {
        InputButton::RagePlusOnePlusFour
    } else if raw == 11264 {
        InputButton::RagePlusTwoPlusThree
    } else if raw == 13312 {
        InputButton::RagePlusTwoPlusFour
    } else if raw == 14336 {
        InputButton::RagePlusThreePlusFour
    } else if raw == 11776 {
        InputButton::RagePlusOnePlusTwoPlusThree
    } else if raw == 13824 {
        InputButton::RagePlusOnePlusTwoPlusFour
    } else if raw == 14848 {
        InputButton::RagePlusOnePlusThreePlusFour
    } else if raw == 15360 {
        InputButton::RagePlusTwoPlusThreePlusFour
    } else if raw == 15872 {
        InputButton::RagePlusOnePlusTwoPlusThreePlusFour
    } else {
        InputButton::Neutral
    }
}

/// The raw bitmask each symbolic direction value encodes to.
pub open spec fn spec_direction_raw(d: InputDirection) -> u16 {
    match d {
        InputDirection::Neutral => 32,
        InputDirection::Back => 16,
        InputDirection::DownBack => 2,
        InputDirection::Down => 4,
        InputDirection::DownForward => 8,
        InputDirection::Forward => 64,
        InputDirection::UpForward => 512,
        InputDirection::Up => 256,
        InputDirection::UpBack => 128,
    }
}

/// The defined direction constants. The raw value 0 also decodes to
/// neutral but is not itself a defined constant.
pub open spec fn spec_valid_direction_raw(raw: u16) -> bool {
    raw == 32
    || raw == 16
    || raw == 2
    || raw == 4
    || raw == 8
    || raw == 64
    || raw == 512
    || raw == 256
    || raw == 128
}

/// The symbolic value of a defined direction bitmask or of 0; meaningless
/// on other values, where decoding reports an error instead.
pub open spec fn spec_decode_direction(raw: u16) -> InputDirection {
    if raw == 32 {
        InputDirection::Neutral
    } else if raw == 16 {
        InputDirection::Back
    } else if raw == 2 {
        InputDirection::DownBack
    } else if raw == 4 {
        InputDirection::Down
    } else if raw == 8 {
        InputDirection::DownForward
    } else if raw == 64 {
        InputDirection::Forward
    } else if raw == 512 {
        InputDirection::UpForward
    } else if raw == 256 {
        InputDirection::Up
    } else if raw == 128 {
        InputDirection::UpBack
    } else {
        InputDirection::Neutral
    }
}

/// The notation label of each button combination.
pub open spec fn spec_button_label(b: InputButton) -> Seq<char> {
    match b {
        InputButton::Neutral => ""@,
        InputButton::One => "1"@,
        InputButton::Two => "2"@,
        InputButton::Three => "3"@,
        InputButton::Four => "4"@,
        InputButton::OnePlusTwo => "1+2"@,
        InputButton::OnePlusThree => "1+3"@,
        InputButton::OnePlusFour => "1+4"@,
        InputButton::TwoPlusThree => "2+3"@,
        InputButton::TwoPlusFour => "2+4"@,
        InputButton::ThreePlusFour => "3+4"@,
        InputButton::OnePlusTwoPlusThree => "1+2+3"@,
        InputButton::OnePlusTwoPlusFour => "1+2+4"@,
        InputButton::OnePlusThreePlusFour => "1+3+4"@,
        InputButton::TwoPlusThreePlusFour => "2+3+4"@,
        InputButton::OnePlusTwoPlusThreePlusFour => "1+2+3+4"@,
        InputButton::Rage => "RD"@,
        InputButton::RagePlusOne => "1+RD"@,
        InputButton::RagePlusTwo => "2+RD"@,
        InputButton::RagePlusThree => "3+RD"@,
        InputButton::RagePlusFour => "4+RD"@,
        InputButton::RagePlusOnePlusTwo => "1+2+RD"@,
        InputButton::RagePlusOnePlusThree => "1+3+RD"@,
        InputButton::RagePlusOnePlusFour => "1+4+RD"@,
        InputButton::RagePlusTwoPlusThree => "2+3+RD"@,
        InputButton::RagePlusTwoPlusFour => "2+4+RD"@,
        InputButton::RagePlusThreePlusFour => "3+4+RD"@,
        InputButton::RagePlusOnePlusTwoPlusThree => "1+2+3+RD"@,
        InputButton::RagePlusOnePlusTwoPlusFour => "1+2+4+RD"@,
        InputButton::RagePlusOnePlusThreePlusFour => "1+3+4+RD"@,
        InputButton::RagePlusTwoPlusThreePlusFour => "2+3+4+RD"@,
        InputButton::RagePlusOnePlusTwoPlusThreePlusFour => "1+2+3+4+RD"@,
    }
}

/// The physical keys holding each button combination down, one ASCII code
/// per key: mirrored between the two players.
pub open spec fn spec_button_keys(b: InputButton, player: Player) -> Seq<u8> {
    match (player, b) {
        (Player::One, InputButton::Neutral) => Seq::<u8>::empty(),
        (Player::One, InputButton::One) => seq![117u8],
        (Player::One, InputButton::Two) => seq![105u8],
        (Player::One, InputButton::Three) => seq![106u8],
        (Player::One, InputButton::Four) => seq![107u8],
        (Player::One, InputButton::OnePlusTwo) => seq![117u8, 105u8],
        (Player::One, InputButton::OnePlusThree) => seq![117u8, 106u8],
        (Player::One, InputButton::OnePlusFour) => seq![117u8, 107u8],
        (Player::One, InputButton::TwoPlusThree) => seq![105u8, 106u8],
        (Player::One, InputButton::TwoPlusFour) => seq![105u8, 107u8],
        (Player::One, InputButton::ThreePlusFour) => seq![106u8, 107u8],
        (Player::One, InputButton::OnePlusTwoPlusThree) => seq![117u8, 105u8, 106u8],
        (Player::One, InputButton::OnePlusTwoPlusFour) => seq![117u8, 105u8, 107u8],
        (Player::One, InputButton::OnePlusThreePlusFour) => seq![117u8, 106u8, 107u8],
        (Player::One, InputButton::TwoPlusThreePlusFour) => seq![105u8, 106u8, 107u8],
        (Player::One, InputButton::OnePlusTwoPlusThreePlusFour) => seq![117u8, 105u8, 106u8, 107u8],
        (Player::One, InputButton::Rage) => seq![111u8],
        (Player::One, InputButton::RagePlusOne) => seq![111u8, 117u8],
        (Player::One, InputButton::RagePlusTwo) => seq![111u8, 105u8],
        (Player::One, InputButton::RagePlusThree) => seq![111u8, 106u8],
        (Player::One, InputButton::RagePlusFour) => seq![111u8, 107u8],
        (Player::One, InputButton::RagePlusOnePlusTwo) => seq![111u8, 117u8, 105u8],
        (Player::One, InputButton::RagePlusOnePlusThree) => seq![111u8, 117u8, 106u8],
        (Player::One, InputButton::RagePlusOnePlusFour) => seq![111u8, 117u8, 107u8],
        (Player::One, InputButton::RagePlusTwoPlusThree) => seq![111u8, 105u8, 106u8],
        (Player::One, InputButton::RagePlusTwoPlusFour) => seq![111u8, 105u8, 107u8],
        (Player::One, InputButton::RagePlusThreePlusFour) => seq![111u8, 106u8, 107u8],
        (Player::One, InputButton::RagePlusOnePlusTwoPlusThree) => seq![111u8, 117u8, 105u8, 106u8],
        (Player::One, InputButton::RagePlusOnePlusTwoPlusFour) => seq![111u8, 117u8, 105u8, 107u8],
        (Player::One, InputButton::RagePlusOnePlusThreePlusFour) => seq![111u8, 117u8, 106u8, 107u8],
        (Player::One, InputButton::RagePlusTwoPlusThreePlusFour) => seq![111u8, 105u8, 106u8, 107u8],
        (Player::One, InputButton::RagePlusOnePlusTwoPlusThreePlusFour) => seq![111u8, 117u8, 105u8, 106u8, 107u8],
        (Player::Two, InputButton::Neutral) => Seq::<u8>::empty(),
        (Player::Two, InputButton::One) => seq![55u8],
        (Player::Two, InputButton::Two) => seq![56u8],
        (Player::Two, InputButton::Three) => seq![53u8],
        (Player::Two, InputButton::Four) => seq![54u8],
        (Player::Two, InputButton::OnePlusTwo) => seq![55u8, 56u8],
        (Player::Two, InputButton::OnePlusThree) => seq![55u8, 53u8],
        (Player::Two, InputButton::OnePlusFour) => seq![55u8, 54u8],
        (Player::Two, InputButton::TwoPlusThree) => seq![56u8, 53u8],
        (Player::Two, InputButton::TwoPlusFour) => seq![56u8, 54u8],
        (Player::Two, InputButton::ThreePlusFour) => seq![53u8, 54u8],
        (Player::Two, InputButton::OnePlusTwoPlusThree) => seq![55u8, 56u8, 53u8],
        (Player::Two, InputButton::OnePlusTwoPlusFour) => seq![55u8, 56u8, 54u8],
        (Player::Two, InputButton::OnePlusThreePlusFour) => seq![55u8, 53u8, 54u8],
        (Player::Two, InputButton::TwoPlusThreePlusFour) => seq![56u8, 53u8, 54u8],
        (Player::Two, InputButton::OnePlusTwoPlusThreePlusFour) => seq![55u8, 56u8, 53u8, 54u8],
        (Player::Two, InputButton::Rage) => seq![45u8],
        (Player::Two, InputButton::RagePlusOne) => seq![45u8, 55u8],
        (Player::Two, InputButton::RagePlusTwo) => seq![45u8, 56u8],
        (Player::Two, InputButton::RagePlusThree) => seq![45u8, 53u8],
        (Player::Two, InputButton::RagePlusFour) => seq![45u8, 54u8],
        (Player::Two, InputButton::RagePlusOnePlusTwo) => seq![45u8, 55u8, 56u8],
        (Player::Two, InputButton::RagePlusOnePlusThree) => seq![45u8, 55u8, 53u8],
        (Player::Two, InputButton::RagePlusOnePlusFour) => seq![45u8, 55u8, 54u8],
        (Player::Two, InputButton::RagePlusTwoPlusThree) => seq![45u8, 56u8, 53u8],
        (Player::Two, InputButton::RagePlusTwoPlusFour) => seq![45u8, 56u8, 54u8],
        (Player::Two, InputButton::RagePlusThreePlusFour) => seq![45u8, 53u8, 54u8],
        (Player::Two, InputButton::RagePlusOnePlusTwoPlusThree) => seq![45u8, 55u8, 56u8, 53u8],
        (Player::Two, InputButton::RagePlusOnePlusTwoPlusFour) => seq![45u8, 55u8, 56u8, 54u8],
        (Player::Two, InputButton::RagePlusOnePlusThreePlusFour) => seq![45u8, 55u8, 53u8, 54u8],
        (Player::Two, InputButton::RagePlusTwoPlusThreePlusFour) => seq![45u8, 56u8, 53u8, 54u8],
        (Player::Two, InputButton::RagePlusOnePlusTwoPlusThreePlusFour) => seq![45u8, 55u8, 56u8, 53u8, 54u8],
    }
}

/// The notation label of each direction.
pub open spec fn spec_direction_label(d: InputDirection) -> Seq<char> {
    match d {
        InputDirection::Neutral => " "@,
        InputDirection::Back => "b"@,
        InputDirection::DownBack => "d/b"@,
        InputDirection::Down => "d"@,
        InputDirection::DownForward => "d/f"@,
        InputDirection::Forward => "f"@,
        InputDirection::UpForward => "u/f"@,
        InputDirection::Up => "u"@,
        InputDirection::UpBack => "u/b"@,
    }
}

/// The physical keys holding each direction, one ASCII code per key: back
/// and forward are relative to facing, so the keys depend on the side the
/// player occupies.
pub open spec fn spec_direction_keys(d: InputDirection, player: Player, side: Player) -> Seq<u8> {
    match (player, side, d) {
        (Player::One, Player::One, InputDirection::Neutral) => Seq::<u8>::empty(),
        (Player::One, Player::One, InputDirection::Back) => seq![97u8],
        (Player::One, Player::One, InputDirection::DownBack) => seq![97u8, 115u8],
        (Player::One, Player::One, InputDirection::Down) => seq![115u8],
        (Player::One, Player::One, InputDirection::DownForward) => seq![115u8, 100u8],
        (Player::One, Player::One, InputDirection::Forward) => seq![100u8],
        (Player::One, Player::One, InputDirection::UpForward) => seq![119u8, 100u8],
        (Player::One, Player::One, InputDirection::Up) => seq![119u8],
        (Player::One, Player::One, InputDirection::UpBack) => seq![119u8, 97u8],
        (Player::One, Player::Two, InputDirection::Neutral) => Seq::<u8>::empty(),
        (Player::One, Player::Two, InputDirection::Back) => seq![100u8],
        (Player::One, Player::Two, InputDirection::DownBack) => seq![100u8, 115u8],
        (Player::One, Player::Two, InputDirection::Down) => seq![115u8],
        (Player::One, Player::Two, InputDirection::DownForward) => seq![115u8, 97u8],
        (Player::One, Player::Two, InputDirection::Forward) => seq![97u8],
        (Player::One, Player::Two, InputDirection::UpForward) => seq![119u8, 97u8],
        (Player::One, Player::Two, InputDirection::Up) => seq![119u8],
        (Player::One, Player::Two, InputDirection::UpBack) => seq![119u8, 100u8],
        (Player::Two, Player::One, InputDirection::Neutral) => Seq::<u8>::empty(),
        (Player::Two, Player::One, InputDirection::Back) => seq![51u8],
        (Player::Two, Player::One, InputDirection::DownBack) => seq![50u8, 51u8],
        (Player::Two, Player::One, InputDirection::Down) => seq![50u8],
        (Player::Two, Player::One, InputDirection::DownForward) => seq![50u8, 52u8],
        (Player::Two, Player::One, InputDirection::Forward) => seq![52u8],
        (Player::Two, Player::One, InputDirection::UpForward) => seq![49u8, 52u8],
        (Player::Two, Player::One, InputDirection::Up) => seq![49u8],
        (Player::Two, Player::One, InputDirection::UpBack) => seq![49u8, 51u8],
        (Player::Two, Player::Two, InputDirection::Neutral) => Seq::<u8>::empty(),
        (Player::Two, Player::Two, InputDirection::Back) => seq![52u8],
        (Player::Two, Player::Two, InputDirection::DownBack) => seq![50u8, 52u8],
        (Player::Two, Player::Two, InputDirection::Down) => seq![50u8],
        (Player::Two, Player::Two, InputDirection::DownForward) => seq![50u8, 51u8],
        (Player::Two, Player::Two, InputDirection::Forward) => seq![51u8],
        (Player::Two, Player::Two, InputDirection::UpForward) => seq![49u8, 51u8],
        (Player::Two, Player::Two, InputDirection::Up) => seq![49u8],
        (Player::Two, Player::Two, InputDirection::UpBack) => seq![49u8, 52u8],
    }
}

/// The same key tables as `spec_button_keys`, as the text of the keys.
pub open spec fn spec_button_key_str(b: InputButton, player: Player) -> Seq<char> {
    match (player, b) {
        (Player::One, InputButton::Neutral) => ""@,
        (Player::One, InputButton::One) => "u"@,
        (Player::One, InputButton::Two) => "i"@,
        (Player::One, InputButton::Three) => "j"@,
        (Player::One, InputButton::Four) => "k"@,
        (Player::One, InputButton::OnePlusTwo) => "ui"@,
        (Player::One, InputButton::OnePlusThree) => "uj"@,
        (Player::One, InputButton::OnePlusFour) => "uk"@,
        (Player::One, InputButton::TwoPlusThree) => "ij"@,
        (Player::One, InputButton::TwoPlusFour) => "ik"@,
        (Player::One, InputButton::ThreePlusFour) => "jk"@,
        (Player::One, InputButton::OnePlusTwoPlusThree) => "uij"@,
        (Player::One, InputButton::OnePlusTwoPlusFour) => "uik"@,
        (Player::One, InputButton::OnePlusThreePlusFour) => "ujk"@,
        (Player::One, InputButton::TwoPlusThreePlusFour) => "ijk"@,
        (Player::One, InputButton::OnePlusTwoPlusThreePlusFour) => "uijk"@,
        (Player::One, InputButton::Rage) => "o"@,
        (Player::One, InputButton::RagePlusOne) => "ou"@,
        (Player::One, InputButton::RagePlusTwo) => "oi"@,
        (Player::One, InputButton::RagePlusThree) => "oj"@,
        (Player::One, InputButton::RagePlusFour) => "ok"@,
        (Player::One, InputButton::RagePlusOnePlusTwo) => "oui"@,
        (Player::One, InputButton::RagePlusOnePlusThree) => "ouj"@,
        (Player::One, InputButton::RagePlusOnePlusFour) => "ouk"@,
        (Player::One, InputButton::RagePlusTwoPlusThree) => "oij"@,
        (Player::One, InputButton::RagePlusTwoPlusFour) => "oik"@,
        (Player::One, InputButton::RagePlusThreePlusFour) => "ojk"@,
        (Player::One, InputButton::RagePlusOnePlusTwoPlusThree) => "ouij"@,
        (Player::One, InputButton::RagePlusOnePlusTwoPlusFour) => "ouik"@,
        (Player::One, InputButton::RagePlusOnePlusThreePlusFour) => "oujk"@,
        (Player::One, InputButton::RagePlusTwoPlusThreePlusFour) => "oijk"@,
        (Player::One, InputButton::RagePlusOnePlusTwoPlusThreePlusFour) => "ouijk"@,
        (Player::Two, InputButton::Neutral) => ""@,
        (Player::Two, InputButton::One) => "7"@,
        (Player::Two, InputButton::Two) => "8"@,
        (Player::Two, InputButton::Three) => "5"@,
        (Player::Two, InputButton::Four) => "6"@,
        (Player::Two, InputButton::OnePlusTwo) => "78"@,
        (Player::Two, InputButton::OnePlusThree) => "75"@,
        (Player::Two, InputButton::OnePlusFour) => "76"@,
        (Player::Two, InputButton::TwoPlusThree) => "85"@,
        (Player::Two, InputButton::TwoPlusFour) => "86"@,
        (Player::Two, InputButton::ThreePlusFour) => "56"@,
        (Player::Two, InputButton::OnePlusTwoPlusThree) => "785"@,
        (Player::Two, InputButton::OnePlusTwoPlusFour) => "786"@,
        (Player::Two, InputButton::OnePlusThreePlusFour) => "756"@,
        (Player::Two, InputButton::TwoPlusThreePlusFour) => "856"@,
        (Player::Two, InputButton::OnePlusTwoPlusThreePlusFour) => "7856"@,
        (Player::Two, InputButton::Rage) => "-"@,
        (Player::Two, InputButton::RagePlusOne) => "-7"@,
        (Player::Two, InputButton::RagePlusTwo) => "-8"@,
        (Player::Two, InputButton::RagePlusThree) => "-5"@,
        (Player::Two, InputButton::RagePlusFour) => "-6"@,
        (Player::Two, InputButton::RagePlusOnePlusTwo) => "-78"@,
        (Player::Two, InputButton::RagePlusOnePlusThree) => "-75"@,
        (Player::Two, InputButton::RagePlusOnePlusFour) => "-76"@,
        (Player::Two, InputButton::RagePlusTwoPlusThree) => "-85"@,
        (Player::Two, InputButton::RagePlusTwoPlusFour) => "-86"@,
        (Player::Two, InputButton::RagePlusThreePlusFour) => "-56"@,
        (Player::Two, InputButton::RagePlusOnePlusTwoPlusThree) => "-785"@,
        (Player::Two, InputButton::RagePlusOnePlusTwoPlusFour) => "-786"@,
        (Player::Two, InputButton::RagePlusOnePlusThreePlusFour) => "-756"@,
        (Player::Two, InputButton::RagePlusTwoPlusThreePlusFour) => "-856"@,
        (Player::Two, InputButton::RagePlusOnePlusTwoPlusThreePlusFour) => "-7856"@,
    }
}

/// The same key tables as `spec_direction_keys`, as the text of the keys.
pub open spec fn spec_direction_key_str(d: InputDirection, player: Player, side: Player) -> Seq<char> {
    match (player, side, d) {
        (Player::One, Player::One, InputDirection::Neutral) => ""@,
        (Player::One, Player::One, InputDirection::Back) => "a"@,
        (Player::One, Player::One, InputDirection::DownBack) => "as"@,
        (Player::One, Player::One, InputDirection::Down) => "s"@,
        (Player::One, Player::One, InputDirection::DownForward) => "sd"@,
        (Player::One, Player::One, InputDirection::Forward) => "d"@,
        (Player::One, Player::One, InputDirection::UpForward) => "wd"@,
        (Player::One, Player::One, InputDirection::Up) => "w"@,
        (Player::One, Player::One, InputDirection::UpBack) => "wa"@,
        (Player::One, Player::Two, InputDirection::Neutral) => ""@,
        (Player::One, Player::Two, InputDirection::Back) => "d"@,
        (Player::One, Player::Two, InputDirection::DownBack) => "ds"@,
        (Player::One, Player::Two, InputDirection::Down) => "s"@,
        (Player::One, Player::Two, InputDirection::DownForward) => "sa"@,
        (Player::One, Player::Two, InputDirection::Forward) => "a"@,
        (Player::One, Player::Two, InputDirection::UpForward) => "wa"@,
        (Player::One, Player::Two, InputDirection::Up) => "w"@,
        (Player::One, Player::Two, InputDirection::UpBack) => "wd"@,
        (Player::Two, Player::One, InputDirection::Neutral) => ""@,
        (Player::Two, Player::One, InputDirection::Back) => "3"@,
        (Player::Two, Player::One, InputDirection::DownBack) => "23"@,
        (Player::Two, Player::One, InputDirection::Down) => "2"@,
        (Player::Two, Player::One, InputDirection::DownForward) => "24"@,
        (Player::Two, Player::One, InputDirection::Forward) => "4"@,
        (Player::Two, Player::One, InputDirection::UpForward) => "14"@,
        (Player::Two, Player::One, InputDirection::Up) => "1"@,
        (Player::Two, Player::One, InputDirection::UpBack) => "13"@,
        (Player::Two, Player::Two, InputDirection::Neutral) => ""@,
        (Player::Two, Player::Two, InputDirection::Back) => "4"@,
        (Player::Two, Player::Two, InputDirection::DownBack) => "24"@,
        (Player::Two, Player::Two, InputDirection::Down) => "2"@,
        (Player::Two, Player::Two, InputDirection::DownForward) => "23"@,
        (Player::Two, Player::Two, InputDirection::Forward) => "3"@,
        (Player::Two, Player::Two, InputDirection::UpForward) => "13"@,
        (Player::Two, Player::Two, InputDirection::Up) => "1"@,
        (Player::Two, Player::Two, InputDirection::UpBack) => "14"@,
    }
}

/// Decodes a raw attack bitmask. Exactly the values of the table are
/// accepted; anything else is an unknown encoding.
pub fn decode_button(raw: u16) -> (r: Result<InputButton, DecodeError>)
    ensures
        spec_valid_button_raw(raw) ==> r == Ok::<InputButton, DecodeError>(spec_decode_button(raw)),
        !spec_valid_button_raw(raw) ==> r == Err::<InputButton, DecodeError>(DecodeError::UnknownEncoding(raw)),
{
    match raw {
        0 => Ok(InputButton::Neutral),
        512 => Ok(InputButton::One),
        1024 => Ok(InputButton::Two),
        2048 => Ok(InputButton::Three),
        4096 => Ok(InputButton::Four),
        1536 => Ok(InputButton::OnePlusTwo),
        2560 => Ok(InputButton::OnePlusThree),
        4608 => Ok(InputButton::OnePlusFour),
        3072 => Ok(InputButton::TwoPlusThree),
        5120 => Ok(InputButton::TwoPlusFour),
        6144 => Ok(InputButton::ThreePlusFour),
        3584 => Ok(InputButton::OnePlusTwoPlusThree),
        5632 => Ok(InputButton::OnePlusTwoPlusFour),
        6656 => Ok(InputButton::OnePlusThreePlusFour),
        7168 => Ok(InputButton::TwoPlusThreePlusFour),
        7680 => Ok(InputButton::OnePlusTwoPlusThreePlusFour),
        8192 => Ok(InputButton::Rage),
        8704 => Ok(InputButton::RagePlusOne),
        9216 => Ok(InputButton::RagePlusTwo),
        10240 => Ok(InputButton::RagePlusThree),
        12288 => Ok(InputButton::RagePlusFour),
        9728 => Ok(InputButton::RagePlusOnePlusTwo),
        10752 => Ok(InputButton::RagePlusOnePlusThree),
        12800 => Ok(InputButton::RagePlusOnePlusFour),
        11264 => Ok(InputButton::RagePlusTwoPlusThree),
        13312 => Ok(InputButton::RagePlusTwoPlusFour),
        14336 => Ok(InputButton::RagePlusThreePlusFour),
        11776 => Ok(InputButton::RagePlusOnePlusTwoPlusThree),
        13824 => Ok(InputButton::RagePlusOnePlusTwoPlusFour),
        14848 => Ok(InputButton::RagePlusOnePlusThreePlusFour),
        15360 => Ok(InputButton::RagePlusTwoPlusThreePlusFour),
        15872 => Ok(InputButton::RagePlusOnePlusTwoPlusThreePlusFour),
        _ => Err(DecodeError::UnknownEncoding(raw)),
    }
}

/// Decodes a raw direction bitmask. Besides the defined constants the raw
/// value 0 is accepted as neutral; anything else is an unknown encoding.
pub fn decode_direction(raw: u16) -> (r: Result<InputDirection, DecodeError>)
    ensures
        spec_valid_direction_raw(raw) || raw == 0 ==> r == Ok::<InputDirection, DecodeError>(spec_decode_direction(raw)),
        !(spec_valid_direction_raw(raw) || raw == 0) ==> r == Err::<InputDirection, DecodeError>(DecodeError::UnknownEncoding(raw)),
{
    match raw {
        0 => Ok(InputDirection::Neutral),
        32 => Ok(InputDirection::Neutral),
        16 => Ok(InputDirection::Back),
        2 => Ok(InputDirection::DownBack),
        4 => Ok(InputDirection::Down),
        8 => Ok(InputDirection::DownForward),
        64 => Ok(InputDirection::Forward),
        512 => Ok(InputDirection::UpForward),
        256 => Ok(InputDirection::Up),
        128 => Ok(InputDirection::UpBack),
        _ => Err(DecodeError::UnknownEncoding(raw)),
    }
}

impl InputButton {
    /// The raw bitmask this symbolic value encodes to.
    pub fn raw_value(&self) -> (r: u16)
        ensures
            r == spec_button_raw(*self),
    {
        match self {
            InputButton::Neutral => 0,
            InputButton::One => 512,
            InputButton::Two => 1024,
            InputButton::Three => 2048,
            InputButton::Four => 4096,
            InputButton::OnePlusTwo => 1536,
            InputButton::OnePlusThree => 2560,
            InputButton::OnePlusFour => 4608,
            InputButton::TwoPlusThree => 3072,
            InputButton::TwoPlusFour => 5120,
            InputButton::ThreePlusFour => 6144,
            InputButton::OnePlusTwoPlusThree => 3584,
            InputButton::OnePlusTwoPlusFour => 5632,
            InputButton::OnePlusThreePlusFour => 6656,
            InputButton::TwoPlusThreePlusFour => 7168,
            InputButton::OnePlusTwoPlusThreePlusFour => 7680,
            InputButton::Rage => 8192,
            InputButton::RagePlusOne => 8704,
            InputButton::RagePlusTwo => 9216,
            InputButton::RagePlusThree => 10240,
            InputButton::RagePlusFour => 12288,
            InputButton::RagePlusOnePlusTwo => 9728,
            InputButton::RagePlusOnePlusThree => 10752,
            InputButton::RagePlusOnePlusFour => 12800,
            InputButton::RagePlusTwoPlusThree => 11264,
            InputButton::RagePlusTwoPlusFour => 13312,
            InputButton::RagePlusThreePlusFour => 14336,
            InputButton::RagePlusOnePlusTwoPlusThree => 11776,
            InputButton::RagePlusOnePlusTwoPlusFour => 13824,
            InputButton::RagePlusOnePlusThreePlusFour => 14848,
            InputButton::RagePlusTwoPlusThreePlusFour => 15360,
            InputButton::RagePlusOnePlusTwoPlusThreePlusFour => 15872,
        }
    }

    /// Notation label of this button combination.
    pub fn to_str(&self) -> (r: &'static str)
        ensures
            r@ == spec_button_label(*self),
    {
        match self {
            InputButton::Neutral => "",
            InputButton::One => "1",
            InputButton::Two => "2",
            InputButton::Three => "3",
            InputButton::Four => "4",
            InputButton::OnePlusTwo => "1+2",
            InputButton::OnePlusThree => "1+3",
            InputButton::OnePlusFour => "1+4",
            InputButton::TwoPlusThree => "2+3",
            InputButton::TwoPlusFour => "2+4",
            InputButton::ThreePlusFour => "3+4",
            InputButton::OnePlusTwoPlusThree => "1+2+3",
            InputButton::OnePlusTwoPlusFour => "1+2+4",
            InputButton::OnePlusThreePlusFour => "1+3+4",
            InputButton::TwoPlusThreePlusFour => "2+3+4",
            InputButton::OnePlusTwoPlusThreePlusFour => "1+2+3+4",
            InputButton::Rage => "RD",
            InputButton::RagePlusOne => "1+RD",
            InputButton::RagePlusTwo => "2+RD",
            InputButton::RagePlusThree => "3+RD",
            InputButton::RagePlusFour => "4+RD",
            InputButton::RagePlusOnePlusTwo => "1+2+RD",
            InputButton::RagePlusOnePlusThree => "1+3+RD",
            InputButton::RagePlusOnePlusFour => "1+4+RD",
            InputButton::RagePlusTwoPlusThree => "2+3+RD",
            InputButton::RagePlusTwoPlusFour => "2+4+RD",
            InputButton::RagePlusThreePlusFour => "3+4+RD",
            InputButton::RagePlusOnePlusTwoPlusThree => "1+2+3+RD",
            InputButton::RagePlusOnePlusTwoPlusFour => "1+2+4+RD",
            InputButton::RagePlusOnePlusThreePlusFour => "1+3+4+RD",
            InputButton::RagePlusTwoPlusThreePlusFour => "2+3+4+RD",
            InputButton::RagePlusOnePlusTwoPlusThreePlusFour => "1+2+3+4+RD",
        }
    }

    /// The physical keys that hold this button combination down for the
    /// given player.
    pub fn to_input_key(&self, player: &Player) -> (r: &'static str)
        ensures
            r@ == spec_button_key_str(*self, *player),
    {
        match (player, self) {
            (Player::One, InputButton::Neutral) => "",
            (Player::One, InputButton::One) => "u",
            (Player::One, InputButton::Two) => "i",
            (Player::One, InputButton::Three) => "j",
            (Player::One, InputButton::Four) => "k",
            (Player::One, InputButton::OnePlusTwo) => "ui",
            (Player::One, InputButton::OnePlusThree) => "uj",
            (Player::One, InputButton::OnePlusFour) => "uk",
            (Player::One, InputButton::TwoPlusThree) => "ij",
            (Player::One, InputButton::TwoPlusFour) => "ik",
            (Player::One, InputButton::ThreePlusFour) => "jk",
            (Player::One, InputButton::OnePlusTwoPlusThree) => "uij",
            (Player::One, InputButton::OnePlusTwoPlusFour) => "uik",
            (Player::One, InputButton::OnePlusThreePlusFour) => "ujk",
            (Player::One, InputButton::TwoPlusThreePlusFour) => "ijk",
            (Player::One, InputButton::OnePlusTwoPlusThreePlusFour) => "uijk",
            (Player::One, InputButton::Rage) => "o",
            (Player::One, InputButton::RagePlusOne) => "ou",
            (Player::One, InputButton::RagePlusTwo) => "oi",
            (Player::One, InputButton::RagePlusThree) => "oj",
            (Player::One, InputButton::RagePlusFour) => "ok",
            (Player::One, InputButton::RagePlusOnePlusTwo) => "oui",
            (Player::One, InputButton::RagePlusOnePlusThree) => "ouj",
            (Player::One, InputButton::RagePlusOnePlusFour) => "ouk",
            (Player::One, InputButton::RagePlusTwoPlusThree) => "oij",
            (Player::One, InputButton::RagePlusTwoPlusFour) => "oik",
            (Player::One, InputButton::RagePlusThreePlusFour) => "ojk",
            (Player::One, InputButton::RagePlusOnePlusTwoPlusThree) => "ouij",
            (Player::One, InputButton::RagePlusOnePlusTwoPlusFour) => "ouik",
            (Player::One, InputButton::RagePlusOnePlusThreePlusFour) => "oujk",
            (Player::One, InputButton::RagePlusTwoPlusThreePlusFour) => "oijk",
            (Player::One, InputButton::RagePlusOnePlusTwoPlusThreePlusFour) => "ouijk",
            (Player::Two, InputButton::Neutral) => "",
            (Player::Two, InputButton::One) => "7",
            (Player::Two, InputButton::Two) => "8",
            (Player::Two, InputButton::Three) => "5",
            (Player::Two, InputButton::Four) => "6",
            (Player::Two, InputButton::OnePlusTwo) => "78",
            (Player::Two, InputButton::OnePlusThree) => "75",
            (Player::Two, InputButton::OnePlusFour) => "76",
            (Player::Two, InputButton::TwoPlusThree) => "85",
            (Player::Two, InputButton::TwoPlusFour) => "86",
            (Player::Two, InputButton::ThreePlusFour) => "56",
            (Player::Two, InputButton::OnePlusTwoPlusThree) => "785",
            (Player::Two, InputButton::OnePlusTwoPlusFour) => "786",
            (Player::Two, InputButton::OnePlusThreePlusFour) => "756",
            (Player::Two, InputButton::TwoPlusThreePlusFour) => "856",
            (Player::Two, InputButton::OnePlusTwoPlusThreePlusFour) => "7856",
            (Player::Two, InputButton::Rage) => "-",
            (Player::Two, InputButton::RagePlusOne) => "-7",
            (Player::Two, InputButton::RagePlusTwo) => "-8",
            (Player::Two, InputButton::RagePlusThree) => "-5",
            (Player::Two, InputButton::RagePlusFour) => "-6",
            (Player::Two, InputButton::RagePlusOnePlusTwo) => "-78",
            (Player::Two, InputButton::RagePlusOnePlusThree) => "-75",
            (Player::Two, InputButton::RagePlusOnePlusFour) => "-76",
            (Player::Two, InputButton::RagePlusTwoPlusThree) => "-85",
            (Player::Two, InputButton::RagePlusTwoPlusFour) => "-86",
            (Player::Two, InputButton::RagePlusThreePlusFour) => "-56",
            (Player::Two, InputButton::RagePlusOnePlusTwoPlusThree) => "-785",
            (Player::Two, InputButton::RagePlusOnePlusTwoPlusFour) => "-786",
            (Player::Two, InputButton::RagePlusOnePlusThreePlusFour) => "-756",
            (Player::Two, InputButton::RagePlusTwoPlusThreePlusFour) => "-856",
            (Player::Two, InputButton::RagePlusOnePlusTwoPlusThreePlusFour) => "-7856",
        }
    }

    /// The same keys as `to_input_key`, one byte per key.
    pub fn input_keys(&self, player: &Player) -> (r: Vec<u8>)
        ensures
            r@ == spec_button_keys(*self, *player),
    {
        match (player, self) {
            (Player::One, InputButton::Neutral) => Vec::new(),
            (Player::One, InputButton::One) => {
                let v: Vec<u8> = vec![117u8];
                proof {
                    assert(v@ =~= seq![117u8]);
                }
                v
            },
            (Player::One, InputButton::Two) => {
                let v: Vec<u8> = vec![105u8];
                proof {
                    assert(v@ =~= seq![105u8]);
                }
                v
            },
            (Player::One, InputButton::Three) => {
                let v: Vec<u8> = vec![106u8];
                proof {
                    assert(v@ =~= seq![106u8]);
                }
                v
            },
            (Player::One, InputButton::Four) => {
                let v: Vec<u8> = vec![107u8];
                proof {
                    assert(v@ =~= seq![107u8]);
                }
                v
            },
            (Player::One, InputButton::OnePlusTwo) => {
                let v: Vec<u8> = vec![117u8, 105u8];
                proof {
                    assert(v@ =~= seq![117u8, 105u8]);
                }
                v
            },
            (Player::One, InputButton::OnePlusThree) => {
                let v: Vec<u8> = vec![117u8, 106u8];
                proof {
                    assert(v@ =~= seq![117u8, 106u8]);
                }
                v
            },
            (Player::One, InputButton::OnePlusFour) => {
                let v: Vec<u8> = vec![117u8, 107u8];
                proof {
                    assert(v@ =~= seq![117u8, 107u8]);
                }
                v
            },
            (Player::One, InputButton::TwoPlusThree) => {
                let v: Vec<u8> = vec![105u8, 106u8];
                proof {
                    assert(v@ =~= seq![105u8, 106u8]);
                }
                v
            },
            (Player::One, InputButton::TwoPlusFour) => {
                let v: Vec<u8> = vec![105u8, 107u8];
                proof {
                    assert(v@ =~= seq![105u8, 107u8]);
                }
                v
            },
            (Player::One, InputButton::ThreePlusFour) => {
                let v: Vec<u8> = vec![106u8, 107u8];
                proof {
                    assert(v@ =~= seq![106u8, 107u8]);
                }
                v
            },
            (Player::One, InputButton::OnePlusTwoPlusThree) => {
                let v: Vec<u8> = vec![117u8, 105u8, 106u8];
                proof {
                    assert(v@ =~= seq![117u8, 105u8, 106u8]);
                }
                v
            },
            (Player::One, InputButton::OnePlusTwoPlusFour) => {
                let v: Vec<u8> = vec![117u8, 105u8, 107u8];
                proof {
                    assert(v@ =~= seq![117u8, 105u8, 107u8]);
                }
                v
            },
            (Player::One, InputButton::OnePlusThreePlusFour) => {
                let v: Vec<u8> = vec![117u8, 106u8, 107u8];
                proof {
                    assert(v@ =~= seq![117u8, 106u8, 107u8]);
                }
                v
            },
            (Player::One, InputButton::TwoPlusThreePlusFour) => {
                let v: Vec<u8> = vec![105u8, 106u8, 107u8];
                proof {
                    assert(v@ =~= seq![105u8, 106u8, 107u8]);
                }
                v
            },
            (Player::One, InputButton::OnePlusTwoPlusThreePlusFour) => {
                let v: Vec<u8> = vec![117u8, 105u8, 106u8, 107u8];
                proof {
                    assert(v@ =~= seq![117u8, 105u8, 106u8, 107u8]);
                }
                v
            },
            (Player::One, InputButton::Rage) => {
                let v: Vec<u8> = vec![111u8];
                proof {
                    assert(v@ =~= seq![111u8]);
                }
                v
            },
            (Player::One, InputButton::RagePlusOne) => {
                let v: Vec<u8> = vec![111u8, 117u8];
                proof {
                    assert(v@ =~= seq![111u8, 117u8]);
                }
                v
            },
            (Player::One, InputButton::RagePlusTwo) => {
                let v: Vec<u8> = vec![111u8, 105u8];
                proof {
                    assert(v@ =~= seq![111u8, 105u8]);
                }
                v
            },
            (Player::One, InputButton::RagePlusThree) => {
                let v: Vec<u8> = vec![111u8, 106u8];
                proof {
                    assert(v@ =~= seq![111u8, 106u8]);
                }
                v
            },
            (Player::One, InputButton::RagePlusFour) => {
                let v: Vec<u8> = vec![111u8, 107u8];
                proof {
                    assert(v@ =~= seq![111u8, 107u8]);
                }
                v
            },
            (Player::One, InputButton::RagePlusOnePlusTwo) => {
                let v: Vec<u8> = vec![111u8, 117u8, 105u8];
                proof {
                    assert(v@ =~= seq![111u8, 117u8, 105u8]);
                }
                v
            },
            (Player::One, InputButton::RagePlusOnePlusThree) => {
                let v: Vec<u8> = vec![111u8, 117u8, 106u8];
                proof {
                    assert(v@ =~= seq![111u8, 117u8, 106u8]);
                }
                v
            },
            (Player::One, InputButton::RagePlusOnePlusFour) => {
                let v: Vec<u8> = vec![111u8, 117u8, 107u8];
                proof {
                    assert(v@ =~= seq![111u8, 117u8, 107u8]);
                }
                v
            },
            (Player::One, InputButton::RagePlusTwoPlusThree) => {
                let v: Vec<u8> = vec![111u8, 105u8, 106u8];
                proof {
                    assert(v@ =~= seq![111u8, 105u8, 106u8]);
                }
                v
            },
            (Player::One, InputButton::RagePlusTwoPlusFour) => {
                let v: Vec<u8> = vec![111u8, 105u8, 107u8];
                proof {
                    assert(v@ =~= seq![111u8, 105u8, 107u8]);
                }
                v
            },
            (Player::One, InputButton::RagePlusThreePlusFour) => {
                let v: Vec<u8> = vec![111u8, 106u8, 107u8];
                proof {
                    assert(v@ =~= seq![111u8, 106u8, 107u8]);
                }
                v
            },
            (Player::One, InputButton::RagePlusOnePlusTwoPlusThree) => {
                let v: Vec<u8> = vec![111u8, 117u8, 105u8, 106u8];
                proof {
                    assert(v@ =~= seq![111u8, 117u8, 105u8, 106u8]);
                }
                v
            },
            (Player::One, InputButton::RagePlusOnePlusTwoPlusFour) => {
                let v: Vec<u8> = vec![111u8, 117u8, 105u8, 107u8];
                proof {
                    assert(v@ =~= seq![111u8, 117u8, 105u8, 107u8]);
                }
                v
            },
            (Player::One, InputButton::RagePlusOnePlusThreePlusFour) => {
                let v: Vec<u8> = vec![111u8, 117u8, 106u8, 107u8];
                proof {
                    assert(v@ =~= seq![111u8, 117u8, 106u8, 107u8]);
                }
                v
            },
            (Player::One, InputButton::RagePlusTwoPlusThreePlusFour) => {
                let v: Vec<u8> = vec![111u8, 105u8, 106u8, 107u8];
                proof {
                    assert(v@ =~= seq![111u8, 105u8, 106u8, 107u8]);
                }
                v
            },
            (Player::One, InputButton::RagePlusOnePlusTwoPlusThreePlusFour) => {
                let v: Vec<u8> = vec![111u8, 117u8, 105u8, 106u8, 107u8];
                proof {
                    assert(v@ =~= seq![111u8, 117u8, 105u8, 106u8, 107u8]);
                }
                v
            },
            (Player::Two, InputButton::Neutral) => Vec::new(),
            (Player::Two, InputButton::One) => {
                let v: Vec<u8> = vec![55u8];
                proof {
                    assert(v@ =~= seq![55u8]);
                }
                v
            },
            (Player::Two, InputButton::Two) => {
                let v: Vec<u8> = vec![56u8];
                proof {
                    assert(v@ =~= seq![56u8]);
                }
                v
            },
            (Player::Two, InputButton::Three) => {
                let v: Vec<u8> = vec![53u8];
                proof {
                    assert(v@ =~= seq![53u8]);
                }
                v
            },
            (Player::Two, InputButton::Four) => {
                let v: Vec<u8> = vec![54u8];
                proof {
                    assert(v@ =~= seq![54u8]);
                }
                v
            },
            (Player::Two, InputButton::OnePlusTwo) => {
                let v: Vec<u8> = vec![55u8, 56u8];
                proof {
                    assert(v@ =~= seq![55u8, 56u8]);
                }
                v
            },
            (Player::Two, InputButton::OnePlusThree) => {
                let v: Vec<u8> = vec![55u8, 53u8];
                proof {
                    assert(v@ =~= seq![55u8, 53u8]);
                }
                v
            },
            (Player::Two, InputButton::OnePlusFour) => {
                let v: Vec<u8> = vec![55u8, 54u8];
                proof {
                    assert(v@ =~= seq![55u8, 54u8]);
                }
                v
            },
            (Player::Two, InputButton::TwoPlusThree) => {
                let v: Vec<u8> = vec![56u8, 53u8];
                proof {
                    assert(v@ =~= seq![56u8, 53u8]);
                }
                v
            },
            (Player::Two, InputButton::TwoPlusFour) => {
                let v: Vec<u8> = vec![56u8, 54u8];
                proof {
                    assert(v@ =~= seq![56u8, 54u8]);
                }
                v
            },
            (Player::Two, InputButton::ThreePlusFour) => {
                let v: Vec<u8> = vec![53u8, 54u8];
                proof {
                    assert(v@ =~= seq![53u8, 54u8]);
                }
                v
            },
            (Player::Two, InputButton::OnePlusTwoPlusThree) => {
                let v: Vec<u8> = vec![55u8, 56u8, 53u8];
                proof {
                    assert(v@ =~= seq![55u8, 56u8, 53u8]);
                }
                v
            },
            (Player::Two, InputButton::OnePlusTwoPlusFour) => {
                let v: Vec<u8> = vec![55u8, 56u8, 54u8];
                proof {
                    assert(v@ =~= seq![55u8, 56u8, 54u8]);
                }
                v
            },
            (Player::Two, InputButton::OnePlusThreePlusFour) => {
                let v: Vec<u8> = vec![55u8, 53u8, 54u8];
                proof {
                    assert(v@ =~= seq![55u8, 53u8, 54u8]);
                }
                v
            },
            (Player::Two, InputButton::TwoPlusThreePlusFour) => {
                let v: Vec<u8> = vec![56u8, 53u8, 54u8];
                proof {
                    assert(v@ =~= seq![56u8, 53u8, 54u8]);
                }
                v
            },
            (Player::Two, InputButton::OnePlusTwoPlusThreePlusFour) => {
                let v: Vec<u8> = vec![55u8, 56u8, 53u8, 54u8];
                proof {
                    assert(v@ =~= seq![55u8, 56u8, 53u8, 54u8]);
                }
                v
            },
            (Player::Two, InputButton::Rage) => {
                let v: Vec<u8> = vec![45u8];
                proof {
                    assert(v@ =~= seq![45u8]);
                }
                v
            },
            (Player::Two, InputButton::RagePlusOne) => {
                let v: Vec<u8> = vec![45u8, 55u8];
                proof {
                    assert(v@ =~= seq![45u8, 55u8]);
                }
                v
            },
            (Player::Two, InputButton::RagePlusTwo) => {
                let v: Vec<u8> = vec![45u8, 56u8];
                proof {
                    assert(v@ =~= seq![45u8, 56u8]);
                }
                v
            },
            (Player::Two, InputButton::RagePlusThree) => {
                let v: Vec<u8> = vec![45u8, 53u8];
                proof {
                    assert(v@ =~= seq![45u8, 53u8]);
                }
                v
            },
            (Player::Two, InputButton::RagePlusFour) => {
                let v: Vec<u8> = vec![45u8, 54u8];
                proof {
                    assert(v@ =~= seq![45u8, 54u8]);
                }
                v
            },
            (Player::Two, InputButton::RagePlusOnePlusTwo) => {
                let v: Vec<u8> = vec![45u8, 55u8, 56u8];
                proof {
                    assert(v@ =~= seq![45u8, 55u8, 56u8]);
                }
                v
            },
            (Player::Two, InputButton::RagePlusOnePlusThree) => {
                let v: Vec<u8> = vec![45u8, 55u8, 53u8];
                proof {
                    assert(v@ =~= seq![45u8, 55u8, 53u8]);
                }
                v
            },
            (Player::Two, InputButton::RagePlusOnePlusFour) => {
                let v: Vec<u8> = vec![45u8, 55u8, 54u8];
                proof {
                    assert(v@ =~= seq![45u8, 55u8, 54u8]);
                }
                v
            },
            (Player::Two, InputButton::RagePlusTwoPlusThree) => {
                let v: Vec<u8> = vec![45u8, 56u8, 53u8];
                proof {
                    assert(v@ =~= seq![45u8, 56u8, 53u8]);
                }
                v
            },
            (Player::Two, InputButton::RagePlusTwoPlusFour) => {
                let v: Vec<u8> = vec![45u8, 56u8, 54u8];
                proof {
                    assert(v@ =~= seq![45u8, 56u8, 54u8]);
                }
                v
            },
            (Player::Two, InputButton::RagePlusThreePlusFour) => {
                let v: Vec<u8> = vec![45u8, 53u8, 54u8];
                proof {
                    assert(v@ =~= seq![45u8, 53u8, 54u8]);
                }
                v
            },
            (Player::Two, InputButton::RagePlusOnePlusTwoPlusThree) => {
                let v: Vec<u8> = vec![45u8, 55u8, 56u8, 53u8];
                proof {
                    assert(v@ =~= seq![45u8, 55u8, 56u8, 53u8]);
                }
                v
            },
            (Player::Two, InputButton::RagePlusOnePlusTwoPlusFour) => {
                let v: Vec<u8> = vec![45u8, 55u8, 56u8, 54u8];
                proof {
                    assert(v@ =~= seq![45u8, 55u8, 56u8, 54u8]);
                }
                v
            },
            (Player::Two, InputButton::RagePlusOnePlusThreePlusFour) => {
                let v: Vec<u8> = vec![45u8, 55u8, 53u8, 54u8];
                proof {
                    assert(v@ =~= seq![45u8, 55u8, 53u8, 54u8]);
                }
                v
            },
            (Player::Two, InputButton::RagePlusTwoPlusThreePlusFour) => {
                let v: Vec<u8> = vec![45u8, 56u8, 53u8, 54u8];
                proof {
                    assert(v@ =~= seq![45u8, 56u8, 53u8, 54u8]);
                }
                v
            },
            (Player::Two, InputButton::RagePlusOnePlusTwoPlusThreePlusFour) => {
                let v: Vec<u8> = vec![45u8, 55u8, 56u8, 53u8, 54u8];
                proof {
                    assert(v@ =~= seq![45u8, 55u8, 56u8, 53u8, 54u8]);
                }
                v
            },
        }
    }
}

impl InputDirection {
    /// The raw bitmask this symbolic value encodes to. Neutral encodes
    /// to its defined constant, not to 0.
    pub fn raw_value(&self) -> (r: u16)
        ensures
            r == spec_direction_raw(*self),
    {
        match self {
            InputDirection::Neutral => 32,
            InputDirection::Back => 16,
            InputDirection::DownBack => 2,
            InputDirection::Down => 4,
            InputDirection::DownForward => 8,
            InputDirection::Forward => 64,
            InputDirection::UpForward => 512,
            InputDirection::Up => 256,
            InputDirection::UpBack => 128,
        }
    }

    /// Notation label of this direction.
    pub fn to_str(&self) -> (r: &'static str)
        ensures
            r@ == spec_direction_label(*self),
    {
        match self {
            InputDirection::Neutral => " ",
            InputDirection::Back => "b",
            InputDirection::DownBack => "d/b",
            InputDirection::Down => "d",
            InputDirection::DownForward => "d/f",
            InputDirection::Forward => "f",
            InputDirection::UpForward => "u/f",
            InputDirection::Up => "u",
            InputDirection::UpBack => "u/b",
        }
    }

    /// The physical keys that hold this direction for the given player.
    /// Back and forward are relative to facing, so the keys depend on
    /// the side the player currently occupies.
    pub fn to_input_key(&self, player: &Player, side: Player) -> (r: &'static str)
        ensures
            r@ == spec_direction_key_str(*self, *player, side),
    {
        match (player, side, self) {
            (Player::One, Player::One, InputDirection::Neutral) => "",
            (Player::One, Player::One, InputDirection::Back) => "a",
            (Player::One, Player::One, InputDirection::DownBack) => "as",
            (Player::One, Player::One, InputDirection::Down) => "s",
            (Player::One, Player::One, InputDirection::DownForward) => "sd",
            (Player::One, Player::One, InputDirection::Forward) => "d",
            (Player::One, Player::One, InputDirection::UpForward) => "wd",
            (Player::One, Player::One, InputDirection::Up) => "w",
            (Player::One, Player::One, InputDirection::UpBack) => "wa",
            (Player::One, Player::Two, InputDirection::Neutral) => "",
            (Player::One, Player::Two, InputDirection::Back) => "d",
            (Player::One, Player::Two, InputDirection::DownBack) => "ds",
            (Player::One, Player::Two, InputDirection::Down) => "s",
            (Player::One, Player::Two, InputDirection::DownForward) => "sa",
            (Player::One, Player::Two, InputDirection::Forward) => "a",
            (Player::One, Player::Two, InputDirection::UpForward) => "wa",
            (Player::One, Player::Two, InputDirection::Up) => "w",
            (Player::One, Player::Two, InputDirection::UpBack) => "wd",
            (Player::Two, Player::One, InputDirection::Neutral) => "",
            (Player::Two, Player::One, InputDirection::Back) => "3",
            (Player::Two, Player::One, InputDirection::DownBack) => "23",
            (Player::Two, Player::One, InputDirection::Down) => "2",
            (Player::Two, Player::One, InputDirection::DownForward) => "24",
            (Player::Two, Player::One, InputDirection::Forward) => "4",
            (Player::Two, Player::One, InputDirection::UpForward) => "14",
            (Player::Two, Player::One, InputDirection::Up) => "1",
            (Player::Two, Player::One, InputDirection::UpBack) => "13",
            (Player::Two, Player::Two, InputDirection::Neutral) => "",
            (Player::Two, Player::Two, InputDirection::Back) => "4",
            (Player::Two, Player::Two, InputDirection::DownBack) => "24",
            (Player::Two, Player::Two, InputDirection::Down) => "2",
            (Player::Two, Player::Two, InputDirection::DownForward) => "23",
            (Player::Two, Player::Two, InputDirection::Forward) => "3",
            (Player::Two, Player::Two, InputDirection::UpForward) => "13",
            (Player::Two, Player::Two, InputDirection::Up) => "1",
            (Player::Two, Player::Two, InputDirection::UpBack) => "14",
        }
    }

    /// The same keys as `to_input_key`, one byte per key.
    pub fn input_keys(&self, player: &Player, side: Player) -> (r: Vec<u8>)
        ensures
            r@ == spec_direction_keys(*self, *player, side),
    {
        match (player, side, self) {
            (Player::One, Player::One, InputDirection::Neutral) => Vec::new(),
            (Player::One, Player::One, InputDirection::Back) => {
                let v: Vec<u8> = vec![97u8];
                proof {
                    assert(v@ =~= seq![97u8]);
                }
                v
            },
            (Player::One, Player::One, InputDirection::DownBack) => {
                let v: Vec<u8> = vec![97u8, 115u8];
                proof {
                    assert(v@ =~= seq![97u8, 115u8]);
                }
                v
            },
            (Player::One, Player::One, InputDirection::Down) => {
                let v: Vec<u8> = vec![115u8];
                proof {
                    assert(v@ =~= seq![115u8]);
                }
                v
            },
            (Player::One, Player::One, InputDirection::DownForward) => {
                let v: Vec<u8> = vec![115u8, 100u8];
                proof {
                    assert(v@ =~= seq![115u8, 100u8]);
                }
                v
            },
            (Player::One, Player::One, InputDirection::Forward) => {
                let v: Vec<u8> = vec![100u8];
                proof {
                    assert(v@ =~= seq![100u8]);
                }
                v
            },
            (Player::One, Player::One, InputDirection::UpForward) => {
                let v: Vec<u8> = vec![119u8, 100u8];
                proof {
                    assert(v@ =~= seq![119u8, 100u8]);
                }
                v
            },
            (Player::One, Player::One, InputDirection::Up) => {
                let v: Vec<u8> = vec![119u8];
                proof {
                    assert(v@ =~= seq![119u8]);
                }
                v
            },
            (Player::One, Player::One, InputDirection::UpBack) => {
                let v: Vec<u8> = vec![119u8, 97u8];
                proof {
                    assert(v@ =~= seq![119u8, 97u8]);
                }
                v
            },
            (Player::One, Player::Two, InputDirection::Neutral) => Vec::new(),
            (Player::One, Player::Two, InputDirection::Back) => {
                let v: Vec<u8> = vec![100u8];
                proof {
                    assert(v@ =~= seq![100u8]);
                }
                v
            },
            (Player::One, Player::Two, InputDirection::DownBack) => {
                let v: Vec<u8> = vec![100u8, 115u8];
                proof {
                    assert(v@ =~= seq![100u8, 115u8]);
                }
                v
            },
            (Player::One, Player::Two, InputDirection::Down) => {
                let v: Vec<u8> = vec![115u8];
                proof {
                    assert(v@ =~= seq![115u8]);
                }
                v
            },
            (Player::One, Player::Two, InputDirection::DownForward) => {
                let v: Vec<u8> = vec![115u8, 97u8];
                proof {
                    assert(v@ =~= seq![115u8, 97u8]);
                }
                v
            },
            (Player::One, Player::Two, InputDirection::Forward) => {
                let v: Vec<u8> = vec![97u8];
                proof {
                    assert(v@ =~= seq![97u8]);
                }
                v
            },
            (Player::One, Player::Two, InputDirection::UpForward) => {
                let v: Vec<u8> = vec![119u8, 97u8];
                proof {
                    assert(v@ =~= seq![119u8, 97u8]);
                }
                v
            },
            (Player::One, Player::Two, InputDirection::Up) => {
                let v: Vec<u8> = vec![119u8];
                proof {
                    assert(v@ =~= seq![119u8]);
                }
                v
            },
            (Player::One, Player::Two, InputDirection::UpBack) => {
                let v: Vec<u8> = vec![119u8, 100u8];
                proof {
                    assert(v@ =~= seq![119u8, 100u8]);
                }
                v
            },
            (Player::Two, Player::One, InputDirection::Neutral) => Vec::new(),
            (Player::Two, Player::One, InputDirection::Back) => {
                let v: Vec<u8> = vec![51u8];
                proof {
                    assert(v@ =~= seq![51u8]);
                }
                v
            },
            (Player::Two, Player::One, InputDirection::DownBack) => {
                let v: Vec<u8> = vec![50u8, 51u8];
                proof {
                    assert(v@ =~= seq![50u8, 51u8]);
                }
                v
            },
            (Player::Two, Player::One, InputDirection::Down) => {
                let v: Vec<u8> = vec![50u8];
                proof {
                    assert(v@ =~= seq![50u8]);
                }
                v
            },
            (Player::Two, Player::One, InputDirection::DownForward) => {
                let v: Vec<u8> = vec![50u8, 52u8];
                proof {
                    assert(v@ =~= seq![50u8, 52u8]);
                }
                v
            },
            (Player::Two, Player::One, InputDirection::Forward) => {
                let v: Vec<u8> = vec![52u8];
                proof {
                    assert(v@ =~= seq![52u8]);
                }
                v
            },
            (Player::Two, Player::One, InputDirection::UpForward) => {
                let v: Vec<u8> = vec![49u8, 52u8];
                proof {
                    assert(v@ =~= seq![49u8, 52u8]);
                }
                v
            },
            (Player::Two, Player::One, InputDirection::Up) => {
                let v: Vec<u8> = vec![49u8];
                proof {
                    assert(v@ =~= seq![49u8]);
                }
                v
            },
            (Player::Two, Player::One, InputDirection::UpBack) => {
                let v: Vec<u8> = vec![49u8, 51u8];
                proof {
                    assert(v@ =~= seq![49u8, 51u8]);
                }
                v
            },
            (Player::Two, Player::Two, InputDirection::Neutral) => Vec::new(),
            (Player::Two, Player::Two, InputDirection::Back) => {
                let v: Vec<u8> = vec![52u8];
                proof {
                    assert(v@ =~= seq![52u8]);
                }
                v
            },
            (Player::Two, Player::Two, InputDirection::DownBack) => {
                let v: Vec<u8> = vec![50u8, 52u8];
                proof {
                    assert(v@ =~= seq![50u8, 52u8]);
                }
                v
            },
            (Player::Two, Player::Two, InputDirection::Down) => {
                let v: Vec<u8> = vec![50u8];
                proof {
                    assert(v@ =~= seq![50u8]);
                }
                v
            },
            (Player::Two, Player::Two, InputDirection::DownForward) => {
                let v: Vec<u8> = vec![50u8, 51u8];
                proof {
                    assert(v@ =~= seq![50u8, 51u8]);
                }
                v
            },
            (Player::Two, Player::Two, InputDirection::Forward) => {
                let v: Vec<u8> = vec![51u8];
                proof {
                    assert(v@ =~= seq![51u8]);
                }
                v
            },
            (Player::Two, Player::Two, InputDirection::UpForward) => {
                let v: Vec<u8> = vec![49u8, 51u8];
                proof {
                    assert(v@ =~= seq![49u8, 51u8]);
                }
                v
            },
            (Player::Two, Player::Two, InputDirection::Up) => {
                let v: Vec<u8> = vec![49u8];
                proof {
                    assert(v@ =~= seq![49u8]);
                }
                v
            },
            (Player::Two, Player::Two, InputDirection::UpBack) => {
                let v: Vec<u8> = vec![49u8, 52u8];
                proof {
                    assert(v@ =~= seq![49u8, 52u8]);
                }
                v
            },
        }
    }
}

/// The two button key tables agree: the key bytes are exactly the
/// ASCII codes of the key text, position by position.
pub proof fn lemma_button_key_tables_agree(b: InputButton, player: Player)
    ensures
        spec_button_key_str(b, player).len() == spec_button_keys(b, player).len(),
        forall|i: int|
            0 <= i < spec_button_keys(b, player).len() ==> (#[trigger] spec_button_key_str(
                b,
                player,
            )[i]) as u8 == spec_button_keys(b, player)[i],
{
    match (player, b) {
        (Player::One, InputButton::Neutral) => {
            reveal_strlit("");
            assert(spec_button_key_str(b, player) =~= Seq::<char>::empty());
        },
        (Player::Two, InputButton::Neutral) => {
            reveal_strlit("");
            assert(spec_button_key_str(b, player) =~= Seq::<char>::empty());
        },
        (Player::One, InputButton::One) => {
            reveal_strlit("u");
            assert(spec_button_key_str(b, player) =~= seq!['u']);
        },
        (Player::Two, InputButton::One) => {
            reveal_strlit("7");
            assert(spec_button_key_str(b, player) =~= seq!['7']);
        },
        (Player::One, InputButton::Two) => {
            reveal_strlit("i");
            assert(spec_button_key_str(b, player) =~= seq!['i']);
        },
        (Player::Two, InputButton::Two) => {
            reveal_strlit("8");
            assert(spec_button_key_str(b, player) =~= seq!['8']);
        },
        (Player::One, InputButton::Three) => {
            reveal_strlit("j");
            assert(spec_button_key_str(b, player) =~= seq!['j']);
        },
        (Player::Two, InputButton::Three) => {
            reveal_strlit("5");
            assert(spec_button_key_str(b, player) =~= seq!['5']);
        },
        (Player::One, InputButton::Four) => {
            reveal_strlit("k");
            assert(spec_button_key_str(b, player) =~= seq!['k']);
        },
        (Player::Two, InputButton::Four) => {
            reveal_strlit("6");
            assert(spec_button_key_str(b, player) =~= seq!['6']);
        },
        (Player::One, InputButton::OnePlusTwo) => {
            reveal_strlit("ui");
            assert(spec_button_key_str(b, player) =~= seq!['u', 'i']);
        },
        (Player::Two, InputButton::OnePlusTwo) => {
            reveal_strlit("78");
            assert(spec_button_key_str(b, player) =~= seq!['7', '8']);
        },
        (Player::One, InputButton::OnePlusThree) => {
            reveal_strlit("uj");
            assert(spec_button_key_str(b, player) =~= seq!['u', 'j']);
        },
        (Player::Two, InputButton::OnePlusThree) => {
            reveal_strlit("75");
            assert(spec_button_key_str(b, player) =~= seq!['7', '5']);
        },
        (Player::One, InputButton::OnePlusFour) => {
            reveal_strlit("uk");
            assert(spec_button_key_str(b, player) =~= seq!['u', 'k']);
        },
        (Player::Two, InputButton::OnePlusFour) => {
            reveal_strlit("76");
            assert(spec_button_key_str(b, player) =~= seq!['7', '6']);
        },
        (Player::One, InputButton::TwoPlusThree) => {
            reveal_strlit("ij");
            assert(spec_button_key_str(b, player) =~= seq!['i', 'j']);
        },
        (Player::Two, InputButton::TwoPlusThree) => {
            reveal_strlit("85");
            assert(spec_button_key_str(b, player) =~= seq!['8', '5']);
        },
        (Player::One, InputButton::TwoPlusFour) => {
            reveal_strlit("ik");
            assert(spec_button_key_str(b, player) =~= seq!['i', 'k']);
        },
        (Player::Two, InputButton::TwoPlusFour) => {
            reveal_strlit("86");
            assert(spec_button_key_str(b, player) =~= seq!['8', '6']);
        },
        (Player::One, InputButton::ThreePlusFour) => {
            reveal_strlit("jk");
            assert(spec_button_key_str(b, player) =~= seq!['j', 'k']);
        },
        (Player::Two, InputButton::ThreePlusFour) => {
            reveal_strlit("56");
            assert(spec_button_key_str(b, player) =~= seq!['5', '6']);
        },
        (Player::One, InputButton::OnePlusTwoPlusThree) => {
            reveal_strlit("uij");
            assert(spec_button_key_str(b, player) =~= seq!['u', 'i', 'j']);
        },
        (Player::Two, InputButton::OnePlusTwoPlusThree) => {
            reveal_strlit("785");
            assert(spec_button_key_str(b, player) =~= seq!['7', '8', '5']);
        },
        (Player::One, InputButton::OnePlusTwoPlusFour) => {
            reveal_strlit("uik");
            assert(spec_button_key_str(b, player) =~= seq!['u', 'i', 'k']);
        },
        (Player::Two, InputButton::OnePlusTwoPlusFour) => {
            reveal_strlit("786");
            assert(spec_button_key_str(b, player) =~= seq!['7', '8', '6']);
        },
        (Player::One, InputButton::OnePlusThreePlusFour) => {
            reveal_strlit("ujk");
            assert(spec_button_key_str(b, player) =~= seq!['u', 'j', 'k']);
        },
        (Player::Two, InputButton::OnePlusThreePlusFour) => {
            reveal_strlit("756");
            assert(spec_button_key_str(b, player) =~= seq!['7', '5', '6']);
        },
        (Player::One, InputButton::TwoPlusThreePlusFour) => {
            reveal_strlit("ijk");
            assert(spec_button_key_str(b, player) =~= seq!['i', 'j', 'k']);
        },
        (Player::Two, InputButton::TwoPlusThreePlusFour) => {
            reveal_strlit("856");
            assert(spec_button_key_str(b, player) =~= seq!['8', '5', '6']);
        },
        (Player::One, InputButton::OnePlusTwoPlusThreePlusFour) => {
            reveal_strlit("uijk");
            assert(spec_button_key_str(b, player) =~= seq!['u', 'i', 'j', 'k']);
        },
        (Player::Two, InputButton::OnePlusTwoPlusThreePlusFour) => {
            reveal_strlit("7856");
            assert(spec_button_key_str(b, player) =~= seq!['7', '8', '5', '6']);
        },
        (Player::One, InputButton::Rage) => {
            reveal_strlit("o");
            assert(spec_button_key_str(b, player) =~= seq!['o']);
        },
        (Player::Two, InputButton::Rage) => {
            reveal_strlit("-");
            assert(spec_button_key_str(b, player) =~= seq!['-']);
        },
        (Player::One, InputButton::RagePlusOne) => {
            reveal_strlit("ou");
            assert(spec_button_key_str(b, player) =~= seq!['o', 'u']);
        },
        (Player::Two, InputButton::RagePlusOne) => {
            reveal_strlit("-7");
            assert(spec_button_key_str(b, player) =~= seq!['-', '7']);
        },
        (Player::One, InputButton::RagePlusTwo) => {
            reveal_strlit("oi");
            assert(spec_button_key_str(b, player) =~= seq!['o', 'i']);
        },
        (Player::Two, InputButton::RagePlusTwo) => {
            reveal_strlit("-8");
            assert(spec_button_key_str(b, player) =~= seq!['-', '8']);
        },
        (Player::One, InputButton::RagePlusThree) => {
            reveal_strlit("oj");
            assert(spec_button_key_str(b, player) =~= seq!['o', 'j']);
        },
        (Player::Two, InputButton::RagePlusThree) => {
            reveal_strlit("-5");
            assert(spec_button_key_str(b, player) =~= seq!['-', '5']);
        },
        (Player::One, InputButton::RagePlusFour) => {
            reveal_strlit("ok");
            assert(spec_button_key_str(b, player) =~= seq!['o', 'k']);
        },
        (Player::Two, InputButton::RagePlusFour) => {
            reveal_strlit("-6");
            assert(spec_button_key_str(b, player) =~= seq!['-', '6']);
        },
        (Player::One, InputButton::RagePlusOnePlusTwo) => {
            reveal_strlit("oui");
            assert(spec_button_key_str(b, player) =~= seq!['o', 'u', 'i']);
        },
        (Player::Two, InputButton::RagePlusOnePlusTwo) => {
            reveal_strlit("-78");
            assert(spec_button_key_str(b, player) =~= seq!['-', '7', '8']);
        },
        (Player::One, InputButton::RagePlusOnePlusThree) => {
            reveal_strlit("ouj");
            assert(spec_button_key_str(b, player) =~= seq!['o', 'u', 'j']);
        },
        (Player::Two, InputButton::RagePlusOnePlusThree) => {
            reveal_strlit("-75");
            assert(spec_button_key_str(b, player) =~= seq!['-', '7', '5']);
        },
        (Player::One, InputButton::RagePlusOnePlusFour) => {
            reveal_strlit("ouk");
            assert(spec_button_key_str(b, player) =~= seq!['o', 'u', 'k']);
        },
        (Player::Two, InputButton::RagePlusOnePlusFour) => {
            reveal_strlit("-76");
            assert(spec_button_key_str(b, player) =~= seq!['-', '7', '6']);
        },
        (Player::One, InputButton::RagePlusTwoPlusThree) => {
            reveal_strlit("oij");
            assert(spec_button_key_str(b, player) =~= seq!['o', 'i', 'j']);
        },
        (Player::Two, InputButton::RagePlusTwoPlusThree) => {
            reveal_strlit("-85");
            assert(spec_button_key_str(b, player) =~= seq!['-', '8', '5']);
        },
        (Player::One, InputButton::RagePlusTwoPlusFour) => {
            reveal_strlit("oik");
            assert(spec_button_key_str(b, player) =~= seq!['o', 'i', 'k']);
        },
        (Player::Two, InputButton::RagePlusTwoPlusFour) => {
            reveal_strlit("-86");
            assert(spec_button_key_str(b, player) =~= seq!['-', '8', '6']);
        },
        (Player::One, InputButton::RagePlusThreePlusFour) => {
            reveal_strlit("ojk");
            assert(spec_button_key_str(b, player) =~= seq!['o', 'j', 'k']);
        },
        (Player::Two, InputButton::RagePlusThreePlusFour) => {
            reveal_strlit("-56");
            assert(spec_button_key_str(b, player) =~= seq!['-', '5', '6']);
        },
        (Player::One, InputButton::RagePlusOnePlusTwoPlusThree) => {
            reveal_strlit("ouij");
            assert(spec_button_key_str(b, player) =~= seq!['o', 'u', 'i', 'j']);
        },
        (Player::Two, InputButton::RagePlusOnePlusTwoPlusThree) => {
            reveal_strlit("-785");
            assert(spec_button_key_str(b, player) =~= seq!['-', '7', '8', '5']);
        },
        (Player::One, InputButton::RagePlusOnePlusTwoPlusFour) => {
            reveal_strlit("ouik");
            assert(spec_button_key_str(b, player) =~= seq!['o', 'u', 'i', 'k']);
        },
        (Player::Two, InputButton::RagePlusOnePlusTwoPlusFour) => {
            reveal_strlit("-786");
            assert(spec_button_key_str(b, player) =~= seq!['-', '7', '8', '6']);
        },
        (Player::One, InputButton::RagePlusOnePlusThreePlusFour) => {
            reveal_strlit("oujk");
            assert(spec_button_key_str(b, player) =~= seq!['o', 'u', 'j', 'k']);
        },
        (Player::Two, InputButton::RagePlusOnePlusThreePlusFour) => {
            reveal_strlit("-756");
            assert(spec_button_key_str(b, player) =~= seq!['-', '7', '5', '6']);
        },
        (Player::One, InputButton::RagePlusTwoPlusThreePlusFour) => {
            reveal_strlit("oijk");
            assert(spec_button_key_str(b, player) =~= seq!['o', 'i', 'j', 'k']);
        },
        (Player::Two, InputButton::RagePlusTwoPlusThreePlusFour) => {
            reveal_strlit("-856");
            assert(spec_button_key_str(b, player) =~= seq!['-', '8', '5', '6']);
        },
        (Player::One, InputButton::RagePlusOnePlusTwoPlusThreePlusFour) => {
            reveal_strlit("ouijk");
            assert(spec_button_key_str(b, player) =~= seq!['o', 'u', 'i', 'j', 'k']);
        },
        (Player::Two, InputButton::RagePlusOnePlusTwoPlusThreePlusFour) => {
            reveal_strlit("-7856");
            assert(spec_button_key_str(b, player) =~= seq!['-', '7', '8', '5', '6']);
        },
    }
}

/// The two direction key tables agree in the same way.
pub proof fn lemma_direction_key_tables_agree(d: InputDirection, player: Player, side: Player)
    ensures
        spec_direction_key_str(d, player, side).len() == spec_direction_keys(d, player, side).len(),
        forall|i: int|
            0 <= i < spec_direction_keys(d, player, side).len() ==> (
            #[trigger] spec_direction_key_str(d, player, side)[i]) as u8 == spec_direction_keys(
                d,
                player,
                side,
            )[i],
{
    match (player, side, d) {
        (Player::One, Player::One, InputDirection::Neutral) => {
            reveal_strlit("");
            assert(spec_direction_key_str(d, player, side) =~= Seq::<char>::empty());
        },
        (Player::One, Player::One, InputDirection::Back) => {
            reveal_strlit("a");
            assert(spec_direction_key_str(d, player, side) =~= seq!['a']);
        },
        (Player::One, Player::One, InputDirection::DownBack) => {
            reveal_strlit("as");
            assert(spec_direction_key_str(d, player, side) =~= seq!['a', 's']);
        },
        (Player::One, Player::One, InputDirection::Down) => {
            reveal_strlit("s");
            assert(spec_direction_key_str(d, player, side) =~= seq!['s']);
        },
        (Player::One, Player::One, InputDirection::DownForward) => {
            reveal_strlit("sd");
            assert(spec_direction_key_str(d, player, side) =~= seq!['s', 'd']);
        },
        (Player::One, Player::One, InputDirection::Forward) => {
            reveal_strlit("d");
            assert(spec_direction_key_str(d, player, side) =~= seq!['d']);
        },
        (Player::One, Player::One, InputDirection::UpForward) => {
            reveal_strlit("wd");
            assert(spec_direction_key_str(d, player, side) =~= seq!['w', 'd']);
        },
        (Player::One, Player::One, InputDirection::Up) => {
            reveal_strlit("w");
            assert(spec_direction_key_str(d, player, side) =~= seq!['w']);
        },
        (Player::One, Player::One, InputDirection::UpBack) => {
            reveal_strlit("wa");
            assert(spec_direction_key_str(d, player, side) =~= seq!['w', 'a']);
        },
        (Player::One, Player::Two, InputDirection::Neutral) => {
            reveal_strlit("");
            assert(spec_direction_key_str(d, player, side) =~= Seq::<char>::empty());
        },
        (Player::One, Player::Two, InputDirection::Back) => {
            reveal_strlit("d");
            assert(spec_direction_key_str(d, player, side) =~= seq!['d']);
        },
        (Player::One, Player::Two, InputDirection::DownBack) => {
            reveal_strlit("ds");
            assert(spec_direction_key_str(d, player, side) =~= seq!['d', 's']);
        },
        (Player::One, Player::Two, InputDirection::Down) => {
            reveal_strlit("s");
            assert(spec_direction_key_str(d, player, side) =~= seq!['s']);
        },
        (Player::One, Player::Two, InputDirection::DownForward) => {
            reveal_strlit("sa");
            assert(spec_direction_key_str(d, player, side) =~= seq!['s', 'a']);
        },
        (Player::One, Player::Two, InputDirection::Forward) => {
            reveal_strlit("a");
            assert(spec_direction_key_str(d, player, side) =~= seq!['a']);
        },
        (Player::One, Player::Two, InputDirection::UpForward) => {
            reveal_strlit("wa");
            assert(spec_direction_key_str(d, player, side) =~= seq!['w', 'a']);
        },
        (Player::One, Player::Two, InputDirection::Up) => {
            reveal_strlit("w");
            assert(spec_direction_key_str(d, player, side) =~= seq!['w']);
        },
        (Player::One, Player::Two, InputDirection::UpBack) => {
            reveal_strlit("wd");
            assert(spec_direction_key_str(d, player, side) =~= seq!['w', 'd']);
        },
        (Player::Two, Player::One, InputDirection::Neutral) => {
            reveal_strlit("");
            assert(spec_direction_key_str(d, player, side) =~= Seq::<char>::empty());
        },
        (Player::Two, Player::One, InputDirection::Back) => {
            reveal_strlit("3");
            assert(spec_direction_key_str(d, player, side) =~= seq!['3']);
        },
        (Player::Two, Player::One, InputDirection::DownBack) => {
            reveal_strlit("23");
            assert(spec_direction_key_str(d, player, side) =~= seq!['2', '3']);
        },
        (Player::Two, Player::One, InputDirection::Down) => {
            reveal_strlit("2");
            assert(spec_direction_key_str(d, player, side) =~= seq!['2']);
        },
        (Player::Two, Player::One, InputDirection::DownForward) => {
            reveal_strlit("24");
            assert(spec_direction_key_str(d, player, side) =~= seq!['2', '4']);
        },
        (Player::Two, Player::One, InputDirection::Forward) => {
            reveal_strlit("4");
            assert(spec_direction_key_str(d, player, side) =~= seq!['4']);
        },
        (Player::Two, Player::One, InputDirection::UpForward) => {
            reveal_strlit("14");
            assert(spec_direction_key_str(d, player, side) =~= seq!['1', '4']);
        },
        (Player::Two, Player::One, InputDirection::Up) => {
            reveal_strlit("1");
            assert(spec_direction_key_str(d, player, side) =~= seq!['1']);
        },
        (Player::Two, Player::One, InputDirection::UpBack) => {
            reveal_strlit("13");
            assert(spec_direction_key_str(d, player, side) =~= seq!['1', '3']);
        },
        (Player::Two, Player::Two, InputDirection::Neutral) => {
            reveal_strlit("");
            assert(spec_direction_key_str(d, player, side) =~= Seq::<char>::empty());
        },
        (Player::Two, Player::Two, InputDirection::Back) => {
            reveal_strlit("4");
            assert(spec_direction_key_str(d, player, side) =~= seq!['4']);
        },
        (Player::Two, Player::Two, InputDirection::DownBack) => {
            reveal_strlit("24");
            assert(spec_direction_key_str(d, player, side) =~= seq!['2', '4']);
        },
        (Player::Two, Player::Two, InputDirection::Down) => {
            reveal_strlit("2");
            assert(spec_direction_key_str(d, player, side) =~= seq!['2']);
        },
        (Player::Two, Player::Two, InputDirection::DownForward) => {
            reveal_strlit("23");
            assert(spec_direction_key_str(d, player, side) =~= seq!['2', '3']);
        },
        (Player::Two, Player::Two, InputDirection::Forward) => {
            reveal_strlit("3");
            assert(spec_direction_key_str(d, player, side) =~= seq!['3']);
        },
        (Player::Two, Player::Two, InputDirection::UpForward) => {
            reveal_strlit("13");
            assert(spec_direction_key_str(d, player, side) =~= seq!['1', '3']);
        },
        (Player::Two, Player::Two, InputDirection::Up) => {
            reveal_strlit("1");
            assert(spec_direction_key_str(d, player, side) =~= seq!['1']);
        },
        (Player::Two, Player::Two, InputDirection::UpBack) => {
            reveal_strlit("14");
            assert(spec_direction_key_str(d, player, side) =~= seq!['1', '4']);
        },
    }
}

/// Decoding then re-encoding any defined attack bitmask yields the
/// original raw value.
pub proof fn lemma_button_decode_encode(raw: u16)
    requires
        spec_valid_button_raw(raw),
    ensures
        spec_button_raw(spec_decode_button(raw)) == raw,
{
}

/// Every symbolic button value decodes back from its own encoding: the
/// raw-to-symbolic mapping is bijective on the defined constants.
pub proof fn lemma_button_encode_decode(b: InputButton)
    ensures
        spec_decode_button(spec_button_raw(b)) == b,
{
}

/// Decoding then re-encoding any defined direction bitmask yields the
/// original raw value.
pub proof fn lemma_direction_decode_encode(raw: u16)
    requires
        spec_valid_direction_raw(raw),
    ensures
        spec_direction_raw(spec_decode_direction(raw)) == raw,
{
}

/// Every symbolic direction value decodes back from its own encoding.
pub proof fn lemma_direction_encode_decode(d: InputDirection)
    ensures
        spec_decode_direction(spec_direction_raw(d)) == d,
{
}

} // verus!
