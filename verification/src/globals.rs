use vstd::prelude::*;

verus! {

/// Which of the two players a value belongs to. `One` is also used as a
/// side marker: the left starting position belongs to player one, the
/// right one to player two.
#[derive(Clone, Copy, Debug, PartialEq, Eq, Structural)]
pub enum Player {
    One,
    Two,
}

/// Which side of the screen a player currently occupies.
#[derive(Clone, Copy, Debug, PartialEq, Eq, Structural)]
pub enum Facing {
    Left,
    Right,
}

/// Which way a downed player's face points.
#[derive(Clone, Copy, Debug, PartialEq, Eq, Structural)]
pub enum Face {
    Down,
    Up,
}

/// Which way a downed player's feet point.
#[derive(Clone, Copy, Debug, PartialEq, Eq, Structural)]
pub enum Feet {
    Away,
    Towards,
}

/// Gross body state of a player.
#[derive(Clone, Copy, Debug, PartialEq, Eq, Structural)]
pub enum Stand {
    Up,
    Crouching,
    BackRoll,
    ForwardRoll,
    ForwardRollStand,
    ForwardRollCrouch,
    ForwardRollLungeAttack,
    ForwardRollLowAttack,
    ForwardRollMidAttack,
    RollLeft,
    RollRight,
    LowAttack,
    MidAttack,
    Special,
    Ukemi,
}

/// The locations the memory provider reads from: the module base, the two
/// player structures, per-player field offsets, and a few global counters.
#[derive(Clone, Copy, Debug, PartialEq, Eq, Structural)]
pub enum MemoryAddress {
    GameAddress,
    PlayerOneBaseAddress,
    PlayerTwoBaseAddress,
    PlayerCharacterID,
    PlayerCoordinateOffsetX,
    PlayerCoordinateOffsetY,
    PlayerCoordinateOffsetZ,
    PlayerThrowingOther,
    OtherComboCount,
    PlayerHealthOffset,
    InputAttack,
    InputDirection,
    RoundCount,
    RoundTimerInFrames,
    ThrowTimer,
    PlayerOneFacing,
    PlayerTwoFacing,
}

pub open spec fn spec_address_offset(a: MemoryAddress) -> u64 {
    match a {
        MemoryAddress::GameAddress => 0x140000000,
        MemoryAddress::PlayerOneBaseAddress => 0x00342B780,
        MemoryAddress::PlayerTwoBaseAddress => 0x00342E750,
        MemoryAddress::PlayerCharacterID => 0xD8,
        MemoryAddress::PlayerCoordinateOffsetX => 0x160,
        MemoryAddress::PlayerCoordinateOffsetY => 0x164,
        MemoryAddress::PlayerCoordinateOffsetZ => 0x168,
        MemoryAddress::PlayerThrowingOther => 0x2EC,
        MemoryAddress::OtherComboCount => 0x2F8,
        MemoryAddress::PlayerHealthOffset => 0x73C,
        MemoryAddress::InputAttack => 0x16BC,
        MemoryAddress::InputDirection => 0x16C0,
        MemoryAddress::RoundCount => 0x00340EEB4,
        MemoryAddress::RoundTimerInFrames => 0x00340ECE4,
        MemoryAddress::ThrowTimer => 0x00342EE30,
        MemoryAddress::PlayerOneFacing => 0x00341D6A0,
        MemoryAddress::PlayerTwoFacing => 0x00341D6A4,
    }
}

impl MemoryAddress {
    /// The offset this location stands for, relative to nothing: the module
    /// base is absolute, the rest are offsets added to it.
    pub fn offset(&self) -> (r: u64)
        ensures
            r == spec_address_offset(*self),
    {
        match self {
            MemoryAddress::GameAddress => 0x140000000,
            MemoryAddress::PlayerOneBaseAddress => 0x00342B780,
            MemoryAddress::PlayerTwoBaseAddress => 0x00342E750,
            MemoryAddress::PlayerCharacterID => 0xD8,
            MemoryAddress::PlayerCoordinateOffsetX => 0x160,
            MemoryAddress::PlayerCoordinateOffsetY => 0x164,
            MemoryAddress::PlayerCoordinateOffsetZ => 0x168,
            MemoryAddress::PlayerThrowingOther => 0x2EC,
            MemoryAddress::OtherComboCount => 0x2F8,
            MemoryAddress::PlayerHealthOffset => 0x73C,
            MemoryAddress::InputAttack => 0x16BC,
            MemoryAddress::InputDirection => 0x16C0,
            MemoryAddress::RoundCount => 0x00340EEB4,
            MemoryAddress::RoundTimerInFrames => 0x00340ECE4,
            MemoryAddress::ThrowTimer => 0x00342EE30,
            MemoryAddress::PlayerOneFacing => 0x00341D6A0,
            MemoryAddress::PlayerTwoFacing => 0x00341D6A4,
        }
    }
}

pub open spec fn spec_opposite(p: Player) -> Player {
    match p {
        Player::One => Player::Two,
        Player::Two => Player::One,
    }
}

pub open spec fn spec_base_address(p: Player) -> usize {
    match p {
        Player::One => 0x00342B780,
        Player::Two => 0x00342E750,
    }
}

impl Player {
    /// The other player.
    pub fn opposite(&self) -> (r: Player)
        ensures
            r == spec_opposite(*self),
    {
        match self {
            Player::One => Player::Two,
            Player::Two => Player::One,
        }
    }

    /// Offset of this player's structure relative to the module base.
    pub fn base_address(&self) -> (r: usize)
        ensures
            r == spec_base_address(*self),
    {
        match self {
            Player::One => 0x00342B780,
            Player::Two => 0x00342E750,
        }
    }
}

impl Facing {
    /// The side marker used by the direction key tables: the left side is
    /// player one's starting side, the right side player two's.
    pub fn to_side(&self) -> (r: Player)
        ensures
            r == spec_side_of(*self),
    {
        match self {
            Facing::Left => Player::One,
            Facing::Right => Player::Two,
        }
    }
}

pub open spec fn spec_side_of(f: Facing) -> Player {
    match f {
        Facing::Left => Player::One,
        Facing::Right => Player::Two,
    }
}

/// Every selectable character, identified in memory by a small integer.
#[derive(Clone, Copy, Debug, PartialEq, Eq, Structural)]
pub enum Character {
    Paul,
    Law,
    King,
    Yoshimitsu,
    Hwoarang,
    Xiaoyu,
    Jin,
    Bryan,
    Heihachi,
    Kazuya,
    Steve,
    Jack7,
    Asuka,
    DevilJin,
    Feng,
    Lili,
    Dragunov,
    Leo,
    Lars,
    Alisa,
    Claudio,
    Katarina,
    LuckyChloe,
    Shaheen,
    Josie,
    Gigas,
    Kazumi,
    DevilKazumi,
    Nina,
    MasterRaven,
    Lee,
    Bob,
    Akuma,
    Kuma,
    Panda,
    Eddy,
    Eliza,
    Miguel,
    TekkenForce,
    KidKazuya,
    Jack4,
    YoungHeihachi,
    Dummy,
    Geese,
    Noctis,
    Anna,
    Lei,
    Marduk,
    ArmorKing,
    Julia,
    Negan,
    Zafina,
    Ganryu,
    Leroy,
    Fahkumram,
    Unloaded,
    NotSelected,
}

pub open spec fn spec_character_id(c: Character) -> u16 {
    match c {
        Character::Paul => 0,
        Character::Law => 1,
        Character::King => 2,
        Character::Yoshimitsu => 3,
        Character::Hwoarang => 4,
        Character::Xiaoyu => 5,
        Character::Jin => 6,
        Character::Bryan => 7,
        Character::Heihachi => 8,
        Character::Kazuya => 9,
        Character::Steve => 10,
        Character::Jack7 => 11,
        Character::Asuka => 12,
        Character::DevilJin => 13,
        Character::Feng => 14,
        Character::Lili => 15,
        Character::Dragunov => 16,
        Character::Leo => 17,
        Character::Lars => 18,
        Character::Alisa => 19,
        Character::Claudio => 20,
        Character::Katarina => 21,
        Character::LuckyChloe => 22,
        Character::Shaheen => 23,
        Character::Josie => 24,
        Character::Gigas => 25,
        Character::Kazumi => 26,
        Character::DevilKazumi => 27,
        Character::Nina => 28,
        Character::MasterRaven => 29,
        Character::Lee => 30,
        Character::Bob => 31,
        Character::Akuma => 32,
        Character::Kuma => 33,
        Character::Panda => 34,
        Character::Eddy => 35,
        Character::Eliza => 36,
        Character::Miguel => 37,
        Character::TekkenForce => 38,
        Character::KidKazuya => 39,
        Character::Jack4 => 40,
        Character::YoungHeihachi => 41,
        Character::Dummy => 42,
        Character::Geese => 43,
        Character::Noctis => 44,
        Character::Anna => 45,
        Character::Lei => 46,
        Character::Marduk => 47,
        Character::ArmorKing => 48,
        Character::Julia => 49,
        Character::Negan => 50,
        Character::Zafina => 51,
        Character::Ganryu => 52,
        Character::Leroy => 53,
        Character::Fahkumram => 54,
        Character::Unloaded => 71,
        Character::NotSelected => 255,
    }
}

pub open spec fn spec_character_of(id: u16) -> Character {
if id == 0 {
        Character::Paul
    } else if id == 1 {
        Character::Law
    } else if id == 2 {
        Character::King
    } else if id == 3 {
        Character::Yoshimitsu
    } else if id == 4 {
        Character::Hwoarang
    } else if id == 5 {
        Character::Xiaoyu
    } else if id == 6 {
        Character::Jin
    } else if id == 7 {
        Character::Bryan
    } else if id == 8 {
        Character::Heihachi
    } else if id == 9 {
        Character::Kazuya
    } else if id == 10 {
        Character::Steve
    } else if id == 11 {
        Character::Jack7
    } else if id == 12 {
        Character::Asuka
    } else if id == 13 {
        Character::DevilJin
    } else if id == 14 {
        Character::Feng
    } else if id == 15 {
        Character::Lili
    } else if id == 16 {
        Character::Dragunov
    } else if id == 17 {
        Character::Leo
    } else if id == 18 {
        Character::Lars
    } else if id == 19 {
        Character::Alisa
    } else if id == 20 {
        Character::Claudio
    } else if id == 21 {
        Character::Katarina
    } else if id == 22 {
        Character::LuckyChloe
    } else if id == 23 {
        Character::Shaheen
    } else if id == 24 {
        Character::Josie
    } else if id == 25 {
        Character::Gigas
    } else if id == 26 {
        Character::Kazumi
    } else if id == 27 {
        Character::DevilKazumi
    } else if id == 28 {
        Character::Nina
    } else if id == 29 {
        Character::MasterRaven
    } else if id == 30 {
        Character::Lee
    } else if id == 31 {
        Character::Bob
    } else if id == 32 {
        Character::Akuma
    } else if id == 33 {
        Character::Kuma
    } else if id == 34 {
        Character::Panda
    } else if id == 35 {
        Character::Eddy
    } else if id == 36 {
        Character::Eliza
    } else if id == 37 {
        Character::Miguel
    } else if id == 38 {
        Character::TekkenForce
    } else if id == 39 {
        Character::KidKazuya
    } else if id == 40 {
        Character::Jack4
    } else if id == 41 {
        Character::YoungHeihachi
    } else if id == 42 {
        Character::Dummy
    } else if id == 43 {
        Character::Geese
    } else if id == 44 {
        Character::Noctis
    } else if id == 45 {
        Character::Anna
    } else if id == 46 {
        Character::Lei
    } else if id == 47 {
        Character::Marduk
    } else if id == 48 {
        Character::ArmorKing
    } else if id == 49 {
        Character::Julia
    } else if id == 50 {
        Character::Negan
    } else if id == 51 {
        Character::Zafina
    } else if id == 52 {
        Character::Ganryu
    } else if id == 53 {
        Character::Leroy
    } else if id == 54 {
        Character::Fahkumram
    } else if id == 71 {
        Character::Unloaded
    } else {
        Character::NotSelected
    }
}

pub open spec fn spec_character_name(c: Character) -> Seq<char> {
    match c {
        Character::Paul => "Paul"@,
        Character::Law => "Law"@,
        Character::King => "King"@,
        Character::Yoshimitsu => "Yoshimitsu"@,
        Character::Hwoarang => "Hwoarang"@,
        Character::Xiaoyu => "Xiaoyu"@,
        Character::Jin => "Jin"@,
        Character::Bryan => "Bryan"@,
        Character::Heihachi => "Heihachi"@,
        Character::Kazuya => "Kazuya"@,
        Character::Steve => "Steve"@,
        Character::Jack7 => "Jack-7"@,
        Character::Asuka => "Asuka"@,
        Character::DevilJin => "Devil Jin"@,
        Character::Feng => "Feng"@,
        Character::Lili => "Lili"@,
        Character::Dragunov => "Dragunov"@,
        Character::Leo => "Leo"@,
        Character::Lars => "Lars"@,
        Character::Alisa => "Alisa"@,
        Character::Claudio => "Claudio"@,
        Character::Katarina => "Katarina"@,
        Character::LuckyChloe => "Lucky Chloe"@,
        Character::Shaheen => "Shaheen"@,
        Character::Josie => "Josie"@,
        Character::Gigas => "Gigas"@,
        Character::Kazumi => "Kazumi"@,
        Character::DevilKazumi => "Devil Kazumi"@,
        Character::Nina => "Nina"@,
        Character::MasterRaven => "Master Raven"@,
        Character::Lee => "Lee"@,
        Character::Bob => "Bob"@,
        Character::Akuma => "Akuma"@,
        Character::Kuma => "Kuma"@,
        Character::Panda => "Panda"@,
        Character::Eddy => "Eddy"@,
        Character::Eliza => "Eliza"@,
        Character::Miguel => "Miguel"@,
        Character::TekkenForce => "Tekken Force"@,
        Character::KidKazuya => "Kid Kazuya"@,
        Character::Jack4 => "Jack-4"@,
        Character::YoungHeihachi => "Young Heihachi"@,
        Character::Dummy => "Dummy"@,
        Character::Geese => "Geese"@,
        Character::Noctis => "Noctis"@,
        Character::Anna => "Anna"@,
        Character::Lei => "Lei"@,
        Character::Marduk => "Marduk"@,
        Character::ArmorKing => "Armor King"@,
        Character::Julia => "Julia"@,
        Character::Negan => "Negan"@,
        Character::Zafina => "Zafina"@,
        Character::Ganryu => "Ganryu"@,
        Character::Leroy => "Leroy"@,
        Character::Fahkumram => "Fahkumram"@,
        Character::Unloaded => "Unloaded"@,
        Character::NotSelected => "Not selected"@,
    }
}

impl Character {
    /// Decodes a character identifier; an identifier outside the table
    /// stands for no selected character.
    pub fn from_id(id: u16) -> (r: Character)
        ensures
            r == spec_character_of(id),
    {
        match id {
            0 => Character::Paul,
            1 => Character::Law,
            2 => Character::King,
            3 => Character::Yoshimitsu,
            4 => Character::Hwoarang,
            5 => Character::Xiaoyu,
            6 => Character::Jin,
            7 => Character::Bryan,
            8 => Character::Heihachi,
            9 => Character::Kazuya,
            10 => Character::Steve,
            11 => Character::Jack7,
            12 => Character::Asuka,
            13 => Character::DevilJin,
            14 => Character::Feng,
            15 => Character::Lili,
            16 => Character::Dragunov,
            17 => Character::Leo,
            18 => Character::Lars,
            19 => Character::Alisa,
            20 => Character::Claudio,
            21 => Character::Katarina,
            22 => Character::LuckyChloe,
            23 => Character::Shaheen,
            24 => Character::Josie,
            25 => Character::Gigas,
            26 => Character::Kazumi,
            27 => Character::DevilKazumi,
            28 => Character::Nina,
            29 => Character::MasterRaven,
            30 => Character::Lee,
            31 => Character::Bob,
            32 => Character::Akuma,
            33 => Character::Kuma,
            34 => Character::Panda,
            35 => Character::Eddy,
            36 => Character::Eliza,
            37 => Character::Miguel,
            38 => Character::TekkenForce,
            39 => Character::KidKazuya,
            40 => Character::Jack4,
            41 => Character::YoungHeihachi,
            42 => Character::Dummy,
            43 => Character::Geese,
            44 => Character::Noctis,
            45 => Character::Anna,
            46 => Character::Lei,
            47 => Character::Marduk,
            48 => Character::ArmorKing,
            49 => Character::Julia,
            50 => Character::Negan,
            51 => Character::Zafina,
            52 => Character::Ganryu,
            53 => Character::Leroy,
            54 => Character::Fahkumram,
            71 => Character::Unloaded,
            _ => Character::NotSelected,
        }
    }

    /// The identifier the memory provider uses for this character.
    pub fn id(&self) -> (r: u16)
        ensures
            r == spec_character_id(*self),
    {
        match self {
            Character::Paul => 0,
            Character::Law => 1,
            Character::King => 2,
            Character::Yoshimitsu => 3,
            Character::Hwoarang => 4,
            Character::Xiaoyu => 5,
            Character::Jin => 6,
            Character::Bryan => 7,
            Character::Heihachi => 8,
            Character::Kazuya => 9,
            Character::Steve => 10,
            Character::Jack7 => 11,
            Character::Asuka => 12,
            Character::DevilJin => 13,
            Character::Feng => 14,
            Character::Lili => 15,
            Character::Dragunov => 16,
            Character::Leo => 17,
            Character::Lars => 18,
            Character::Alisa => 19,
            Character::Claudio => 20,
            Character::Katarina => 21,
            Character::LuckyChloe => 22,
            Character::Shaheen => 23,
            Character::Josie => 24,
            Character::Gigas => 25,
            Character::Kazumi => 26,
            Character::DevilKazumi => 27,
            Character::Nina => 28,
            Character::MasterRaven => 29,
            Character::Lee => 30,
            Character::Bob => 31,
            Character::Akuma => 32,
            Character::Kuma => 33,
            Character::Panda => 34,
            Character::Eddy => 35,
            Character::Eliza => 36,
            Character::Miguel => 37,
            Character::TekkenForce => 38,
            Character::KidKazuya => 39,
            Character::Jack4 => 40,
            Character::YoungHeihachi => 41,
            Character::Dummy => 42,
            Character::Geese => 43,
            Character::Noctis => 44,
            Character::Anna => 45,
            Character::Lei => 46,
            Character::Marduk => 47,
            Character::ArmorKing => 48,
            Character::Julia => 49,
            Character::Negan => 50,
            Character::Zafina => 51,
            Character::Ganryu => 52,
            Character::Leroy => 53,
            Character::Fahkumram => 54,
            Character::Unloaded => 71,
            Character::NotSelected => 255,
        }
    }

    /// Human-readable character name.
    pub fn name(&self) -> (r: &'static str)
        ensures
            r@ == spec_character_name(*self),
    {
        match self {
            Character::Paul => "Paul",
            Character::Law => "Law",
            Character::King => "King",
            Character::Yoshimitsu => "Yoshimitsu",
            Character::Hwoarang => "Hwoarang",
            Character::Xiaoyu => "Xiaoyu",
            Character::Jin => "Jin",
            Character::Bryan => "Bryan",
            Character::Heihachi => "Heihachi",
            Character::Kazuya => "Kazuya",
            Character::Steve => "Steve",
            Character::Jack7 => "Jack-7",
            Character::Asuka => "Asuka",
            Character::DevilJin => "Devil Jin",
            Character::Feng => "Feng",
            Character::Lili => "Lili",
            Character::Dragunov => "Dragunov",
            Character::Leo => "Leo",
            Character::Lars => "Lars",
            Character::Alisa => "Alisa",
            Character::Claudio => "Claudio",
            Character::Katarina => "Katarina",
            Character::LuckyChloe => "Lucky Chloe",
            Character::Shaheen => "Shaheen",
            Character::Josie => "Josie",
            Character::Gigas => "Gigas",
            Character::Kazumi => "Kazumi",
            Character::DevilKazumi => "Devil Kazumi",
            Character::Nina => "Nina",
            Character::MasterRaven => "Master Raven",
            Character::Lee => "Lee",
            Character::Bob => "Bob",
            Character::Akuma => "Akuma",
            Character::Kuma => "Kuma",
            Character::Panda => "Panda",
            Character::Eddy => "Eddy",
            Character::Eliza => "Eliza",
            Character::Miguel => "Miguel",
            Character::TekkenForce => "Tekken Force",
            Character::KidKazuya => "Kid Kazuya",
            Character::Jack4 => "Jack-4",
            Character::YoungHeihachi => "Young Heihachi",
            Character::Dummy => "Dummy",
            Character::Geese => "Geese",
            Character::Noctis => "Noctis",
            Character::Anna => "Anna",
            Character::Lei => "Lei",
            Character::Marduk => "Marduk",
            Character::ArmorKing => "Armor King",
            Character::Julia => "Julia",
            Character::Negan => "Negan",
            Character::Zafina => "Zafina",
            Character::Ganryu => "Ganryu",
            Character::Leroy => "Leroy",
            Character::Fahkumram => "Fahkumram",
            Character::Unloaded => "Unloaded",
            Character::NotSelected => "Not selected",
        }
    }
}

/// Every character identifier decodes back to the character it was read
/// from: the identifier table is injective.
pub proof fn lemma_character_id_round_trip(c: Character)
    ensures
        spec_character_of(spec_character_id(c)) == c,
{
}

} // verus!
