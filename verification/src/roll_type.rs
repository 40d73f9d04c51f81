//! The kinds of RNG roll that the flight recorder identifies, and their recorded codes.

use vstd::prelude::*;

verus! {

/// What a recorded roll was used for. Each kind has a 16-bit code in the record format.
#[derive(Debug, Clone, Copy, PartialEq, Eq, Hash, Structural)]
pub enum RollType {
    Script,
    ZombieStaggerThreshold,
    ZombieHealth,
    ZombieStaggerThresholdReroll,
    ZombieAppearance,
    AltZombieAppearance,
    ZombieLunge50,
    ZombieStaggerThresholdHard,
    ZombieLunge25,
    ZombieLunge50NotZero,
    DestinationBlock,
    ZombieRaiseArms,
    ZombieKnockdown25,
    ZombieKnockdown93,
    ZombieKnockdownSpeed,
    ZombieKnockdown87,
    LickerHealth,
    LickerJump37,
    LickerJump25,
    LickerLick50,
    LickerConsiderAttack,
    LickerSlash25,
    LickerJump62,
    LickerThreatened50,
    LickerLickOrJump50,
    LickerJump75Lick25,
    LickerRecoil25,
    LickerJump50LowHealth,
    AltZombieAppearance2,
    ZombieAppearance2,
    ZombieHealth2,
    LickerSlash50,
    ZombieSpeed,
    ZombieHealthAlt,
    IvyHealth1,
    IvyHealth2,
    HealthBonus,
    IvyTentacleSet,
    IvyAmbushTentacle,
    TentacleAnimationOffset,
    TentacleAttachAngle,
    ZombieAnimationOffset,
    ZombieShortMoan,
    ZombieLongMoan,
    ZombieArmRaiseTimer,
    ZombieMoanChoice,
    ZombieEatingAnimation,
    ZombieTryMoan,
    ZombieLongMoan50,
    ZombieShortMoan50,
    ZombieEatBloodSpray,
    LickerDrool,
    SpiderHealth1,
    SpiderHealth2,
    SpiderPoison3In32,
    ZombieAnimationOffset16,
    ZombieSpeed2,
    HandgunCrit,
    DogHealth1,
    DogHealth2,
    DogAnimationOffset1,
    DogAnimationOffset2,
    DogAnimationOffset3,
    SpiderTurnTime,
    SpiderTurnDirection,
    SpiderMaxFaceTime,
    SpiderMaxPursueTime,
    SpiderMaxLegTurnTime,
    SpiderMaxLegAttackTime,
    SpiderMaxIdleTime,
    SpiderPursue50,
    G2Position,
    G2Angle,
    G2RepositionTime,
    G2Swipe50,
    G2Slash75,
    G2Thrust25,
    Partial,
    Invalid,
}

impl RollType {
    /// The code under which this kind is recorded.
    pub open spec fn code_spec(self) -> u16 {
        match self {
            RollType::Script => 0,
            RollType::ZombieStaggerThreshold => 1,
            RollType::ZombieHealth => 2,
            RollType::ZombieStaggerThresholdReroll => 3,
            RollType::ZombieAppearance => 4,
            RollType::AltZombieAppearance => 5,
            RollType::ZombieLunge50 => 6,
            RollType::ZombieStaggerThresholdHard => 7,
            RollType::ZombieLunge25 => 8,
            RollType::ZombieLunge50NotZero => 9,
            RollType::DestinationBlock => 10,
            RollType::ZombieRaiseArms => 11,
            RollType::ZombieKnockdown25 => 12,
            RollType::ZombieKnockdown93 => 13,
            RollType::ZombieKnockdownSpeed => 14,
            RollType::ZombieKnockdown87 => 15,
            RollType::LickerHealth => 16,
            RollType::LickerJump37 => 17,
            RollType::LickerJump25 => 18,
            RollType::LickerLick50 => 19,
            RollType::LickerConsiderAttack => 20,
            RollType::LickerSlash25 => 21,
            RollType::LickerJump62 => 23,
            RollType::LickerThreatened50 => 25,
            RollType::LickerLickOrJump50 => 26,
            RollType::LickerJump75Lick25 => 27,
            RollType::LickerRecoil25 => 28,
            RollType::LickerJump50LowHealth => 29,
            RollType::AltZombieAppearance2 => 30,
            RollType::ZombieAppearance2 => 31,
            RollType::ZombieHealth2 => 32,
            RollType::LickerSlash50 => 33,
            RollType::ZombieSpeed => 34,
            RollType::ZombieHealthAlt => 35,
            RollType::IvyHealth1 => 36,
            RollType::IvyHealth2 => 37,
            RollType::HealthBonus => 38,
            RollType::IvyTentacleSet => 39,
            RollType::IvyAmbushTentacle => 40,
            RollType::TentacleAnimationOffset => 41,
            RollType::TentacleAttachAngle => 42,
            RollType::ZombieAnimationOffset => 43,
            RollType::ZombieShortMoan => 44,
            RollType::ZombieLongMoan => 45,
            RollType::ZombieArmRaiseTimer => 46,
            RollType::ZombieMoanChoice => 47,
            RollType::ZombieEatingAnimation => 48,
            RollType::ZombieTryMoan => 49,
            RollType::ZombieLongMoan50 => 50,
            RollType::ZombieShortMoan50 => 51,
            RollType::ZombieEatBloodSpray => 52,
            RollType::LickerDrool => 53,
            RollType::SpiderHealth1 => 54,
            RollType::SpiderHealth2 => 55,
            RollType::SpiderPoison3In32 => 56,
            RollType::ZombieAnimationOffset16 => 57,
            RollType::ZombieSpeed2 => 58,
            RollType::HandgunCrit => 59,
            RollType::DogHealth1 => 60,
            RollType::DogHealth2 => 61,
            RollType::DogAnimationOffset1 => 62,
            RollType::DogAnimationOffset2 => 63,
            RollType::DogAnimationOffset3 => 64,
            RollType::SpiderTurnTime => 65,
            RollType::SpiderTurnDirection => 66,
            RollType::SpiderMaxFaceTime => 67,
            RollType::SpiderMaxPursueTime => 68,
            RollType::SpiderMaxLegTurnTime => 69,
            RollType::SpiderMaxLegAttackTime => 70,
            RollType::SpiderMaxIdleTime => 71,
            RollType::SpiderPursue50 => 72,
            RollType::G2Position => 73,
            RollType::G2Angle => 74,
            RollType::G2RepositionTime => 75,
            RollType::G2Swipe50 => 76,
            RollType::G2Slash75 => 77,
            RollType::G2Thrust25 => 78,
            RollType::Partial => 0xFFFE,
            RollType::Invalid => 0xFFFF,
        }
    }

    /// The code under which this kind is recorded.
    pub fn code(&self) -> (r: u16)
        ensures
            r == self.code_spec(),
    {
        match self {
            RollType::Script => 0,
            RollType::ZombieStaggerThreshold => 1,
            RollType::ZombieHealth => 2,
            RollType::ZombieStaggerThresholdReroll => 3,
            RollType::ZombieAppearance => 4,
            RollType::AltZombieAppearance => 5,
            RollType::ZombieLunge50 => 6,
            RollType::ZombieStaggerThresholdHard => 7,
            RollType::ZombieLunge25 => 8,
            RollType::ZombieLunge50NotZero => 9,
            RollType::DestinationBlock => 10,
            RollType::ZombieRaiseArms => 11,
            RollType::ZombieKnockdown25 => 12,
            RollType::ZombieKnockdown93 => 13,
            RollType::ZombieKnockdownSpeed => 14,
            RollType::ZombieKnockdown87 => 15,
            RollType::LickerHealth => 16,
            RollType::LickerJump37 => 17,
            RollType::LickerJump25 => 18,
            RollType::LickerLick50 => 19,
            RollType::LickerConsiderAttack => 20,
            RollType::LickerSlash25 => 21,
            RollType::LickerJump62 => 23,
            RollType::LickerThreatened50 => 25,
            RollType::LickerLickOrJump50 => 26,
            RollType::LickerJump75Lick25 => 27,
            RollType::LickerRecoil25 => 28,
            RollType::LickerJump50LowHealth => 29,
            RollType::AltZombieAppearance2 => 30,
            RollType::ZombieAppearance2 => 31,
            RollType::ZombieHealth2 => 32,
            RollType::LickerSlash50 => 33,
            RollType::ZombieSpeed => 34,
            RollType::ZombieHealthAlt => 35,
            RollType::IvyHealth1 => 36,
            RollType::IvyHealth2 => 37,
            RollType::HealthBonus => 38,
            RollType::IvyTentacleSet => 39,
            RollType::IvyAmbushTentacle => 40,
            RollType::TentacleAnimationOffset => 41,
            RollType::TentacleAttachAngle => 42,
            RollType::ZombieAnimationOffset => 43,
            RollType::ZombieShortMoan => 44,
            RollType::ZombieLongMoan => 45,
            RollType::ZombieArmRaiseTimer => 46,
            RollType::ZombieMoanChoice => 47,
            RollType::ZombieEatingAnimation => 48,
            RollType::ZombieTryMoan => 49,
            RollType::ZombieLongMoan50 => 50,
            RollType::ZombieShortMoan50 => 51,
            RollType::ZombieEatBloodSpray => 52,
            RollType::LickerDrool => 53,
            RollType::SpiderHealth1 => 54,
            RollType::SpiderHealth2 => 55,
            RollType::SpiderPoison3In32 => 56,
            RollType::ZombieAnimationOffset16 => 57,
            RollType::ZombieSpeed2 => 58,
            RollType::HandgunCrit => 59,
            RollType::DogHealth1 => 60,
            RollType::DogHealth2 => 61,
            RollType::DogAnimationOffset1 => 62,
            RollType::DogAnimationOffset2 => 63,
            RollType::DogAnimationOffset3 => 64,
            RollType::SpiderTurnTime => 65,
            RollType::SpiderTurnDirection => 66,
            RollType::SpiderMaxFaceTime => 67,
            RollType::SpiderMaxPursueTime => 68,
            RollType::SpiderMaxLegTurnTime => 69,
            RollType::SpiderMaxLegAttackTime => 70,
            RollType::SpiderMaxIdleTime => 71,
            RollType::SpiderPursue50 => 72,
            RollType::G2Position => 73,
            RollType::G2Angle => 74,
            RollType::G2RepositionTime => 75,
            RollType::G2Swipe50 => 76,
            RollType::G2Slash75 => 77,
            RollType::G2Thrust25 => 78,
            RollType::Partial => 0xFFFE,
            RollType::Invalid => 0xFFFF,
        }
    }

    /// Whether the roll is made on behalf of a character (as opposed to scripts, partial rolls,
    /// invalid rolls and the player's critical-hit roll).
    pub fn is_character_roll(&self) -> (r: bool)
        ensures
            r == !(*self is Script || *self is Partial || *self is Invalid || *self is HandgunCrit),
    {
        !matches!(self, RollType::Script | RollType::Partial | RollType::Invalid | RollType::HandgunCrit)
    }
}

/// The kind recorded under a code, if any.
pub open spec fn roll_type_from_code_spec(code: u16) -> Option<RollType> {
    if code == 0 { Some(RollType::Script) }
    else if code == 1 { Some(RollType::ZombieStaggerThreshold) }
    else if code == 2 { Some(RollType::ZombieHealth) }
    else if code == 3 { Some(RollType::ZombieStaggerThresholdReroll) }
    else if code == 4 { Some(RollType::ZombieAppearance) }
    else if code == 5 { Some(RollType::AltZombieAppearance) }
    else if code == 6 { Some(RollType::ZombieLunge50) }
    else if code == 7 { Some(RollType::ZombieStaggerThresholdHard) }
    else if code == 8 { Some(RollType::ZombieLunge25) }
    else if code == 9 { Some(RollType::ZombieLunge50NotZero) }
    else if code == 10 { Some(RollType::DestinationBlock) }
    else if code == 11 { Some(RollType::ZombieRaiseArms) }
    else if code == 12 { Some(RollType::ZombieKnockdown25) }
    else if code == 13 { Some(RollType::ZombieKnockdown93) }
    else if code == 14 { Some(RollType::ZombieKnockdownSpeed) }
    else if code == 15 { Some(RollType::ZombieKnockdown87) }
    else if code == 16 { Some(RollType::LickerHealth) }
    else if code == 17 { Some(RollType::LickerJump37) }
    else if code == 18 { Some(RollType::LickerJump25) }
    else if code == 19 { Some(RollType::LickerLick50) }
    else if code == 20 { Some(RollType::LickerConsiderAttack) }
    else if code == 21 { Some(RollType::LickerSlash25) }
    else if code == 23 { Some(RollType::LickerJump62) }
    else if code == 25 { Some(RollType::LickerThreatened50) }
    else if code == 26 { Some(RollType::LickerLickOrJump50) }
    else if code == 27 { Some(RollType::LickerJump75Lick25) }
    else if code == 28 { Some(RollType::LickerRecoil25) }
    else if code == 29 { Some(RollType::LickerJump50LowHealth) }
    else if code == 30 { Some(RollType::AltZombieAppearance2) }
    else if code == 31 { Some(RollType::ZombieAppearance2) }
    else if code == 32 { Some(RollType::ZombieHealth2) }
    else if code == 33 { Some(RollType::LickerSlash50) }
    else if code == 34 { Some(RollType::ZombieSpeed) }
    else if code == 35 { Some(RollType::ZombieHealthAlt) }
    else if code == 36 { Some(RollType::IvyHealth1) }
    else if code == 37 { Some(RollType::IvyHealth2) }
    else if code == 38 { Some(RollType::HealthBonus) }
    else if code == 39 { Some(RollType::IvyTentacleSet) }
    else if code == 40 { Some(RollType::IvyAmbushTentacle) }
    else if code == 41 { Some(RollType::TentacleAnimationOffset) }
    else if code == 42 { Some(RollType::TentacleAttachAngle) }
    else if code == 43 { Some(RollType::ZombieAnimationOffset) }
    else if code == 44 { Some(RollType::ZombieShortMoan) }
    else if code == 45 { Some(RollType::ZombieLongMoan) }
    else if code == 46 { Some(RollType::ZombieArmRaiseTimer) }
    else if code == 47 { Some(RollType::ZombieMoanChoice) }
    else if code == 48 { Some(RollType::ZombieEatingAnimation) }
    else if code == 49 { Some(RollType::ZombieTryMoan) }
    else if code == 50 { Some(RollType::ZombieLongMoan50) }
    else if code == 51 { Some(RollType::ZombieShortMoan50) }
    else if code == 52 { Some(RollType::ZombieEatBloodSpray) }
    else if code == 53 { Some(RollType::LickerDrool) }
    else if code == 54 { Some(RollType::SpiderHealth1) }
    else if code == 55 { Some(RollType::SpiderHealth2) }
    else if code == 56 { Some(RollType::SpiderPoison3In32) }
    else if code == 57 { Some(RollType::ZombieAnimationOffset16) }
    else if code == 58 { Some(RollType::ZombieSpeed2) }
    else if code == 59 { Some(RollType::HandgunCrit) }
    else if code == 60 { Some(RollType::DogHealth1) }
    else if code == 61 { Some(RollType::DogHealth2) }
    else if code == 62 { Some(RollType::DogAnimationOffset1) }
    else if code == 63 { Some(RollType::DogAnimationOffset2) }
    else if code == 64 { Some(RollType::DogAnimationOffset3) }
    else if code == 65 { Some(RollType::SpiderTurnTime) }
    else if code == 66 { Some(RollType::SpiderTurnDirection) }
    else if code == 67 { Some(RollType::SpiderMaxFaceTime) }
    else if code == 68 { Some(RollType::SpiderMaxPursueTime) }
    else if code == 69 { Some(RollType::SpiderMaxLegTurnTime) }
    else if code == 70 { Some(RollType::SpiderMaxLegAttackTime) }
    else if code == 71 { Some(RollType::SpiderMaxIdleTime) }
    else if code == 72 { Some(RollType::SpiderPursue50) }
    else if code == 73 { Some(RollType::G2Position) }
    else if code == 74 { Some(RollType::G2Angle) }
    else if code == 75 { Some(RollType::G2RepositionTime) }
    else if code == 76 { Some(RollType::G2Swipe50) }
    else if code == 77 { Some(RollType::G2Slash75) }
    else if code == 78 { Some(RollType::G2Thrust25) }
    else if code == 0xFFFE { Some(RollType::Partial) }
    else if code == 0xFFFF { Some(RollType::Invalid) }
    else { None }
}

/// Decodes a recorded roll kind.
pub fn roll_type_from_code(code: u16) -> (r: Option<RollType>)
    ensures
        r == roll_type_from_code_spec(code),
{
    match code {
        0 => Some(RollType::Script),
        1 => Some(RollType::ZombieStaggerThreshold),
        2 => Some(RollType::ZombieHealth),
        3 => Some(RollType::ZombieStaggerThresholdReroll),
        4 => Some(RollType::ZombieAppearance),
        5 => Some(RollType::AltZombieAppearance),
        6 => Some(RollType::ZombieLunge50),
        7 => Some(RollType::ZombieStaggerThresholdHard),
        8 => Some(RollType::ZombieLunge25),
        9 => Some(RollType::ZombieLunge50NotZero),
        10 => Some(RollType::DestinationBlock),
        11 => Some(RollType::ZombieRaiseArms),
        12 => Some(RollType::ZombieKnockdown25),
        13 => Some(RollType::ZombieKnockdown93),
        14 => Some(RollType::ZombieKnockdownSpeed),
        15 => Some(RollType::ZombieKnockdown87),
        16 => Some(RollType::LickerHealth),
        17 => Some(RollType::LickerJump37),
        18 => Some(RollType::LickerJump25),
        19 => Some(RollType::LickerLick50),
        20 => Some(RollType::LickerConsiderAttack),
        21 => Some(RollType::LickerSlash25),
        23 => Some(RollType::LickerJump62),
        25 => Some(RollType::LickerThreatened50),
        26 => Some(RollType::LickerLickOrJump50),
        27 => Some(RollType::LickerJump75Lick25),
        28 => Some(RollType::LickerRecoil25),
        29 => Some(RollType::LickerJump50LowHealth),
        30 => Some(RollType::AltZombieAppearance2),
        31 => Some(RollType::ZombieAppearance2),
        32 => Some(RollType::ZombieHealth2),
        33 => Some(RollType::LickerSlash50),
        34 => Some(RollType::ZombieSpeed),
        35 => Some(RollType::ZombieHealthAlt),
        36 => Some(RollType::IvyHealth1),
        37 => Some(RollType::IvyHealth2),
        38 => Some(RollType::HealthBonus),
        39 => Some(RollType::IvyTentacleSet),
        40 => Some(RollType::IvyAmbushTentacle),
        41 => Some(RollType::TentacleAnimationOffset),
        42 => Some(RollType::TentacleAttachAngle),
        43 => Some(RollType::ZombieAnimationOffset),
        44 => Some(RollType::ZombieShortMoan),
        45 => Some(RollType::ZombieLongMoan),
        46 => Some(RollType::ZombieArmRaiseTimer),
        47 => Some(RollType::ZombieMoanChoice),
        48 => Some(RollType::ZombieEatingAnimation),
        49 => Some(RollType::ZombieTryMoan),
        50 => Some(RollType::ZombieLongMoan50),
        51 => Some(RollType::ZombieShortMoan50),
        52 => Some(RollType::ZombieEatBloodSpray),
        53 => Some(RollType::LickerDrool),
        54 => Some(RollType::SpiderHealth1),
        55 => Some(RollType::SpiderHealth2),
        56 => Some(RollType::SpiderPoison3In32),
        57 => Some(RollType::ZombieAnimationOffset16),
        58 => Some(RollType::ZombieSpeed2),
        59 => Some(RollType::HandgunCrit),
        60 => Some(RollType::DogHealth1),
        61 => Some(RollType::DogHealth2),
        62 => Some(RollType::DogAnimationOffset1),
        63 => Some(RollType::DogAnimationOffset2),
        64 => Some(RollType::DogAnimationOffset3),
        65 => Some(RollType::SpiderTurnTime),
        66 => Some(RollType::SpiderTurnDirection),
        67 => Some(RollType::SpiderMaxFaceTime),
        68 => Some(RollType::SpiderMaxPursueTime),
        69 => Some(RollType::SpiderMaxLegTurnTime),
        70 => Some(RollType::SpiderMaxLegAttackTime),
        71 => Some(RollType::SpiderMaxIdleTime),
        72 => Some(RollType::SpiderPursue50),
        73 => Some(RollType::G2Position),
        74 => Some(RollType::G2Angle),
        75 => Some(RollType::G2RepositionTime),
        76 => Some(RollType::G2Swipe50),
        77 => Some(RollType::G2Slash75),
        78 => Some(RollType::G2Thrust25),
        0xFFFE => Some(RollType::Partial),
        0xFFFF => Some(RollType::Invalid),
        _ => None,
    }
}

/// Decoding the code of a kind gives the kind back.
pub proof fn lemma_roll_type_code_roundtrip(t: RollType)
    ensures
        roll_type_from_code_spec(t.code_spec()) == Some(t),
{
}

/// A code decodes to a kind only if it is that kind's code.
pub proof fn lemma_roll_type_code_decodes(code: u16)
    ensures
        roll_type_from_code_spec(code) matches Some(t) ==> t.code_spec() == code,
{
}

} // verus!
