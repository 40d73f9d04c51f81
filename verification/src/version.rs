//! The game versions that the flight recorder and the TAS controller know: where each keeps
//! the values they read and patch, and which code addresses make which RNG rolls; and the
//! checks they make on the values they read.

use vstd::prelude::*;
use crate::roll_type::RollType;
use crate::game::{NUM_OBJECTS, OBJECT_CHARACTER_SIZE};

verus! {

/// Where one version of the game keeps what the tools read and patch.
#[derive(Debug)]
pub struct GameVersion {
    pub version_name: &'static str,
    pub rdt_path_template: usize,
    pub char_array: usize,
    pub current_char: usize,
    pub obj_array: usize,
    pub last_obj: usize,
    pub rng_seed: usize,
    pub igt_seconds: usize,
    pub igt_frames: usize,
    pub stage_index: usize,
    pub room_index: usize,
    pub stage_offset: usize,
    pub dummy_char: usize,
    pub keys_down: usize,
    pub keys_down_this_frame: usize,
    pub game_flags: usize,
    pub frame_tick_patch: usize,
    pub rng_roll_patch: usize,
    pub script_rng_patch: usize,
    pub script_rng_seed: usize,
    pub sound_flags: usize,
    pub known_rng_rolls: [(usize, RollType); 120],
}

/// The code addresses of the Sourcenext 1.1 release that make RNG rolls, with the kind of
/// roll each makes.
pub open spec fn sourcenext11_rolls() -> Seq<(usize, RollType)> {
    seq![
        (0x004e3be1usize, RollType::Script),
        (0x00451be7usize, RollType::ZombieStaggerThreshold),
        (0x00451c70usize, RollType::ZombieStaggerThresholdHard),
        (0x00451cc0usize, RollType::ZombieStaggerThresholdHard),
        (0x0045592eusize, RollType::ZombieStaggerThreshold),
        (0x00453b02usize, RollType::ZombieStaggerThreshold),
        (0x00454d8busize, RollType::ZombieStaggerThreshold),
        (0x00455225usize, RollType::ZombieStaggerThreshold),
        (0x00451c45usize, RollType::Partial),
        (0x00451c4fusize, RollType::ZombieStaggerThresholdReroll),
        (0x00451badusize, RollType::Partial),
        (0x00451bb7usize, RollType::ZombieSpeed),
        (0x00451ad4usize, RollType::Partial),
        (0x00451adeusize, RollType::ZombieHealth),
        (0x00451b07usize, RollType::Partial),
        (0x00451b11usize, RollType::ZombieHealthAlt),
        (0x004551d5usize, RollType::ZombieHealth2),
        (0x00455200usize, RollType::ZombieSpeed2),
        (0x004522b4usize, RollType::Partial),
        (0x004522beusize, RollType::Partial),
        (0x004522ceusize, RollType::ZombieAppearance),
        (0x00451faeusize, RollType::AltZombieAppearance),
        (0x00451fe7usize, RollType::AltZombieAppearance2),
        (0x004552f9usize, RollType::ZombieAppearance2),
        (0x004526b8usize, RollType::ZombieLunge50),
        (0x004526e7usize, RollType::ZombieLunge50NotZero),
        (0x00452a76usize, RollType::ZombieLunge50),
        (0x00452a50usize, RollType::ZombieLunge25),
        (0x00453126usize, RollType::ZombieLunge50),
        (0x004df4ebusize, RollType::DestinationBlock),
        (0x00452e80usize, RollType::ZombieRaiseArms),
        (0x00453aeausize, RollType::ZombieKnockdown25),
        (0x00453ac2usize, RollType::Partial),
        (0x00453accusize, RollType::ZombieKnockdown93),
        (0x004540d4usize, RollType::ZombieKnockdownSpeed),
        (0x00454a82usize, RollType::ZombieKnockdown87),
        (0x00452722usize, RollType::ZombieAnimationOffset),
        (0x00452c31usize, RollType::ZombieAnimationOffset),
        (0x004532cfusize, RollType::ZombieAnimationOffset),
        (0x00453d92usize, RollType::ZombieAnimationOffset16),
        (0x00452d71usize, RollType::ZombieShortMoan),
        (0x00452d7fusize, RollType::ZombieLongMoan),
        (0x0045329ausize, RollType::ZombieMoanChoice),
        (0x00452e69usize, RollType::ZombieArmRaiseTimer),
        (0x004546bcusize, RollType::ZombieEatingAnimation),
        (0x004547a7usize, RollType::ZombieEatingAnimation),
        (0x004547ffusize, RollType::ZombieTryMoan),
        (0x00454808usize, RollType::ZombieLongMoan50),
        (0x00454816usize, RollType::ZombieShortMoan50),
        (0x00454776usize, RollType::ZombieEatBloodSpray),
        (0x0045475cusize, RollType::ZombieEatBloodSpray),
        (0x00464c9ausize, RollType::LickerHealth),
        (0x00464c63usize, RollType::LickerHealth),
        (0x0046d041usize, RollType::LickerHealth),
        (0x0046d00ausize, RollType::LickerHealth),
        (0x00463abbusize, RollType::LickerJump37),
        (0x00466879usize, RollType::LickerJump37),
        (0x00463acfusize, RollType::LickerLick50),
        (0x0046688dusize, RollType::LickerLick50),
        (0x00463af3usize, RollType::LickerJump25),
        (0x004668b8usize, RollType::LickerJump25),
        (0x00466983usize, RollType::LickerJump25),
        (0x00466a4eusize, RollType::LickerJump25),
        (0x0046672cusize, RollType::LickerConsiderAttack),
        (0x004667ecusize, RollType::LickerSlash25),
        (0x0046681fusize, RollType::LickerSlash25),
        (0x0046db41usize, RollType::LickerSlash25),
        (0x0046db60usize, RollType::LickerSlash25),
        (0x0046db0eusize, RollType::LickerSlash50),
        (0x004668e3usize, RollType::LickerThreatened50),
        (0x0046dbb8usize, RollType::LickerThreatened50),
        (0x00466954usize, RollType::LickerJump62),
        (0x00466a23usize, RollType::LickerJump62),
        (0x0046dcacusize, RollType::LickerJump62),
        (0x0046dc09usize, RollType::LickerLickOrJump50),
        (0x0046dc12usize, RollType::LickerJump75Lick25),
        (0x0046dc33usize, RollType::LickerRecoil25),
        (0x0046dc48usize, RollType::LickerJump50LowHealth),
        (0x00465034usize, RollType::LickerDrool),
        (0x00484d1fusize, RollType::IvyHealth1),
        (0x00484cfeusize, RollType::IvyHealth2),
        (0x00484d3eusize, RollType::HealthBonus),
        (0x00484e99usize, RollType::IvyTentacleSet),
        (0x00484eacusize, RollType::IvyAmbushTentacle),
        (0x00488b4cusize, RollType::TentacleAnimationOffset),
        (0x00488bfbusize, RollType::TentacleAttachAngle),
        (0x0046f0fdusize, RollType::SpiderHealth1),
        (0x0046f0e9usize, RollType::SpiderHealth2),
        (0x0046f10fusize, RollType::HealthBonus),
        (0x0046f4f0usize, RollType::SpiderPoison3In32),
        (0x0046ff01usize, RollType::SpiderPoison3In32),
        (0x0047082cusize, RollType::SpiderPoison3In32),
        (0x0046f6f7usize, RollType::SpiderTurnTime),
        (0x0046f711usize, RollType::SpiderTurnDirection),
        (0x0046f7f6usize, RollType::SpiderMaxFaceTime),
        (0x0046f5f2usize, RollType::SpiderMaxPursueTime),
        (0x0046f903usize, RollType::SpiderMaxLegTurnTime),
        (0x0046f98cusize, RollType::SpiderMaxLegAttackTime),
        (0x0046f547usize, RollType::SpiderMaxIdleTime),
        (0x0046f58dusize, RollType::SpiderPursue50),
        (0x004d3ad1usize, RollType::Partial),
        (0x004d3adcusize, RollType::HandgunCrit),
        (0x004d3b41usize, RollType::Partial),
        (0x004d3b4cusize, RollType::HandgunCrit),
        (0x0045c196usize, RollType::DogHealth1),
        (0x0045e843usize, RollType::DogHealth1),
        (0x0045c182usize, RollType::DogHealth2),
        (0x0045e82fusize, RollType::DogHealth2),
        (0x0045c1a8usize, RollType::HealthBonus),
        (0x0045e855usize, RollType::HealthBonus),
        (0x0045c306usize, RollType::DogAnimationOffset1),
        (0x0045c34busize, RollType::DogAnimationOffset2),
        (0x0045c35dusize, RollType::DogAnimationOffset3),
        (0x0045c3b8usize, RollType::DogAnimationOffset1),
        (0x004928e9usize, RollType::G2Position),
        (0x00492915usize, RollType::G2RepositionTime),
        (0x0049292busize, RollType::G2Angle),
        (0x004920bausize, RollType::G2Swipe50),
        (0x00490ad3usize, RollType::G2Thrust25),
        (0x004914f7usize, RollType::G2Slash75)
    ]
}

/// The addresses of the Sourcenext 1.1 release.
pub open spec fn is_sourcenext11(v: GameVersion) -> bool {
    &&& v.version_name@ == "sourcenext11"@
    &&& v.rdt_path_template == 0x0053ab98
    &&& v.char_array == 0x0098a10c
    &&& v.current_char == 0x00988628
    &&& v.obj_array == 0x0098a61c
    &&& v.last_obj == 0x0098e51c
    &&& v.rng_seed == 0x00988610
    &&& v.igt_seconds == 0x00680588
    &&& v.igt_frames == 0x0068058c
    &&& v.stage_index == 0x0098eb14
    &&& v.room_index == 0x0098eb16
    &&& v.stage_offset == 0x0098e798
    &&& v.dummy_char == 0x0098e544
    &&& v.keys_down == 0x00988604
    &&& v.keys_down_this_frame == 0x00988608
    &&& v.game_flags == 0x00989ed0
    &&& v.frame_tick_patch == 0x004c3c70
    &&& v.rng_roll_patch == 0x004b2a91
    &&& v.script_rng_patch == 0x004e3bec
    &&& v.script_rng_seed == 0x00695e58
    &&& v.sound_flags == 0x00989eee
    &&& v.known_rng_rolls@ == sourcenext11_rolls()
}

/// The Sourcenext 1.1 release.
pub fn sourcenext11() -> (r: GameVersion)
    ensures
        is_sourcenext11(r),
{
    let known_rng_rolls: [(usize, RollType); 120] = [
        (0x004e3be1, RollType::Script),
        (0x00451be7, RollType::ZombieStaggerThreshold),
        (0x00451c70, RollType::ZombieStaggerThresholdHard),
        (0x00451cc0, RollType::ZombieStaggerThresholdHard),
        (0x0045592e, RollType::ZombieStaggerThreshold),
        (0x00453b02, RollType::ZombieStaggerThreshold),
        (0x00454d8b, RollType::ZombieStaggerThreshold),
        (0x00455225, RollType::ZombieStaggerThreshold),
        (0x00451c45, RollType::Partial),
        (0x00451c4f, RollType::ZombieStaggerThresholdReroll),
        (0x00451bad, RollType::Partial),
        (0x00451bb7, RollType::ZombieSpeed),
        (0x00451ad4, RollType::Partial),
        (0x00451ade, RollType::ZombieHealth),
        (0x00451b07, RollType::Partial),
        (0x00451b11, RollType::ZombieHealthAlt),
        (0x004551d5, RollType::ZombieHealth2),
        (0x00455200, RollType::ZombieSpeed2),
        (0x004522b4, RollType::Partial),
        (0x004522be, RollType::Partial),
        (0x004522ce, RollType::ZombieAppearance),
        (0x00451fae, RollType::AltZombieAppearance),
        (0x00451fe7, RollType::AltZombieAppearance2),
        (0x004552f9, RollType::ZombieAppearance2),
        (0x004526b8, RollType::ZombieLunge50),
        (0x004526e7, RollType::ZombieLunge50NotZero),
        (0x00452a76, RollType::ZombieLunge50),
        (0x00452a50, RollType::ZombieLunge25),
        (0x00453126, RollType::ZombieLunge50),
        (0x004df4eb, RollType::DestinationBlock),
        (0x00452e80, RollType::ZombieRaiseArms),
        (0x00453aea, RollType::ZombieKnockdown25),
        (0x00453ac2, RollType::Partial),
        (0x00453acc, RollType::ZombieKnockdown93),
        (0x004540d4, RollType::ZombieKnockdownSpeed),
        (0x00454a82, RollType::ZombieKnockdown87),
        (0x00452722, RollType::ZombieAnimationOffset),
        (0x00452c31, RollType::ZombieAnimationOffset),
        (0x004532cf, RollType::ZombieAnimationOffset),
        (0x00453d92, RollType::ZombieAnimationOffset16),
        (0x00452d71, RollType::ZombieShortMoan),
        (0x00452d7f, RollType::ZombieLongMoan),
        (0x0045329a, RollType::ZombieMoanChoice),
        (0x00452e69, RollType::ZombieArmRaiseTimer),
        (0x004546bc, RollType::ZombieEatingAnimation),
        (0x004547a7, RollType::ZombieEatingAnimation),
        (0x004547ff, RollType::ZombieTryMoan),
        (0x00454808, RollType::ZombieLongMoan50),
        (0x00454816, RollType::ZombieShortMoan50),
        (0x00454776, RollType::ZombieEatBloodSpray),
        (0x0045475c, RollType::ZombieEatBloodSpray),
        (0x00464c9a, RollType::LickerHealth),
        (0x00464c63, RollType::LickerHealth),
        (0x0046d041, RollType::LickerHealth),
        (0x0046d00a, RollType::LickerHealth),
        (0x00463abb, RollType::LickerJump37),
        (0x00466879, RollType::LickerJump37),
        (0x00463acf, RollType::LickerLick50),
        (0x0046688d, RollType::LickerLick50),
        (0x00463af3, RollType::LickerJump25),
        (0x004668b8, RollType::LickerJump25),
        (0x00466983, RollType::LickerJump25),
        (0x00466a4e, RollType::LickerJump25),
        (0x0046672c, RollType::LickerConsiderAttack),
        (0x004667ec, RollType::LickerSlash25),
        (0x0046681f, RollType::LickerSlash25),
        (0x0046db41, RollType::LickerSlash25),
        (0x0046db60, RollType::LickerSlash25),
        (0x0046db0e, RollType::LickerSlash50),
        (0x004668e3, RollType::LickerThreatened50),
        (0x0046dbb8, RollType::LickerThreatened50),
        (0x00466954, RollType::LickerJump62),
        (0x00466a23, RollType::LickerJump62),
        (0x0046dcac, RollType::LickerJump62),
        (0x0046dc09, RollType::LickerLickOrJump50),
        (0x0046dc12, RollType::LickerJump75Lick25),
        (0x0046dc33, RollType::LickerRecoil25),
        (0x0046dc48, RollType::LickerJump50LowHealth),
        (0x00465034, RollType::LickerDrool),
        (0x00484d1f, RollType::IvyHealth1),
        (0x00484cfe, RollType::IvyHealth2),
        (0x00484d3e, RollType::HealthBonus),
        (0x00484e99, RollType::IvyTentacleSet),
        (0x00484eac, RollType::IvyAmbushTentacle),
        (0x00488b4c, RollType::TentacleAnimationOffset),
        (0x00488bfb, RollType::TentacleAttachAngle),
        (0x0046f0fd, RollType::SpiderHealth1),
        (0x0046f0e9, RollType::SpiderHealth2),
        (0x0046f10f, RollType::HealthBonus),
        (0x0046f4f0, RollType::SpiderPoison3In32),
        (0x0046ff01, RollType::SpiderPoison3In32),
        (0x0047082c, RollType::SpiderPoison3In32),
        (0x0046f6f7, RollType::SpiderTurnTime),
        (0x0046f711, RollType::SpiderTurnDirection),
        (0x0046f7f6, RollType::SpiderMaxFaceTime),
        (0x0046f5f2, RollType::SpiderMaxPursueTime),
        (0x0046f903, RollType::SpiderMaxLegTurnTime),
        (0x0046f98c, RollType::SpiderMaxLegAttackTime),
        (0x0046f547, RollType::SpiderMaxIdleTime),
        (0x0046f58d, RollType::SpiderPursue50),
        (0x004d3ad1, RollType::Partial),
        (0x004d3adc, RollType::HandgunCrit),
        (0x004d3b41, RollType::Partial),
        (0x004d3b4c, RollType::HandgunCrit),
        (0x0045c196, RollType::DogHealth1),
        (0x0045e843, RollType::DogHealth1),
        (0x0045c182, RollType::DogHealth2),
        (0x0045e82f, RollType::DogHealth2),
        (0x0045c1a8, RollType::HealthBonus),
        (0x0045e855, RollType::HealthBonus),
        (0x0045c306, RollType::DogAnimationOffset1),
        (0x0045c34b, RollType::DogAnimationOffset2),
        (0x0045c35d, RollType::DogAnimationOffset3),
        (0x0045c3b8, RollType::DogAnimationOffset1),
        (0x004928e9, RollType::G2Position),
        (0x00492915, RollType::G2RepositionTime),
        (0x0049292b, RollType::G2Angle),
        (0x004920ba, RollType::G2Swipe50),
        (0x00490ad3, RollType::G2Thrust25),
        (0x004914f7, RollType::G2Slash75)
    ];
    let r = GameVersion {
        version_name: "sourcenext11",
        rdt_path_template: 0x0053ab98,
        char_array: 0x0098a10c,
        current_char: 0x00988628,
        obj_array: 0x0098a61c,
        last_obj: 0x0098e51c,
        rng_seed: 0x00988610,
        igt_seconds: 0x00680588,
        igt_frames: 0x0068058c,
        stage_index: 0x0098eb14,
        room_index: 0x0098eb16,
        stage_offset: 0x0098e798,
        dummy_char: 0x0098e544,
        keys_down: 0x00988604,
        keys_down_this_frame: 0x00988608,
        game_flags: 0x00989ed0,
        frame_tick_patch: 0x004c3c70,
        rng_roll_patch: 0x004b2a91,
        script_rng_patch: 0x004e3bec,
        script_rng_seed: 0x00695e58,
        sound_flags: 0x00989eee,
        known_rng_rolls,
    };
    proof {
        assert(r.known_rng_rolls@ =~= sourcenext11_rolls());
    }
    r
}

/// Why the game could not be hooked.
#[derive(Debug, Clone, Copy, PartialEq, Eq, Structural)]
pub enum VersionError {
    /// No known version keeps its room path template at this address.
    Unsupported { rdt_path_addr: usize },
}

/// Identifies the game's version by where it keeps the room file path template.
pub fn find_game_version(rdt_path_addr: usize) -> (r: Result<GameVersion, VersionError>)
    ensures
        match r {
            Ok(v) => rdt_path_addr == 0x0053ab98 && is_sourcenext11(v),
            Err(e) => rdt_path_addr != 0x0053ab98 && e == VersionError::Unsupported { rdt_path_addr },
        },
{
    let version = sourcenext11();
    if version.rdt_path_template == rdt_path_addr {
        Ok(version)
    } else {
        Err(VersionError::Unsupported { rdt_path_addr })
    }
}

/// A character slot holds a character when its pointer is neither null nor the game's dummy
/// character.
pub fn is_char_valid(char_ptr: usize, dummy_char: usize) -> (r: bool)
    ensures
        r == (char_ptr != 0 && char_ptr != dummy_char),
{
    char_ptr != 0 && char_ptr != dummy_char
}

/// The slot of the character the player controls: the first slot whose pointer is the current
/// character's, if the current character is a real one.
pub fn current_char_index(current_char: usize, dummy_char: usize, characters: &[usize]) -> (r: Option<usize>)
    ensures
        match r {
            Some(i) => current_char != 0 && current_char != dummy_char && i < characters@.len()
                && characters@[i as int] == current_char
                && forall|j: int| 0 <= j < i ==> characters@[j] != current_char,
            None => current_char == 0 || current_char == dummy_char
                || forall|j: int| 0 <= j < characters@.len() ==> characters@[j] != current_char,
        },
{
    if !is_char_valid(current_char, dummy_char) {
        return None;
    }
    let mut i: usize = 0;
    while i < characters.len()
        invariant
            i <= characters@.len(),
            current_char != 0 && current_char != dummy_char,
            forall|j: int| 0 <= j < i ==> characters@[j] != current_char,
        decreases characters@.len() - i,
    {
        if characters[i] == current_char {
            return Some(i);
        }
        i += 1;
    }
    None
}

/// Whether the game flags say the player is Claire (the top bit).
pub fn is_claire(game_flags: u32) -> (r: bool)
    ensures
        r == (game_flags & 0x8000_0000 != 0),
{
    game_flags & 0x8000_0000 != 0
}

/// Whether the game flags say this is the B scenario (the second bit from the top).
pub fn is_b_scenario(game_flags: u32) -> (r: bool)
    ensures
        r == (game_flags & 0x4000_0000 != 0),
{
    game_flags & 0x4000_0000 != 0
}

/// The character slots as the tools see them: a slot's pointer when it holds a character.
pub fn live_characters(characters: &[usize], dummy_char: usize) -> (r: Vec<Option<usize>>)
    ensures
        r@.len() == characters@.len(),
        forall|i: int| 0 <= i < r@.len() ==> #[trigger] r@[i] == if characters@[i] != 0 && characters@[i] != dummy_char {
            Some(characters@[i])
        } else {
            None
        },
{
    let mut r: Vec<Option<usize>> = Vec::new();
    let mut i: usize = 0;
    while i < characters.len()
        invariant
            i <= characters@.len(),
            r@.len() == i,
            forall|j: int| 0 <= j < i ==> #[trigger] r@[j] == if characters@[j] != 0 && characters@[j] != dummy_char {
                Some(characters@[j])
            } else {
                None
            },
        decreases characters@.len() - i,
    {
        let c = characters[i];
        r.push(if is_char_valid(c, dummy_char) { Some(c) } else { None });
        i += 1;
    }
    r
}

/// The object slots as the tools see them: the address of each of the `NUM_OBJECTS` object
/// records, laid out one after another from `objects`, while it lies below the end of the
/// live objects.
pub fn live_objects(objects: usize, last_obj: usize) -> (r: Vec<Option<usize>>)
    requires
        objects + NUM_OBJECTS * OBJECT_CHARACTER_SIZE <= usize::MAX,
    ensures
        r@.len() == NUM_OBJECTS,
        forall|i: int| 0 <= i < NUM_OBJECTS ==> #[trigger] r@[i] == if objects + OBJECT_CHARACTER_SIZE * i < last_obj {
            Some((objects + OBJECT_CHARACTER_SIZE * i) as usize)
        } else {
            None
        },
{
    let mut r: Vec<Option<usize>> = Vec::new();
    let mut i: usize = 0;
    while i < NUM_OBJECTS
        invariant
            i <= NUM_OBJECTS,
            objects + NUM_OBJECTS * OBJECT_CHARACTER_SIZE <= usize::MAX,
            r@.len() == i,
            forall|j: int| 0 <= j < i ==> #[trigger] r@[j] == if objects + OBJECT_CHARACTER_SIZE * j < last_obj {
                Some((objects + OBJECT_CHARACTER_SIZE * j) as usize)
            } else {
                None
            },
        decreases NUM_OBJECTS - i,
    {
        assert(OBJECT_CHARACTER_SIZE * i <= NUM_OBJECTS * OBJECT_CHARACTER_SIZE) by (nonlinear_arith)
            requires i <= NUM_OBJECTS;
        let obj = objects + OBJECT_CHARACTER_SIZE * i;
        r.push(if obj < last_obj { Some(obj) } else { None });
        i += 1;
    }
    r
}

} // verus!
