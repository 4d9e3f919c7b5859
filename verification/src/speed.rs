//! Playback speed as a fixed-point function of the pitch setting.
//!
//! A speed is a whole number of millionths: `1_000_000` plays at the rate of
//! the source. Fifty pitch steps make an octave, so pitch `p` asks for the
//! speed `2^(p/50)`, which is then kept between half and double speed.

use vstd::arithmetic::power::lemma_pow1;
use vstd::arithmetic::power::lemma_pow_adds;
use vstd::arithmetic::power::lemma_pow_distributes;
use vstd::arithmetic::power::lemma_pow_increases;
use vstd::arithmetic::power::lemma_pow_positive;
use vstd::arithmetic::power::pow;
use vstd::arithmetic::power2::lemma2_to64;
use vstd::arithmetic::power2::lemma2_to64_rest;
use vstd::arithmetic::power2::lemma_pow2;
use vstd::arithmetic::power2::pow2;
use vstd::prelude::*;

use crate::sound_control::clamp;

verus! {

/// The speed of unchanged playback.
pub const SPEED_UNIT: u32 = 1_000_000;

/// Half speed, the slowest there is.
pub const SPEED_MIN: u32 = 500_000;

/// Double speed, the fastest there is.
pub const SPEED_MAX: u32 = 2_000_000;

/// The number of pitch steps that double the speed.
pub const STEPS_PER_OCTAVE: i32 = 50;

/// `2^(step/50)` in millionths, rounded down, for a step within one octave.
pub open spec fn octave_fraction(step: int) -> int {
    if step == 0 {
        1_000_000
    } else if step == 1 {
        1_013_959
    } else if step == 2 {
        1_028_113
    } else if step == 3 {
        1_042_465
    } else if step == 4 {
        1_057_018
    } else if step == 5 {
        1_071_773
    } else if step == 6 {
        1_086_734
    } else if step == 7 {
        1_101_905
    } else if step == 8 {
        1_117_287
    } else if step == 9 {
        1_132_883
    } else if step == 10 {
        1_148_698
    } else if step == 11 {
        1_164_733
    } else if step == 12 {
        1_180_992
    } else if step == 13 {
        1_197_478
    } else if step == 14 {
        1_214_194
    } else if step == 15 {
        1_231_144
    } else if step == 16 {
        1_248_330
    } else if step == 17 {
        1_265_756
    } else if step == 18 {
        1_283_425
    } else if step == 19 {
        1_301_341
    } else if step == 20 {
        1_319_507
    } else if step == 21 {
        1_337_927
    } else if step == 22 {
        1_356_604
    } else if step == 23 {
        1_375_541
    } else if step == 24 {
        1_394_743
    } else if step == 25 {
        1_414_213
    } else if step == 26 {
        1_433_955
    } else if step == 27 {
        1_453_972
    } else if step == 28 {
        1_474_269
    } else if step == 29 {
        1_494_849
    } else if step == 30 {
        1_515_716
    } else if step == 31 {
        1_536_875
    } else if step == 32 {
        1_558_329
    } else if step == 33 {
        1_580_082
    } else if step == 34 {
        1_602_139
    } else if step == 35 {
        1_624_504
    } else if step == 36 {
        1_647_182
    } else if step == 37 {
        1_670_175
    } else if step == 38 {
        1_693_490
    } else if step == 39 {
        1_717_130
    } else if step == 40 {
        1_741_101
    } else if step == 41 {
        1_765_405
    } else if step == 42 {
        1_790_050
    } else if step == 43 {
        1_815_038
    } else if step == 44 {
        1_840_375
    } else if step == 45 {
        1_866_065
    } else if step == 46 {
        1_892_115
    } else if step == 47 {
        1_918_528
    } else if step == 48 {
        1_945_309
    } else if step == 49 {
        1_972_465
    } else {
        2_000_000
    }
}

/// The speed, in millionths, at which a pitch setting plays.
pub open spec fn playback_speed(pitch: int) -> int {
    if pitch >= STEPS_PER_OCTAVE {
        SPEED_MAX as int
    } else if pitch <= -STEPS_PER_OCTAVE {
        SPEED_MIN as int
    } else if pitch >= 0 {
        octave_fraction(pitch)
    } else {
        octave_fraction(STEPS_PER_OCTAVE + pitch) / 2
    }
}

/// `speed` is `2^(pitch/50)` in millionths, rounded down: the largest whole
/// number whose fiftieth power does not pass `2^pitch * (10^6)^50`.
pub open spec fn is_power_floor(pitch: int, speed: int) -> bool {
    &&& speed >= 0
    &&& if pitch >= 0 {
        pow(speed, 50) <= pow(SPEED_UNIT as int, 50) * pow(2, pitch as nat) < pow(speed + 1, 50)
    } else {
        pow(speed, 50) * pow(2, (-pitch) as nat) <= pow(SPEED_UNIT as int, 50) < pow(
            speed + 1,
            50,
        ) * pow(2, (-pitch) as nat)
    }
}

/// `2^(step/50)` in millionths, rounded down.
fn octave_fraction_of(step: u32) -> (fraction: u32)
    requires
        step <= 50,
    ensures
        fraction == octave_fraction(step as int),
{
    match step {
        0 => 1_000_000,
        1 => 1_013_959,
        2 => 1_028_113,
        3 => 1_042_465,
        4 => 1_057_018,
        5 => 1_071_773,
        6 => 1_086_734,
        7 => 1_101_905,
        8 => 1_117_287,
        9 => 1_132_883,
        10 => 1_148_698,
        11 => 1_164_733,
        12 => 1_180_992,
        13 => 1_197_478,
        14 => 1_214_194,
        15 => 1_231_144,
        16 => 1_248_330,
        17 => 1_265_756,
        18 => 1_283_425,
        19 => 1_301_341,
        20 => 1_319_507,
        21 => 1_337_927,
        22 => 1_356_604,
        23 => 1_375_541,
        24 => 1_394_743,
        25 => 1_414_213,
        26 => 1_433_955,
        27 => 1_453_972,
        28 => 1_474_269,
        29 => 1_494_849,
        30 => 1_515_716,
        31 => 1_536_875,
        32 => 1_558_329,
        33 => 1_580_082,
        34 => 1_602_139,
        35 => 1_624_504,
        36 => 1_647_182,
        37 => 1_670_175,
        38 => 1_693_490,
        39 => 1_717_130,
        40 => 1_741_101,
        41 => 1_765_405,
        42 => 1_790_050,
        43 => 1_815_038,
        44 => 1_840_375,
        45 => 1_866_065,
        46 => 1_892_115,
        47 => 1_918_528,
        48 => 1_945_309,
        49 => 1_972_465,
        _ => 2_000_000,
    }
}

/// The speed, in millionths, at which `pitch` plays: `2^(pitch/50)` kept
/// between half and double speed.
pub fn calc_playback_speed(pitch: i32) -> (speed: u32)
    ensures
        speed == playback_speed(pitch as int),
        SPEED_MIN <= speed <= SPEED_MAX,
{
    if pitch >= STEPS_PER_OCTAVE {
        SPEED_MAX
    } else if pitch <= -STEPS_PER_OCTAVE {
        SPEED_MIN
    } else if pitch >= 0 {
        octave_fraction_of(pitch as u32)
    } else {
        octave_fraction_of((STEPS_PER_OCTAVE + pitch) as u32) / 2
    }
}

/// The fiftieth power by repeated squaring.
spec fn pow50(b: int) -> int {
    let b2 = b * b;
    let b4 = b2 * b2;
    let b8 = b4 * b4;
    let b16 = b8 * b8;
    let b32 = b16 * b16;
    b32 * b16 * b2
}

/// A product, named so that it can be told apart from its factors.
spec fn scaled(value: int, factor: int) -> int {
    value * factor
}

/// Repeated squaring gives the fiftieth power.
proof fn lemma_pow50(b: int)
    ensures
        pow(b, 50) == pow50(b),
{
    lemma_pow1(b);
    lemma_pow_adds(b, 1, 1);
    lemma_pow_adds(b, 2, 2);
    lemma_pow_adds(b, 4, 4);
    lemma_pow_adds(b, 8, 8);
    lemma_pow_adds(b, 16, 16);
    lemma_pow_adds(b, 32, 16);
    lemma_pow_adds(b, 48, 2);
}

/// The number of steps that `pitch` lies away from zero.
spec fn steps_of(pitch: int) -> nat {
    if pitch >= 0 {
        pitch as nat
    } else {
        (-pitch) as nat
    }
}

/// Whether the fiftieth powers of the speed of `pitch` and of the next
/// number enclose what `pitch` asks for, `factor` being two to the number of
/// steps.
spec fn encloses(pitch: int, factor: int) -> bool {
    let speed = playback_speed(pitch);
    if pitch >= 0 {
        pow50(speed) <= scaled(pow50(1_000_000), factor) < pow50(speed + 1)
    } else {
        scaled(pow50(speed), factor) <= pow50(1_000_000) < scaled(pow50(speed + 1), factor)
    }
}

/// A speed whose fiftieth powers enclose what its pitch asks for is the
/// rounded-down power for that pitch.
proof fn lemma_floor_from_bounds(pitch: int)
    requires
        -STEPS_PER_OCTAVE <= pitch <= STEPS_PER_OCTAVE,
        encloses(pitch, pow2(steps_of(pitch)) as int),
    ensures
        is_power_floor(pitch, playback_speed(pitch)),
{
    let speed = playback_speed(pitch);
    let unit = pow(SPEED_UNIT as int, 50);
    let factor = pow(2, steps_of(pitch));
    lemma_pow50(speed);
    lemma_pow50(speed + 1);
    lemma_pow50(SPEED_UNIT as int);
    lemma_pow2(steps_of(pitch));
    assert(unit * factor == scaled(unit, factor));
    assert(pow(speed, 50) * factor == scaled(pow(speed, 50), factor));
    assert(pow(speed + 1, 50) * factor == scaled(pow(speed + 1, 50), factor));
}

/// The speeds of pitch 0 to 9 and their successors enclose the powers asked for.
proof fn lemma_raised_steps_0_to_9()
    by (nonlinear_arith)
    ensures
        pow50(1_000_000) <= scaled(pow50(1_000_000), 1) < pow50(1_000_001),
        pow50(1_013_959) <= scaled(pow50(1_000_000), 2) < pow50(1_013_960),
        pow50(1_028_113) <= scaled(pow50(1_000_000), 4) < pow50(1_028_114),
        pow50(1_042_465) <= scaled(pow50(1_000_000), 8) < pow50(1_042_466),
        pow50(1_057_018) <= scaled(pow50(1_000_000), 16) < pow50(1_057_019),
        pow50(1_071_773) <= scaled(pow50(1_000_000), 32) < pow50(1_071_774),
        pow50(1_086_734) <= scaled(pow50(1_000_000), 64) < pow50(1_086_735),
        pow50(1_101_905) <= scaled(pow50(1_000_000), 128) < pow50(1_101_906),
        pow50(1_117_287) <= scaled(pow50(1_000_000), 256) < pow50(1_117_288),
        pow50(1_132_883) <= scaled(pow50(1_000_000), 512) < pow50(1_132_884),
{
}

/// The speeds of pitch 10 to 19 and their successors enclose the powers asked for.
proof fn lemma_raised_steps_10_to_19()
    by (nonlinear_arith)
    ensures
        pow50(1_148_698) <= scaled(pow50(1_000_000), 1_024) < pow50(1_148_699),
        pow50(1_164_733) <= scaled(pow50(1_000_000), 2_048) < pow50(1_164_734),
        pow50(1_180_992) <= scaled(pow50(1_000_000), 4_096) < pow50(1_180_993),
        pow50(1_197_478) <= scaled(pow50(1_000_000), 8_192) < pow50(1_197_479),
        pow50(1_214_194) <= scaled(pow50(1_000_000), 16_384) < pow50(1_214_195),
        pow50(1_231_144) <= scaled(pow50(1_000_000), 32_768) < pow50(1_231_145),
        pow50(1_248_330) <= scaled(pow50(1_000_000), 65_536) < pow50(1_248_331),
        pow50(1_265_756) <= scaled(pow50(1_000_000), 131_072) < pow50(1_265_757),
        pow50(1_283_425) <= scaled(pow50(1_000_000), 262_144) < pow50(1_283_426),
        pow50(1_301_341) <= scaled(pow50(1_000_000), 524_288) < pow50(1_301_342),
{
}

/// The speeds of pitch 20 to 29 and their successors enclose the powers asked for.
proof fn lemma_raised_steps_20_to_29()
    by (nonlinear_arith)
    ensures
        pow50(1_319_507) <= scaled(pow50(1_000_000), 1_048_576) < pow50(1_319_508),
        pow50(1_337_927) <= scaled(pow50(1_000_000), 2_097_152) < pow50(1_337_928),
        pow50(1_356_604) <= scaled(pow50(1_000_000), 4_194_304) < pow50(1_356_605),
        pow50(1_375_541) <= scaled(pow50(1_000_000), 8_388_608) < pow50(1_375_542),
        pow50(1_394_743) <= scaled(pow50(1_000_000), 16_777_216) < pow50(1_394_744),
        pow50(1_414_213) <= scaled(pow50(1_000_000), 33_554_432) < pow50(1_414_214),
        pow50(1_433_955) <= scaled(pow50(1_000_000), 67_108_864) < pow50(1_433_956),
        pow50(1_453_972) <= scaled(pow50(1_000_000), 134_217_728) < pow50(1_453_973),
        pow50(1_474_269) <= scaled(pow50(1_000_000), 268_435_456) < pow50(1_474_270),
        pow50(1_494_849) <= scaled(pow50(1_000_000), 536_870_912) < pow50(1_494_850),
{
}

/// The speeds of pitch 30 to 39 and their successors enclose the powers asked for.
proof fn lemma_raised_steps_30_to_39()
    by (nonlinear_arith)
    ensures
        pow50(1_515_716) <= scaled(pow50(1_000_000), 1_073_741_824) < pow50(1_515_717),
        pow50(1_536_875) <= scaled(pow50(1_000_000), 2_147_483_648) < pow50(1_536_876),
        pow50(1_558_329) <= scaled(pow50(1_000_000), 4_294_967_296) < pow50(1_558_330),
        pow50(1_580_082) <= scaled(pow50(1_000_000), 8_589_934_592) < pow50(1_580_083),
        pow50(1_602_139) <= scaled(pow50(1_000_000), 17_179_869_184) < pow50(1_602_140),
        pow50(1_624_504) <= scaled(pow50(1_000_000), 34_359_738_368) < pow50(1_624_505),
        pow50(1_647_182) <= scaled(pow50(1_000_000), 68_719_476_736) < pow50(1_647_183),
        pow50(1_670_175) <= scaled(pow50(1_000_000), 137_438_953_472) < pow50(1_670_176),
        pow50(1_693_490) <= scaled(pow50(1_000_000), 274_877_906_944) < pow50(1_693_491),
        pow50(1_717_130) <= scaled(pow50(1_000_000), 549_755_813_888) < pow50(1_717_131),
{
}

/// The speeds of pitch 40 to 49 and their successors enclose the powers asked for.
proof fn lemma_raised_steps_40_to_49()
    by (nonlinear_arith)
    ensures
        pow50(1_741_101) <= scaled(pow50(1_000_000), 1_099_511_627_776) < pow50(1_741_102),
        pow50(1_765_405) <= scaled(pow50(1_000_000), 2_199_023_255_552) < pow50(1_765_406),
        pow50(1_790_050) <= scaled(pow50(1_000_000), 4_398_046_511_104) < pow50(1_790_051),
        pow50(1_815_038) <= scaled(pow50(1_000_000), 8_796_093_022_208) < pow50(1_815_039),
        pow50(1_840_375) <= scaled(pow50(1_000_000), 17_592_186_044_416) < pow50(1_840_376),
        pow50(1_866_065) <= scaled(pow50(1_000_000), 35_184_372_088_832) < pow50(1_866_066),
        pow50(1_892_115) <= scaled(pow50(1_000_000), 70_368_744_177_664) < pow50(1_892_116),
        pow50(1_918_528) <= scaled(pow50(1_000_000), 140_737_488_355_328) < pow50(1_918_529),
        pow50(1_945_309) <= scaled(pow50(1_000_000), 281_474_976_710_656) < pow50(1_945_310),
        pow50(1_972_465) <= scaled(pow50(1_000_000), 562_949_953_421_312) < pow50(1_972_466),
{
}

/// The speed of pitch 50 and its successor enclose the power asked for.
proof fn lemma_raised_step_50()
    by (nonlinear_arith)
    ensures
        pow50(2_000_000) <= scaled(pow50(1_000_000), 1_125_899_906_842_624) < pow50(2_000_001),
{
}

/// The speeds of pitch -1 to -10 and their successors enclose the powers asked for.
proof fn lemma_lowered_steps_1_to_10()
    by (nonlinear_arith)
    ensures
        scaled(pow50(986_232), 2) <= pow50(1_000_000) < scaled(pow50(986_233), 2),
        scaled(pow50(972_654), 4) <= pow50(1_000_000) < scaled(pow50(972_655), 4),
        scaled(pow50(959_264), 8) <= pow50(1_000_000) < scaled(pow50(959_265), 8),
        scaled(pow50(946_057), 16) <= pow50(1_000_000) < scaled(pow50(946_058), 16),
        scaled(pow50(933_032), 32) <= pow50(1_000_000) < scaled(pow50(933_033), 32),
        scaled(pow50(920_187), 64) <= pow50(1_000_000) < scaled(pow50(920_188), 64),
        scaled(pow50(907_519), 128) <= pow50(1_000_000) < scaled(pow50(907_520), 128),
        scaled(pow50(895_025), 256) <= pow50(1_000_000) < scaled(pow50(895_026), 256),
        scaled(pow50(882_702), 512) <= pow50(1_000_000) < scaled(pow50(882_703), 512),
        scaled(pow50(870_550), 1_024) <= pow50(1_000_000) < scaled(pow50(870_551), 1_024),
{
}

/// The speeds of pitch -11 to -20 and their successors enclose the powers asked for.
proof fn lemma_lowered_steps_11_to_20()
    by (nonlinear_arith)
    ensures
        scaled(pow50(858_565), 2_048) <= pow50(1_000_000) < scaled(pow50(858_566), 2_048),
        scaled(pow50(846_745), 4_096) <= pow50(1_000_000) < scaled(pow50(846_746), 4_096),
        scaled(pow50(835_087), 8_192) <= pow50(1_000_000) < scaled(pow50(835_088), 8_192),
        scaled(pow50(823_591), 16_384) <= pow50(1_000_000) < scaled(pow50(823_592), 16_384),
        scaled(pow50(812_252), 32_768) <= pow50(1_000_000) < scaled(pow50(812_253), 32_768),
        scaled(pow50(801_069), 65_536) <= pow50(1_000_000) < scaled(pow50(801_070), 65_536),
        scaled(pow50(790_041), 131_072) <= pow50(1_000_000) < scaled(pow50(790_042), 131_072),
        scaled(pow50(779_164), 262_144) <= pow50(1_000_000) < scaled(pow50(779_165), 262_144),
        scaled(pow50(768_437), 524_288) <= pow50(1_000_000) < scaled(pow50(768_438), 524_288),
        scaled(pow50(757_858), 1_048_576) <= pow50(1_000_000) < scaled(pow50(757_859), 1_048_576),
{
}

/// The speeds of pitch -21 to -30 and their successors enclose the powers asked for.
proof fn lemma_lowered_steps_21_to_30()
    by (nonlinear_arith)
    ensures
        scaled(pow50(747_424), 2_097_152) <= pow50(1_000_000) < scaled(pow50(747_425), 2_097_152),
        scaled(pow50(737_134), 4_194_304) <= pow50(1_000_000) < scaled(pow50(737_135), 4_194_304),
        scaled(pow50(726_986), 8_388_608) <= pow50(1_000_000) < scaled(pow50(726_987), 8_388_608),
        scaled(pow50(716_977), 16_777_216) <= pow50(1_000_000) < scaled(pow50(716_978), 16_777_216),
        scaled(pow50(707_106), 33_554_432) <= pow50(1_000_000) < scaled(pow50(707_107), 33_554_432),
        scaled(pow50(697_371), 67_108_864) <= pow50(1_000_000) < scaled(pow50(697_372), 67_108_864),
        scaled(pow50(687_770), 134_217_728) <= pow50(1_000_000) < scaled(pow50(687_771), 134_217_728),
        scaled(pow50(678_302), 268_435_456) <= pow50(1_000_000) < scaled(pow50(678_303), 268_435_456),
        scaled(pow50(668_963), 536_870_912) <= pow50(1_000_000) < scaled(pow50(668_964), 536_870_912),
        scaled(pow50(659_753), 1_073_741_824) <= pow50(1_000_000) < scaled(pow50(659_754), 1_073_741_824),
{
}

/// The speeds of pitch -31 to -40 and their successors enclose the powers asked for.
proof fn lemma_lowered_steps_31_to_40()
    by (nonlinear_arith)
    ensures
        scaled(pow50(650_670), 2_147_483_648) <= pow50(1_000_000) < scaled(pow50(650_671), 2_147_483_648),
        scaled(pow50(641_712), 4_294_967_296) <= pow50(1_000_000) < scaled(pow50(641_713), 4_294_967_296),
        scaled(pow50(632_878), 8_589_934_592) <= pow50(1_000_000) < scaled(pow50(632_879), 8_589_934_592),
        scaled(pow50(624_165), 17_179_869_184) <= pow50(1_000_000) < scaled(pow50(624_166), 17_179_869_184),
        scaled(pow50(615_572), 34_359_738_368) <= pow50(1_000_000) < scaled(pow50(615_573), 34_359_738_368),
        scaled(pow50(607_097), 68_719_476_736) <= pow50(1_000_000) < scaled(pow50(607_098), 68_719_476_736),
        scaled(pow50(598_739), 137_438_953_472) <= pow50(1_000_000) < scaled(pow50(598_740), 137_438_953_472),
        scaled(pow50(590_496), 274_877_906_944) <= pow50(1_000_000) < scaled(pow50(590_497), 274_877_906_944),
        scaled(pow50(582_366), 549_755_813_888) <= pow50(1_000_000) < scaled(pow50(582_367), 549_755_813_888),
        scaled(pow50(574_349), 1_099_511_627_776) <= pow50(1_000_000) < scaled(pow50(574_350), 1_099_511_627_776),
{
}

/// The speeds of pitch -41 to -50 and their successors enclose the powers asked for.
proof fn lemma_lowered_steps_41_to_50()
    by (nonlinear_arith)
    ensures
        scaled(pow50(566_441), 2_199_023_255_552) <= pow50(1_000_000) < scaled(pow50(566_442), 2_199_023_255_552),
        scaled(pow50(558_643), 4_398_046_511_104) <= pow50(1_000_000) < scaled(pow50(558_644), 4_398_046_511_104),
        scaled(pow50(550_952), 8_796_093_022_208) <= pow50(1_000_000) < scaled(pow50(550_953), 8_796_093_022_208),
        scaled(pow50(543_367), 17_592_186_044_416) <= pow50(1_000_000) < scaled(pow50(543_368), 17_592_186_044_416),
        scaled(pow50(535_886), 35_184_372_088_832) <= pow50(1_000_000) < scaled(pow50(535_887), 35_184_372_088_832),
        scaled(pow50(528_509), 70_368_744_177_664) <= pow50(1_000_000) < scaled(pow50(528_510), 70_368_744_177_664),
        scaled(pow50(521_232), 140_737_488_355_328) <= pow50(1_000_000) < scaled(pow50(521_233), 140_737_488_355_328),
        scaled(pow50(514_056), 281_474_976_710_656) <= pow50(1_000_000) < scaled(pow50(514_057), 281_474_976_710_656),
        scaled(pow50(506_979), 562_949_953_421_312) <= pow50(1_000_000) < scaled(pow50(506_980), 562_949_953_421_312),
        scaled(pow50(500_000), 1_125_899_906_842_624) <= pow50(1_000_000) < scaled(pow50(500_001), 1_125_899_906_842_624),
{
}

/// Pitch 0 to 9 plays at the rounded-down power.
proof fn lemma_raised_range_0_to_9(pitch: int)
    requires
        0 <= pitch <= 9,
    ensures
        is_power_floor(pitch, playback_speed(pitch)),
{
    lemma_raised_steps_0_to_9();
    lemma2_to64();
    lemma2_to64_rest();
    lemma_floor_from_bounds(pitch);
}

/// Pitch 10 to 19 plays at the rounded-down power.
proof fn lemma_raised_range_10_to_19(pitch: int)
    requires
        10 <= pitch <= 19,
    ensures
        is_power_floor(pitch, playback_speed(pitch)),
{
    lemma_raised_steps_10_to_19();
    lemma2_to64();
    lemma2_to64_rest();
    lemma_floor_from_bounds(pitch);
}

/// Pitch 20 to 29 plays at the rounded-down power.
proof fn lemma_raised_range_20_to_29(pitch: int)
    requires
        20 <= pitch <= 29,
    ensures
        is_power_floor(pitch, playback_speed(pitch)),
{
    lemma_raised_steps_20_to_29();
    lemma2_to64();
    lemma2_to64_rest();
    lemma_floor_from_bounds(pitch);
}

/// Pitch 30 to 39 plays at the rounded-down power.
proof fn lemma_raised_range_30_to_39(pitch: int)
    requires
        30 <= pitch <= 39,
    ensures
        is_power_floor(pitch, playback_speed(pitch)),
{
    lemma_raised_steps_30_to_39();
    lemma2_to64();
    lemma2_to64_rest();
    lemma_floor_from_bounds(pitch);
}

/// Pitch 40 to 49 plays at the rounded-down power.
proof fn lemma_raised_range_40_to_49(pitch: int)
    requires
        40 <= pitch <= 49,
    ensures
        is_power_floor(pitch, playback_speed(pitch)),
{
    lemma_raised_steps_40_to_49();
    lemma2_to64();
    lemma2_to64_rest();
    lemma_floor_from_bounds(pitch);
}

/// Pitch 50 plays at the rounded-down power.
proof fn lemma_raised_range_50(pitch: int)
    requires
        pitch == 50,
    ensures
        is_power_floor(pitch, playback_speed(pitch)),
{
    lemma_raised_step_50();
    lemma2_to64();
    lemma2_to64_rest();
    lemma_floor_from_bounds(pitch);
}

/// Pitch -1 to -10 plays at the rounded-down power.
proof fn lemma_lowered_range_1_to_10(pitch: int)
    requires
        -10 <= pitch <= -1,
    ensures
        is_power_floor(pitch, playback_speed(pitch)),
{
    lemma_lowered_steps_1_to_10();
    lemma2_to64();
    lemma2_to64_rest();
    lemma_floor_from_bounds(pitch);
}

/// Pitch -11 to -20 plays at the rounded-down power.
proof fn lemma_lowered_range_11_to_20(pitch: int)
    requires
        -20 <= pitch <= -11,
    ensures
        is_power_floor(pitch, playback_speed(pitch)),
{
    lemma_lowered_steps_11_to_20();
    lemma2_to64();
    lemma2_to64_rest();
    lemma_floor_from_bounds(pitch);
}

/// Pitch -21 to -30 plays at the rounded-down power.
proof fn lemma_lowered_range_21_to_30(pitch: int)
    requires
        -30 <= pitch <= -21,
    ensures
        is_power_floor(pitch, playback_speed(pitch)),
{
    lemma_lowered_steps_21_to_30();
    lemma2_to64();
    lemma2_to64_rest();
    lemma_floor_from_bounds(pitch);
}

/// Pitch -31 to -40 plays at the rounded-down power.
proof fn lemma_lowered_range_31_to_40(pitch: int)
    requires
        -40 <= pitch <= -31,
    ensures
        is_power_floor(pitch, playback_speed(pitch)),
{
    lemma_lowered_steps_31_to_40();
    lemma2_to64();
    lemma2_to64_rest();
    lemma_floor_from_bounds(pitch);
}

/// Pitch -41 to -50 plays at the rounded-down power.
proof fn lemma_lowered_range_41_to_50(pitch: int)
    requires
        -50 <= pitch <= -41,
    ensures
        is_power_floor(pitch, playback_speed(pitch)),
{
    lemma_lowered_steps_41_to_50();
    lemma2_to64();
    lemma2_to64_rest();
    lemma_floor_from_bounds(pitch);
}

/// Every speed between half and double is the rounded-down power that its
/// pitch asks for.
pub proof fn lemma_speed_is_power_floor(pitch: int)
    requires
        -STEPS_PER_OCTAVE <= pitch <= STEPS_PER_OCTAVE,
    ensures
        is_power_floor(pitch, playback_speed(pitch)),
{
    if 0 <= pitch <= 9 {
        lemma_raised_range_0_to_9(pitch);
    } else if 10 <= pitch <= 19 {
        lemma_raised_range_10_to_19(pitch);
    } else if 20 <= pitch <= 29 {
        lemma_raised_range_20_to_29(pitch);
    } else if 30 <= pitch <= 39 {
        lemma_raised_range_30_to_39(pitch);
    } else if 40 <= pitch <= 49 {
        lemma_raised_range_40_to_49(pitch);
    } else if pitch == 50 {
        lemma_raised_range_50(pitch);
    } else if -10 <= pitch <= -1 {
        lemma_lowered_range_1_to_10(pitch);
    } else if -20 <= pitch <= -11 {
        lemma_lowered_range_11_to_20(pitch);
    } else if -30 <= pitch <= -21 {
        lemma_lowered_range_21_to_30(pitch);
    } else if -40 <= pitch <= -31 {
        lemma_lowered_range_31_to_40(pitch);
    } else {
        lemma_lowered_range_41_to_50(pitch);
    }
}

/// A power with a fixed exponent does not shrink when its base grows.
proof fn lemma_pow_base_increases(a: int, b: int, e: nat)
    requires
        0 <= a <= b,
    ensures
        0 <= pow(a, e) <= pow(b, e),
    decreases e,
{
    reveal(pow);
    if e > 0 {
        lemma_pow_base_increases(a, b, (e - 1) as nat);
        let x = pow(a, (e - 1) as nat);
        let y = pow(b, (e - 1) as nat);
        assert(0 <= a * x <= b * y) by (nonlinear_arith)
            requires
                0 <= a <= b,
                0 <= x <= y,
        ;
    }
}

/// A power with a fixed positive exponent grows when its base grows.
proof fn lemma_pow_base_strictly_increases(a: int, b: int, e: nat)
    requires
        0 <= a < b,
        e > 0,
    ensures
        pow(a, e) < pow(b, e),
{
    reveal(pow);
    lemma_pow_base_increases(a, b, (e - 1) as nat);
    lemma_pow_positive(b, (e - 1) as nat);
    let x = pow(a, (e - 1) as nat);
    let y = pow(b, (e - 1) as nat);
    assert(a * x < b * y) by (nonlinear_arith)
        requires
            0 <= a < b,
            0 <= x <= y,
            0 < y,
    ;
}

/// Of two rounded-down powers for one pitch, neither is below the other.
proof fn lemma_power_floor_not_below(pitch: int, low: int, high: int)
    requires
        is_power_floor(pitch, low),
        is_power_floor(pitch, high),
    ensures
        low >= high,
{
    if low < high {
        lemma_pow_base_increases(low + 1, high, 50);
        if pitch < 0 {
            let factor = pow(2, (-pitch) as nat);
            let above = pow(low + 1, 50);
            let reached = pow(high, 50);
            lemma_pow_positive(2, (-pitch) as nat);
            assert(above * factor <= reached * factor) by (nonlinear_arith)
                requires
                    above <= reached,
                    factor > 0,
            ;
        }
    }
}

/// At most one speed is the rounded-down power that a pitch asks for.
pub proof fn lemma_power_floor_is_unique(pitch: int, first: int, second: int)
    requires
        is_power_floor(pitch, first),
        is_power_floor(pitch, second),
    ensures
        first == second,
{
    lemma_power_floor_not_below(pitch, first, second);
    lemma_power_floor_not_below(pitch, second, first);
}

/// The speed of every pitch is `2^(pitch/50)` in millionths, rounded down,
/// and then kept between half and double speed.
pub proof fn lemma_speed_is_clamped_power(pitch: int, power: int)
    requires
        is_power_floor(pitch, power),
    ensures
        playback_speed(pitch) == clamp(power, SPEED_MIN as int, SPEED_MAX as int),
{
    let unit = pow(SPEED_UNIT as int, 50);
    let octave = pow(2, 50);
    lemma_pow_positive(SPEED_UNIT as int, 50);
    lemma_pow_positive(2, 50);
    if -STEPS_PER_OCTAVE <= pitch <= STEPS_PER_OCTAVE {
        lemma_speed_is_power_floor(pitch);
        lemma_power_floor_is_unique(pitch, power, playback_speed(pitch));
    } else if pitch > STEPS_PER_OCTAVE {
        if power < SPEED_MAX {
            let factor = pow(2, pitch as nat);
            lemma_pow_base_increases(power + 1, SPEED_MAX as int, 50);
            lemma_pow_distributes(SPEED_UNIT as int, 2, 50);
            lemma_pow_increases(2, 50, pitch as nat);
            assert(unit * octave <= unit * factor) by (nonlinear_arith)
                requires
                    unit > 0,
                    octave <= factor,
            ;
            assert(false);
        }
    } else {
        if power > SPEED_MIN {
            let factor = pow(2, (-pitch) as nat);
            let reached = pow(power, 50);
            let half = pow(SPEED_MIN as int, 50);
            lemma_pow_base_increases(SPEED_MIN + 1, power, 50);
            lemma_pow_base_strictly_increases(SPEED_MIN as int, SPEED_MIN + 1, 50);
            lemma_pow_base_increases(0, SPEED_MIN as int, 50);
            lemma_pow_distributes(SPEED_MIN as int, 2, 50);
            lemma_pow_increases(2, 50, (-pitch) as nat);
            assert(reached * factor > half * octave) by (nonlinear_arith)
                requires
                    reached > half,
                    half >= 0,
                    factor >= octave,
                    octave > 0,
            ;
            assert(false);
        }
    }
}

/// Pitch zero leaves the speed alone; the ends of the pitch range give
/// double and half speed.
pub proof fn lemma_speed_anchors()
    ensures
        playback_speed(0) == SPEED_UNIT,
        playback_speed(100) == SPEED_MAX,
        playback_speed(-100) == SPEED_MIN,
{
}

/// A higher pitch never plays slower.
pub proof fn lemma_speed_is_monotonic(low: int, high: int)
    requires
        low <= high,
    ensures
        playback_speed(low) <= playback_speed(high),
{
}

} // verus!
