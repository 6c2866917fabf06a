use vstd::prelude::*;
use crate::chance::random_in;
use crate::progressbar::ProgressBar;

verus! {

/// Full health of the enemy, in hundredths of a point.
pub const FULL_HEALTH: i64 = 10_000;

/// Least damage of one snow tile, in hundredths of a point.
pub const MIN_DAMAGE: u32 = 1;

/// Bound (exclusive) on the damage of one snow tile, in hundredths of a point.
pub const DAMAGE_BOUND: u32 = 500;

/// Microseconds in a second.
pub const MICROS_PER_SECOND: u32 = 1_000_000;

/// Units of the health bar in a hundredth of a point. A bar unit is a
/// hundredth of a point times a microsecond, so that a whole number of
/// hundredths drained over a whole number of microseconds is a whole number
/// of bar units.
pub const BAR_UNITS_PER_HUNDREDTH: i64 = 1_000_000;

/// A full health bar, in bar units: `FULL_HEALTH` hundredths.
pub const FULL_BAR: i64 = 10_000_000_000;

/// The enemy's health, in hundredths of a point; it may fall below zero.
#[derive(Clone, Copy, Debug, PartialEq, Eq, Structural)]
pub struct EnemyHealth(pub i64);

/// `x` brought into the range of `i64`.
pub open spec fn saturated(x: int) -> int {
    if x < i64::MIN {
        i64::MIN as int
    } else if x > i64::MAX {
        i64::MAX as int
    } else {
        x
    }
}

/// How far a bar drains, in bar units, in `dt_micros` microseconds when its
/// maximum stands `gap` bar units above the health: `gap` per second. The
/// result is exact when `gap` is a whole number of hundredths, else it is
/// rounded toward zero.
pub open spec fn drain(gap: int, dt_micros: int) -> int {
    if gap >= 0 {
        gap * dt_micros / MICROS_PER_SECOND as int
    } else {
        -((-gap) * dt_micros / MICROS_PER_SECOND as int)
    }
}

/// `health` hundredths, in bar units.
pub open spec fn in_bar_units(health: int) -> int {
    health * BAR_UNITS_PER_HUNDREDTH as int
}

/// Value, in bar units, of a health bar after one frame of `dt_micros`
/// microseconds, for a health of `health` hundredths.
pub open spec fn drained_value(value: int, max_value: int, health: int, dt_micros: int) -> int {
    if in_bar_units(health) < value {
        saturated(value - drain(max_value - in_bar_units(health), dt_micros))
    } else {
        value
    }
}

/// A bar whose maximum is a whole number of hundredths drains exactly by
/// the gap between its maximum and the health, in hundredths, times the
/// frame's length in microseconds.
pub proof fn lemma_drain_exact(value: i64, max_value: i64, health: i64, dt_micros: u32)
    requires
        max_value % BAR_UNITS_PER_HUNDREDTH == 0,
    ensures
        drained_value(value as int, max_value as int, health as int, dt_micros as int) == if in_bar_units(health as int) < value {
            saturated(value - (max_value as int / BAR_UNITS_PER_HUNDREDTH as int - health as int) * dt_micros as int)
        } else {
            value as int
        },
{
    let k = BAR_UNITS_PER_HUNDREDTH as int;
    let q = max_value as int / k - health as int;
    let gap = max_value - in_bar_units(health as int);
    assert(gap == q * k);
    assert(q * k * dt_micros == k * (q * dt_micros)) by (nonlinear_arith);
    assert((-q) * k * dt_micros == k * ((-q) * dt_micros)) by (nonlinear_arith);
    vstd::arithmetic::div_mod::lemma_div_multiples_vanish(q * dt_micros, k);
    vstd::arithmetic::div_mod::lemma_div_multiples_vanish((-q) * dt_micros, k);
    assert((-gap) == (-q) * k) by (nonlinear_arith)
        requires
            gap == q * k,
    ;
    assert((-q) * dt_micros == -(q * dt_micros)) by (nonlinear_arith);
}

/// While the health stays at or below the bar's maximum, a frame never
/// raises the bar.
pub proof fn lemma_drain_never_raises(value: i64, max_value: i64, health: i64, dt_micros: u32)
    requires
        in_bar_units(health as int) <= max_value,
    ensures
        drained_value(value as int, max_value as int, health as int, dt_micros as int) <= value,
{
    let gap = max_value - in_bar_units(health as int);
    assert(gap * dt_micros >= 0) by (nonlinear_arith)
        requires
            gap >= 0,
            dt_micros >= 0,
    ;
    vstd::arithmetic::div_mod::lemma_div_pos_is_pos(gap * dt_micros, 1_000_000);
}

/// Health after a hit of `damage` hundredths.
pub fn take_damage(health: EnemyHealth, damage: u32) -> (r: EnemyHealth)
    requires
        health.0 - damage >= i64::MIN,
    ensures
        r.0 == health.0 - damage,
{
    EnemyHealth(health.0 - damage as i64)
}

/// Health after `hits` snow tiles strike the enemy, each for a random damage
/// in `MIN_DAMAGE .. DAMAGE_BOUND` hundredths.
pub fn collide_snow_with_enemy(health: EnemyHealth, hits: usize) -> (r: EnemyHealth)
    requires
        health.0 - hits * (DAMAGE_BOUND - 1) >= i64::MIN,
    ensures
        health.0 - hits * (DAMAGE_BOUND - 1) <= r.0 <= health.0 - hits * MIN_DAMAGE,
{
    let mut current = health;
    let mut i: usize = 0;
    while i < hits
        invariant
            i <= hits,
            health.0 - hits * (DAMAGE_BOUND - 1) >= i64::MIN,
            health.0 - i * (DAMAGE_BOUND - 1) <= current.0 <= health.0 - i * MIN_DAMAGE,
        decreases hits - i,
    {
        let damage = random_in(MIN_DAMAGE, DAMAGE_BOUND);
        proof {
            assert(hits * 499 >= (i + 1) * 499 == i * 499 + 499) by (nonlinear_arith)
                requires
                    i < hits,
            ;
        }
        current = take_damage(current, damage);
        i = i + 1;
    }
    current
}

/// Lets the health bar, counted in bar units, follow the enemy's health over
/// one frame of `dt_micros` microseconds: while the health is below the bar,
/// the bar drains by the gap between its maximum and the health, per second.
/// Returns whether the bar is then empty, which wins the game.
pub fn update_health_bar(bar: &mut ProgressBar, health: EnemyHealth, dt_micros: u32) -> (won: bool)
    ensures
        final(bar).value == drained_value(
            old(bar).value as int,
            old(bar).max_value as int,
            health.0 as int,
            dt_micros as int,
        ),
        old(bar).max_value % BAR_UNITS_PER_HUNDREDTH == 0 ==> final(bar).value == if in_bar_units(health.0 as int) < old(bar).value {
            saturated(old(bar).value - (old(bar).max_value as int / BAR_UNITS_PER_HUNDREDTH as int - health.0 as int) * dt_micros as int)
        } else {
            old(bar).value as int
        },
        final(bar).max_value == old(bar).max_value,
        final(bar).step == old(bar).step,
        won == (final(bar).value <= 0),
{
    proof {
        if bar.max_value % BAR_UNITS_PER_HUNDREDTH == 0 {
            lemma_drain_exact(bar.value, bar.max_value, health.0, dt_micros);
        }
        assert(-10_000_000_000_000_000_000_000_000 <= health.0 * 1_000_000
            <= 10_000_000_000_000_000_000_000_000) by (nonlinear_arith)
            requires
                -10_000_000_000_000_000_000 <= health.0 <= 10_000_000_000_000_000_000,
        ;
    }
    let health_units: i128 = health.0 as i128 * BAR_UNITS_PER_HUNDREDTH as i128;
    if health_units < bar.value as i128 {
        let gap: i128 = bar.max_value as i128 - health_units;
        assert(health_units == health.0 * 1_000_000);
        assert(-20_000_000_000_000_000_000_000_000 <= gap <= 20_000_000_000_000_000_000_000_000);
        let size: u128 = if gap >= 0 {
            gap as u128
        } else {
            (-gap) as u128
        };
        proof {
            assert(size * dt_micros <= 20_000_000_000_000_000_000_000_000 * 0xffff_ffff) by (nonlinear_arith)
                requires
                    size <= 20_000_000_000_000_000_000_000_000,
                    dt_micros <= 0xffff_ffff,
            ;
            assert(size * dt_micros / 1_000_000 <= size * dt_micros) by (nonlinear_arith)
                requires
                    size * dt_micros >= 0,
            ;
        }
        let quotient: u128 = size * dt_micros as u128 / MICROS_PER_SECOND as u128;
        let delta: i128 = if gap >= 0 {
            quotient as i128
        } else {
            -(quotient as i128)
        };
        let next: i128 = bar.value as i128 - delta;
        bar.value = if next < i64::MIN as i128 {
            i64::MIN
        } else if next > i64::MAX as i128 {
            i64::MAX
        } else {
            next as i64
        };
    }
    bar.value <= 0
}

} // verus!
