//! The upgrades that a level-up offers, and what choosing one does.

use crate::clock::{duration_nanos, span_from_nanos, span_nanos};
use crate::components::{Color, Damage, Health, ReloadTime, ShotSpeed, Speed};
use crate::geometry::clamp;
use crate::menus::{ButtonStyle, Interaction, StyledButton};
use crate::random::pick_distinct;
use crate::states::{GameState, NextState};
use vstd::prelude::*;

verus! {

/// The stats that an upgrade can raise.
#[derive(Clone, Copy, Debug, PartialEq, Eq, Structural)]
pub enum UpgradeVariant {
    Speed,
    Damage,
    Health,
    FireRate,
    ShotSpeed,
}

/// Marks the menu of upgrades.
#[derive(Clone, Copy, Debug, PartialEq, Eq, Structural)]
pub struct UpgradeMenu;

/// The upgrade that a button stands for.
#[derive(Clone, Copy, Debug, PartialEq, Eq, Structural)]
pub struct UpgradeVariantComponent(pub UpgradeVariant);

/// Marks a button of the menu of upgrades.
#[derive(Clone, Copy, Debug, PartialEq, Eq, Structural)]
pub struct UpgradeButton;

/// A button of the menu of upgrades: its colour at rest and the upgrade it
/// stands for.
#[derive(Clone, Copy, Debug, PartialEq, Eq, Structural)]
pub struct UpgradeButtonBundle {
    pub background_color: Color,
    pub upgrade_var: UpgradeVariantComponent,
    pub marker: UpgradeButton,
    pub styled: StyledButton,
}

/// The player chose an upgrade.
#[derive(Clone, Copy, Debug, PartialEq, Eq, Structural)]
pub struct UpgradeStatEvent {
    pub variant: UpgradeVariant,
}

/// How many upgrades there are.
pub const VARIANT_COUNT: usize = 5;

/// How many upgrades a level-up offers.
pub const OFFER_COUNT: usize = 3;

/// Hit points that the health upgrade adds.
pub const HEALTH_BONUS: i32 = 10;

/// Damage that the damage upgrade adds.
pub const DAMAGE_BONUS: i32 = 5;

/// The stats of the player that upgrades change, as plain numbers.
pub struct Stats {
    pub speed: nat,
    pub shot_speed: nat,
    pub damage: int,
    pub health: int,
    pub reload_nanos: nat,
}

/// The upgrades in a fixed order.
pub open spec fn variant_at(index: int) -> UpgradeVariant {
    if index == 0 {
        UpgradeVariant::Speed
    } else if index == 1 {
        UpgradeVariant::Damage
    } else if index == 2 {
        UpgradeVariant::Health
    } else if index == 3 {
        UpgradeVariant::FireRate
    } else {
        UpgradeVariant::ShotSpeed
    }
}

/// A rate a tenth greater, as far as the number can hold it.
pub open spec fn tenth_more(rate: nat) -> nat {
    if rate + rate / 10 > u32::MAX {
        u32::MAX as nat
    } else {
        rate + rate / 10
    }
}

/// A time a fifth shorter, as far as a span made of nanoseconds can hold it.
pub open spec fn fifth_less(nanos: nat) -> nat {
    if nanos - nanos / 5 > u64::MAX {
        u64::MAX as nat
    } else {
        (nanos - nanos / 5) as nat
    }
}

impl Stats {
    /// The stats after one upgrade: speed and shot speed grow by a tenth,
    /// damage by five, health by ten, and the reload time shrinks by a fifth.
    pub open spec fn upgraded(self, variant: UpgradeVariant) -> Stats {
        match variant {
            UpgradeVariant::Speed => Stats { speed: tenth_more(self.speed), ..self },
            UpgradeVariant::Damage => Stats {
                damage: clamp(self.damage + DAMAGE_BONUS, i32::MIN as int, i32::MAX as int),
                ..self
            },
            UpgradeVariant::Health => Stats {
                health: clamp(self.health + HEALTH_BONUS, i32::MIN as int, i32::MAX as int),
                ..self
            },
            UpgradeVariant::FireRate => Stats { reload_nanos: fifth_less(self.reload_nanos), ..self },
            UpgradeVariant::ShotSpeed => Stats { shot_speed: tenth_more(self.shot_speed), ..self },
        }
    }

    /// The stats after the upgrades, taken in order.
    pub open spec fn upgraded_all(self, choices: Seq<UpgradeStatEvent>) -> Stats
        decreases choices.len(),
    {
        if choices.len() == 0 {
            self
        } else {
            self.upgraded_all(choices.drop_last()).upgraded(choices.last().variant)
        }
    }
}

/// The stats that the five records hold.
pub open spec fn stats_of(
    speed: Speed,
    shot_speed: ShotSpeed,
    damage: Damage,
    health: Health,
    reload_time: ReloadTime,
) -> Stats {
    Stats {
        speed: speed.0 as nat,
        shot_speed: shot_speed.0 as nat,
        damage: damage.0 as int,
        health: health.0 as int,
        reload_nanos: duration_nanos(reload_time.0),
    }
}

/// The upgrade at a place of the fixed order.
fn variant_of(index: usize) -> (variant: UpgradeVariant)
    ensures
        variant == variant_at(index as int),
{
    if index == 0 {
        UpgradeVariant::Speed
    } else if index == 1 {
        UpgradeVariant::Damage
    } else if index == 2 {
        UpgradeVariant::Health
    } else if index == 3 {
        UpgradeVariant::FireRate
    } else {
        UpgradeVariant::ShotSpeed
    }
}

/// The upgrades that stand at the given places of the fixed order.
pub fn upgrade_choices(picks: &Vec<usize>) -> (offers: Vec<UpgradeVariant>)
    ensures
        offers.len() == picks.len(),
        forall|i: int| 0 <= i < picks.len() ==> #[trigger] offers[i] == variant_at(picks[i] as int),
{
    let mut offers: Vec<UpgradeVariant> = Vec::new();
    let mut i: usize = 0;
    while i < picks.len()
        invariant
            i <= picks.len(),
            offers.len() == i,
            forall|k: int| 0 <= k < i ==> #[trigger] offers[k] == variant_at(picks[k] as int),
        decreases picks.len() - i,
    {
        offers.push(variant_of(picks[i]));
        i += 1;
    }
    offers
}

/// Draws the upgrades that a level-up offers: three of the five, no two the
/// same.
pub fn spawn_upgrade_menu() -> (offers: Vec<UpgradeVariant>)
    ensures
        offers.len() == OFFER_COUNT,
        forall|i: int, j: int| 0 <= i < j < offers.len() ==> offers[i] != offers[j],
{
    let picks = pick_distinct(VARIANT_COUNT, OFFER_COUNT);
    let offers = upgrade_choices(&picks);
    assert forall|i: int, j: int| 0 <= i < j < offers.len() implies offers[i] != offers[j] by {
        assert(offers[i] == variant_at(picks[i] as int));
        assert(offers[j] == variant_at(picks[j] as int));
        assert(picks[i] != picks[j]);
    }
    offers
}

/// The label of the button of an upgrade.
pub open spec fn label(variant: UpgradeVariant) -> Seq<char> {
    match variant {
        UpgradeVariant::Speed => "Speed"@,
        UpgradeVariant::Damage => "Damage"@,
        UpgradeVariant::Health => "Health"@,
        UpgradeVariant::FireRate => "Fire rate"@,
        UpgradeVariant::ShotSpeed => "Shot speed"@,
    }
}

impl UpgradeButtonBundle {
    /// The button of an upgrade, at rest.
    pub fn with_variant(variant: UpgradeVariant) -> (button: UpgradeButtonBundle)
        ensures
            button == (UpgradeButtonBundle {
                background_color: ButtonStyle::idle_color(),
                upgrade_var: UpgradeVariantComponent(variant),
                marker: UpgradeButton,
                styled: StyledButton,
            }),
    {
        UpgradeButtonBundle {
            background_color: ButtonStyle::bg_color(),
            upgrade_var: UpgradeVariantComponent(variant),
            marker: UpgradeButton,
            styled: StyledButton,
        }
    }

    /// The label of the button of an upgrade.
    pub fn get_text(variant: &UpgradeVariant) -> (text: &'static str)
        ensures
            text@ == label(*variant),
    {
        match variant {
            UpgradeVariant::Speed => "Speed",
            UpgradeVariant::Damage => "Damage",
            UpgradeVariant::Health => "Health",
            UpgradeVariant::FireRate => "Fire rate",
            UpgradeVariant::ShotSpeed => "Shot speed",
        }
    }
}

impl Default for UpgradeButtonBundle {
    /// The button of the damage upgrade.
    fn default() -> (button: UpgradeButtonBundle)
        ensures
            button.upgrade_var == UpgradeVariantComponent(UpgradeVariant::Damage),
            button.background_color == ButtonStyle::idle_color(),
    {
        UpgradeButtonBundle::with_variant(UpgradeVariant::Damage)
    }
}

/// A pressed button of the menu reports the upgrade it stands for.
pub fn interact_upgrade_button(interaction: &Interaction, var: &UpgradeVariantComponent) -> (choice:
    Option<UpgradeStatEvent>)
    ensures
        choice == if *interaction == Interaction::Pressed {
            Some(UpgradeStatEvent { variant: var.0 })
        } else {
            None
        },
{
    match interaction {
        Interaction::Pressed => Some(UpgradeStatEvent { variant: var.0 }),
        _ => None,
    }
}

/// A rate a tenth greater.
fn raise_rate(rate: u32) -> (raised: u32)
    ensures
        raised == tenth_more(rate as nat),
{
    let more: u32 = rate / 10;
    if more > u32::MAX - rate {
        u32::MAX
    } else {
        rate + more
    }
}

/// A number of hit points or of damage, `bonus` greater.
fn raise_points(points: i32, bonus: i32) -> (raised: i32)
    ensures
        raised == clamp(points + bonus, i32::MIN as int, i32::MAX as int),
{
    let sum: i64 = points as i64 + bonus as i64;
    if sum > i32::MAX as i64 {
        i32::MAX
    } else if sum < i32::MIN as i64 {
        i32::MIN
    } else {
        sum as i32
    }
}

/// Applies the upgrades that the player chose, in order, and goes back to
/// the game.
///
/// Speed and shot speed grow by a tenth, damage by five, health by ten, and
/// the reload time shrinks by a fifth. Every choice asks for the running
/// game; without a choice nothing changes.
pub fn process_upgrade_event(
    choices: &Vec<UpgradeStatEvent>,
    speed: &mut Speed,
    shotspeed: &mut ShotSpeed,
    damage: &mut Damage,
    health: &mut Health,
    reload_time: &mut ReloadTime,
    next_state: &mut NextState,
)
    ensures
        stats_of(*final(speed), *final(shotspeed), *final(damage), *final(health), *final(reload_time))
            == stats_of(
            *old(speed),
            *old(shotspeed),
            *old(damage),
            *old(health),
            *old(reload_time),
        ).upgraded_all(choices@),
        *final(next_state) == if choices.len() > 0 {
            NextState(Some(GameState::Running))
        } else {
            *old(next_state)
        },
{
    let mut i: usize = 0;
    while i < choices.len()
        invariant
            i <= choices.len(),
            stats_of(*speed, *shotspeed, *damage, *health, *reload_time) == stats_of(
                *old(speed),
                *old(shotspeed),
                *old(damage),
                *old(health),
                *old(reload_time),
            ).upgraded_all(choices@.take(i as int)),
            *next_state == if i > 0 {
                NextState(Some(GameState::Running))
            } else {
                *old(next_state)
            },
        decreases choices.len() - i,
    {
        proof {
            let upto = choices@.take(i as int + 1);
            assert(upto.drop_last() == choices@.take(i as int));
            assert(upto.last() == choices[i as int]);
        }
        match choices[i].variant {
            UpgradeVariant::Speed => {
                speed.0 = raise_rate(speed.0);
            },
            UpgradeVariant::Damage => {
                damage.0 = raise_points(damage.0, DAMAGE_BONUS);
            },
            UpgradeVariant::Health => {
                health.0 = raise_points(health.0, HEALTH_BONUS);
            },
            UpgradeVariant::FireRate => {
                let nanos: u128 = span_nanos(&reload_time.0);
                let shorter: u128 = nanos - nanos / 5;
                let held: u64 = if shorter > u64::MAX as u128 {
                    u64::MAX
                } else {
                    shorter as u64
                };
                reload_time.0 = span_from_nanos(held);
            },
            UpgradeVariant::ShotSpeed => {
                shotspeed.0 = raise_rate(shotspeed.0);
            },
        }
        next_state.set(GameState::Running);
        i += 1;
    }
    proof {
        assert(choices@.take(choices.len() as int) == choices@);
    }
}

} // verus!
