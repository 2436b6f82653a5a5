//! The life of a bullet: it leaves a shooter, flies, and hits or expires.

use crate::bundles::{BulletBundle, SpriteBundle};
use crate::clock::{duration_nanos, timer_finished, timer_state, timer_tick};
use crate::components::{
    get_delta, hit_points_after, lose_hit_points, BulletLifetimeTimer, Health, MyDirection,
    Shooter, Speed, Transform,
};
use crate::events::ShootEvent;
use crate::geometry::{delta_of, get_direction, Vector};
use std::time::Duration;
use vstd::prelude::*;

verus! {

/// Something a bullet can hit: it has a hitbox, hit points and a side.
#[derive(Clone, Copy, Debug, PartialEq, Eq, Structural)]
pub struct Collider {
    pub sprite: SpriteBundle,
    pub hp: Health,
    pub shooter: Shooter,
}

/// The bullet that a shot turns into: it starts at the source and flies
/// toward the target.
pub open spec fn is_bullet_of(bullet: BulletBundle, shot: ShootEvent) -> bool {
    bullet.is_fired(shot.source, shot.target.direction_from(shot.source), shot.damage, shot.shooter)
}

/// Turns the shots of this frame into bullets, one each and in order.
pub fn bullet_spawner(shots: &Vec<ShootEvent>) -> (bullets: Vec<BulletBundle>)
    requires
        forall|i: int|
            0 <= i < shots.len() ==> (#[trigger] shots[i]).source.in_world()
                && shots[i].target.in_world(),
    ensures
        bullets.len() == shots.len(),
        forall|i: int| 0 <= i < shots.len() ==> is_bullet_of(#[trigger] bullets[i], shots[i]),
{
    let mut bullets: Vec<BulletBundle> = Vec::new();
    let mut i: usize = 0;
    while i < shots.len()
        invariant
            i <= shots.len(),
            bullets.len() == i,
            forall|k: int|
                0 <= k < shots.len() ==> (#[trigger] shots[k]).source.in_world()
                    && shots[k].target.in_world(),
            forall|k: int| 0 <= k < i ==> is_bullet_of(#[trigger] bullets[k], shots[k]),
        decreases shots.len() - i,
    {
        let shot = &shots[i];
        let direction = get_direction(&shot.target, &shot.source);
        bullets.push(BulletBundle::fired(shot.source, direction, shot.damage, shot.shooter));
        i += 1;
    }
    bullets
}

/// The step of a body that moves the way `direction` points.
pub open spec fn flight_step(direction: MyDirection, speed: Speed, nanos: nat) -> Vector {
    delta_of(direction.0, speed.0 as nat, nanos)
}

/// Lets one bullet fly for a frame and says whether its time is up.
///
/// The bullet moves by its direction times its speed times `delta`, and its
/// lifetime runs on by `delta`. When the lifetime is over the bullet is to be
/// removed, whatever else happens to it in this frame.
pub fn move_bullets(
    bullet_tr: &mut Transform,
    bullet_dir: &MyDirection,
    bullet_spd: &Speed,
    bullet_timer: &mut BulletLifetimeTimer,
    delta: &Duration,
) -> (expired: bool)
    requires
        bullet_dir.0.is_direction(),
        timer_state(old(bullet_timer).0).can_tick(duration_nanos(*delta)),
    ensures
        final(bullet_tr).translation == old(bullet_tr).translation.moved(
            flight_step(*bullet_dir, *bullet_spd, duration_nanos(*delta)),
        ),
        final(bullet_tr).translation.in_world(),
        timer_state(final(bullet_timer).0) == timer_state(old(bullet_timer).0).ticked(
            duration_nanos(*delta),
        ),
        expired == timer_state(final(bullet_timer).0).finished,
{
    let step = get_delta(bullet_dir, bullet_spd, delta);
    bullet_tr.translation = bullet_tr.translation.translate(step);
    timer_tick(&mut bullet_timer.0, delta);
    timer_finished(&bullet_timer.0)
}

/// A bullet hits a target when their hitboxes overlap and they are not of
/// the same side.
pub open spec fn bullet_hits(bullet: BulletBundle, target: Collider) -> bool {
    target.sprite.hitbox().overlaps(bullet.sprite.hitbox()) && bullet.shooter != target.shooter
}

/// The hit points of a target after one bullet: less the damage if the
/// bullet hits, the same if not.
pub open spec fn hit_points_after_bullet(hp: int, bullet: BulletBundle, target: Collider) -> int {
    if bullet_hits(bullet, target) {
        hit_points_after(hp, bullet.damage.0 as int)
    } else {
        hp
    }
}

/// The hit points of a target after the bullets, taken in order.
pub open spec fn hit_points_after_bullets(bullets: Seq<BulletBundle>, target: Collider) -> int
    decreases bullets.len(),
{
    if bullets.len() == 0 {
        target.hp.0 as int
    } else {
        hit_points_after_bullet(
            hit_points_after_bullets(bullets.drop_last(), target),
            bullets.last(),
            target,
        )
    }
}

/// The bullet hits one of the targets.
pub open spec fn hits_any(bullet: BulletBundle, targets: Seq<Collider>) -> bool {
    exists|j: int| 0 <= j < targets.len() && bullet_hits(bullet, #[trigger] targets[j])
}

/// Tests one bullet against one target. On a hit the target loses the
/// bullet's damage and the bullet is to be removed; otherwise nothing changes.
pub fn resolve_bullet_hit(bullet: &BulletBundle, target: &mut Collider) -> (hit: bool)
    requires
        bullet.sprite.wf(),
        old(target).sprite.wf(),
    ensures
        hit == bullet_hits(*bullet, *old(target)),
        final(target).hp.0 == hit_points_after_bullet(old(target).hp.0 as int, *bullet, *old(target)),
        final(target).sprite == old(target).sprite,
        final(target).shooter == old(target).shooter,
{
    let target_box = target.sprite.bounding_box();
    let bullet_box = bullet.sprite.bounding_box();
    if target_box.intersects(&bullet_box) {
        match (bullet.shooter, target.shooter) {
            (Shooter::Enemy, Shooter::Player) | (Shooter::Player, Shooter::Enemy) => {
                lose_hit_points(&mut target.hp, bullet.damage.0);
                true
            },
            (_, _) => false,
        }
    } else {
        false
    }
}

/// Tests every bullet against every target.
///
/// Each target loses the damage of every bullet that hits it, and a bullet
/// that hits anything is to be removed: the result says so for each bullet.
/// A bullet that hits several targets in one frame hurts them all.
pub fn bullet_collision_processing(bullets: &Vec<BulletBundle>, colliders: &mut Vec<Collider>) -> (spent:
    Vec<bool>)
    requires
        forall|i: int| 0 <= i < bullets.len() ==> (#[trigger] bullets[i]).sprite.wf(),
        forall|j: int| 0 <= j < old(colliders).len() ==> (#[trigger] old(colliders)[j]).sprite.wf(),
    ensures
        spent.len() == bullets.len(),
        final(colliders).len() == old(colliders).len(),
        forall|i: int|
            0 <= i < bullets.len() ==> #[trigger] spent[i] == hits_any(bullets[i], old(colliders)@),
        forall|j: int|
            0 <= j < old(colliders).len() ==> {
                &&& (#[trigger] final(colliders)[j]).sprite == old(colliders)[j].sprite
                &&& final(colliders)[j].shooter == old(colliders)[j].shooter
                &&& final(colliders)[j].hp.0 == hit_points_after_bullets(
                    bullets@,
                    old(colliders)[j],
                )
            },
{
    let mut spent: Vec<bool> = Vec::new();
    let ghost before = colliders@;
    let mut i: usize = 0;
    while i < bullets.len()
        invariant
            i <= bullets.len(),
            spent.len() == i,
            colliders.len() == before.len(),
            before == old(colliders)@,
            forall|k: int| 0 <= k < bullets.len() ==> (#[trigger] bullets[k]).sprite.wf(),
            forall|j: int| 0 <= j < before.len() ==> (#[trigger] before[j]).sprite.wf(),
            forall|k: int| 0 <= k < i ==> #[trigger] spent[k] == hits_any(bullets[k], before),
            forall|j: int|
                0 <= j < before.len() ==> {
                    &&& (#[trigger] colliders[j]).sprite == before[j].sprite
                    &&& colliders[j].shooter == before[j].shooter
                    &&& colliders[j].hp.0 == hit_points_after_bullets(
                        bullets@.take(i as int),
                        before[j],
                    )
                },
        decreases bullets.len() - i,
    {
        let bullet = &bullets[i];
        let mut hit_any = false;
        let mut j: usize = 0;
        proof {
            let upto = bullets@.take(i as int + 1);
            assert(upto.drop_last() == bullets@.take(i as int));
            assert(upto.last() == bullets[i as int]);
        }
        while j < colliders.len()
            invariant
                j <= colliders.len(),
                i < bullets.len(),
                bullet == bullets[i as int],
                bullet.sprite.wf(),
                colliders.len() == before.len(),
                forall|k: int| 0 <= k < before.len() ==> (#[trigger] before[k]).sprite.wf(),
                hit_any == exists|k: int| 0 <= k < j && bullet_hits(*bullet, #[trigger] before[k]),
                bullets@.take(i as int + 1).drop_last() == bullets@.take(i as int),
                bullets@.take(i as int + 1).last() == bullets[i as int],
                forall|k: int|
                    0 <= k < before.len() ==> {
                        &&& (#[trigger] colliders[k]).sprite == before[k].sprite
                        &&& colliders[k].shooter == before[k].shooter
                        &&& colliders[k].hp.0 == hit_points_after_bullets(
                            bullets@.take(if k < j { i as int + 1 } else { i as int }),
                            before[k],
                        )
                    },
            decreases colliders.len() - j,
        {
            let mut target = colliders[j];
            let ghost seen = target;
            let hit = resolve_bullet_hit(bullet, &mut target);
            proof {
                assert(bullet_hits(*bullet, seen) == bullet_hits(*bullet, before[j as int]));
                assert(hit_points_after_bullet(seen.hp.0 as int, *bullet, seen)
                    == hit_points_after_bullet(seen.hp.0 as int, *bullet, before[j as int]));
            }
            colliders.set(j, target);
            if hit {
                hit_any = true;
            }
            j += 1;
        }
        spent.push(hit_any);
        i += 1;
    }
    proof {
        assert(bullets@.take(bullets.len() as int) == bullets@);
    }
    spent
}

/// Bullets of a target's own side leave its hit points alone, however many
/// there are and wherever they fly.
pub proof fn lemma_same_side_harmless(bullets: Seq<BulletBundle>, target: Collider)
    requires
        forall|i: int| 0 <= i < bullets.len() ==> (#[trigger] bullets[i]).shooter == target.shooter,
    ensures
        hit_points_after_bullets(bullets, target) == target.hp.0,
    decreases bullets.len(),
{
    if bullets.len() > 0 {
        lemma_same_side_harmless(bullets.drop_last(), target);
    }
}

/// Bullets that miss a target leave its hit points alone.
pub proof fn lemma_misses_harmless(bullets: Seq<BulletBundle>, target: Collider)
    requires
        forall|i: int| 0 <= i < bullets.len() ==> !bullet_hits(#[trigger] bullets[i], target),
    ensures
        hit_points_after_bullets(bullets, target) == target.hp.0,
    decreases bullets.len(),
{
    if bullets.len() > 0 {
        lemma_misses_harmless(bullets.drop_last(), target);
    }
}

/// A single bullet takes its damage off a target exactly when it hits:
/// when the hitboxes overlap and the sides differ.
pub proof fn lemma_damage_iff_hit(bullet: BulletBundle, target: Collider)
    requires
        bullet.damage.0 != 0,
        i32::MIN <= target.hp.0 - bullet.damage.0 <= i32::MAX,
    ensures
        hit_points_after_bullets(seq![bullet], target) == target.hp.0 - bullet.damage.0
            <==> bullet_hits(bullet, target),
        hit_points_after_bullets(seq![bullet], target) == target.hp.0 <==> !bullet_hits(
            bullet,
            target,
        ),
        bullet_hits(bullet, target) <==> target.sprite.hitbox().overlaps(bullet.sprite.hitbox())
            && bullet.shooter != target.shooter,
{
    let one = seq![bullet];
    assert(one.drop_last().len() == 0);
    assert(one.last() == bullet);
    assert(hit_points_after_bullets(one.drop_last(), target) == target.hp.0);
}

} // verus!
