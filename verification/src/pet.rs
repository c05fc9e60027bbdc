//! Behaviors of an owned pet: following a distant owner, defending a hurt
//! owner, and the idle drift back toward the owner.

use vstd::prelude::*;
use crate::agent::{agent_frame, Agent, SelfData, Target};
use crate::consts::{MAX_FOLLOW_DIST, OWNER_HURT_WINDOW_MS, OWNER_TARGET_PERMILLE};
use crate::control::{Controller, HandledState, MovementIntent};
use crate::rng::{spec_draw_permille, spec_lcg_next, TickRng};
use crate::world::{
    dist_sqrd, spec_dist_sqrd, spec_is_dead_or_invulnerable, spec_lookup, Alignment, EntityId,
    TimeMs, WorldSnapshot,
};

verus! {

/// Whether the held target (the owner, on the pet subtree) resolves to a
/// position further away than the follow distance.
pub open spec fn spec_owner_far(world: WorldSnapshot, me: SelfData, old_t: Option<Target>) -> bool {
    &&& old_t matches Some(t) && spec_lookup(world, t.entity) matches Some(e) && e.pos matches Some(
        tp,
    ) && spec_dist_sqrd(me.pos, tp) > MAX_FOLLOW_DIST * MAX_FOLLOW_DIST
}

/// Follow the owner once too far away, consuming the tick; otherwise fall
/// through.
pub fn follow_if_far_away(
    agent: &Agent,
    me: &SelfData,
    world: &WorldSnapshot,
    ctrl: &mut Controller,
) -> (r: HandledState)
    requires
        crate::world::world_wf(*world),
        crate::agent::self_wf(*me, world.time),
    ensures
        r == if spec_owner_far(*world, *me, agent.target) {
            HandledState::Handled
        } else {
            HandledState::Continue
        },
        final(ctrl).movement == if spec_owner_far(*world, *me, agent.target) {
            Some(
                MovementIntent::ChaseTo {
                    dest: spec_lookup(*world, agent.target->Some_0.entity)->Some_0.pos->Some_0,
                    min_dist: MAX_FOLLOW_DIST,
                },
            )
        } else {
            old(ctrl).movement
        },
        final(ctrl).actions@ == old(ctrl).actions@,
        final(ctrl).events@ == old(ctrl).events@,
        final(ctrl).look_at == old(ctrl).look_at,
{
    if let Some(t) = agent.target {
        proof {
            crate::world::lemma_lookup_wf(*world, t.entity);
        }
        if let Some(e) = world.lookup(t.entity) {
            if let Some(tp) = e.pos {
                let d2: i64 = dist_sqrd(&me.pos, &tp);
                if d2 > MAX_FOLLOW_DIST * MAX_FOLLOW_DIST {
                    ctrl.set_movement(
                        MovementIntent::ChaseTo { dest: tp, min_dist: MAX_FOLLOW_DIST },
                    );
                    return HandledState::Handled;
                }
            }
        }
    }
    HandledState::Continue
}

/// Whether the owner (the held target) has a position and took harm
/// recently.
pub open spec fn spec_owner_hurt(world: WorldSnapshot, old_t: Option<Target>, now: TimeMs) -> bool {
    &&& old_t matches Some(t) && spec_lookup(world, t.entity) matches Some(e)
        && e.health matches Some(h) && h.last_change matches Some(ch) && (ch.harmful && now
        - ch.time < OWNER_HURT_WINDOW_MS && e.pos is Some)
}

/// The owner's attacker, when one can be resolved to a live, vulnerable
/// entity other than the pet itself.
pub open spec fn spec_owner_attacker(
    world: WorldSnapshot,
    me: SelfData,
    old_t: Option<Target>,
    now: TimeMs,
) -> Option<EntityId> {
    if spec_owner_hurt(world, old_t, now) {
        match spec_lookup(world, old_t->Some_0.entity)->Some_0.health->Some_0.last_change->Some_0.by {
            Some(atk) => if atk != me.id && spec_lookup(world, atk) is Some
                && !spec_is_dead_or_invulnerable(world, atk) {
                Some(atk)
            } else {
                None
            },
            None => None,
        }
    } else {
        None
    }
}

/// Defend a recently hurt owner: turn on the owner's attacker as a fresh
/// hostile target and move to attack it. Consumes the tick whenever the
/// owner resolves and was hurt recently, even when the attacker cannot be
/// resolved.
pub fn attack_if_owner_hurt(
    agent: &mut Agent,
    me: &SelfData,
    world: &WorldSnapshot,
    ctrl: &mut Controller,
) -> (r: HandledState)
    requires
        crate::world::world_wf(*world),
        crate::agent::self_wf(*me, world.time),
        crate::agent::agent_wf(*old(agent), world.time),
    ensures
        r == if spec_owner_hurt(*world, old(agent).target, world.time) {
            HandledState::Handled
        } else {
            HandledState::Continue
        },
        final(agent).target == (match spec_owner_attacker(
            *world,
            *me,
            old(agent).target,
            world.time,
        ) {
            Some(atk) => Some(
                Target { entity: atk, hostile: true, selected_at: world.time, aggro_on: true },
            ),
            None => old(agent).target,
        }),
        final(ctrl).movement == (match spec_owner_attacker(
            *world,
            *me,
            old(agent).target,
            world.time,
        ) {
            Some(atk) => Some(MovementIntent::Attack { target: atk }),
            None => old(ctrl).movement,
        }),
        final(ctrl).actions@ == old(ctrl).actions@,
        final(ctrl).events@ == old(ctrl).events@,
        final(ctrl).look_at == old(ctrl).look_at,
        agent_frame(*old(agent), *final(agent)),
        final(agent).inbox == old(agent).inbox,
        final(agent).timer == old(agent).timer,
        final(agent).action_timer == old(agent).action_timer,
        final(agent).behavior == old(agent).behavior,
        final(agent).sounds_heard == old(agent).sounds_heard,
        final(agent).memory_out == old(agent).memory_out,
        crate::agent::agent_wf(*final(agent), world.time),
{
    let cur: Option<Target> = agent.target;
    if let Some(t) = cur {
        proof {
            crate::world::lemma_lookup_wf(*world, t.entity);
        }
        if let Some(owner) = world.lookup(t.entity) {
            if owner.pos.is_some() {
                let hurt: bool = match owner.health {
                    Some(h) => match h.last_change {
                        Some(ch) => ch.harmful && world.time - ch.time < OWNER_HURT_WINDOW_MS,
                        None => false,
                    },
                    None => false,
                };
                if hurt {
                    let by: Option<EntityId> = match owner.health {
                        Some(h) => match h.last_change {
                            Some(ch) => ch.by,
                            None => None,
                        },
                        None => None,
                    };
                    if let Some(atk) = by {
                        if atk != me.id && world.lookup(atk).is_some()
                            && !crate::world::is_dead_or_invulnerable(world, atk) {
                            agent.target = Some(Target::new(atk, true, world.time, true));
                            ctrl.set_movement(MovementIntent::Attack { target: atk });
                        }
                    }
                    return HandledState::Handled;
                }
            }
        }
    }
    HandledState::Continue
}

/// Whether the idle drift turns the pet toward its owner: no target held,
/// the low-probability draw hits, and the owner resolves.
pub open spec fn spec_turns_to_owner(
    world: WorldSnapshot,
    me: SelfData,
    old_t: Option<Target>,
    rng_state: u64,
) -> bool {
    &&& old_t is None
    &&& spec_draw_permille(rng_state) < OWNER_TARGET_PERMILLE
    &&& me.alignment matches Some(Alignment::Owned(owner)) && spec_lookup(world, owner) is Some
}

/// With a small chance each idle tick, an untargeted pet turns toward its
/// owner as a non-hostile focus. Never consumes the tick; always draws
/// once from the random source.
pub fn set_owner_if_no_target(
    agent: &mut Agent,
    me: &SelfData,
    world: &WorldSnapshot,
    rng: &mut TickRng,
) -> (r: HandledState)
    requires
        crate::world::world_wf(*world),
        crate::agent::agent_wf(*old(agent), world.time),
    ensures
        r == HandledState::Continue,
        final(rng).state == spec_lcg_next(old(rng).state),
        final(agent).target == if spec_turns_to_owner(*world, *me, old(agent).target, old(
            rng,
        ).state) {
            Some(
                Target {
                    entity: me.alignment->Some_0->Owned_0,
                    hostile: false,
                    selected_at: world.time,
                    aggro_on: false,
                },
            )
        } else {
            old(agent).target
        },
        agent_frame(*old(agent), *final(agent)),
        final(agent).inbox == old(agent).inbox,
        final(agent).timer == old(agent).timer,
        final(agent).action_timer == old(agent).action_timer,
        final(agent).behavior == old(agent).behavior,
        final(agent).sounds_heard == old(agent).sounds_heard,
        final(agent).memory_out == old(agent).memory_out,
        crate::agent::agent_wf(*final(agent), world.time),
{
    let small_chance: bool = rng.chance_permille(OWNER_TARGET_PERMILLE);
    if agent.target.is_none() && small_chance {
        if let Some(Alignment::Owned(owner)) = me.alignment {
            if world.lookup(owner).is_some() {
                agent.target = Some(Target::new(owner, false, world.time, false));
            }
        }
    }
    HandledState::Continue
}

} // verus!
