//! Target resolution and threat evaluation: acquiring an attacker as a
//! hostile target, dropping dead targets, passive acquisition, loot
//! pickup and the forced untarget fallback.

use vstd::prelude::*;
use crate::agent::{agent_frame, Agent, Psyche, SelfData, Target};
use crate::consts::{DAMAGE_MEMORY_MS, NPC_PICKUP_RANGE, PICKUP_STOP_RANGE};
use crate::control::{
    ControlEvent, Controller, HandledState, MovementIntent, UtteranceKind,
};
use crate::world::{
    dist_sqrd, spec_dist_sqrd, spec_hostile_to, spec_is_dead, spec_is_dead_or_invulnerable,
    spec_lookup, BodyKind, EntityId, EntityInfo, Pos, TimeMs, WorldSnapshot,
};

verus! {

/// Who dealt the agent's most recent damage, when that damage is recent
/// enough to react to.
pub open spec fn spec_recent_attacker(me: SelfData, now: TimeMs) -> Option<EntityId> {
    match me.health {
        Some(h) => match h.last_change {
            Some(ch) => if ch.harmful && now - ch.time < DAMAGE_MEMORY_MS {
                ch.by
            } else {
                None
            },
            None => None,
        },
        None => None,
    }
}

/// The "more dangerous than" comparator, over proximity and attack
/// history: the side that dealt the agent's recent damage outranks one
/// that did not; on equal history, a resolvable candidate beats a target
/// that has vanished or lost its position, and otherwise the nearer
/// entity wins.
pub open spec fn spec_more_dangerous(
    world: WorldSnapshot,
    me: SelfData,
    cand: EntityInfo,
    cur: Target,
    now: TimeMs,
) -> bool {
    let cand_hist = match spec_recent_attacker(me, now) {
        Some(a) => a == cand.id,
        None => false,
    };
    let cur_hist = match spec_recent_attacker(me, now) {
        Some(a) => a == cur.entity,
        None => false,
    };
    if cand_hist != cur_hist {
        cand_hist
    } else {
        match spec_lookup(world, cur.entity) {
            None => true,
            Some(ce) => match (cand.pos, ce.pos) {
                (Some(cp), Some(tp)) => spec_dist_sqrd(me.pos, cp) < spec_dist_sqrd(me.pos, tp),
                (Some(_), None) => true,
                (None, _) => false,
            },
        }
    }
}

/// Exec mirror of the recent-attacker attribution.
fn recent_attacker(me: &SelfData, now: TimeMs) -> (r: Option<EntityId>)
    requires
        crate::agent::self_wf(*me, now),
    ensures
        r == spec_recent_attacker(*me, now),
{
    match me.health {
        Some(h) => match h.last_change {
            Some(ch) => {
                if ch.harmful && now - ch.time < DAMAGE_MEMORY_MS {
                    ch.by
                } else {
                    None
                }
            },
            None => None,
        },
        None => None,
    }
}

fn more_dangerous(
    world: &WorldSnapshot,
    me: &SelfData,
    cand: &EntityInfo,
    cur: &Target,
) -> (r: bool)
    requires
        crate::world::world_wf(*world),
        crate::agent::self_wf(*me, world.time),
        crate::world::entity_wf(*cand, world.time),
    ensures
        r == spec_more_dangerous(*world, *me, *cand, *cur, world.time),
{
    let att: Option<EntityId> = recent_attacker(me, world.time);
    let cand_hist: bool = match att {
        Some(a) => a == cand.id,
        None => false,
    };
    let cur_hist: bool = match att {
        Some(a) => a == cur.entity,
        None => false,
    };
    if cand_hist != cur_hist {
        return cand_hist;
    }
    proof {
        crate::world::lemma_lookup_wf(*world, cur.entity);
    }
    match world.lookup(cur.entity) {
        None => true,
        Some(ce) => match (cand.pos, ce.pos) {
            (Some(cp), Some(tp)) => dist_sqrd(&me.pos, &cp) < dist_sqrd(&me.pos, &tp),
            (Some(_), None) => true,
            (None, _) => false,
        },
    }
}

/// The target the agent holds after reacting to recent damage.
pub open spec fn spec_target_after_attack(
    world: WorldSnapshot,
    me: SelfData,
    old_t: Option<Target>,
    now: TimeMs,
) -> Option<Target> {
    match spec_recent_attacker(me, now) {
        None => old_t,
        Some(b) => match spec_lookup(world, b) {
            None => old_t,
            Some(att) => if spec_is_dead_or_invulnerable(world, b) {
                None
            } else {
                let switch = match old_t {
                    None => true,
                    Some(cur) => spec_more_dangerous(world, me, att, cur, now),
                };
                if switch {
                    Some(Target { entity: b, hostile: true, selected_at: now, aggro_on: true })
                } else {
                    old_t
                }
            },
        },
    }
}

/// Whether reacting to recent damage emits the first-encounter angry
/// utterance.
pub open spec fn spec_attack_utters(
    world: WorldSnapshot,
    me: SelfData,
    old_t: Option<Target>,
    now: TimeMs,
) -> bool {
    &&& old_t is None
    &&& match spec_recent_attacker(me, now) {
        Some(b) => spec_lookup(world, b) is Some && !spec_is_dead_or_invulnerable(world, b),
        None => false,
    }
}

/// The attacker name recorded into fight memory, if the encounter is
/// recorded at all.
pub open spec fn spec_attack_memory(world: WorldSnapshot, me: SelfData, now: TimeMs) -> Option<
    crate::world::NameId,
> {
    if me.profile is Some {
        match spec_recent_attacker(me, now) {
            Some(b) => match spec_lookup(world, b) {
                Some(att) => if spec_is_dead_or_invulnerable(world, b) {
                    None
                } else {
                    att.name
                },
                None => None,
            },
            None => None,
        }
    } else {
        None
    }
}

/// React to a recent attack: resolve the attributed attacker; drop a dead
/// or invulnerable one; otherwise greet the first hostile encounter with
/// an angry utterance, switch to the attacker when it is more dangerous
/// than the current target (or none is held), and record the fight.
/// Never consumes the tick.
pub fn target_if_attacked(
    agent: &mut Agent,
    me: &SelfData,
    world: &WorldSnapshot,
    ctrl: &mut Controller,
) -> (r: HandledState)
    requires
        crate::world::world_wf(*world),
        crate::agent::self_wf(*me, world.time),
        crate::agent::agent_wf(*old(agent), world.time),
    ensures
        r == HandledState::Continue,
        final(agent).target == spec_target_after_attack(*world, *me, old(agent).target, world.time),
        final(agent).memory_out@ == (match spec_attack_memory(*world, *me, world.time) {
            Some(n) => old(agent).memory_out@.push(
                crate::memory::MemoryEvent::Add(
                    crate::memory::Memory {
                        item: crate::memory::MemoryItem::CharacterFight { name: n },
                        time_to_forget: (world.time + crate::consts::FIGHT_MEMORY_MS) as u64,
                    },
                ),
            ),
            None => old(agent).memory_out@,
        }),
        final(ctrl).events@ == if spec_attack_utters(*world, *me, old(agent).target, world.time) {
            old(ctrl).events@.push(ControlEvent::Utterance(UtteranceKind::Angry))
        } else {
            old(ctrl).events@
        },
        final(ctrl).actions@ == old(ctrl).actions@,
        final(ctrl).movement == old(ctrl).movement,
        final(ctrl).look_at == old(ctrl).look_at,
        agent_frame(*old(agent), *final(agent)),
        final(agent).inbox == old(agent).inbox,
        final(agent).timer == old(agent).timer,
        final(agent).action_timer == old(agent).action_timer,
        final(agent).behavior == old(agent).behavior,
        final(agent).sounds_heard == old(agent).sounds_heard,
        crate::agent::agent_wf(*final(agent), world.time),
{
    let attacker: Option<EntityId> = recent_attacker(me, world.time);
    if let Some(by) = attacker {
        proof {
            crate::world::lemma_lookup_wf(*world, by);
        }
        if let Some(att) = world.lookup(by) {
            if crate::world::is_dead_or_invulnerable(world, by) {
                agent.target = None;
            } else {
                if agent.target.is_none() {
                    ctrl.push_utterance(UtteranceKind::Angry);
                }
                let switch: bool = match &agent.target {
                    None => true,
                    Some(cur) => more_dangerous(world, me, &att, cur),
                };
                if switch {
                    agent.target = Some(
                        Target::new(by, true, world.time, true),
                    );
                }
                if me.profile.is_some() {
                    if let Some(n) = att.name {
                        agent.add_fight_to_memory(n, world.time);
                    }
                }
            }
        }
    }
    HandledState::Continue
}

/// Forget a target confirmed dead: ask the persistence layer to drop the
/// enemy and clear the target, consuming the tick; otherwise fall
/// through.
pub fn untarget_if_dead(agent: &mut Agent, me: &SelfData, world: &WorldSnapshot) -> (r:
    HandledState)
    requires
        crate::world::world_wf(*world),
        crate::agent::agent_wf(*old(agent), world.time),
    ensures
        ({
            let was_dead = old(agent).target matches Some(t) && spec_is_dead(*world, t.entity);
            &&& r == if was_dead {
                HandledState::Handled
            } else {
                HandledState::Continue
            }
            &&& final(agent).target == if was_dead {
                None::<Target>
            } else {
                old(agent).target
            }
            &&& final(agent).memory_out@ == ({
                let named = {
                    &&& was_dead
                    &&& me.profile is Some
                    &&& old(agent).target matches Some(t) && spec_lookup(*world, t.entity)
                        matches Some(e) && e.name is Some
                };
                if named {
                    old(agent).memory_out@.push(
                        crate::memory::MemoryEvent::ForgetEnemy(
                            spec_lookup(*world, old(agent).target->Some_0.entity)->Some_0.name->Some_0,
                        ),
                    )
                } else {
                    old(agent).memory_out@
                }
            })
        }),
        agent_frame(*old(agent), *final(agent)),
        final(agent).inbox == old(agent).inbox,
        final(agent).timer == old(agent).timer,
        final(agent).action_timer == old(agent).action_timer,
        final(agent).behavior == old(agent).behavior,
        final(agent).sounds_heard == old(agent).sounds_heard,
        crate::agent::agent_wf(*final(agent), world.time),
{
    let cur: Option<Target> = agent.target;
    if let Some(t) = cur {
        if let Some(e) = world.lookup(t.entity) {
            if let Some(h) = e.health {
                if h.current == 0 {
                    if me.profile.is_some() {
                        if let Some(n) = e.name {
                            agent.forget_enemy(n);
                        }
                    }
                    agent.target = None;
                    return HandledState::Handled;
                }
            }
        }
    }
    HandledState::Continue
}

/// Forced untarget: drop whatever focus is left and fall through to the
/// idle fallback.
pub fn untarget(agent: &mut Agent, world: &WorldSnapshot) -> (r: HandledState)
    requires
        crate::agent::agent_wf(*old(agent), world.time),
    ensures
        r == HandledState::Continue,
        final(agent).target is None,
        agent_frame(*old(agent), *final(agent)),
        final(agent).inbox == old(agent).inbox,
        final(agent).timer == old(agent).timer,
        final(agent).action_timer == old(agent).action_timer,
        final(agent).behavior == old(agent).behavior,
        final(agent).sounds_heard == old(agent).sounds_heard,
        final(agent).memory_out == old(agent).memory_out,
        crate::agent::agent_wf(*final(agent), world.time),
{
    agent.target = None;
    HandledState::Continue
}

/// Whether the pickup behavior consumes the tick: the target is a dropped
/// item.
pub open spec fn spec_target_is_loot(world: WorldSnapshot, old_t: Option<Target>) -> bool {
    old_t matches Some(t) && spec_lookup(world, t.entity) matches Some(e) && e.body == Some(
        BodyKind::ItemDrop,
    )
}

/// Walk to a dropped item and ask the world for it: within pickup range,
/// request the item; further out, ask the planner to close the distance.
/// Consumes the tick whenever the target is a dropped item.
pub fn do_pickup_loot(
    agent: &mut Agent,
    me: &SelfData,
    world: &WorldSnapshot,
    ctrl: &mut Controller,
) -> (r: HandledState)
    requires
        crate::world::world_wf(*world),
        crate::agent::self_wf(*me, world.time),
        crate::agent::agent_wf(*old(agent), world.time),
    ensures
        r == if spec_target_is_loot(*world, old(agent).target) {
            HandledState::Handled
        } else {
            HandledState::Continue
        },
        *final(agent) == *old(agent),
        final(ctrl).events@ == ({
            let within = {
                &&& spec_target_is_loot(*world, old(agent).target)
                &&& spec_lookup(*world, old(agent).target->Some_0.entity)->Some_0.pos
                    matches Some(tp) && spec_dist_sqrd(me.pos, tp) < NPC_PICKUP_RANGE
                    * NPC_PICKUP_RANGE
            };
            if within {
                old(ctrl).events@.push(
                    ControlEvent::PickupItem { from: old(agent).target->Some_0.entity },
                )
            } else {
                old(ctrl).events@
            }
        }),
        final(ctrl).movement == ({
            let chasing = {
                &&& spec_target_is_loot(*world, old(agent).target)
                &&& spec_lookup(*world, old(agent).target->Some_0.entity)->Some_0.pos
                    matches Some(tp) && spec_dist_sqrd(me.pos, tp) >= NPC_PICKUP_RANGE
                    * NPC_PICKUP_RANGE
            };
            if chasing {
                Some(
                    MovementIntent::ChaseTo {
                        dest: spec_lookup(*world, old(agent).target->Some_0.entity)->Some_0.pos->Some_0,
                        min_dist: PICKUP_STOP_RANGE,
                    },
                )
            } else {
                old(ctrl).movement
            }
        }),
        final(ctrl).actions@ == old(ctrl).actions@,
        final(ctrl).look_at == old(ctrl).look_at,
        crate::agent::agent_wf(*final(agent), world.time),
{
    let cur: Option<Target> = agent.target;
    if let Some(t) = cur {
        proof {
            crate::world::lemma_lookup_wf(*world, t.entity);
        }
        if let Some(e) = world.lookup(t.entity) {
            if let Some(BodyKind::ItemDrop) = e.body {
                if let Some(tp) = e.pos {
                    let d2: i64 = dist_sqrd(&me.pos, &tp);
                    if d2 < NPC_PICKUP_RANGE * NPC_PICKUP_RANGE {
                        ctrl.push_event(ControlEvent::PickupItem { from: t.entity });
                    } else {
                        ctrl.set_movement(
                            MovementIntent::ChaseTo { dest: tp, min_dist: PICKUP_STOP_RANGE },
                        );
                    }
                }
                return HandledState::Handled;
            }
        }
    }
    HandledState::Continue
}

/// Whether an entity qualifies as a passively acquired hostile target for
/// this agent.
pub open spec fn spec_is_candidate(
    world: WorldSnapshot,
    me: SelfData,
    psyche: Psyche,
    e: EntityInfo,
) -> bool {
    &&& e.id != me.id
    &&& e.pos is Some
    &&& e.alignment is Some
    &&& me.alignment is Some
    &&& spec_hostile_to(me.alignment->Some_0, e.alignment->Some_0)
    &&& !(e.health matches Some(h) && crate::world::health_dead(h))
    &&& !e.invulnerable
    &&& (psyche.aggro_dist matches Some(d) ==> spec_dist_sqrd(me.pos, e.pos->Some_0) < d * d)
}

/// Whether some entity qualifies as a passively acquired target.
pub open spec fn spec_has_candidate(world: WorldSnapshot, me: SelfData, psyche: Psyche) -> bool {
    exists|i: int|
        0 <= i < world.entities@.len() && spec_is_candidate(
            world,
            me,
            psyche,
            #[trigger] world.entities@[i],
        )
}

/// What a freshly chosen passive target looks like: hostile, selected
/// now, aggro not yet latched, alive and vulnerable, and the nearest
/// qualifying candidate.
pub open spec fn spec_fresh_choice(
    world: WorldSnapshot,
    me: SelfData,
    psyche: Psyche,
    t: Target,
    now: TimeMs,
) -> bool {
    &&& t.hostile
    &&& t.selected_at == now
    &&& !t.aggro_on
    &&& !spec_is_dead(world, t.entity)
    &&& !crate::world::spec_is_invulnerable(world, t.entity)
    &&& exists|i: int|
        0 <= i < world.entities@.len() && (#[trigger] world.entities@[i]).id == t.entity
            && spec_is_candidate(world, me, psyche, world.entities@[i]) && forall|j: int|
            0 <= j < world.entities@.len() && spec_is_candidate(
                world,
                me,
                psyche,
                #[trigger] world.entities@[j],
            ) ==> spec_dist_sqrd(me.pos, world.entities@[i].pos->Some_0) <= spec_dist_sqrd(
                me.pos,
                world.entities@[j].pos->Some_0,
            )
}

/// A fresh passive choice always lies inside the psyche's aggro radius:
/// its record resolves with a position and, under a bounded radius, its
/// squared distance is below the radius squared.
pub proof fn lemma_fresh_choice_in_range(
    world: WorldSnapshot,
    me: SelfData,
    psyche: Psyche,
    t: Target,
    now: TimeMs,
)
    requires
        crate::world::world_wf(world),
        spec_fresh_choice(world, me, psyche, t, now),
    ensures
        spec_lookup(world, t.entity) matches Some(e) && e.pos is Some,
        psyche.aggro_dist matches Some(d) ==> spec_dist_sqrd(
            me.pos,
            spec_lookup(world, t.entity)->Some_0.pos->Some_0,
        ) < d * d,
{
    let i = choose|i: int|
        0 <= i < world.entities@.len() && (#[trigger] world.entities@[i]).id == t.entity
            && spec_is_candidate(world, me, psyche, world.entities@[i]) && forall|j: int|
            0 <= j < world.entities@.len() && spec_is_candidate(
                world,
                me,
                psyche,
                #[trigger] world.entities@[j],
            ) ==> spec_dist_sqrd(me.pos, world.entities@[i].pos->Some_0) <= spec_dist_sqrd(
                me.pos,
                world.entities@[j].pos->Some_0,
            );
    crate::world::lemma_lookup_index(world, i);
}

/// The contract of passive acquisition: with a candidate in range the
/// new focus is a fresh choice, without one the focus is unchanged.
pub open spec fn spec_choose_post(
    world: WorldSnapshot,
    me: SelfData,
    psyche: Psyche,
    old_t: Option<Target>,
    new_t: Option<Target>,
    now: TimeMs,
) -> bool {
    if spec_has_candidate(world, me, psyche) {
        new_t matches Some(t) && spec_fresh_choice(world, me, psyche, t, now)
    } else {
        new_t == old_t
    }
}

/// Passive target acquisition: pick the nearest qualifying hostile in
/// range, if any, as a fresh hostile target with aggro not yet latched;
/// keep the current focus when none qualifies.
pub fn choose_target(agent: &mut Agent, me: &SelfData, world: &WorldSnapshot)
    requires
        crate::world::world_wf(*world),
        crate::agent::self_wf(*me, world.time),
        crate::agent::agent_wf(*old(agent), world.time),
    ensures
        spec_choose_post(
            *world,
            *me,
            old(agent).psyche,
            old(agent).target,
            final(agent).target,
            world.time,
        ),
        agent_frame(*old(agent), *final(agent)),
        final(agent).inbox == old(agent).inbox,
        final(agent).timer == old(agent).timer,
        final(agent).action_timer == old(agent).action_timer,
        final(agent).behavior == old(agent).behavior,
        final(agent).sounds_heard == old(agent).sounds_heard,
        final(agent).memory_out == old(agent).memory_out,
        crate::agent::agent_wf(*final(agent), world.time),
{
    let n: usize = world.entities.len();
    let mut best: Option<(EntityId, i64)> = None;
    let ghost mut best_idx: int = 0;
    let mut i: usize = 0;
    while i < n
        invariant
            n == world.entities@.len(),
            0 <= i <= n,
            crate::world::world_wf(*world),
            crate::agent::self_wf(*me, world.time),
            crate::agent::psyche_wf(agent.psyche),
            match best {
                None => forall|k: int|
                    0 <= k < i ==> !spec_is_candidate(
                        *world,
                        *me,
                        agent.psyche,
                        #[trigger] world.entities@[k],
                    ),
                Some((id, d)) => {
                    &&& 0 <= best_idx < i
                    &&& world.entities@[best_idx].id == id
                    &&& spec_is_candidate(*world, *me, agent.psyche, world.entities@[best_idx])
                    &&& d == spec_dist_sqrd(me.pos, world.entities@[best_idx].pos->Some_0)
                    &&& forall|k: int|
                        0 <= k < i && spec_is_candidate(
                            *world,
                            *me,
                            agent.psyche,
                            #[trigger] world.entities@[k],
                        ) ==> d <= spec_dist_sqrd(me.pos, world.entities@[k].pos->Some_0)
                },
            },
        decreases n - i,
    {
        let e: EntityInfo = world.entities[i];
        let qualifies: bool = {
            let dead: bool = match e.health {
                Some(h) => h.current == 0,
                None => false,
            };
            let aligned: bool = match (me.alignment, e.alignment) {
                (Some(ma), Some(ea)) => crate::world::hostile_to(&ma, &ea),
                _ => false,
            };
            e.id != me.id && e.pos.is_some() && aligned && !dead && !e.invulnerable
        };
        if qualifies {
            let ep: Pos = match e.pos {
                Some(p) => p,
                None => me.pos,
            };
            let d: i64 = dist_sqrd(&me.pos, &ep);
            let in_range: bool = match agent.psyche.aggro_dist {
                Some(ad) => {
                    assert(0 <= ad * ad <= 10_000_000_000) by (nonlinear_arith)
                        requires
                            1 <= ad <= 100_000,
                    ;
                    d < ad * ad
                },
                None => true,
            };
            if in_range {
                let replace: bool = match best {
                    None => true,
                    Some((_, bd)) => d < bd,
                };
                if replace {
                    best = Some((e.id, d));
                    proof {
                        best_idx = i as int;
                    }
                }
            }
        }
        i = i + 1;
    }
    if let Some((id, _)) = best {
        proof {
            crate::world::lemma_lookup_index(*world, best_idx);
        }
        agent.target = Some(Target::new(id, true, world.time, false));
    }
}

} // verus!
