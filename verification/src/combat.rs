//! The combat decision engine: each tick with a hostile target chooses
//! among fleeing, pursuing, menacing, attacking and disengaging, from
//! health fractions, distances, the leash to the patrol origin, and the
//! time since the target was selected.

use vstd::prelude::*;
use crate::agent::{
    agent_frame, spec_below_flee_health, Agent, Psyche, SelfData, Target,
};
use crate::consts::{
    FLEE_DURATION_MS, FLEE_SPOKE_MARK_MS, HEALING_ITEM_THRESHOLD_PERMILLE, HEAL_MARK_MS,
    HURT_UTTER_PERMILLE, MAX_FLEE_DIST, RETARGET_COOLDOWN_MS,
};
use crate::control::{
    ChatLine, ControlEvent, Controller, HandledState, MovementIntent, OutEvent, Outbox,
    UtteranceKind,
};
use crate::events::AgentEvent;
use crate::rng::{spec_draw_permille, spec_lcg_next, TickRng};
use crate::world::{
    dist_sqrd, frac_permille, spec_dist_sqrd, spec_frac_permille, spec_is_dead,
    spec_is_invulnerable, spec_lookup, TimeMs, WorldSnapshot,
};

verus! {

/// Whether a squared distance lies within the psyche's aggro radius; a
/// psyche without one latches at any range.
pub open spec fn spec_in_aggro_range(psyche: Psyche, d2: int) -> bool {
    match psyche.aggro_dist {
        Some(ad) => d2 < ad * ad,
        None => true,
    }
}

/// The disengage policy: break off when dragged past the leash around the
/// patrol origin, or when a long chase meets a target in better shape
/// than the pursuer.
pub open spec fn spec_stop_pursuing(
    d2: int,
    origin_d2: int,
    own_hf: int,
    tgt_hf: int,
    elapsed: int,
    psyche: Psyche,
) -> bool {
    ||| origin_d2 > psyche.leash_dist * psyche.leash_dist
    ||| (elapsed > psyche.give_up_ms && own_hf < tgt_hf)
}

/// The disengage policy as executable code.
pub fn stop_pursuing(
    d2: i64,
    origin_d2: i64,
    own_hf: u32,
    tgt_hf: u32,
    elapsed: u64,
    psyche: &Psyche,
) -> (r: bool)
    requires
        crate::agent::psyche_wf(*psyche),
    ensures
        r == spec_stop_pursuing(
            d2 as int,
            origin_d2 as int,
            own_hf as int,
            tgt_hf as int,
            elapsed as int,
            *psyche,
        ),
{
    assert(0 <= psyche.leash_dist * psyche.leash_dist <= 10_000_000_000) by (nonlinear_arith)
        requires
            1 <= psyche.leash_dist <= 100_000,
    ;
    origin_d2 > psyche.leash_dist * psyche.leash_dist || (elapsed > psyche.give_up_ms && own_hf
        < tgt_hf)
}

/// Which arm of the combat engine a tick takes.
#[derive(Clone, Copy, PartialEq, Eq, Structural, Debug)]
pub enum CombatBranch {
    /// No target, or the target has no position: nothing to decide.
    Inactive,
    /// Flee episode opening: cry out once, do not move yet.
    Cry,
    /// Flee episode in progress: run.
    FleeMove,
    /// Flee bounds exceeded: give up and go idle.
    GiveUp,
    /// The target is confirmed dead.
    EnemyDead,
    /// The target is invulnerable or the disengage policy fired.
    Disengage,
    /// Stay engaged: attack under latched aggro, menace before it.
    Engage,
}

/// Squared distance from the patrol origin, or one when no origin is set.
pub open spec fn spec_origin_d2(agent: Agent, me: SelfData) -> int {
    match agent.patrol_origin {
        Some(p) => spec_dist_sqrd(p, me.pos),
        None => 1,
    }
}

/// Own health fraction in thousandths, full when unknown.
pub open spec fn spec_own_hf(me: SelfData) -> int {
    match me.health {
        Some(h) => spec_frac_permille(h),
        None => 1000,
    }
}

/// A looked-up entity's health fraction in thousandths, full when
/// unknown.
pub open spec fn spec_tgt_hf(world: WorldSnapshot, id: crate::world::EntityId) -> int {
    match spec_lookup(world, id) {
        Some(e) => match e.health {
            Some(h) => spec_frac_permille(h),
            None => 1000,
        },
        None => 1000,
    }
}

/// Whether the combat engine has a positioned target to act on.
pub open spec fn spec_combat_active(world: WorldSnapshot, agent: Agent) -> bool {
    agent.target matches Some(t) && spec_lookup(world, t.entity) matches Some(e) && e.pos is Some
}

/// Squared distance to the combat target; meaningful only when active.
pub open spec fn spec_combat_d2(world: WorldSnapshot, me: SelfData, agent: Agent) -> int {
    spec_dist_sqrd(me.pos, spec_lookup(world, agent.target->Some_0.entity)->Some_0.pos->Some_0)
}

/// The arm the combat engine takes this tick.
pub open spec fn spec_combat_branch(world: WorldSnapshot, me: SelfData, agent: Agent) -> CombatBranch {
    if !spec_combat_active(world, agent) {
        CombatBranch::Inactive
    } else {
        let t = agent.target->Some_0;
        let d2 = spec_combat_d2(world, me, agent);
        if spec_below_flee_health(me, agent.psyche) {
            if agent.action_timer == 0 {
                CombatBranch::Cry
            } else if d2 < MAX_FLEE_DIST * MAX_FLEE_DIST && agent.action_timer < FLEE_DURATION_MS {
                CombatBranch::FleeMove
            } else {
                CombatBranch::GiveUp
            }
        } else if spec_is_dead(world, t.entity) {
            CombatBranch::EnemyDead
        } else if spec_is_invulnerable(world, t.entity) || spec_stop_pursuing(
            d2,
            spec_origin_d2(agent, me),
            spec_own_hf(me),
            spec_tgt_hf(world, t.entity),
            world.time - t.selected_at,
            agent.psyche,
        ) {
            CombatBranch::Disengage
        } else {
            CombatBranch::Engage
        }
    }
}

/// The held target with aggro latched if the target came into aggro range
/// this tick; aggro is sticky and never unlatched here.
pub open spec fn spec_aggro_updated(world: WorldSnapshot, me: SelfData, agent: Agent) -> Target {
    let t = agent.target->Some_0;
    Target {
        aggro_on: t.aggro_on || spec_in_aggro_range(agent.psyche, spec_combat_d2(world, me, agent)),
        ..t
    }
}

/// Per-tick combat decision. Never consumes the tick (the hostile subtree
/// wrapper does); the clauses below pin, per branch, the held target, the
/// scratch timer that gates the once-per-episode distress call, the
/// emitted events, and the movement intent, and state the retarget
/// cooldown and aggro stickiness.
pub fn do_combat(
    agent: &mut Agent,
    me: &SelfData,
    world: &WorldSnapshot,
    ctrl: &mut Controller,
    out: &mut Outbox,
) -> (r: HandledState)
    requires
        crate::world::world_wf(*world),
        crate::agent::self_wf(*me, world.time),
        crate::agent::agent_wf(*old(agent), world.time),
    ensures
        r == HandledState::Continue,
        agent_frame(*old(agent), *final(agent)),
        final(agent).inbox == old(agent).inbox,
        final(agent).timer == old(agent).timer,
        final(agent).behavior == old(agent).behavior,
        final(agent).sounds_heard == old(agent).sounds_heard,
        crate::agent::agent_wf(*final(agent), world.time),
        ({
            let br = spec_combat_branch(*world, *me, *old(agent));
            let tu = spec_aggro_updated(*world, *me, *old(agent));
            let t = old(agent).target->Some_0;
            let in_aggro = spec_in_aggro_range(
                old(agent).psyche,
                spec_combat_d2(*world, *me, *old(agent)),
            );
            &&& (match br {
                CombatBranch::Inactive => final(agent).target == old(agent).target,
                CombatBranch::Cry | CombatBranch::FleeMove => final(agent).target == Some(tu),
                CombatBranch::GiveUp
                    | CombatBranch::EnemyDead
                    | CombatBranch::Disengage => final(agent).target is None,
                CombatBranch::Engage => if in_aggro || world.time - t.selected_at
                    <= RETARGET_COOLDOWN_MS {
                    final(agent).target == Some(tu)
                } else {
                    // A retarget can never hand the held entity back with
                    // its latched aggro cleared: fresh choices lie inside
                    // the aggro radius, and retargeting fires only outside
                    // it, so aggro is sticky.
                    final(agent).target == Some(tu) || (final(agent).target matches Some(t2)
                        && t2.hostile && t2.selected_at == world.time && !t2.aggro_on
                        && t2.entity != t.entity && !spec_is_dead(*world, t2.entity)
                        && !spec_is_invulnerable(*world, t2.entity))
                },
            })
            &&& final(agent).action_timer == (match br {
                CombatBranch::Cry => FLEE_SPOKE_MARK_MS as TimeMs,
                CombatBranch::FleeMove => (old(agent).action_timer + world.dt) as TimeMs,
                CombatBranch::GiveUp => 0,
                _ => old(agent).action_timer,
            })
            &&& final(out).events@ == (match br {
                CombatBranch::Cry => old(out).events@.push(OutEvent::DistressCall),
                CombatBranch::EnemyDead => old(out).events@.push(
                    OutEvent::Chat { to: None, line: ChatLine::EnemyDefeated },
                ),
                _ => old(out).events@,
            })
            &&& final(ctrl).movement == (match br {
                CombatBranch::FleeMove => Some(
                    MovementIntent::Flee {
                        from: spec_lookup(*world, t.entity)->Some_0.pos->Some_0,
                    },
                ),
                CombatBranch::GiveUp | CombatBranch::EnemyDead | CombatBranch::Disengage => Some(
                    MovementIntent::Wander,
                ),
                CombatBranch::Engage => Some(
                    if tu.aggro_on {
                        MovementIntent::Attack { target: t.entity }
                    } else {
                        MovementIntent::Menace { target: t.entity }
                    },
                ),
                _ => old(ctrl).movement,
            })
            &&& final(agent).memory_out@ == ({
                let remembers = {
                    &&& br is Engage
                    &&& tu.aggro_on
                    &&& me.profile is Some
                    &&& spec_lookup(*world, t.entity) matches Some(e) && e.name is Some
                };
                if remembers {
                    old(agent).memory_out@.push(
                        crate::memory::MemoryEvent::Add(
                            crate::memory::Memory {
                                item: crate::memory::MemoryItem::CharacterFight {
                                    name: spec_lookup(*world, t.entity)->Some_0.name->Some_0,
                                },
                                time_to_forget: (world.time
                                    + crate::consts::FIGHT_MEMORY_MS) as u64,
                            },
                        ),
                    )
                } else {
                    old(agent).memory_out@
                }
            })
        }),
        final(ctrl).actions@ == old(ctrl).actions@,
        final(ctrl).events@ == old(ctrl).events@,
        final(ctrl).look_at == old(ctrl).look_at,
{
    let cur: Option<Target> = agent.target;
    if let Some(t) = cur {
        proof {
            crate::world::lemma_lookup_wf(*world, t.entity);
        }
        if let Some(e) = world.lookup(t.entity) {
            if let Some(tgt_pos) = e.pos {
                let d2: i64 = dist_sqrd(&me.pos, &tgt_pos);
                let origin_d2: i64 = match agent.patrol_origin {
                    Some(p) => dist_sqrd(&p, &me.pos),
                    None => 1,
                };
                let own_hf: u32 = match me.health {
                    Some(h) => frac_permille(&h),
                    None => 1000,
                };
                let tgt_hf: u32 = match e.health {
                    Some(h) => frac_permille(&h),
                    None => 1000,
                };
                let in_aggro: bool = match agent.psyche.aggro_dist {
                    Some(ad) => {
                        assert(0 <= ad * ad <= 10_000_000_000) by (nonlinear_arith)
                            requires
                                1 <= ad <= 100_000,
                        ;
                        d2 < ad * ad
                    },
                    None => true,
                };
                let tu: Target = Target {
                    entity: t.entity,
                    hostile: t.hostile,
                    selected_at: t.selected_at,
                    aggro_on: t.aggro_on || in_aggro,
                };
                agent.target = Some(tu);
                if crate::agent::below_flee_health(me, &agent.psyche) {
                    if agent.action_timer == 0 {
                        out.emit(OutEvent::DistressCall);
                        agent.action_timer = FLEE_SPOKE_MARK_MS;
                    } else if d2 < MAX_FLEE_DIST * MAX_FLEE_DIST && agent.action_timer
                        < FLEE_DURATION_MS {
                        ctrl.set_movement(MovementIntent::Flee { from: tgt_pos });
                        agent.action_timer = agent.action_timer + world.dt;
                    } else {
                        agent.action_timer = 0;
                        agent.target = None;
                        ctrl.set_movement(MovementIntent::Wander);
                    }
                } else {
                    let dead: bool = match e.health {
                        Some(h) => h.current == 0,
                        None => false,
                    };
                    if dead {
                        out.say(ChatLine::EnemyDefeated);
                        agent.target = None;
                        ctrl.set_movement(MovementIntent::Wander);
                    } else if e.invulnerable || stop_pursuing(
                        d2,
                        origin_d2,
                        own_hf,
                        tgt_hf,
                        world.time - t.selected_at,
                        &agent.psyche,
                    ) {
                        agent.target = None;
                        ctrl.set_movement(MovementIntent::Wander);
                    } else {
                        let retarget: bool = !in_aggro && world.time - t.selected_at
                            > RETARGET_COOLDOWN_MS;
                        if retarget {
                            crate::target::choose_target(agent, me, world);
                            proof {
                                if agent.target != Some(tu) {
                                    let t2 = agent.target->Some_0;
                                    if t2.entity == t.entity {
                                        crate::target::lemma_fresh_choice_in_range(
                                            *world,
                                            *me,
                                            agent.psyche,
                                            t2,
                                            world.time,
                                        );
                                    }
                                }
                            }
                        }
                        if tu.aggro_on {
                            if me.profile.is_some() {
                                if let Some(n) = e.name {
                                    agent.add_fight_to_memory(n, world.time);
                                }
                            }
                            ctrl.set_movement(MovementIntent::Attack { target: t.entity });
                        } else {
                            ctrl.set_movement(MovementIntent::Menace { target: t.entity });
                        }
                    }
                }
            }
        }
    }
    HandledState::Continue
}

/// The distress call fires only at the opening of a flee episode: the
/// crying arm is taken exactly when health is below the flee threshold
/// and the scratch timer is zero. Since crying leaves the timer
/// non-zero, and the engine zeroes it again only when giving the episode
/// up (clearing the target with it), a second call needs the episode to
/// end or health to recover first.
pub proof fn lemma_distress_gate(world: WorldSnapshot, me: SelfData, agent: Agent)
    ensures
        spec_combat_branch(world, me, agent) is Cry <==> spec_combat_active(world, agent)
            && spec_below_flee_health(me, agent.psyche) && agent.action_timer == 0,
{
}

/// With a non-zero scratch timer the combat engine never cries out.
pub proof fn lemma_no_distress_while_marked(world: WorldSnapshot, me: SelfData, agent: Agent)
    requires
        agent.action_timer != 0,
    ensures
        !(spec_combat_branch(world, me, agent) is Cry),
{
}

/// Whether self-healing fires: hurt below the healing threshold and
/// holding a healing item.
pub open spec fn spec_heals(me: SelfData) -> bool {
    &&& me.health matches Some(h) && spec_frac_permille(h) < HEALING_ITEM_THRESHOLD_PERMILLE
    &&& me.has_healing_item
}

/// Use a healing item when hurt, marking the scratch timer; consumes the
/// tick when it fires.
pub fn heal_self_if_hurt(agent: &mut Agent, me: &SelfData, world: &WorldSnapshot, ctrl: &mut Controller) -> (r:
    HandledState)
    requires
        crate::agent::self_wf(*me, world.time),
        crate::agent::agent_wf(*old(agent), world.time),
    ensures
        r == if spec_heals(*me) {
            HandledState::Handled
        } else {
            HandledState::Continue
        },
        final(agent).action_timer == if spec_heals(*me) {
            HEAL_MARK_MS as TimeMs
        } else {
            old(agent).action_timer
        },
        final(ctrl).events@ == if spec_heals(*me) {
            old(ctrl).events@.push(ControlEvent::UseHealingItem)
        } else {
            old(ctrl).events@
        },
        final(ctrl).actions@ == old(ctrl).actions@,
        final(ctrl).movement == old(ctrl).movement,
        final(ctrl).look_at == old(ctrl).look_at,
        agent_frame(*old(agent), *final(agent)),
        final(agent).target == old(agent).target,
        final(agent).inbox == old(agent).inbox,
        final(agent).timer == old(agent).timer,
        final(agent).behavior == old(agent).behavior,
        final(agent).sounds_heard == old(agent).sounds_heard,
        final(agent).memory_out == old(agent).memory_out,
        crate::agent::agent_wf(*final(agent), world.time),
{
    let hurt: bool = match me.health {
        Some(h) => frac_permille(&h) < HEALING_ITEM_THRESHOLD_PERMILLE,
        None => false,
    };
    if hurt && me.has_healing_item {
        ctrl.push_event(ControlEvent::UseHealingItem);
        agent.action_timer = HEAL_MARK_MS;
        HandledState::Handled
    } else {
        HandledState::Continue
    }
}

/// React to a hurt event at the front of the inbox: consume it and, at
/// random, utter in pain. Events of other kinds stay for their own
/// handlers; the tick is never consumed.
pub fn hurt_utterance(
    agent: &mut Agent,
    world: &WorldSnapshot,
    ctrl: &mut Controller,
    rng: &mut TickRng,
) -> (r: HandledState)
    requires
        crate::agent::agent_wf(*old(agent), world.time),
    ensures
        r == HandledState::Continue,
        ({
            let front_hurt = old(agent).inbox@.len() > 0 && old(agent).inbox@[0] is Hurt;
            &&& final(agent).inbox@ == if front_hurt {
                old(agent).inbox@.remove(0)
            } else {
                old(agent).inbox@
            }
            &&& final(rng).state == if front_hurt {
                spec_lcg_next(old(rng).state)
            } else {
                old(rng).state
            }
            &&& final(ctrl).events@ == if front_hurt && spec_draw_permille(old(rng).state)
                < HURT_UTTER_PERMILLE {
                old(ctrl).events@.push(ControlEvent::Utterance(UtteranceKind::Hurt))
            } else {
                old(ctrl).events@
            }
        }),
        final(ctrl).actions@ == old(ctrl).actions@,
        final(ctrl).movement == old(ctrl).movement,
        final(ctrl).look_at == old(ctrl).look_at,
        agent_frame(*old(agent), *final(agent)),
        final(agent).target == old(agent).target,
        final(agent).timer == old(agent).timer,
        final(agent).action_timer == old(agent).action_timer,
        final(agent).behavior == old(agent).behavior,
        final(agent).sounds_heard == old(agent).sounds_heard,
        final(agent).memory_out == old(agent).memory_out,
        crate::agent::agent_wf(*final(agent), world.time),
{
    if agent.inbox.len() > 0 {
        let front_hurt: bool = match &agent.inbox[0] {
            AgentEvent::Hurt => true,
            _ => false,
        };
        if front_hurt {
            agent.inbox.remove(0);
            if rng.chance_permille(HURT_UTTER_PERMILLE) {
                ctrl.push_utterance(UtteranceKind::Hurt);
            }
            proof {
                crate::events::lemma_inbox_tail_wf(old(agent).inbox@, agent.inbox@, world.time);
            }
        }
    }
    HandledState::Continue
}

} // verus!
