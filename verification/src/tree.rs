//! The behavior tree: fixed, ordered decision lists evaluated once per
//! agent per tick. Entries are tried in order; the first to report
//! `Handled` stops its list; non-handling entries may still mutate shared
//! state before falling through. The root list ends in the idle fallback,
//! so every tick is handled exactly once. The subtree composition is a
//! static, acyclic call graph, so one run of the root tree always
//! terminates.

use vstd::prelude::*;
use crate::agent::{agent_frame, agent_wf, self_wf, Agent, SelfData, Target};
use crate::combat::{
    do_combat, heal_self_if_hurt, hurt_utterance, spec_aggro_updated, spec_combat_branch,
    spec_heals, CombatBranch,
};
use crate::consts::{
    DANGEROUS_FALL_SPEED, DEFAULT_INTERACTION_MS, HEAL_MARK_MS, HURT_UTTER_PERMILLE,
    FLEE_SPOKE_MARK_MS, INTERACTION_WAIT_MARK_MS, MAX_FOLLOW_DIST, NPC_PICKUP_RANGE,
    PICKUP_STOP_RANGE, RETARGET_COOLDOWN_MS,
};
use crate::control::{
    spec_count_distress, ChatLine, ControlEvent, Controller, HandledState, MovementIntent,
    OutEvent, Outbox, UtteranceKind,
};
use crate::dialogue::handle_inbox_talk;
use crate::events::AgentEvent;
use crate::idle::{handle_timer, process_inbox_sound_and_hurt};
use crate::pet::{
    attack_if_owner_hurt, follow_if_far_away, set_owner_if_no_target, spec_owner_attacker,
    spec_owner_far, spec_owner_hurt,
};
use crate::rng::{spec_draw_permille, spec_lcg_next, TickRng};
use crate::target::{
    do_pickup_loot, spec_attack_utters, spec_target_after_attack, spec_target_is_loot,
    target_if_attacked, untarget, untarget_if_dead,
};
use crate::trading::{
    handle_inbox_finished_trade, handle_inbox_trade_accepted, handle_inbox_trade_invite,
    handle_inbox_update_pending_trade,
};
use crate::world::{
    spec_dist_sqrd, spec_is_dead, spec_lookup, world_wf, Alignment, BodyKind, EntityId, TimeMs,
    WorldSnapshot, TIME_LIMIT_MS,
};

verus! {

broadcast use crate::control::lemma_count_distress_push, crate::control::lemma_contains_push;

/// A held hostile target refers to an entity the snapshot does not show
/// dead. After any tick this holds of the agent (barring the two survival
/// reflexes, which consume the tick before target upkeep runs).
pub open spec fn spec_target_live(world: WorldSnapshot, t: Option<Target>) -> bool {
    match t {
        Some(tt) => tt.hostile ==> !spec_is_dead(world, tt.entity),
        None => true,
    }
}

/// The scratch timer advanced by one tick delta, saturating at the clock
/// limit.
pub open spec fn spec_bump_timer(t: TimeMs, dt: TimeMs) -> TimeMs {
    if t + dt <= TIME_LIMIT_MS {
        (t + dt) as TimeMs
    } else {
        TIME_LIMIT_MS
    }
}

/// First entry of the interaction list: advance the scratch timer by the
/// tick delta. Never consumes the tick.
pub fn increment_timer_deltatime(agent: &mut Agent, world: &WorldSnapshot) -> (r: HandledState)
    requires
        agent_wf(*old(agent), world.time),
    ensures
        r == HandledState::Continue,
        agent_wf(*final(agent), world.time),
        agent_frame(*old(agent), *final(agent)),
        final(agent).action_timer == spec_bump_timer(old(agent).action_timer, world.dt),
        final(agent).target == old(agent).target,
        final(agent).inbox == old(agent).inbox,
        final(agent).timer == old(agent).timer,
        final(agent).behavior == old(agent).behavior,
        final(agent).sounds_heard == old(agent).sounds_heard,
        final(agent).memory_out == old(agent).memory_out,
{
    if world.dt <= TIME_LIMIT_MS - agent.action_timer {
        agent.action_timer = agent.action_timer + world.dt;
    } else {
        agent.action_timer = TIME_LIMIT_MS;
    }
    HandledState::Continue
}

/// The movement the dangerous-fall reflex takes, if any: fly if able,
/// glide if equipped, else hope.
pub open spec fn spec_fall_reflex(me: SelfData) -> Option<MovementIntent> {
    if me.vel.z < -DANGEROUS_FALL_SPEED {
        if me.can_fly {
            Some(MovementIntent::FlyUpward)
        } else if me.glider_equipped {
            Some(MovementIntent::GlideFall)
        } else {
            None
        }
    } else {
        None
    }
}

/// If falling dangerously fast, recover: fly upward or deploy the
/// glider, consuming the tick.
pub fn react_on_dangerous_fall(me: &SelfData, ctrl: &mut Controller) -> (r: HandledState)
    ensures
        r == if spec_fall_reflex(*me) is Some {
            HandledState::Handled
        } else {
            HandledState::Continue
        },
        final(ctrl).movement == (match spec_fall_reflex(*me) {
            Some(m) => Some(m),
            None => old(ctrl).movement,
        }),
        final(ctrl).actions@ == old(ctrl).actions@,
        final(ctrl).events@ == old(ctrl).events@,
        final(ctrl).look_at == old(ctrl).look_at,
{
    if me.vel.z < -DANGEROUS_FALL_SPEED {
        if me.can_fly {
            ctrl.set_movement(MovementIntent::FlyUpward);
            return HandledState::Handled;
        }
        if me.glider_equipped {
            ctrl.set_movement(MovementIntent::GlideFall);
            return HandledState::Handled;
        }
    }
    HandledState::Continue
}

/// Whether the on-fire reflex can fire at all: burning, humanoid, and on
/// the ground.
pub open spec fn spec_fire_eligible(me: SelfData) -> bool {
    &&& me.on_fire
    &&& me.body == Some(BodyKind::Humanoid)
    &&& me.on_ground
}

/// The per-tick chance of rolling while on fire, in thousandths: scales
/// with the tick delta.
pub open spec fn spec_roll_permille(dt: TimeMs) -> int {
    if 2 * dt < 1000 {
        2 * dt
    } else {
        1000
    }
}

/// If on fire and able, stop, drop and roll: with a delta-scaled chance a
/// burning, grounded humanoid rolls, consuming the tick.
pub fn react_if_on_fire(
    me: &SelfData,
    world: &WorldSnapshot,
    ctrl: &mut Controller,
    rng: &mut TickRng,
) -> (r: HandledState)
    requires
        world_wf(*world),
    ensures
        final(rng).state == if spec_fire_eligible(*me) {
            spec_lcg_next(old(rng).state)
        } else {
            old(rng).state
        },
        r == if spec_fire_eligible(*me) && spec_draw_permille(old(rng).state) < spec_roll_permille(
            world.dt,
        ) {
            HandledState::Handled
        } else {
            HandledState::Continue
        },
        final(ctrl).movement == if r is Handled {
            Some(MovementIntent::RollForward)
        } else {
            old(ctrl).movement
        },
        final(ctrl).actions@ == old(ctrl).actions@,
        final(ctrl).events@ == old(ctrl).events@,
        final(ctrl).look_at == old(ctrl).look_at,
{
    let humanoid: bool = match me.body {
        Some(BodyKind::Humanoid) => true,
        _ => false,
    };
    if me.on_fire && humanoid && me.on_ground {
        let twice: u64 = 2 * world.dt;
        let p: u32 = if twice < 1000 {
            twice as u32
        } else {
            1000
        };
        if rng.chance_permille(p) {
            ctrl.set_movement(MovementIntent::RollForward);
            return HandledState::Handled;
        }
    }
    HandledState::Continue
}

/// Whether the front of the inbox is an interaction event: one of the
/// kinds the interaction list handles.
pub open spec fn spec_front_interactive(inbox: Seq<AgentEvent>) -> bool {
    &&& inbox.len() > 0
    &&& (inbox[0] is Talk || inbox[0] is TradeInvite || inbox[0] is TradeAccepted || inbox[0]
        is FinishedTrade || inbox[0] is TradeUpdate)
}

/// The interaction list: timer tick, then talk, then the four trade
/// handlers; the first whose event type waits at the front of the inbox
/// resolves it and consumes the tick. At most one interaction event is
/// fully resolved per tick; events of other kinds stay for their own
/// handlers.
pub fn interaction_tick(
    agent: &mut Agent,
    me: &SelfData,
    world: &WorldSnapshot,
    ctrl: &mut Controller,
    out: &mut Outbox,
    rng: &mut TickRng,
) -> (r: HandledState)
    requires
        world_wf(*world),
        self_wf(*me, world.time),
        agent_wf(*old(agent), world.time),
    ensures
        agent_wf(*final(agent), world.time),
        agent_frame(*old(agent), *final(agent)),
        final(agent).timer == old(agent).timer,
        final(agent).sounds_heard == old(agent).sounds_heard,
        final(agent).action_timer == spec_bump_timer(old(agent).action_timer, world.dt),
        r == if spec_front_interactive(old(agent).inbox@) {
            HandledState::Handled
        } else {
            HandledState::Continue
        },
        final(agent).inbox@ == if spec_front_interactive(old(agent).inbox@) {
            old(agent).inbox@.remove(0)
        } else {
            old(agent).inbox@
        },
        spec_target_live(*world, old(agent).target) ==> spec_target_live(
            *world,
            final(agent).target,
        ),
        spec_count_distress(final(out).events@) == spec_count_distress(old(out).events@),
        forall|ev: crate::control::ControlEvent|
            old(ctrl).events@.contains(ev) ==> #[trigger] final(ctrl).events@.contains(ev),
{
    increment_timer_deltatime(agent, world);
    if let HandledState::Handled = handle_inbox_talk(agent, me, world, ctrl, out, rng) {
        return HandledState::Handled;
    }
    if let HandledState::Handled = handle_inbox_trade_invite(agent, world, ctrl, out) {
        return HandledState::Handled;
    }
    if let HandledState::Handled = handle_inbox_trade_accepted(agent, world) {
        return HandledState::Handled;
    }
    if let HandledState::Handled = handle_inbox_finished_trade(agent, world, out) {
        return HandledState::Handled;
    }
    if let HandledState::Handled = handle_inbox_update_pending_trade(agent, world, out) {
        return HandledState::Handled;
    }
    HandledState::Continue
}

/// Run the interaction list for an agent allowed to speak; once an
/// interaction is handled, start the interaction timer. Never consumes
/// the tick.
pub fn process_inbox_interaction(
    agent: &mut Agent,
    me: &SelfData,
    world: &WorldSnapshot,
    ctrl: &mut Controller,
    out: &mut Outbox,
    rng: &mut TickRng,
) -> (r: HandledState)
    requires
        world_wf(*world),
        self_wf(*me, world.time),
        agent_wf(*old(agent), world.time),
    ensures
        r == HandledState::Continue,
        agent_wf(*final(agent), world.time),
        agent_frame(*old(agent), *final(agent)),
        final(agent).sounds_heard == old(agent).sounds_heard,
        ({
            let speaks = old(agent).behavior.can_speak;
            let handled = speaks && spec_front_interactive(old(agent).inbox@);
            &&& final(agent).timer.started_at == if handled {
                match old(agent).timer.started_at {
                    Some(t) => Some(t),
                    None => Some(world.time),
                }
            } else {
                old(agent).timer.started_at
            }
            &&& final(agent).inbox@ == if handled {
                old(agent).inbox@.remove(0)
            } else {
                old(agent).inbox@
            }
            &&& final(agent).action_timer == if speaks {
                spec_bump_timer(old(agent).action_timer, world.dt)
            } else {
                old(agent).action_timer
            }
        }),
        spec_target_live(*world, old(agent).target) ==> spec_target_live(
            *world,
            final(agent).target,
        ),
        spec_count_distress(final(out).events@) == spec_count_distress(old(out).events@),
        forall|ev: crate::control::ControlEvent|
            old(ctrl).events@.contains(ev) ==> #[trigger] final(ctrl).events@.contains(ev),
{
    if agent.allowed_to_speak() {
        if let HandledState::Handled = interaction_tick(agent, me, world, ctrl, out, rng) {
            agent.timer.start(world.time);
        }
    }
    HandledState::Continue
}

/// The observable content of one idle-list pass, over the entering agent
/// state `a0`, the leaving state `a1`, the control events at the end of
/// the pass and the random state at its start: a front sound or hurt
/// perception is consumed (a sound joining the heard list while the
/// interaction timer runs, a hurt event drawing its chance of a pained
/// utterance); a speaking agent then consumes a fronting interaction
/// event and starts the interaction timer; and the scratch timer carries
/// the waiting-interaction mark and the tick-delta advance.
pub open spec fn spec_idle_effects(
    world: WorldSnapshot,
    a0: Agent,
    a1: Agent,
    cev1: Seq<ControlEvent>,
    rng0: u64,
) -> bool {
    let has = a0.inbox@.len() > 0;
    let front_sound = has && a0.inbox@[0] is AmbientSound;
    let front_hurt = has && a0.inbox@[0] is Hurt;
    let rest = if front_sound || front_hurt {
        a0.inbox@.remove(0)
    } else {
        a0.inbox@
    };
    let consumed_interaction = a0.behavior.can_speak && spec_front_interactive(rest);
    &&& a1.inbox@ == if consumed_interaction {
        rest.remove(0)
    } else {
        rest
    }
    &&& a1.action_timer == ({
        let marked = if has && !front_sound && !front_hurt {
            INTERACTION_WAIT_MARK_MS as TimeMs
        } else {
            a0.action_timer
        };
        if a0.behavior.can_speak {
            spec_bump_timer(marked, world.dt)
        } else {
            marked
        }
    })
    &&& (a0.timer.started_at is None ==> a1.timer.started_at == if consumed_interaction {
        Some(world.time)
    } else {
        None::<TimeMs>
    })
    &&& ({
        &&& front_sound
        &&& a0.timer.started_at matches Some(ts) && world.time - ts <= DEFAULT_INTERACTION_MS
    } ==> a1.sounds_heard@ == a0.sounds_heard@.push(a0.inbox@[0]->AmbientSound_0))
    &&& (front_hurt && spec_draw_permille(spec_lcg_next(rng0)) < HURT_UTTER_PERMILLE
        ==> cev1.contains(ControlEvent::Utterance(UtteranceKind::Hurt)))
}

/// The idle list: passive owner focus, sound and hurt intake,
/// interaction dispatch and the interaction timeout. Its entries never
/// consume the tick themselves; the idle fallback wrapper does.
pub fn idle_tick(
    agent: &mut Agent,
    me: &SelfData,
    world: &WorldSnapshot,
    ctrl: &mut Controller,
    out: &mut Outbox,
    rng: &mut TickRng,
) -> (r: HandledState)
    requires
        world_wf(*world),
        self_wf(*me, world.time),
        agent_wf(*old(agent), world.time),
    ensures
        r == HandledState::Continue,
        agent_wf(*final(agent), world.time),
        agent_frame(*old(agent), *final(agent)),
        spec_target_live(*world, old(agent).target) ==> spec_target_live(
            *world,
            final(agent).target,
        ),
        spec_count_distress(final(out).events@) == spec_count_distress(old(out).events@),
        old(agent).action_timer != 0 ==> final(agent).action_timer != 0,
        spec_idle_effects(*world, *old(agent), *final(agent), final(ctrl).events@, old(rng).state),
{
    set_owner_if_no_target(agent, me, world, rng);
    process_inbox_sound_and_hurt(agent, world, ctrl, rng);
    process_inbox_interaction(agent, me, world, ctrl, out, rng);
    handle_timer(agent, me, world, ctrl, rng);
    HandledState::Continue
}

/// The observable content of one hostile-list pass: self-healing fires
/// first and consumes the tick; otherwise a front hurt perception is
/// consumed and the combat engine's arm decides target, scratch timer,
/// emitted events and movement, as `spec_combat_branch` names them.
pub open spec fn spec_hostile_effects(
    world: WorldSnapshot,
    me: SelfData,
    a0: Agent,
    a1: Agent,
    cev0: Seq<ControlEvent>,
    cev1: Seq<ControlEvent>,
    mov0: Option<MovementIntent>,
    mov1: Option<MovementIntent>,
    ev0: Seq<OutEvent>,
    ev1: Seq<OutEvent>,
    rng0: u64,
) -> bool {
    &&& (spec_heals(me) ==> {
        &&& a1.target == a0.target
        &&& a1.inbox == a0.inbox
        &&& a1.action_timer == HEAL_MARK_MS
        &&& cev1 == cev0.push(ControlEvent::UseHealingItem)
        &&& mov1 == mov0
        &&& ev1 == ev0
    })
    &&& (!spec_heals(me) ==> ({
        let br = spec_combat_branch(world, me, a0);
        let tu = spec_aggro_updated(world, me, a0);
        let t = a0.target->Some_0;
        &&& a1.inbox@ == if a0.inbox@.len() > 0 && a0.inbox@[0] is Hurt {
            a0.inbox@.remove(0)
        } else {
            a0.inbox@
        }
        &&& cev1 == if a0.inbox@.len() > 0 && a0.inbox@[0] is Hurt && spec_draw_permille(rng0)
            < HURT_UTTER_PERMILLE {
            cev0.push(ControlEvent::Utterance(UtteranceKind::Hurt))
        } else {
            cev0
        }
        &&& (br is Cry ==> a1.target == Some(tu) && a1.action_timer == FLEE_SPOKE_MARK_MS
            && ev1 == ev0.push(OutEvent::DistressCall) && mov1 == mov0)
        &&& (br is FleeMove ==> a1.target == Some(tu) && mov1 == Some(
            MovementIntent::Flee { from: spec_lookup(world, t.entity)->Some_0.pos->Some_0 },
        ) && ev1 == ev0)
        &&& (br is GiveUp ==> a1.target is None && a1.action_timer == 0 && mov1 == Some(
            MovementIntent::Wander,
        ) && ev1 == ev0)
        &&& (br is EnemyDead ==> a1.target is None && mov1 == Some(MovementIntent::Wander)
            && ev1 == ev0.push(OutEvent::Chat { to: None, line: ChatLine::EnemyDefeated }))
        &&& (br is Disengage ==> a1.target is None && mov1 == Some(MovementIntent::Wander)
            && ev1 == ev0)
        &&& (br is Engage ==> mov1 == Some(
            if tu.aggro_on {
                MovementIntent::Attack { target: t.entity }
            } else {
                MovementIntent::Menace { target: t.entity }
            },
        ) && ev1 == ev0)
        &&& (br is Inactive ==> a1.target == a0.target && mov1 == mov0 && ev1 == ev0)
    }))
}

/// The hostile list: self-heal, hurt reaction, combat decision. Consumes
/// the tick exactly when self-healing fires; the hostile dispatch wrapper
/// consumes it regardless.
pub fn hostile_tick(
    agent: &mut Agent,
    me: &SelfData,
    world: &WorldSnapshot,
    ctrl: &mut Controller,
    out: &mut Outbox,
    rng: &mut TickRng,
) -> (r: HandledState)
    requires
        world_wf(*world),
        self_wf(*me, world.time),
        agent_wf(*old(agent), world.time),
    ensures
        agent_wf(*final(agent), world.time),
        agent_frame(*old(agent), *final(agent)),
        r == if spec_heals(*me) {
            HandledState::Handled
        } else {
            HandledState::Continue
        },
        spec_target_live(*world, old(agent).target) ==> spec_target_live(
            *world,
            final(agent).target,
        ),
        spec_count_distress(final(out).events@) <= spec_count_distress(old(out).events@) + 1,
        spec_count_distress(final(out).events@) > spec_count_distress(old(out).events@) ==> old(
            agent,
        ).action_timer == 0 && final(agent).action_timer != 0,
        old(agent).action_timer != 0 && final(agent).action_timer == 0 ==> final(agent).target
            is None,
        (match old(agent).target {
            Some(t) => world.time - t.selected_at <= RETARGET_COOLDOWN_MS ==> (final(agent).target
                is None || (final(agent).target matches Some(t2) && t2.entity == t.entity
                && t2.selected_at == t.selected_at)),
            None => true,
        }),
        spec_hostile_effects(
            *world,
            *me,
            *old(agent),
            *final(agent),
            old(ctrl).events@,
            final(ctrl).events@,
            old(ctrl).movement,
            final(ctrl).movement,
            old(out).events@,
            final(out).events@,
            old(rng).state,
        ),
{
    if let HandledState::Handled = heal_self_if_hurt(agent, me, world, ctrl) {
        return HandledState::Handled;
    }
    hurt_utterance(agent, world, ctrl, rng);
    do_combat(agent, me, world, ctrl, out);
    HandledState::Continue
}

/// The observable content of one pet-list pass: a distant owner is
/// chased, a hurt owner is defended by turning on the resolved attacker,
/// and otherwise the pass falls through to the idle list.
pub open spec fn spec_pet_effects(
    world: WorldSnapshot,
    me: SelfData,
    a0: Agent,
    a1: Agent,
    mov0: Option<MovementIntent>,
    mov1: Option<MovementIntent>,
    cev1: Seq<ControlEvent>,
    rng0: u64,
) -> bool {
    let far = spec_owner_far(world, me, a0.target);
    let hurt = spec_owner_hurt(world, a0.target, world.time);
    &&& (far ==> a1.target == a0.target && mov1 == Some(
        MovementIntent::ChaseTo {
            dest: spec_lookup(world, a0.target->Some_0.entity)->Some_0.pos->Some_0,
            min_dist: MAX_FOLLOW_DIST,
        },
    ))
    &&& (!far && hurt ==> {
        &&& a1.target == (match spec_owner_attacker(world, me, a0.target, world.time) {
            Some(atk) => Some(
                Target { entity: atk, hostile: true, selected_at: world.time, aggro_on: true },
            ),
            None => a0.target,
        })
        &&& mov1 == (match spec_owner_attacker(world, me, a0.target, world.time) {
            Some(atk) => Some(MovementIntent::Attack { target: atk }),
            None => mov0,
        })
    })
    &&& (!far && !hurt ==> spec_idle_effects(world, a0, a1, cev1, rng0))
}

/// The pet list: follow a distant owner, defend a hurt one, idle
/// fallback.
pub fn pet_tick(
    agent: &mut Agent,
    me: &SelfData,
    world: &WorldSnapshot,
    ctrl: &mut Controller,
    out: &mut Outbox,
    rng: &mut TickRng,
) -> (r: HandledState)
    requires
        world_wf(*world),
        self_wf(*me, world.time),
        agent_wf(*old(agent), world.time),
    ensures
        r == HandledState::Handled,
        agent_wf(*final(agent), world.time),
        agent_frame(*old(agent), *final(agent)),
        spec_target_live(*world, old(agent).target) ==> spec_target_live(
            *world,
            final(agent).target,
        ),
        spec_count_distress(final(out).events@) == spec_count_distress(old(out).events@),
        old(agent).action_timer != 0 ==> final(agent).action_timer != 0,
        spec_pet_effects(
            *world,
            *me,
            *old(agent),
            *final(agent),
            old(ctrl).movement,
            final(ctrl).movement,
            final(ctrl).events@,
            old(rng).state,
        ),
{
    if let HandledState::Handled = follow_if_far_away(agent, me, world, ctrl) {
        return HandledState::Handled;
    }
    if let HandledState::Handled = attack_if_owner_hurt(agent, me, world, ctrl) {
        return HandledState::Handled;
    }
    idle_tick(agent, me, world, ctrl, out, rng);
    HandledState::Handled
}

/// The held target is shown dead by the snapshot.
pub open spec fn spec_target_dead(world: WorldSnapshot, t: Option<Target>) -> bool {
    t matches Some(tt) && spec_is_dead(world, tt.entity)
}

/// The held target is a hostile focus.
pub open spec fn spec_target_hostile(t: Option<Target>) -> bool {
    t matches Some(tt) && tt.hostile
}

/// An owned agent focusing exactly its owner.
pub open spec fn spec_pet_bound(me: SelfData, t: Option<Target>) -> bool {
    t matches Some(tt) && me.alignment matches Some(Alignment::Owned(uid)) && tt.entity == uid
}

/// An owned agent focusing something other than its owner.
pub open spec fn spec_pet_mismatch(me: SelfData, t: Option<Target>) -> bool {
    t matches Some(tt) && me.alignment matches Some(Alignment::Owned(uid)) && tt.entity != uid
}

/// The observable content of one target-list pass, by the branch the
/// entering focus selects: a dead target is dropped; a hostile one runs
/// the hostile list; a pet runs the pet list toward its owner, or drops a
/// stray focus into the idle list; a dropped item is picked up or walked
/// to; anything else is forcibly untargeted and the idle list runs.
pub open spec fn spec_target_effects(
    world: WorldSnapshot,
    me: SelfData,
    a0: Agent,
    a1: Agent,
    cev0: Seq<ControlEvent>,
    cev1: Seq<ControlEvent>,
    mov0: Option<MovementIntent>,
    mov1: Option<MovementIntent>,
    ev0: Seq<OutEvent>,
    ev1: Seq<OutEvent>,
    rng0: u64,
) -> bool {
    let dead = spec_target_dead(world, a0.target);
    let hostile = !dead && spec_target_hostile(a0.target);
    let bound = !dead && !hostile && spec_pet_bound(me, a0.target);
    let mismatch = !dead && !hostile && spec_pet_mismatch(me, a0.target);
    let loot = !dead && !hostile && !bound && !mismatch && spec_target_is_loot(world, a0.target);
    &&& (dead ==> {
        &&& a1.target is None
        &&& a1.inbox == a0.inbox
        &&& a1.action_timer == a0.action_timer
        &&& a1.timer == a0.timer
        &&& a1.sounds_heard == a0.sounds_heard
        &&& cev1 == cev0
        &&& mov1 == mov0
        &&& ev1 == ev0
    })
    &&& (hostile ==> spec_hostile_effects(
        world,
        me,
        a0,
        a1,
        cev0,
        cev1,
        mov0,
        mov1,
        ev0,
        ev1,
        rng0,
    ))
    &&& (bound ==> spec_pet_effects(world, me, a0, a1, mov0, mov1, cev1, rng0))
    &&& (mismatch ==> spec_idle_effects(world, a0, a1, cev1, rng0))
    &&& (loot ==> ({
        let e = spec_lookup(world, a0.target->Some_0.entity)->Some_0;
        &&& a1.target == a0.target
        &&& a1.inbox == a0.inbox
        &&& a1.action_timer == a0.action_timer
        &&& a1.timer == a0.timer
        &&& a1.sounds_heard == a0.sounds_heard
        &&& cev1 == if e.pos matches Some(tp) && spec_dist_sqrd(me.pos, tp) < NPC_PICKUP_RANGE
            * NPC_PICKUP_RANGE {
            cev0.push(ControlEvent::PickupItem { from: a0.target->Some_0.entity })
        } else {
            cev0
        }
        &&& mov1 == if e.pos matches Some(tp) && spec_dist_sqrd(me.pos, tp) >= NPC_PICKUP_RANGE
            * NPC_PICKUP_RANGE {
            Some(MovementIntent::ChaseTo { dest: e.pos->Some_0, min_dist: PICKUP_STOP_RANGE })
        } else {
            mov0
        }
        &&& ev1 == ev0
    }))
    &&& (!dead && !hostile && !bound && !mismatch && !loot ==> spec_idle_effects(
        world,
        a0,
        a1,
        cev1,
        rng0,
    ))
}

/// The target list: drop dead targets, dispatch hostile and owned-pet
/// subtrees, pick up loot, force an untarget, fall back to idle. Always
/// handles the tick, and leaves no hostile focus on an entity the
/// snapshot shows dead.
pub fn target_tick(
    agent: &mut Agent,
    me: &SelfData,
    world: &WorldSnapshot,
    ctrl: &mut Controller,
    out: &mut Outbox,
    rng: &mut TickRng,
) -> (r: HandledState)
    requires
        world_wf(*world),
        self_wf(*me, world.time),
        agent_wf(*old(agent), world.time),
    ensures
        r == HandledState::Handled,
        agent_wf(*final(agent), world.time),
        agent_frame(*old(agent), *final(agent)),
        spec_target_live(*world, final(agent).target),
        spec_count_distress(final(out).events@) <= spec_count_distress(old(out).events@) + 1,
        spec_count_distress(final(out).events@) > spec_count_distress(old(out).events@) ==> old(
            agent,
        ).action_timer == 0 && final(agent).action_timer != 0,
        old(agent).action_timer != 0 && final(agent).action_timer == 0 ==> final(agent).target
            is None,
        spec_target_effects(
            *world,
            *me,
            *old(agent),
            *final(agent),
            old(ctrl).events@,
            final(ctrl).events@,
            old(ctrl).movement,
            final(ctrl).movement,
            old(out).events@,
            final(out).events@,
            old(rng).state,
        ),
        spec_target_dead(*world, old(agent).target) ==> final(agent).memory_out@ == ({
            let named = {
                &&& me.profile is Some
                &&& spec_lookup(*world, old(agent).target->Some_0.entity) matches Some(e)
                    && e.name is Some
            };
            if named {
                old(agent).memory_out@.push(
                    crate::memory::MemoryEvent::ForgetEnemy(
                        spec_lookup(*world, old(agent).target->Some_0.entity)->Some_0.name->Some_0,
                    ),
                )
            } else {
                old(agent).memory_out@
            }
        }),
{
    if let HandledState::Handled = untarget_if_dead(agent, me, world) {
        return HandledState::Handled;
    }
    let hostile: bool = match &agent.target {
        Some(t) => t.hostile,
        None => false,
    };
    if hostile {
        hostile_tick(agent, me, world, ctrl, out, rng);
        return HandledState::Handled;
    }
    let owner: Option<EntityId> = match me.alignment {
        Some(Alignment::Owned(uid)) => Some(uid),
        _ => None,
    };
    let focused: Option<EntityId> = match &agent.target {
        Some(t) => Some(t.entity),
        None => None,
    };
    if let (Some(te), Some(uid)) = (focused, owner) {
        if te == uid {
            pet_tick(agent, me, world, ctrl, out, rng);
        } else {
            agent.target = None;
            idle_tick(agent, me, world, ctrl, out, rng);
        }
        return HandledState::Handled;
    }
    if let HandledState::Handled = do_pickup_loot(agent, me, world, ctrl) {
        return HandledState::Handled;
    }
    untarget(agent, world);
    idle_tick(agent, me, world, ctrl, out, rng);
    HandledState::Handled
}

/// The observable content of one root-list pass: a survival reflex
/// consumes the tick with its recovery movement and touches nothing
/// else; otherwise threat detection reacts to recent damage (possibly
/// venting the first-encounter utterance and switching the focus), and
/// the pass dispatches to the target list when a focus is held, else to
/// the idle list.
pub open spec fn spec_root_effects(
    world: WorldSnapshot,
    me: SelfData,
    a0: Agent,
    a1: Agent,
    cev0: Seq<ControlEvent>,
    cev1: Seq<ControlEvent>,
    mov0: Option<MovementIntent>,
    mov1: Option<MovementIntent>,
    ev0: Seq<OutEvent>,
    ev1: Seq<OutEvent>,
    rng0: u64,
) -> bool {
    let fire_rolls = spec_fire_eligible(me) && spec_draw_permille(rng0) < spec_roll_permille(
        world.dt,
    );
    let rng_d = if spec_fire_eligible(me) {
        spec_lcg_next(rng0)
    } else {
        rng0
    };
    let t_att = spec_target_after_attack(world, me, a0.target, world.time);
    let cev_att = if spec_attack_utters(world, me, a0.target, world.time) {
        cev0.push(ControlEvent::Utterance(UtteranceKind::Angry))
    } else {
        cev0
    };
    &&& (spec_fall_reflex(me) matches Some(m) ==> mov1 == Some(m) && a1 == a0 && ev1 == ev0
        && cev1 == cev0)
    &&& (spec_fall_reflex(me) is None && fire_rolls ==> mov1 == Some(MovementIntent::RollForward)
        && a1 == a0 && ev1 == ev0 && cev1 == cev0)
    &&& (spec_fall_reflex(me) is None && !fire_rolls ==> {
        &&& (t_att is Some ==> spec_target_effects(
            world,
            me,
            Agent { target: t_att, ..a0 },
            a1,
            cev_att,
            cev1,
            mov0,
            mov1,
            ev0,
            ev1,
            rng_d,
        ))
        &&& (t_att is None ==> spec_idle_effects(world, a0, a1, cev1, rng_d))
    })
}

/// The root list: survival reflexes, threat detection, target-bearing
/// dispatch, idle fallback. Every tick is handled exactly once — never a
/// no-op tick — and, barring a survival reflex consuming the tick first,
/// a hostile target dead in the snapshot is not held at tick end. The
/// distress call obeys its episode gate: a tick emits at most one, only
/// from a zero scratch timer, leaving it non-zero; and the scratch timer
/// returns to zero only together with a cleared target.
pub fn root_tick(
    agent: &mut Agent,
    me: &SelfData,
    world: &WorldSnapshot,
    ctrl: &mut Controller,
    out: &mut Outbox,
    rng: &mut TickRng,
) -> (r: HandledState)
    requires
        world_wf(*world),
        self_wf(*me, world.time),
        agent_wf(*old(agent), world.time),
    ensures
        r == HandledState::Handled,
        agent_wf(*final(agent), world.time),
        agent_frame(*old(agent), *final(agent)),
        spec_fall_reflex(*me) is None && !spec_fire_eligible(*me) ==> spec_target_live(
            *world,
            final(agent).target,
        ),
        spec_count_distress(final(out).events@) <= spec_count_distress(old(out).events@) + 1,
        spec_count_distress(final(out).events@) > spec_count_distress(old(out).events@) ==> old(
            agent,
        ).action_timer == 0 && final(agent).action_timer != 0,
        old(agent).action_timer != 0 && final(agent).action_timer == 0 ==> final(agent).target
            is None,
        spec_root_effects(
            *world,
            *me,
            *old(agent),
            *final(agent),
            old(ctrl).events@,
            final(ctrl).events@,
            old(ctrl).movement,
            final(ctrl).movement,
            old(out).events@,
            final(out).events@,
            old(rng).state,
        ),
{
    if let HandledState::Handled = react_on_dangerous_fall(me, ctrl) {
        return HandledState::Handled;
    }
    if let HandledState::Handled = react_if_on_fire(me, world, ctrl, rng) {
        return HandledState::Handled;
    }
    target_if_attacked(agent, me, world, ctrl);
    if agent.target.is_some() {
        target_tick(agent, me, world, ctrl, out, rng);
        return HandledState::Handled;
    }
    idle_tick(agent, me, world, ctrl, out, rng);
    HandledState::Handled
}

/// A fixed composition of decision procedures; each variant names one of
/// the core's ordered lists.
#[derive(Clone, Copy, PartialEq, Eq, Structural, Debug)]
pub enum BehaviorTree {
    Root,
    Target,
    Pet,
    Interaction,
    Hostile,
    Idle,
}

impl BehaviorTree {
    /// The observable content of one root-list pass: a survival reflex
/// consumes the tick with its recovery movement and touches nothing
/// else; otherwise threat detection reacts to recent damage (possibly
/// venting the first-encounter utterance and switching the focus), and
/// the pass dispatches to the target list when a focus is held, else to
/// the idle list.
pub open spec fn spec_root_effects(
    world: WorldSnapshot,
    me: SelfData,
    a0: Agent,
    a1: Agent,
    cev0: Seq<ControlEvent>,
    cev1: Seq<ControlEvent>,
    mov0: Option<MovementIntent>,
    mov1: Option<MovementIntent>,
    ev0: Seq<OutEvent>,
    ev1: Seq<OutEvent>,
    rng0: u64,
) -> bool {
    let fire_rolls = spec_fire_eligible(me) && spec_draw_permille(rng0) < spec_roll_permille(
        world.dt,
    );
    let rng_d = if spec_fire_eligible(me) {
        spec_lcg_next(rng0)
    } else {
        rng0
    };
    let t_att = spec_target_after_attack(world, me, a0.target, world.time);
    let cev_att = if spec_attack_utters(world, me, a0.target, world.time) {
        cev0.push(ControlEvent::Utterance(UtteranceKind::Angry))
    } else {
        cev0
    };
    &&& (spec_fall_reflex(me) matches Some(m) ==> mov1 == Some(m) && a1 == a0 && ev1 == ev0
        && cev1 == cev0)
    &&& (spec_fall_reflex(me) is None && fire_rolls ==> mov1 == Some(MovementIntent::RollForward)
        && a1 == a0 && ev1 == ev0 && cev1 == cev0)
    &&& (spec_fall_reflex(me) is None && !fire_rolls ==> {
        &&& (t_att is Some ==> spec_target_effects(
            world,
            me,
            Agent { target: t_att, ..a0 },
            a1,
            cev_att,
            cev1,
            mov0,
            mov1,
            ev0,
            ev1,
            rng_d,
        ))
        &&& (t_att is None ==> spec_idle_effects(world, a0, a1, cev1, rng_d))
    })
}

/// The root list: survival reflexes, threat detection, target-bearing
    /// dispatch, idle fallback.
    pub fn root() -> (r: Self)
        ensures
            r == BehaviorTree::Root,
    {
        BehaviorTree::Root
    }

    /// The target list.
    pub fn target() -> (r: Self)
        ensures
            r == BehaviorTree::Target,
    {
        BehaviorTree::Target
    }

    /// The pet list.
    pub fn pet() -> (r: Self)
        ensures
            r == BehaviorTree::Pet,
    {
        BehaviorTree::Pet
    }

    /// The interaction list.
    pub fn interaction() -> (r: Self)
        ensures
            r == BehaviorTree::Interaction,
    {
        BehaviorTree::Interaction
    }

    /// The hostile list.
    pub fn hostile() -> (r: Self)
        ensures
            r == BehaviorTree::Hostile,
    {
        BehaviorTree::Hostile
    }

    /// The idle list.
    pub fn idle() -> (r: Self)
        ensures
            r == BehaviorTree::Idle,
    {
        BehaviorTree::Idle
    }

    /// Run this tree once for one agent's tick, against a read-only world
    /// snapshot, writing intents into the controller and world-visible
    /// events into the outbox, drawing from the tick-scoped random
    /// source. The root tree always reports the tick handled.
    pub fn run(
        &self,
        agent: &mut Agent,
        me: &SelfData,
        world: &WorldSnapshot,
        ctrl: &mut Controller,
        out: &mut Outbox,
        rng: &mut TickRng,
    ) -> (r: HandledState)
        requires
            world_wf(*world),
            self_wf(*me, world.time),
            agent_wf(*old(agent), world.time),
        ensures
            agent_wf(*final(agent), world.time),
            agent_frame(*old(agent), *final(agent)),
            *self is Root || *self is Target || *self is Pet ==> r == HandledState::Handled,
            *self is Root ==> (spec_fall_reflex(*me) is None && !spec_fire_eligible(*me)
                ==> spec_target_live(*world, final(agent).target)),
            *self is Root ==> spec_count_distress(final(out).events@) <= spec_count_distress(
                old(out).events@,
            ) + 1,
            *self is Root ==> (spec_count_distress(final(out).events@) > spec_count_distress(
                old(out).events@,
            ) ==> old(agent).action_timer == 0 && final(agent).action_timer != 0),
            *self is Root ==> (old(agent).action_timer != 0 && final(agent).action_timer == 0
                ==> final(agent).target is None),
            *self is Target ==> spec_target_live(*world, final(agent).target),
            *self is Idle ==> r == HandledState::Continue,
            *self is Interaction ==> r == (if spec_front_interactive(old(agent).inbox@) {
                HandledState::Handled
            } else {
                HandledState::Continue
            }),
            *self is Hostile ==> r == (if spec_heals(*me) {
                HandledState::Handled
            } else {
                HandledState::Continue
            }),
            *self is Hostile ==> (match old(agent).target {
                Some(t) => world.time - t.selected_at <= RETARGET_COOLDOWN_MS
                    ==> (final(agent).target is None || (final(agent).target matches Some(t2)
                    && t2.entity == t.entity && t2.selected_at == t.selected_at)),
                None => true,
            }),
            *self is Root ==> spec_root_effects(
                *world,
                *me,
                *old(agent),
                *final(agent),
                old(ctrl).events@,
                final(ctrl).events@,
                old(ctrl).movement,
                final(ctrl).movement,
                old(out).events@,
                final(out).events@,
                old(rng).state,
            ),
            *self is Target ==> spec_target_effects(
                *world,
                *me,
                *old(agent),
                *final(agent),
                old(ctrl).events@,
                final(ctrl).events@,
                old(ctrl).movement,
                final(ctrl).movement,
                old(out).events@,
                final(out).events@,
                old(rng).state,
            ),
            *self is Hostile ==> spec_hostile_effects(
                *world,
                *me,
                *old(agent),
                *final(agent),
                old(ctrl).events@,
                final(ctrl).events@,
                old(ctrl).movement,
                final(ctrl).movement,
                old(out).events@,
                final(out).events@,
                old(rng).state,
            ),
            *self is Pet ==> spec_pet_effects(
                *world,
                *me,
                *old(agent),
                *final(agent),
                old(ctrl).movement,
                final(ctrl).movement,
                final(ctrl).events@,
                old(rng).state,
            ),
            *self is Idle ==> spec_idle_effects(
                *world,
                *old(agent),
                *final(agent),
                final(ctrl).events@,
                old(rng).state,
            ),
    {
        match self {
            BehaviorTree::Root => root_tick(agent, me, world, ctrl, out, rng),
            BehaviorTree::Target => target_tick(agent, me, world, ctrl, out, rng),
            BehaviorTree::Pet => pet_tick(agent, me, world, ctrl, out, rng),
            BehaviorTree::Interaction => interaction_tick(agent, me, world, ctrl, out, rng),
            BehaviorTree::Hostile => hostile_tick(agent, me, world, ctrl, out, rng),
            BehaviorTree::Idle => idle_tick(agent, me, world, ctrl, out, rng),
        }
    }
}

} // verus!
