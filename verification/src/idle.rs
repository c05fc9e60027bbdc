//! Idle behaviors: sound and hurt intake from the inbox, reaction to
//! heard sounds, and the interaction timer with its timeout handling.

use vstd::prelude::*;
use crate::agent::{agent_frame, Agent, SelfData, Target};
use crate::consts::{
    AMBIENT_RETARGET_PERMILLE, DEFAULT_INTERACTION_MS, HURT_UTTER_PERMILLE,
    INTERACTION_WAIT_MARK_MS, STARTLE_VOLUME_PERMILLE, TRADE_INTERACTION_MS,
};
use crate::control::{
    ControlAction, ControlEvent, Controller, HandledState, MovementIntent, UtteranceKind,
};
use crate::events::{AgentEvent, Sound};
use crate::rng::{spec_draw_permille, spec_lcg_next, TickRng};
use crate::target::{choose_target, spec_choose_post};
use crate::world::{spec_lookup, TimeMs, WorldSnapshot};

verus! {

/// Take sound and hurt perceptions off the front of the inbox: a sound
/// joins the heard list, a hurt event may draw a pained utterance; any
/// other waiting event marks the scratch timer so the idle tree knows an
/// interaction is pending. Never consumes the tick.
pub fn process_inbox_sound_and_hurt(
    agent: &mut Agent,
    world: &WorldSnapshot,
    ctrl: &mut Controller,
    rng: &mut TickRng,
) -> (r: HandledState)
    requires
        crate::agent::agent_wf(*old(agent), world.time),
    ensures
        r == HandledState::Continue,
        crate::agent::agent_wf(*final(agent), world.time),
        agent_frame(*old(agent), *final(agent)),
        final(agent).target == old(agent).target,
        final(agent).timer == old(agent).timer,
        final(agent).behavior == old(agent).behavior,
        final(agent).memory_out == old(agent).memory_out,
        ({
            let has = old(agent).inbox@.len() > 0;
            let front_sound = has && old(agent).inbox@[0] is AmbientSound;
            let front_hurt = has && old(agent).inbox@[0] is Hurt;
            &&& final(agent).inbox@ == if front_sound || front_hurt {
                old(agent).inbox@.remove(0)
            } else {
                old(agent).inbox@
            }
            &&& final(agent).sounds_heard@ == if front_sound {
                old(agent).sounds_heard@.push(old(agent).inbox@[0]->AmbientSound_0)
            } else {
                old(agent).sounds_heard@
            }
            &&& final(agent).action_timer == if has && !front_sound && !front_hurt {
                INTERACTION_WAIT_MARK_MS as TimeMs
            } else {
                old(agent).action_timer
            }
            &&& final(rng).state == if front_hurt {
                spec_lcg_next(old(rng).state)
            } else {
                old(rng).state
            }
            &&& final(ctrl).events@ == if front_hurt && spec_draw_permille(old(rng).state)
                < HURT_UTTER_PERMILLE {
                old(ctrl).events@.push(ControlEvent::Utterance(UtteranceKind::Hurt))
            } else {
                old(ctrl).events@
            }
        }),
        final(ctrl).actions@ == old(ctrl).actions@,
        final(ctrl).movement == old(ctrl).movement,
        final(ctrl).look_at == old(ctrl).look_at,
{
    if agent.inbox.len() == 0 {
        return HandledState::Continue;
    }
    proof {
        assert(crate::events::event_wf(old(agent).inbox@[0], world.time));
    }
    let front_kind: u8 = match &agent.inbox[0] {
        AgentEvent::AmbientSound(_) => 0,
        AgentEvent::Hurt => 1,
        _ => 2,
    };
    if front_kind == 0 {
        let ev: AgentEvent = agent.inbox.remove(0);
        proof {
            crate::events::lemma_inbox_tail_wf(old(agent).inbox@, agent.inbox@, world.time);
        }
        if let AgentEvent::AmbientSound(s) = ev {
            agent.sounds_heard.push(s);
        }
    } else if front_kind == 1 {
        agent.inbox.remove(0);
        proof {
            crate::events::lemma_inbox_tail_wf(old(agent).inbox@, agent.inbox@, world.time);
        }
        if rng.chance_permille(HURT_UTTER_PERMILLE) {
            ctrl.push_utterance(UtteranceKind::Hurt);
        }
    } else {
        agent.action_timer = INTERACTION_WAIT_MARK_MS;
    }
    HandledState::Continue
}

/// React to the most recently heard sound: a loud one startles the agent
/// into running from it, a quiet one only draws a glance; either way the
/// heard list is drained.
pub fn handle_sounds_heard(
    agent: &mut Agent,
    world: &WorldSnapshot,
    ctrl: &mut Controller,
)
    requires
        crate::agent::agent_wf(*old(agent), world.time),
    ensures
        crate::agent::agent_wf(*final(agent), world.time),
        agent_frame(*old(agent), *final(agent)),
        final(agent).target == old(agent).target,
        final(agent).inbox == old(agent).inbox,
        final(agent).timer == old(agent).timer,
        final(agent).action_timer == old(agent).action_timer,
        final(agent).behavior == old(agent).behavior,
        final(agent).memory_out == old(agent).memory_out,
        final(agent).sounds_heard@.len() == 0,
        ({
            let had = old(agent).sounds_heard@.len() > 0;
            let last = old(agent).sounds_heard@.last();
            &&& final(ctrl).movement == if had && last.vol_permille >= STARTLE_VOLUME_PERMILLE {
                Some(MovementIntent::Flee { from: last.pos })
            } else {
                old(ctrl).movement
            }
            &&& final(ctrl).look_at == if had && last.vol_permille < STARTLE_VOLUME_PERMILLE {
                Some(last.pos)
            } else {
                old(ctrl).look_at
            }
        }),
        final(ctrl).actions@ == old(ctrl).actions@,
        final(ctrl).events@ == old(ctrl).events@,
{
    let n: usize = agent.sounds_heard.len();
    if n > 0 {
        let last: Sound = agent.sounds_heard[n - 1];
        if last.vol_permille >= STARTLE_VOLUME_PERMILLE {
            ctrl.set_movement(MovementIntent::Flee { from: last.pos });
        } else {
            ctrl.set_look_at(last.pos);
        }
    }
    agent.sounds_heard.clear();
}

/// Poll the interaction timer. While it runs, hold a conversational
/// stance toward the interlocutor. When it is out (or was never started),
/// drop the stance, clear the focus on the tick the timeout elapses, and
/// then either re-select a target (low probability) or process queued
/// ambient sounds.
pub fn handle_timer(
    agent: &mut Agent,
    me: &SelfData,
    world: &WorldSnapshot,
    ctrl: &mut Controller,
    rng: &mut TickRng,
) -> (r: HandledState)
    requires
        crate::world::world_wf(*world),
        crate::agent::self_wf(*me, world.time),
        crate::agent::agent_wf(*old(agent), world.time),
    ensures
        r == HandledState::Continue,
        crate::agent::agent_wf(*final(agent), world.time),
        agent_frame(*old(agent), *final(agent)),
        final(agent).inbox == old(agent).inbox,
        final(agent).action_timer == old(agent).action_timer,
        final(agent).behavior == old(agent).behavior,
        final(agent).memory_out == old(agent).memory_out,
        final(ctrl).events@ == old(ctrl).events@,
        ({
            let timeout = spec_timeout(*old(agent));
            let running = old(agent).timer.started_at matches Some(t) && world.time - t <= timeout;
            let just = old(agent).timer.started_at matches Some(t) && world.time - t > timeout;
            let mid_t = if just {
                None::<Target>
            } else {
                old(agent).target
            };
            let hit = spec_draw_permille(old(rng).state) < AMBIENT_RETARGET_PERMILLE;
            &&& (running ==> {
                &&& final(agent).timer == old(agent).timer
                &&& final(agent).target == old(agent).target
                &&& final(agent).sounds_heard == old(agent).sounds_heard
                &&& final(rng).state == old(rng).state
                &&& final(ctrl).actions@ == if old(agent).target is Some {
                    old(ctrl).actions@.push(ControlAction::Talk)
                } else {
                    old(ctrl).actions@
                }
                &&& final(ctrl).look_at == spec_stance_look(*world, old(agent).target, old(
                    ctrl,
                ).look_at)
                &&& final(ctrl).movement == old(ctrl).movement
            })
            &&& (!running ==> {
                &&& final(agent).timer.started_at is None
                &&& final(rng).state == spec_lcg_next(old(rng).state)
                &&& (hit ==> {
                    &&& spec_choose_post(
                        *world,
                        *me,
                        old(agent).psyche,
                        mid_t,
                        final(agent).target,
                        world.time,
                    )
                    &&& final(agent).sounds_heard == old(agent).sounds_heard
                    &&& final(ctrl).movement == old(ctrl).movement
                    &&& final(ctrl).look_at == old(ctrl).look_at
                })
                &&& (!hit ==> {
                    &&& final(agent).target == mid_t
                    &&& final(agent).sounds_heard@.len() == 0
                })
                &&& final(ctrl).actions@ == if just {
                    old(ctrl).actions@.push(ControlAction::Stand)
                } else {
                    old(ctrl).actions@
                }
            })
        }),
{
    let timeout: TimeMs = if agent.behavior.is_trading() {
        TRADE_INTERACTION_MS
    } else {
        DEFAULT_INTERACTION_MS
    };
    let polled: Option<bool> = agent.timer.poll(world.time, timeout);
    match polled {
        None => {
            let cur: Option<Target> = agent.target;
            if let Some(t) = cur {
                proof {
                    crate::world::lemma_lookup_wf(*world, t.entity);
                }
                if let Some(e) = world.lookup(t.entity) {
                    if let Some(p) = e.pos {
                        ctrl.set_look_at(p);
                    }
                }
                ctrl.push_action(ControlAction::Talk);
            }
        },
        Some(just_ended) => {
            if just_ended {
                agent.target = None;
                ctrl.push_action(ControlAction::Stand);
            }
            if rng.chance_permille(AMBIENT_RETARGET_PERMILLE) {
                choose_target(agent, me, world);
            } else {
                handle_sounds_heard(agent, world, ctrl);
            }
        },
    }
    HandledState::Continue
}

/// The interaction timeout in force: longer while trading.
pub open spec fn spec_timeout(a: Agent) -> TimeMs {
    if a.behavior.spec_is_trading() {
        TRADE_INTERACTION_MS
    } else {
        DEFAULT_INTERACTION_MS
    }
}

/// Where the conversational stance looks while the interaction timer
/// runs: toward the focused interlocutor, if it resolves to a position.
pub open spec fn spec_stance_look(
    world: WorldSnapshot,
    t: Option<Target>,
    old_look: Option<crate::world::Pos>,
) -> Option<crate::world::Pos> {
    if t matches Some(tt) && spec_lookup(world, tt.entity) matches Some(e) && e.pos is Some {
        spec_lookup(world, t->Some_0.entity)->Some_0.pos
    } else {
        old_look
    }
}

} // verus!
