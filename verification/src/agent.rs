//! Per-agent mutable state: the held target, the event inbox, named and
//! scratch timers, trading state, psyche thresholds and outbound memory
//! events, together with the read-only data describing the agent's own
//! body during a tick.

use vstd::prelude::*;
use crate::consts::FIGHT_MEMORY_MS;
use crate::events::{event_wf, sound_wf, AgentEvent, Sound};
use crate::memory::{Memory, MemoryEvent, MemoryItem, Profile};
use crate::trade::TradeParty;
use crate::world::{
    health_wf, pos_wf, Alignment, BodyKind, EntityId, Health, NameId, Pos, TimeMs, Vel,
    TIME_LIMIT_MS,
};

verus! {

/// The agent's current adversarial or social focus.
#[derive(Clone, Copy, PartialEq, Eq, Debug)]
pub struct Target {
    pub entity: EntityId,
    pub hostile: bool,
    pub selected_at: TimeMs,
    pub aggro_on: bool,
}

impl Target {
    /// A freshly selected target.
    pub fn new(entity: EntityId, hostile: bool, selected_at: TimeMs, aggro_on: bool) -> (r: Target)
        ensures
            r == (Target { entity, hostile, selected_at, aggro_on }),
    {
        Target { entity, hostile, selected_at, aggro_on }
    }
}

/// Per-agent tunable thresholds governing aggression and flight.
#[derive(Clone, Copy, PartialEq, Eq, Debug)]
pub struct Psyche {
    /// Radius within which a hostile target latches aggro; `None` latches
    /// at any range.
    pub aggro_dist: Option<i64>,
    /// Flee once own health fraction drops below this.
    pub flee_health_permille: u32,
    /// Break off once further than this from the patrol origin.
    pub leash_dist: i64,
    /// Reconsider a chase that has lasted longer than this.
    pub give_up_ms: TimeMs,
}

pub open spec fn psyche_wf(p: Psyche) -> bool {
    &&& (p.aggro_dist matches Some(d) ==> 1 <= d <= 100_000)
    &&& p.flee_health_permille <= 1000
    &&& 1 <= p.leash_dist <= 100_000
    &&& p.give_up_ms <= TIME_LIMIT_MS
}

/// Speech and trade capabilities together with the current trading state:
/// idle, or trading on one side of a pending trade.
#[derive(Clone, Copy, PartialEq, Eq, Debug)]
pub struct Behavior {
    pub can_speak: bool,
    pub can_trade: bool,
    pub trade_role: Option<TradeParty>,
}

impl Behavior {
    pub open spec fn spec_is_trading(&self) -> bool {
        self.trade_role is Some
    }

    /// Whether a trade is in progress.
    pub fn is_trading(&self) -> (r: bool)
        ensures
            r == self.spec_is_trading(),
    {
        self.trade_role.is_some()
    }
}

/// The single named timer of this core: it starts when an interaction is
/// handled and polls elapsed time against the world clock.
#[derive(Clone, Copy, PartialEq, Eq, Debug)]
pub struct InteractionTimer {
    pub started_at: Option<TimeMs>,
}

impl InteractionTimer {
    /// Start the timer now, unless it already runs.
    pub fn start(&mut self, now: TimeMs)
        ensures
            final(self).started_at == (match old(self).started_at {
                Some(t) => Some(t),
                None => Some(now),
            }),
    {
        if self.started_at.is_none() {
            self.started_at = Some(now);
        }
    }

    /// Poll the timer: `None` while it runs, `Some(true)` on the tick the
    /// timeout elapses (clearing it), `Some(false)` when it is not
    /// running. Elapsed time is never negative: the clock is monotonic
    /// against every recorded start.
    pub fn poll(&mut self, now: TimeMs, timeout: TimeMs) -> (r: Option<bool>)
        requires
            old(self).started_at matches Some(t) ==> t <= now,
        ensures
            match old(self).started_at {
                None => r == Some(false) && final(self).started_at is None,
                Some(t) => if now - t > timeout {
                    r == Some(true) && final(self).started_at is None
                } else {
                    r is None && final(self).started_at == Some(t)
                },
            },
    {
        match self.started_at {
            None => Some(false),
            Some(t) => {
                if now - t > timeout {
                    self.started_at = None;
                    Some(true)
                } else {
                    None
                }
            },
        }
    }
}

/// The mutable state of one agent, owned exclusively by its tick.
pub struct Agent {
    pub target: Option<Target>,
    pub inbox: Vec<AgentEvent>,
    pub timer: InteractionTimer,
    /// Scratch action-state timer shared by flee gating, healing marks and
    /// interaction bookkeeping.
    pub action_timer: TimeMs,
    pub behavior: Behavior,
    pub psyche: Psyche,
    pub patrol_origin: Option<Pos>,
    pub sounds_heard: Vec<Sound>,
    /// Memory mutations queued for the persistence layer.
    pub memory_out: Vec<MemoryEvent>,
}

/// Well-formedness of agent state against the current world clock: every
/// recorded instant lies in the past and within the clock's headroom.
pub open spec fn agent_wf(a: Agent, now: TimeMs) -> bool {
    &&& (a.timer.started_at matches Some(t) ==> t <= now)
    &&& (a.target matches Some(t) ==> t.selected_at <= now)
    &&& a.action_timer <= TIME_LIMIT_MS
    &&& psyche_wf(a.psyche)
    &&& (a.patrol_origin matches Some(p) ==> pos_wf(p))
    &&& forall|i: int| 0 <= i < a.inbox@.len() ==> event_wf(#[trigger] a.inbox@[i], now)
    &&& forall|i: int| 0 <= i < a.sounds_heard@.len() ==> sound_wf(#[trigger] a.sounds_heard@[i], now)
}

/// Fields no decision procedure ever rewrites.
pub open spec fn agent_frame(a: Agent, b: Agent) -> bool {
    &&& a.psyche == b.psyche
    &&& a.patrol_origin == b.patrol_origin
}

impl Agent {
    /// Whether the agent may speak at all.
    pub fn allowed_to_speak(&self) -> (r: bool)
        ensures
            r == self.behavior.can_speak,
    {
        self.behavior.can_speak
    }

    /// Queue a fight with the named character for the persistence layer.
    pub fn add_fight_to_memory(&mut self, name: NameId, now: TimeMs)
        requires
            now <= TIME_LIMIT_MS,
        ensures
            final(self).memory_out@ == old(self).memory_out@.push(
                MemoryEvent::Add(
                    Memory {
                        item: MemoryItem::CharacterFight { name },
                        time_to_forget: (now + FIGHT_MEMORY_MS) as u64,
                    },
                ),
            ),
            final(self).target == old(self).target,
            final(self).inbox == old(self).inbox,
            final(self).timer == old(self).timer,
            final(self).action_timer == old(self).action_timer,
            final(self).behavior == old(self).behavior,
            final(self).psyche == old(self).psyche,
            final(self).patrol_origin == old(self).patrol_origin,
            final(self).sounds_heard == old(self).sounds_heard,
    {
        self.memory_out.push(
            MemoryEvent::Add(
                Memory {
                    item: MemoryItem::CharacterFight { name },
                    time_to_forget: now + FIGHT_MEMORY_MS,
                },
            ),
        );
    }

    /// Ask the persistence layer to drop its memories of a beaten enemy.
    pub fn forget_enemy(&mut self, name: NameId)
        ensures
            final(self).memory_out@ == old(self).memory_out@.push(MemoryEvent::ForgetEnemy(name)),
            final(self).target == old(self).target,
            final(self).inbox == old(self).inbox,
            final(self).timer == old(self).timer,
            final(self).action_timer == old(self).action_timer,
            final(self).behavior == old(self).behavior,
            final(self).psyche == old(self).psyche,
            final(self).patrol_origin == old(self).patrol_origin,
            final(self).sounds_heard == old(self).sounds_heard,
    {
        self.memory_out.push(MemoryEvent::ForgetEnemy(name));
    }
}

/// Read-only data describing the agent's own body and surroundings for
/// one tick.
pub struct SelfData {
    pub id: EntityId,
    pub pos: Pos,
    pub vel: Vel,
    pub health: Option<Health>,
    pub alignment: Option<Alignment>,
    pub body: Option<BodyKind>,
    pub on_fire: bool,
    pub on_ground: bool,
    pub can_fly: bool,
    pub glider_equipped: bool,
    /// Whether a healing item is in the inventory.
    pub has_healing_item: bool,
    /// Name of an active travel destination, if the agent is going
    /// somewhere.
    pub travel_to: Option<NameId>,
    /// What the persistence layer knows of this agent.
    pub profile: Option<Profile>,
}

pub open spec fn self_wf(me: SelfData, now: TimeMs) -> bool {
    &&& pos_wf(me.pos)
    &&& (me.health matches Some(h) ==> health_wf(h))
    &&& (me.health matches Some(h) && h.last_change matches Some(ch) ==> ch.time <= now)
}

/// Whether own health has dropped below the psyche's flee threshold.
pub open spec fn spec_below_flee_health(me: SelfData, psyche: Psyche) -> bool {
    me.health matches Some(h) && crate::world::spec_frac_permille(h)
        < psyche.flee_health_permille
}

pub fn below_flee_health(me: &SelfData, psyche: &Psyche) -> (r: bool)
    requires
        me.health matches Some(h) ==> health_wf(h),
    ensures
        r == spec_below_flee_health(*me, *psyche),
{
    match me.health {
        Some(h) => crate::world::frac_permille(&h) < psyche.flee_health_permille,
        None => false,
    }
}

} // verus!
