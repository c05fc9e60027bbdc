//! Perception and interaction events the world feeds into an agent's
//! inbox, processed front-to-back during the tick.

use vstd::prelude::*;
use crate::trade::{PendingTrade, PriceBook, TradeInventories, TradeResult};
use crate::world::{pos_wf, EntityId, NameId, Pos, TimeMs};

verus! {

/// Popping the front of a well-formed inbox leaves a well-formed inbox.
pub proof fn lemma_inbox_tail_wf(s0: Seq<AgentEvent>, s1: Seq<AgentEvent>, now: TimeMs)
    requires
        s0.len() > 0,
        s1 == s0.remove(0),
        forall|i: int| 0 <= i < s0.len() ==> event_wf(#[trigger] s0[i], now),
    ensures
        forall|i: int| 0 <= i < s1.len() ==> event_wf(#[trigger] s1[i], now),
{
    assert forall|i: int| 0 <= i < s1.len() implies event_wf(#[trigger] s1[i], now) by {
        assert(s1[i] == s0[i + 1]);
    }
}

/// An ambient sound an agent heard: where, how loud, and when.
#[derive(Clone, Copy, PartialEq, Eq, Debug)]
pub struct Sound {
    pub pos: Pos,
    pub vol_permille: u32,
    pub time: TimeMs,
}

pub open spec fn sound_wf(s: Sound, now: TimeMs) -> bool {
    &&& pos_wf(s.pos)
    &&& s.vol_permille <= 1000
    &&& s.time <= now
}

/// A place a talker asks about.
#[derive(Clone, Copy, PartialEq, Eq, Debug)]
pub struct LocationQuery {
    pub name: NameId,
    pub x: i64,
    pub y: i64,
}

pub open spec fn location_query_wf(q: LocationQuery) -> bool {
    &&& -crate::world::POS_LIMIT <= q.x <= crate::world::POS_LIMIT
    &&& -crate::world::POS_LIMIT <= q.y <= crate::world::POS_LIMIT
}

/// A person a talker asks about, with that person's last-known position
/// if the asker's memory holds one.
#[derive(Clone, Copy, PartialEq, Eq, Debug)]
pub struct PersonQuery {
    pub name: NameId,
    pub origin: Option<Pos>,
}

pub open spec fn person_query_wf(q: PersonQuery) -> bool {
    q.origin matches Some(p) ==> pos_wf(p)
}

/// What an inbound line of dialogue is about.
#[derive(Clone, Copy, PartialEq, Eq, Debug)]
pub enum Subject {
    Regular,
    Trade,
    Mood,
    Work,
    Location(LocationQuery),
    Person(PersonQuery),
}

pub open spec fn subject_wf(s: Subject) -> bool {
    match s {
        Subject::Location(q) => location_query_wf(q),
        Subject::Person(q) => person_query_wf(q),
        _ => true,
    }
}

/// An event delivered to an agent's inbox.
#[derive(Clone, PartialEq, Eq, Debug)]
pub enum AgentEvent {
    AmbientSound(Sound),
    Hurt,
    Talk { by: EntityId, subject: Subject },
    TradeInvite { by: EntityId },
    TradeAccepted { by: EntityId },
    FinishedTrade { result: TradeResult },
    TradeUpdate {
        trade_id: u64,
        pending: PendingTrade,
        prices: PriceBook,
        inventories: TradeInventories,
    },
}

pub open spec fn event_wf(e: AgentEvent, now: TimeMs) -> bool {
    match e {
        AgentEvent::AmbientSound(s) => sound_wf(s, now),
        AgentEvent::Talk { by, subject } => subject_wf(subject),
        AgentEvent::TradeUpdate { trade_id, pending, prices, inventories } => {
            &&& pending.wf()
            &&& prices.wf()
            &&& inventories.wf()
        },
        _ => true,
    }
}

} // verus!
