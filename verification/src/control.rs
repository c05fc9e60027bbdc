//! What a tick produces: movement and action intents written into the
//! controller for downstream consumption, and world-visible events queued
//! for the host to apply after the tick.

use vstd::prelude::*;
use crate::compass::{CompassDir, DistanceBucket};
use crate::memory::{MoodState, PersonalityTrait};
use crate::trade::{TradeAction, TradePhase};
use crate::world::{EntityId, NameId, Pos};

verus! {

/// Whether a decision procedure consumed the tick; the first entry of a
/// tree to report `Handled` stops that tree's evaluation.
#[derive(Clone, Copy, PartialEq, Eq, Structural, Debug)]
pub enum HandledState {
    Handled,
    Continue,
}

/// Wordless vocalizations.
#[derive(Clone, Copy, PartialEq, Eq, Debug)]
pub enum UtteranceKind {
    Angry,
    Hurt,
    Greeting,
}

/// Stance changes the tree asks of the body.
#[derive(Clone, Copy, PartialEq, Eq, Debug)]
pub enum ControlAction {
    Stand,
    Talk,
}

/// Invitations an agent can extend.
#[derive(Clone, Copy, PartialEq, Eq, Debug)]
pub enum InviteKind {
    Trade,
}

/// An answer to an invitation.
#[derive(Clone, Copy, PartialEq, Eq, Debug)]
pub enum InviteResponse {
    Accept,
    Decline,
}

/// Discrete control events the tree pushes for the world to resolve.
#[derive(Clone, Copy, PartialEq, Eq, Debug)]
pub enum ControlEvent {
    Utterance(UtteranceKind),
    InviteResponse(InviteResponse),
    InitiateInvite { to: EntityId, kind: InviteKind },
    PickupItem { from: EntityId },
    UseHealingItem,
}

/// Movement the tree asks of the external traversal planner; the host
/// resolves each intent into bearings and speeds.
#[derive(Clone, Copy, PartialEq, Eq, Debug)]
pub enum MovementIntent {
    FlyUpward,
    GlideFall,
    RollForward,
    ChaseTo { dest: Pos, min_dist: i64 },
    Flee { from: Pos },
    Attack { target: EntityId },
    Menace { target: EntityId },
    Wander,
}

/// The output controller a tick writes intents into.
pub struct Controller {
    pub actions: Vec<ControlAction>,
    pub events: Vec<ControlEvent>,
    pub movement: Option<MovementIntent>,
    pub look_at: Option<Pos>,
}

impl Controller {
    /// A controller with nothing queued.
    pub fn new() -> (r: Controller)
        ensures
            r.actions@ == Seq::<ControlAction>::empty(),
            r.events@ == Seq::<ControlEvent>::empty(),
            r.movement is None,
            r.look_at is None,
    {
        Controller { actions: Vec::new(), events: Vec::new(), movement: None, look_at: None }
    }

    /// Queue a stance change.
    pub fn push_action(&mut self, a: ControlAction)
        ensures
            final(self).actions@ == old(self).actions@.push(a),
            final(self).events@ == old(self).events@,
            final(self).movement == old(self).movement,
            final(self).look_at == old(self).look_at,
    {
        self.actions.push(a);
    }

    /// Queue a control event.
    pub fn push_event(&mut self, e: ControlEvent)
        ensures
            final(self).actions@ == old(self).actions@,
            final(self).events@ == old(self).events@.push(e),
            final(self).movement == old(self).movement,
            final(self).look_at == old(self).look_at,
    {
        self.events.push(e);
    }

    /// Queue an utterance.
    pub fn push_utterance(&mut self, u: UtteranceKind)
        ensures
            final(self).actions@ == old(self).actions@,
            final(self).events@ == old(self).events@.push(ControlEvent::Utterance(u)),
            final(self).movement == old(self).movement,
            final(self).look_at == old(self).look_at,
    {
        self.events.push(ControlEvent::Utterance(u));
    }

    /// Replace the movement intent.
    pub fn set_movement(&mut self, m: MovementIntent)
        ensures
            final(self).actions@ == old(self).actions@,
            final(self).events@ == old(self).events@,
            final(self).movement == Some(m),
            final(self).look_at == old(self).look_at,
    {
        self.movement = Some(m);
    }

    /// Turn toward a point.
    pub fn set_look_at(&mut self, p: Pos)
        ensures
            final(self).actions@ == old(self).actions@,
            final(self).events@ == old(self).events@,
            final(self).movement == old(self).movement,
            final(self).look_at == Some(p),
    {
        self.look_at = Some(p);
    }
}

/// Everything an agent can say, as a closed union; the host renders each
/// line into presentation text.
#[derive(Clone, Copy, PartialEq, Eq, Debug)]
pub enum ChatLine {
    /// Extroverted travel announcement inviting the listener along.
    TravelInvite { destination: NameId },
    /// Disagreeable brush-off while travelling.
    TravelGrumble,
    /// Plain greeting when no trait dominates.
    PlainGreeting,
    /// Extroverted greeting to a remembered acquaintance, naming the
    /// current destination.
    CallbackInvite { name: NameId, destination: NameId },
    /// Disagreeable greeting to a remembered acquaintance.
    CallbackGrumble,
    /// Hurried greeting to a remembered acquaintance.
    CallbackHurried { name: NameId },
    MerchantAdvertisement,
    MerchantBusy,
    MerchantBusyRude,
    DeclineTrade,
    /// Ambient line indexed by a dominant personality trait.
    Ambient(PersonalityTrait),
    /// Generic ambient line when no trait dominates.
    AmbientGeneric,
    /// Report of the agent's current mood.
    MoodReport(MoodState),
    /// A deliberately empty line: the persisted mood slot held a memory of
    /// another kind, a case kept visible rather than silently dropped.
    Empty,
    /// Where a queried place lies.
    LocationHint { place: NameId, dist: DistanceBucket, dir: CompassDir },
    /// A queried person seen nearby.
    PersonNearby { person: NameId, dist: DistanceBucket, dir: CompassDir },
    /// A queried person gone beyond near range.
    PersonTravelled { person: NameId },
    /// A queried person whose position is unknown.
    PersonUnknown { person: NameId },
    /// Complaint naming the percentage of the asked value an unfavorable
    /// offer covers.
    TradeCoverage { percent: u64 },
    TradeSuccessful,
    TradeDeclined,
    /// Relief that a hostile target is confirmed dead.
    EnemyDefeated,
}

/// A world-visible event emitted during the tick; the host attributes it
/// to the ticking agent and applies it after the tick completes.
#[derive(Clone, Copy, PartialEq, Eq, Debug)]
pub enum OutEvent {
    /// A chat line, addressed to one listener or broadcast.
    Chat { to: Option<EntityId>, line: ChatLine },
    /// A cry for help at the start of a flee episode.
    DistressCall,
    /// A protocol action on a pending trade.
    Trade { trade_id: u64, action: TradeAction },
}

/// The outbound event queue of one tick.
pub struct Outbox {
    pub events: Vec<OutEvent>,
}

impl Outbox {
    /// An empty outbox.
    pub fn new() -> (r: Outbox)
        ensures
            r.events@ == Seq::<OutEvent>::empty(),
    {
        Outbox { events: Vec::new() }
    }

    /// Emit an event.
    pub fn emit(&mut self, e: OutEvent)
        ensures
            final(self).events@ == old(self).events@.push(e),
    {
        self.events.push(e);
    }

    /// Say a line to everyone nearby.
    pub fn say(&mut self, line: ChatLine)
        ensures
            final(self).events@ == old(self).events@.push(OutEvent::Chat { to: None, line }),
    {
        self.events.push(OutEvent::Chat { to: None, line });
    }

    /// Tell a line to one listener.
    pub fn tell(&mut self, to: EntityId, line: ChatLine)
        ensures
            final(self).events@ == old(self).events@.push(OutEvent::Chat { to: Some(to), line }),
    {
        self.events.push(OutEvent::Chat { to: Some(to), line });
    }
}

/// How many distress calls a run of events holds.
pub open spec fn spec_count_distress(s: Seq<OutEvent>) -> int
    decreases s.len(),
{
    if s.len() == 0 {
        0
    } else {
        spec_count_distress(s.drop_last()) + if s.last() is DistressCall {
            1int
        } else {
            0int
        }
    }
}

/// Appending adds its element and never loses one already there.
pub broadcast proof fn lemma_contains_push<T>(s: Seq<T>, x: T, y: T)
    ensures
        s.contains(y) ==> #[trigger] s.push(x).contains(y),
        s.push(x).contains(x),
{
    assert(s.push(x)[s.len() as int] == x);
    if s.contains(y) {
        let i = choose|i: int| 0 <= i < s.len() && s[i] == y;
        assert(s.push(x)[i] == y);
    }
}

/// Appending one event raises the distress count exactly when that event
/// is a distress call.
pub broadcast proof fn lemma_count_distress_push(s: Seq<OutEvent>, e: OutEvent)
    ensures
        #[trigger] spec_count_distress(s.push(e)) == spec_count_distress(s) + if e is DistressCall {
            1int
        } else {
            0int
        },
{
    assert(s.push(e).drop_last() =~= s);
}

} // verus!
