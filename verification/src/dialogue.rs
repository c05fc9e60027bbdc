//! The dialogue engine: subject-keyed response generation informed by
//! personality and memory. All responses go through the single chat
//! side-effect of the outbox.

use vstd::prelude::*;
use crate::agent::{agent_frame, Agent, Behavior, SelfData, Target};
use crate::compass::{spec_compass_dir, spec_distance_bucket, DistanceBucket};
use crate::consts::{CHARACTER_MEMORY_MS, MOOD_FORGET_LONG_MS, MOOD_FORGET_MS};
use crate::control::{
    ChatLine, ControlAction, ControlEvent, Controller, HandledState, InviteKind, OutEvent, Outbox,
    UtteranceKind,
};
use crate::events::{AgentEvent, Subject};
use crate::memory::{
    spec_random_chat_trait, Memory, MemoryEvent, MemoryItem, MoodContext, MoodState,
    PersonalityTrait, Profile,
};
use crate::rng::{spec_draw_index, spec_lcg_next, TickRng};
use crate::world::{spec_lookup, NameId, TimeMs, WorldSnapshot};

verus! {

/// Travel announcement when the listener is not a remembered
/// acquaintance, indexed by dominant personality.
pub open spec fn spec_standard_reply(prof: Profile, dest: NameId) -> ChatLine {
    if prof.personality.spec_has_trait(PersonalityTrait::Extroverted) {
        ChatLine::TravelInvite { destination: dest }
    } else if prof.personality.spec_has_trait(PersonalityTrait::Disagreeable) {
        ChatLine::TravelGrumble
    } else {
        ChatLine::PlainGreeting
    }
}

/// Travel announcement to a remembered acquaintance.
pub open spec fn spec_callback_reply(prof: Profile, dest: NameId, name: NameId) -> ChatLine {
    if prof.personality.spec_has_trait(PersonalityTrait::Extroverted) {
        ChatLine::CallbackInvite { name, destination: dest }
    } else if prof.personality.spec_has_trait(PersonalityTrait::Disagreeable) {
        ChatLine::CallbackGrumble
    } else {
        ChatLine::CallbackHurried { name }
    }
}

/// The mood a fresh three-way draw initializes.
pub open spec fn spec_mood_state(state: u64) -> MoodState {
    let i = spec_draw_index(state, 3);
    if i == 0 {
        MoodState::Good(MoodContext::GoodWeather)
    } else if i == 1 {
        MoodState::Neutral(MoodContext::EverydayLife)
    } else {
        MoodState::Bad(MoodContext::GoodWeather)
    }
}

/// The forget horizon of a freshly drawn mood: bad moods linger longest.
pub open spec fn spec_mood_horizon(state: u64, now: TimeMs) -> int {
    if spec_draw_index(state, 3) == 2 {
        now + MOOD_FORGET_LONG_MS
    } else {
        now + MOOD_FORGET_MS
    }
}

/// Whether the regular subject falls through to the ambient-line arm: no
/// travel announcement applies and the agent cannot trade.
pub open spec fn spec_regular_ambient(me: SelfData, b: Behavior) -> bool {
    &&& !(me.travel_to is Some && me.profile is Some)
    &&& !b.can_trade
}

/// The reply to a regular greeting.
pub open spec fn spec_regular_line(
    me: SelfData,
    b: Behavior,
    sender_name: Option<NameId>,
    state: u64,
) -> ChatLine {
    if me.travel_to is Some && me.profile is Some {
        let dest = me.travel_to->Some_0;
        let prof = me.profile->Some_0;
        match sender_name {
            Some(n) => if prof.spec_remembers_character(n) {
                spec_callback_reply(prof, dest, n)
            } else {
                spec_standard_reply(prof, dest)
            },
            None => spec_standard_reply(prof, dest),
        }
    } else if b.can_trade {
        if !b.spec_is_trading() {
            ChatLine::MerchantAdvertisement
        } else if me.profile matches Some(p) && p.personality.spec_has_trait(
            PersonalityTrait::Disagreeable,
        ) {
            ChatLine::MerchantBusyRude
        } else {
            ChatLine::MerchantBusy
        }
    } else {
        match me.profile {
            Some(prof) => match spec_random_chat_trait(prof.personality, state) {
                Some(t) => ChatLine::Ambient(t),
                None => ChatLine::AmbientGeneric,
            },
            None => ChatLine::AmbientGeneric,
        }
    }
}

/// The chat line a subject draws, if any.
pub open spec fn spec_subject_chat(
    subject: Subject,
    me: SelfData,
    b: Behavior,
    sender_name: Option<NameId>,
    state: u64,
) -> Option<ChatLine> {
    match subject {
        Subject::Regular => Some(spec_regular_line(me, b, sender_name, state)),
        Subject::Trade => Some(
            if b.can_trade {
                if !b.spec_is_trading() {
                    ChatLine::MerchantAdvertisement
                } else {
                    ChatLine::MerchantBusy
                }
            } else {
                ChatLine::DeclineTrade
            },
        ),
        Subject::Mood => match me.profile {
            None => None,
            Some(prof) => Some(
                match prof.mood {
                    None => ChatLine::MoodReport(spec_mood_state(state)),
                    Some(m) => match m.item {
                        MemoryItem::Mood { state: ms } => ChatLine::MoodReport(ms),
                        _ => ChatLine::Empty,
                    },
                },
            ),
        },
        Subject::Location(q) => Some(
            ChatLine::LocationHint {
                place: q.name,
                dist: spec_distance_bucket(q.x - me.pos.x, q.y - me.pos.y),
                dir: spec_compass_dir(q.x - me.pos.x, q.y - me.pos.y),
            },
        ),
        Subject::Person(q) => Some(
            match q.origin {
                Some(pp) => {
                    let db = spec_distance_bucket(pp.x - me.pos.x, pp.y - me.pos.y);
                    if db is NextTo || db is Near {
                        ChatLine::PersonNearby {
                            person: q.name,
                            dist: db,
                            dir: spec_compass_dir(pp.x - me.pos.x, pp.y - me.pos.y),
                        }
                    } else {
                        ChatLine::PersonTravelled { person: q.name }
                    }
                },
                None => ChatLine::PersonUnknown { person: q.name },
            },
        ),
        Subject::Work => None,
    }
}

/// Whether a subject pushes a trade invite toward the sender.
pub open spec fn spec_subject_invites(subject: Subject, me: SelfData, b: Behavior) -> bool {
    match subject {
        Subject::Regular => !(me.travel_to is Some && me.profile is Some) && b.can_trade
            && !b.spec_is_trading(),
        Subject::Trade => b.can_trade && !b.spec_is_trading(),
        _ => false,
    }
}

/// The memory event a subject queues for the persistence layer, if any.
pub open spec fn spec_subject_memory(
    subject: Subject,
    me: SelfData,
    sender_name: Option<NameId>,
    now: TimeMs,
    state: u64,
) -> Option<MemoryEvent> {
    match subject {
        Subject::Regular => if me.travel_to is Some && me.profile is Some
            && sender_name is Some {
            Some(
                MemoryEvent::Add(
                    Memory {
                        item: MemoryItem::CharacterInteraction { name: sender_name->Some_0 },
                        time_to_forget: (now + CHARACTER_MEMORY_MS) as u64,
                    },
                ),
            )
        } else {
            None
        },
        Subject::Mood => if me.profile matches Some(prof) && prof.mood is None {
            Some(
                MemoryEvent::SetMood(
                    Memory {
                        item: MemoryItem::Mood { state: spec_mood_state(state) },
                        time_to_forget: spec_mood_horizon(state, now) as u64,
                    },
                ),
            )
        } else {
            None
        },
        _ => None,
    }
}

/// Whether handling a subject advances the random source.
pub open spec fn spec_subject_draws(subject: Subject, me: SelfData, b: Behavior) -> bool {
    match subject {
        Subject::Regular => {
            &&& spec_regular_ambient(me, b)
            &&& me.profile matches Some(prof) && prof.personality.traits@.len() > 0
        },
        Subject::Mood => me.profile matches Some(prof) && prof.mood is None,
        _ => false,
    }
}

/// Whether the popped talk event engages the dialogue engine at all: the
/// agent may speak and the sender resolves in the snapshot.
pub open spec fn spec_talk_engages(world: WorldSnapshot, b: Behavior, ev: AgentEvent) -> bool {
    &&& b.can_speak
    &&& spec_lookup(world, ev->Talk_by) is Some
}

/// Engaging and oriented: the resolved sender also has a position to turn
/// toward, so greeting and subject dispatch happen.
pub open spec fn spec_talk_oriented(world: WorldSnapshot, b: Behavior, ev: AgentEvent) -> bool {
    &&& spec_talk_engages(world, b, ev)
    &&& spec_lookup(world, ev->Talk_by)->Some_0.pos is Some
}

/// Handle a talk event at the front of the inbox: resolve the sender, set
/// a non-hostile focus, orient toward them, greet, and dispatch on the
/// subject. Consumes the tick whenever the front event is a talk event,
/// even when the agent may not speak or the sender is gone. The handler
/// pops only the event it matched: an unexpected event type at the pop
/// is ruled out statically rather than dropped.
pub fn handle_inbox_talk(
    agent: &mut Agent,
    me: &SelfData,
    world: &WorldSnapshot,
    ctrl: &mut Controller,
    out: &mut Outbox,
    rng: &mut TickRng,
) -> (r: HandledState)
    requires
        crate::world::world_wf(*world),
        crate::agent::self_wf(*me, world.time),
        crate::agent::agent_wf(*old(agent), world.time),
    ensures
        crate::agent::agent_wf(*final(agent), world.time),
        agent_frame(*old(agent), *final(agent)),
        final(agent).timer == old(agent).timer,
        final(agent).action_timer == old(agent).action_timer,
        final(agent).behavior == old(agent).behavior,
        final(agent).sounds_heard == old(agent).sounds_heard,
        ({
            let fronted = old(agent).inbox@.len() > 0 && old(agent).inbox@[0] is Talk;
            let ev = old(agent).inbox@[0];
            let by = ev->Talk_by;
            let subject = ev->Talk_subject;
            let b = old(agent).behavior;
            let engages = fronted && spec_talk_engages(*world, b, ev);
            let oriented = fronted && spec_talk_oriented(*world, b, ev);
            let sender_name = spec_lookup(*world, by)->Some_0.name;
            &&& r == if fronted {
                HandledState::Handled
            } else {
                HandledState::Continue
            }
            &&& final(agent).inbox@ == if fronted {
                old(agent).inbox@.remove(0)
            } else {
                old(agent).inbox@
            }
            &&& final(agent).target == if engages {
                Some(Target { entity: by, hostile: false, selected_at: world.time, aggro_on: false })
            } else {
                old(agent).target
            }
            &&& final(ctrl).look_at == if oriented {
                spec_lookup(*world, by)->Some_0.pos
            } else {
                old(ctrl).look_at
            }
            &&& final(ctrl).actions@ == if oriented {
                old(ctrl).actions@.push(ControlAction::Stand).push(ControlAction::Talk)
            } else {
                old(ctrl).actions@
            }
            &&& final(ctrl).events@ == ({
                let greeted = if oriented {
                    old(ctrl).events@.push(ControlEvent::Utterance(UtteranceKind::Greeting))
                } else {
                    old(ctrl).events@
                };
                if oriented && spec_subject_invites(subject, *me, b) {
                    greeted.push(ControlEvent::InitiateInvite { to: by, kind: InviteKind::Trade })
                } else {
                    greeted
                }
            })
            &&& final(out).events@ == if oriented {
                match spec_subject_chat(subject, *me, b, sender_name, old(rng).state) {
                    Some(line) => old(out).events@.push(OutEvent::Chat { to: None, line }),
                    None => old(out).events@,
                }
            } else {
                old(out).events@
            }
            &&& final(agent).memory_out@ == if oriented {
                match spec_subject_memory(subject, *me, sender_name, world.time, old(rng).state) {
                    Some(m) => old(agent).memory_out@.push(m),
                    None => old(agent).memory_out@,
                }
            } else {
                old(agent).memory_out@
            }
            &&& final(rng).state == if oriented && spec_subject_draws(subject, *me, b) {
                spec_lcg_next(old(rng).state)
            } else {
                old(rng).state
            }
            &&& final(ctrl).movement == old(ctrl).movement
        }),
{
    if agent.inbox.len() == 0 {
        return HandledState::Continue;
    }
    let fronted: bool = match &agent.inbox[0] {
        AgentEvent::Talk { .. } => true,
        _ => false,
    };
    if !fronted {
        return HandledState::Continue;
    }
    proof {
        assert(crate::events::event_wf(old(agent).inbox@[0], world.time));
    }
    let ev: AgentEvent = agent.inbox.remove(0);
    proof {
        crate::events::lemma_inbox_tail_wf(old(agent).inbox@, agent.inbox@, world.time);
    }
    if let AgentEvent::Talk { by, subject } = ev {
        if agent.allowed_to_speak() {
            proof {
                crate::world::lemma_lookup_wf(*world, by);
            }
            if let Some(sender) = world.lookup(by) {
                agent.target = Some(Target::new(by, false, world.time, false));
                if let Some(sp) = sender.pos {
                    ctrl.set_look_at(sp);
                    ctrl.push_action(ControlAction::Stand);
                    ctrl.push_action(ControlAction::Talk);
                    ctrl.push_utterance(UtteranceKind::Greeting);
                    match subject {
                        Subject::Regular => {
                            talk_regular(agent, me, world, ctrl, out, rng, by, sender.name);
                        },
                        Subject::Trade => {
                            if agent.behavior.can_trade {
                                if !agent.behavior.is_trading() {
                                    ctrl.push_event(
                                        ControlEvent::InitiateInvite {
                                            to: by,
                                            kind: InviteKind::Trade,
                                        },
                                    );
                                    out.say(ChatLine::MerchantAdvertisement);
                                } else {
                                    out.say(ChatLine::MerchantBusy);
                                }
                            } else {
                                out.say(ChatLine::DeclineTrade);
                            }
                        },
                        Subject::Mood => {
                            talk_mood(agent, me, world, out, rng);
                        },
                        Subject::Location(q) => {
                            let dx: i64 = q.x - me.pos.x;
                            let dy: i64 = q.y - me.pos.y;
                            out.say(
                                ChatLine::LocationHint {
                                    place: q.name,
                                    dist: crate::compass::distance_bucket(dx, dy),
                                    dir: crate::compass::compass_dir(dx, dy),
                                },
                            );
                        },
                        Subject::Person(q) => {
                            match q.origin {
                                Some(pp) => {
                                    let dx: i64 = pp.x - me.pos.x;
                                    let dy: i64 = pp.y - me.pos.y;
                                    let db: DistanceBucket = crate::compass::distance_bucket(
                                        dx,
                                        dy,
                                    );
                                    let near: bool = match db {
                                        DistanceBucket::NextTo => true,
                                        DistanceBucket::Near => true,
                                        _ => false,
                                    };
                                    if near {
                                        out.say(
                                            ChatLine::PersonNearby {
                                                person: q.name,
                                                dist: db,
                                                dir: crate::compass::compass_dir(dx, dy),
                                            },
                                        );
                                    } else {
                                        out.say(ChatLine::PersonTravelled { person: q.name });
                                    }
                                },
                                None => {
                                    out.say(ChatLine::PersonUnknown { person: q.name });
                                },
                            }
                        },
                        Subject::Work => {},
                    }
                }
            }
        }
    }
    HandledState::Handled
}

/// Asking after the mood of an agent with no persisted mood memory sets
/// exactly one fresh mood and reports exactly that mood as the one chat
/// line: the memory event and the spoken report always agree.
pub proof fn lemma_mood_report_matches_memory(
    me: SelfData,
    b: Behavior,
    now: TimeMs,
    state: u64,
)
    requires
        me.profile matches Some(p) && p.mood is None,
    ensures
        spec_subject_memory(Subject::Mood, me, None, now, state) matches Some(m) && (
        m matches MemoryEvent::SetMood(mem) && mem.item matches MemoryItem::Mood { state: ms }
            && spec_subject_chat(Subject::Mood, me, b, None, state) == Some(
            ChatLine::MoodReport(ms),
        )),
{
}

/// The regular-greeting arm: travel announcements first, then merchant
/// advertisement, then a personality-indexed ambient line.
fn talk_regular(
    agent: &mut Agent,
    me: &SelfData,
    world: &WorldSnapshot,
    ctrl: &mut Controller,
    out: &mut Outbox,
    rng: &mut TickRng,
    by: crate::world::EntityId,
    sender_name: Option<NameId>,
)
    requires
        world.time <= crate::world::TIME_LIMIT_MS,
        crate::agent::agent_wf(*old(agent), world.time),
    ensures
        crate::agent::agent_wf(*final(agent), world.time),
        final(agent).target == old(agent).target,
        final(agent).inbox == old(agent).inbox,
        final(agent).timer == old(agent).timer,
        final(agent).action_timer == old(agent).action_timer,
        final(agent).behavior == old(agent).behavior,
        final(agent).psyche == old(agent).psyche,
        final(agent).patrol_origin == old(agent).patrol_origin,
        final(agent).sounds_heard == old(agent).sounds_heard,
        final(agent).memory_out@ == (match spec_subject_memory(
            Subject::Regular,
            *me,
            sender_name,
            world.time,
            old(rng).state,
        ) {
            Some(m) => old(agent).memory_out@.push(m),
            None => old(agent).memory_out@,
        }),
        final(out).events@ == old(out).events@.push(
            OutEvent::Chat {
                to: None,
                line: spec_regular_line(*me, old(agent).behavior, sender_name, old(rng).state),
            },
        ),
        final(ctrl).events@ == if spec_subject_invites(
            Subject::Regular,
            *me,
            old(agent).behavior,
        ) {
            old(ctrl).events@.push(ControlEvent::InitiateInvite { to: by, kind: InviteKind::Trade })
        } else {
            old(ctrl).events@
        },
        final(ctrl).actions@ == old(ctrl).actions@,
        final(ctrl).movement == old(ctrl).movement,
        final(ctrl).look_at == old(ctrl).look_at,
        final(rng).state == if spec_subject_draws(Subject::Regular, *me, old(agent).behavior) {
            spec_lcg_next(old(rng).state)
        } else {
            old(rng).state
        },
{
    let has_travel_profile: bool = me.travel_to.is_some() && me.profile.is_some();
    if has_travel_profile {
        let dest: NameId = match me.travel_to {
            Some(d) => d,
            None => 0,
        };
        if let Some(prof) = &me.profile {
            let line: ChatLine = match sender_name {
                Some(n) => {
                    agent.memory_out.push(
                        MemoryEvent::Add(
                            Memory {
                                item: MemoryItem::CharacterInteraction { name: n },
                                time_to_forget: world.time + CHARACTER_MEMORY_MS,
                            },
                        ),
                    );
                    if prof.remembers_character(n) {
                        callback_reply(prof, dest, n)
                    } else {
                        standard_reply(prof, dest)
                    }
                },
                None => standard_reply(prof, dest),
            };
            out.say(line);
        }
    } else if agent.behavior.can_trade {
        if !agent.behavior.is_trading() {
            ctrl.push_event(ControlEvent::InitiateInvite { to: by, kind: InviteKind::Trade });
            out.say(ChatLine::MerchantAdvertisement);
        } else {
            let rude: bool = match &me.profile {
                Some(p) => p.personality.has_trait(PersonalityTrait::Disagreeable),
                None => false,
            };
            if rude {
                out.say(ChatLine::MerchantBusyRude);
            } else {
                out.say(ChatLine::MerchantBusy);
            }
        }
    } else {
        let line: ChatLine = match &me.profile {
            Some(prof) => match prof.personality.random_chat_trait(rng) {
                Some(t) => ChatLine::Ambient(t),
                None => ChatLine::AmbientGeneric,
            },
            None => ChatLine::AmbientGeneric,
        };
        out.say(line);
    }
}

/// Exec mirror of the standard travel reply.
fn standard_reply(prof: &Profile, dest: NameId) -> (r: ChatLine)
    ensures
        r == spec_standard_reply(*prof, dest),
{
    if prof.personality.has_trait(PersonalityTrait::Extroverted) {
        ChatLine::TravelInvite { destination: dest }
    } else if prof.personality.has_trait(PersonalityTrait::Disagreeable) {
        ChatLine::TravelGrumble
    } else {
        ChatLine::PlainGreeting
    }
}

/// Exec mirror of the callback travel reply.
fn callback_reply(prof: &Profile, dest: NameId, name: NameId) -> (r: ChatLine)
    ensures
        r == spec_callback_reply(*prof, dest, name),
{
    if prof.personality.has_trait(PersonalityTrait::Extroverted) {
        ChatLine::CallbackInvite { name, destination: dest }
    } else if prof.personality.has_trait(PersonalityTrait::Disagreeable) {
        ChatLine::CallbackGrumble
    } else {
        ChatLine::CallbackHurried { name }
    }
}

/// The mood arm: lazily initialize a persisted mood when none exists,
/// then report the current mood as a line; the persisted slot holding a
/// non-mood memory yields the deliberately empty line.
fn talk_mood(
    agent: &mut Agent,
    me: &SelfData,
    world: &WorldSnapshot,
    out: &mut Outbox,
    rng: &mut TickRng,
)
    requires
        world.time <= crate::world::TIME_LIMIT_MS,
        crate::agent::agent_wf(*old(agent), world.time),
    ensures
        crate::agent::agent_wf(*final(agent), world.time),
        final(agent).target == old(agent).target,
        final(agent).inbox == old(agent).inbox,
        final(agent).timer == old(agent).timer,
        final(agent).action_timer == old(agent).action_timer,
        final(agent).behavior == old(agent).behavior,
        final(agent).psyche == old(agent).psyche,
        final(agent).patrol_origin == old(agent).patrol_origin,
        final(agent).sounds_heard == old(agent).sounds_heard,
        final(agent).memory_out@ == (match spec_subject_memory(
            Subject::Mood,
            *me,
            None,
            world.time,
            old(rng).state,
        ) {
            Some(m) => old(agent).memory_out@.push(m),
            None => old(agent).memory_out@,
        }),
        final(out).events@ == (match spec_subject_chat(
            Subject::Mood,
            *me,
            old(agent).behavior,
            None,
            old(rng).state,
        ) {
            Some(line) => old(out).events@.push(OutEvent::Chat { to: None, line }),
            None => old(out).events@,
        }),
        final(rng).state == if spec_subject_draws(Subject::Mood, *me, old(agent).behavior) {
            spec_lcg_next(old(rng).state)
        } else {
            old(rng).state
        },
{
    if let Some(prof) = &me.profile {
        match &prof.mood {
            None => {
                let i: usize = rng.pick_index(3);
                let state: MoodState = if i == 0 {
                    MoodState::Good(MoodContext::GoodWeather)
                } else if i == 1 {
                    MoodState::Neutral(MoodContext::EverydayLife)
                } else {
                    MoodState::Bad(MoodContext::GoodWeather)
                };
                let horizon: TimeMs = if i == 2 {
                    world.time + MOOD_FORGET_LONG_MS
                } else {
                    world.time + MOOD_FORGET_MS
                };
                agent.memory_out.push(
                    MemoryEvent::SetMood(
                        Memory { item: MemoryItem::Mood { state }, time_to_forget: horizon },
                    ),
                );
                out.say(ChatLine::MoodReport(state));
            },
            Some(m) => {
                match m.item {
                    MemoryItem::Mood { state } => out.say(ChatLine::MoodReport(state)),
                    _ => out.say(ChatLine::Empty),
                }
            },
        }
    }
}

} // verus!
