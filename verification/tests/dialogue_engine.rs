//! The dialogue engine: subject dispatch, mood initialization, travel
//! announcements and locational answers.

use npc_behavior::agent::{Agent, Behavior, InteractionTimer, Psyche, SelfData};
use npc_behavior::compass::{CompassDir, DistanceBucket};
use npc_behavior::control::{ChatLine, Controller, OutEvent, Outbox};
use npc_behavior::dialogue::handle_inbox_talk;
use npc_behavior::events::{AgentEvent, LocationQuery, PersonQuery, Subject};
use npc_behavior::memory::{
    Memory, MemoryEvent, MemoryItem, Personality, PersonalityTrait, Profile,
};
use npc_behavior::rng::TickRng;
use npc_behavior::world::{EntityInfo, Pos, WorldSnapshot};

fn base_agent() -> Agent {
    Agent {
        target: None,
        inbox: vec![],
        timer: InteractionTimer { started_at: None },
        action_timer: 0,
        behavior: Behavior { can_speak: true, can_trade: false, trade_role: None },
        psyche: Psyche {
            aggro_dist: Some(500),
            flee_health_permille: 200,
            leash_dist: 1000,
            give_up_ms: 60_000,
        },
        patrol_origin: None,
        sounds_heard: vec![],
        memory_out: vec![],
    }
}

fn me_with_profile(profile: Option<Profile>) -> SelfData {
    SelfData {
        id: 1,
        pos: Pos { x: 0, y: 0, z: 0 },
        vel: npc_behavior::world::Vel { x: 0, y: 0, z: 0 },
        health: None,
        alignment: None,
        body: None,
        on_fire: false,
        on_ground: true,
        can_fly: false,
        glider_equipped: false,
        has_healing_item: false,
        travel_to: None,
        profile,
    }
}

fn sender(id: u64, name: Option<u64>) -> EntityInfo {
    EntityInfo {
        id,
        pos: Some(Pos { x: 50, y: 0, z: 0 }),
        health: None,
        alignment: None,
        body: None,
        invulnerable: false,
        name,
    }
}

fn world_with(entities: Vec<EntityInfo>) -> WorldSnapshot {
    WorldSnapshot { time: 1000, dt: 100, entities }
}

fn profile(traits: Vec<PersonalityTrait>, known: Vec<u64>, mood: Option<Memory>) -> Profile {
    Profile {
        personality: Personality { traits },
        known_characters: known,
        mood,
    }
}

#[test]
fn mood_first_ask_sets_and_reports_same_mood() {
    let mut agent = base_agent();
    agent.inbox.push(AgentEvent::Talk { by: 2, subject: Subject::Mood });
    let me = me_with_profile(Some(profile(vec![], vec![], None)));
    let world = world_with(vec![sender(2, None)]);
    let mut ctrl = Controller::new();
    let mut out = Outbox::new();
    let mut rng = TickRng::new(7);
    handle_inbox_talk(&mut agent, &me, &world, &mut ctrl, &mut out, &mut rng);

    // Exactly one mood-set memory event, and exactly one chat line
    // reporting exactly that mood.
    assert_eq!(agent.memory_out.len(), 1);
    let set_state = match &agent.memory_out[0] {
        MemoryEvent::SetMood(m) => match m.item {
            MemoryItem::Mood { state } => state,
            _ => panic!("the mood event must persist a mood"),
        },
        _ => panic!("the only memory event must be a mood set"),
    };
    assert_eq!(out.events, vec![OutEvent::Chat { to: None, line: ChatLine::MoodReport(set_state) }]);
    assert!(agent.inbox.is_empty());
}

#[test]
fn mood_second_ask_reports_without_setting() {
    let mood = Memory {
        item: MemoryItem::Mood {
            state: npc_behavior::memory::MoodState::Neutral(
                npc_behavior::memory::MoodContext::EverydayLife,
            ),
        },
        time_to_forget: 9_999_999,
    };
    let mut agent = base_agent();
    agent.inbox.push(AgentEvent::Talk { by: 2, subject: Subject::Mood });
    let me = me_with_profile(Some(profile(vec![], vec![], Some(mood))));
    let world = world_with(vec![sender(2, None)]);
    let mut ctrl = Controller::new();
    let mut out = Outbox::new();
    let mut rng = TickRng::new(7);
    handle_inbox_talk(&mut agent, &me, &world, &mut ctrl, &mut out, &mut rng);
    assert!(agent.memory_out.is_empty());
    assert_eq!(
        out.events,
        vec![OutEvent::Chat {
            to: None,
            line: ChatLine::MoodReport(npc_behavior::memory::MoodState::Neutral(
                npc_behavior::memory::MoodContext::EverydayLife,
            )),
        }]
    );
}

#[test]
fn mood_slot_of_another_kind_yields_empty_line() {
    // The persisted mood slot holds a memory of another kind: the reply
    // is the deliberately empty line, kept visible rather than dropped.
    let odd = Memory {
        item: MemoryItem::CharacterInteraction { name: 9 },
        time_to_forget: 9_999_999,
    };
    let mut agent = base_agent();
    agent.inbox.push(AgentEvent::Talk { by: 2, subject: Subject::Mood });
    let me = me_with_profile(Some(profile(vec![], vec![], Some(odd))));
    let world = world_with(vec![sender(2, None)]);
    let mut ctrl = Controller::new();
    let mut out = Outbox::new();
    let mut rng = TickRng::new(7);
    handle_inbox_talk(&mut agent, &me, &world, &mut ctrl, &mut out, &mut rng);
    assert_eq!(out.events, vec![OutEvent::Chat { to: None, line: ChatLine::Empty }]);
    assert!(agent.memory_out.is_empty());
}

#[test]
fn travel_reply_to_stranger_remembers_the_meeting() {
    let mut agent = base_agent();
    agent.inbox.push(AgentEvent::Talk { by: 2, subject: Subject::Regular });
    let mut me = me_with_profile(Some(profile(vec![PersonalityTrait::Extroverted], vec![], None)));
    me.travel_to = Some(11);
    let world = world_with(vec![sender(2, Some(5))]);
    let mut ctrl = Controller::new();
    let mut out = Outbox::new();
    let mut rng = TickRng::new(7);
    handle_inbox_talk(&mut agent, &me, &world, &mut ctrl, &mut out, &mut rng);
    assert_eq!(
        out.events,
        vec![OutEvent::Chat { to: None, line: ChatLine::TravelInvite { destination: 11 } }]
    );
    assert_eq!(
        agent.memory_out,
        vec![MemoryEvent::Add(Memory {
            item: MemoryItem::CharacterInteraction { name: 5 },
            time_to_forget: 1000 + 600_000,
        })]
    );
    // The sender became the non-hostile focus.
    let t = agent.target.expect("talking sets a focus");
    assert_eq!(t.entity, 2);
    assert!(!t.hostile);
}

#[test]
fn travel_reply_to_acquaintance_varies_by_trait() {
    let mut agent = base_agent();
    agent.inbox.push(AgentEvent::Talk { by: 2, subject: Subject::Regular });
    let mut me = me_with_profile(Some(profile(
        vec![PersonalityTrait::Disagreeable],
        vec![5],
        None,
    )));
    me.travel_to = Some(11);
    let world = world_with(vec![sender(2, Some(5))]);
    let mut ctrl = Controller::new();
    let mut out = Outbox::new();
    let mut rng = TickRng::new(7);
    handle_inbox_talk(&mut agent, &me, &world, &mut ctrl, &mut out, &mut rng);
    assert_eq!(out.events, vec![OutEvent::Chat { to: None, line: ChatLine::CallbackGrumble }]);
}

#[test]
fn ambient_line_indexed_by_dominant_trait() {
    let mut agent = base_agent();
    agent.inbox.push(AgentEvent::Talk { by: 2, subject: Subject::Regular });
    let me = me_with_profile(Some(profile(vec![PersonalityTrait::Worried], vec![], None)));
    let world = world_with(vec![sender(2, None)]);
    let mut ctrl = Controller::new();
    let mut out = Outbox::new();
    let mut rng = TickRng::new(3);
    handle_inbox_talk(&mut agent, &me, &world, &mut ctrl, &mut out, &mut rng);
    // One dominant trait: whatever the draw, the pick is that trait.
    assert_eq!(
        out.events,
        vec![OutEvent::Chat { to: None, line: ChatLine::Ambient(PersonalityTrait::Worried) }]
    );
}

#[test]
fn ambient_line_generic_without_profile() {
    let mut agent = base_agent();
    agent.inbox.push(AgentEvent::Talk { by: 2, subject: Subject::Regular });
    let me = me_with_profile(None);
    let world = world_with(vec![sender(2, None)]);
    let mut ctrl = Controller::new();
    let mut out = Outbox::new();
    let mut rng = TickRng::new(3);
    handle_inbox_talk(&mut agent, &me, &world, &mut ctrl, &mut out, &mut rng);
    assert_eq!(out.events, vec![OutEvent::Chat { to: None, line: ChatLine::AmbientGeneric }]);
}

#[test]
fn trade_subject_while_trading_reports_busy() {
    let mut agent = base_agent();
    agent.behavior.can_trade = true;
    agent.behavior.trade_role = Some(npc_behavior::trade::TradeParty::Issuer);
    agent.inbox.push(AgentEvent::Talk { by: 2, subject: Subject::Trade });
    let me = me_with_profile(None);
    let world = world_with(vec![sender(2, None)]);
    let mut ctrl = Controller::new();
    let mut out = Outbox::new();
    let mut rng = TickRng::new(3);
    handle_inbox_talk(&mut agent, &me, &world, &mut ctrl, &mut out, &mut rng);
    assert_eq!(out.events, vec![OutEvent::Chat { to: None, line: ChatLine::MerchantBusy }]);
}

#[test]
fn location_answer_buckets_distance_and_direction() {
    let mut agent = base_agent();
    agent.inbox.push(AgentEvent::Talk {
        by: 2,
        subject: Subject::Location(LocationQuery { name: 7, x: 0, y: 300 }),
    });
    let me = me_with_profile(None);
    let world = world_with(vec![sender(2, None)]);
    let mut ctrl = Controller::new();
    let mut out = Outbox::new();
    let mut rng = TickRng::new(3);
    handle_inbox_talk(&mut agent, &me, &world, &mut ctrl, &mut out, &mut rng);
    assert_eq!(
        out.events,
        vec![OutEvent::Chat {
            to: None,
            line: ChatLine::LocationHint {
                place: 7,
                dist: DistanceBucket::Near,
                dir: CompassDir::North,
            },
        }]
    );
}

#[test]
fn person_answers_by_known_range() {
    let me = me_with_profile(None);
    let world = world_with(vec![sender(2, None)]);

    // Near range: distance and direction are spoken.
    let mut agent = base_agent();
    agent.inbox.push(AgentEvent::Talk {
        by: 2,
        subject: Subject::Person(PersonQuery {
            name: 4,
            origin: Some(Pos { x: 30, y: 40, z: 0 }),
        }),
    });
    let mut ctrl = Controller::new();
    let mut out = Outbox::new();
    let mut rng = TickRng::new(3);
    handle_inbox_talk(&mut agent, &me, &world, &mut ctrl, &mut out, &mut rng);
    assert_eq!(
        out.events,
        vec![OutEvent::Chat {
            to: None,
            line: ChatLine::PersonNearby {
                person: 4,
                dist: DistanceBucket::NextTo,
                dir: CompassDir::NorthEast,
            },
        }]
    );

    // Beyond near range: they have traveled elsewhere.
    let mut agent2 = base_agent();
    agent2.inbox.push(AgentEvent::Talk {
        by: 2,
        subject: Subject::Person(PersonQuery {
            name: 4,
            origin: Some(Pos { x: 0, y: 5000, z: 0 }),
        }),
    });
    let mut ctrl2 = Controller::new();
    let mut out2 = Outbox::new();
    let mut rng2 = TickRng::new(3);
    handle_inbox_talk(&mut agent2, &me, &world, &mut ctrl2, &mut out2, &mut rng2);
    assert_eq!(
        out2.events,
        vec![OutEvent::Chat { to: None, line: ChatLine::PersonTravelled { person: 4 } }]
    );

    // Unknown position: plain ignorance.
    let mut agent3 = base_agent();
    agent3.inbox.push(AgentEvent::Talk {
        by: 2,
        subject: Subject::Person(PersonQuery { name: 4, origin: None }),
    });
    let mut ctrl3 = Controller::new();
    let mut out3 = Outbox::new();
    let mut rng3 = TickRng::new(3);
    handle_inbox_talk(&mut agent3, &me, &world, &mut ctrl3, &mut out3, &mut rng3);
    assert_eq!(
        out3.events,
        vec![OutEvent::Chat { to: None, line: ChatLine::PersonUnknown { person: 4 } }]
    );
}

#[test]
fn mute_agent_consumes_talk_silently() {
    let mut agent = base_agent();
    agent.behavior.can_speak = false;
    agent.inbox.push(AgentEvent::Talk { by: 2, subject: Subject::Regular });
    let me = me_with_profile(None);
    let world = world_with(vec![sender(2, None)]);
    let mut ctrl = Controller::new();
    let mut out = Outbox::new();
    let mut rng = TickRng::new(3);
    handle_inbox_talk(&mut agent, &me, &world, &mut ctrl, &mut out, &mut rng);
    assert!(agent.inbox.is_empty());
    assert!(out.events.is_empty());
    assert!(agent.target.is_none());
}

#[test]
fn work_subject_draws_no_response() {
    let mut agent = base_agent();
    agent.inbox.push(AgentEvent::Talk { by: 2, subject: Subject::Work });
    let me = me_with_profile(None);
    let world = world_with(vec![sender(2, None)]);
    let mut ctrl = Controller::new();
    let mut out = Outbox::new();
    let mut rng = TickRng::new(3);
    handle_inbox_talk(&mut agent, &me, &world, &mut ctrl, &mut out, &mut rng);
    assert!(out.events.is_empty());
    assert!(agent.inbox.is_empty());
}

#[test]
fn regular_greeting_advertises_trade_when_idle() {
    let mut agent = base_agent();
    agent.behavior.can_trade = true;
    agent.inbox.push(AgentEvent::Talk { by: 2, subject: Subject::Regular });
    let me = me_with_profile(None);
    let world = world_with(vec![sender(2, None)]);
    let mut ctrl = Controller::new();
    let mut out = Outbox::new();
    let mut rng = TickRng::new(3);
    handle_inbox_talk(&mut agent, &me, &world, &mut ctrl, &mut out, &mut rng);
    assert_eq!(
        out.events,
        vec![OutEvent::Chat { to: None, line: ChatLine::MerchantAdvertisement }]
    );
    assert!(ctrl.events.contains(&npc_behavior::control::ControlEvent::InitiateInvite {
        to: 2,
        kind: npc_behavior::control::InviteKind::Trade,
    }));
}

#[test]
fn regular_greeting_while_trading_is_rude_only_by_trait() {
    // A disagreeable busy merchant brushes the greeting off rudely.
    let mut agent = base_agent();
    agent.behavior.can_trade = true;
    agent.behavior.trade_role = Some(npc_behavior::trade::TradeParty::Issuer);
    agent.inbox.push(AgentEvent::Talk { by: 2, subject: Subject::Regular });
    let me = me_with_profile(Some(profile(vec![PersonalityTrait::Disagreeable], vec![], None)));
    let world = world_with(vec![sender(2, None)]);
    let mut ctrl = Controller::new();
    let mut out = Outbox::new();
    let mut rng = TickRng::new(3);
    handle_inbox_talk(&mut agent, &me, &world, &mut ctrl, &mut out, &mut rng);
    assert_eq!(out.events, vec![OutEvent::Chat { to: None, line: ChatLine::MerchantBusyRude }]);

    // An even-tempered busy merchant stays polite.
    let mut agent2 = base_agent();
    agent2.behavior.can_trade = true;
    agent2.behavior.trade_role = Some(npc_behavior::trade::TradeParty::Issuer);
    agent2.inbox.push(AgentEvent::Talk { by: 2, subject: Subject::Regular });
    let me2 = me_with_profile(Some(profile(vec![PersonalityTrait::Agreeable], vec![], None)));
    let mut ctrl2 = Controller::new();
    let mut out2 = Outbox::new();
    let mut rng2 = TickRng::new(3);
    handle_inbox_talk(&mut agent2, &me2, &world, &mut ctrl2, &mut out2, &mut rng2);
    assert_eq!(out2.events, vec![OutEvent::Chat { to: None, line: ChatLine::MerchantBusy }]);
}
