//! The combat decision engine: flee episodes and the distress-call gate,
//! relief over dead enemies, disengage policy, menace before aggro,
//! attack after it, and the retarget cooldown.

use npc_behavior::agent::{Agent, Behavior, InteractionTimer, Psyche, SelfData, Target};
use npc_behavior::combat::{do_combat, stop_pursuing};
use npc_behavior::consts::{FLEE_SPOKE_MARK_MS, RETARGET_COOLDOWN_MS};
use npc_behavior::control::{
    ChatLine, Controller, MovementIntent, Outbox, OutEvent,
};
use npc_behavior::world::{
    Alignment, EntityInfo, Health, Pos, Vel, WorldSnapshot,
};

fn psyche() -> Psyche {
    Psyche {
        aggro_dist: Some(500),
        flee_health_permille: 200,
        leash_dist: 1000,
        give_up_ms: 60_000,
    }
}

fn agent_with_target(t: Target) -> Agent {
    Agent {
        target: Some(t),
        inbox: vec![],
        timer: InteractionTimer { started_at: None },
        action_timer: 0,
        behavior: Behavior { can_speak: true, can_trade: false, trade_role: None },
        psyche: psyche(),
        patrol_origin: None,
        sounds_heard: vec![],
        memory_out: vec![],
    }
}

fn me_with_health(current: u32, max: u32) -> SelfData {
    SelfData {
        id: 1,
        pos: Pos { x: 0, y: 0, z: 0 },
        vel: Vel { x: 0, y: 0, z: 0 },
        health: Some(Health { current, max, last_change: None }),
        alignment: Some(Alignment::Npc),
        body: None,
        on_fire: false,
        on_ground: true,
        can_fly: false,
        glider_equipped: false,
        has_healing_item: false,
        travel_to: None,
        profile: None,
    }
}

fn enemy(id: u64, p: Pos, current: u32) -> EntityInfo {
    EntityInfo {
        id,
        pos: Some(p),
        health: Some(Health { current, max: 100, last_change: None }),
        alignment: Some(Alignment::Enemy),
        body: None,
        invulnerable: false,
        name: None,
    }
}

fn world_at(time: u64, entities: Vec<EntityInfo>) -> WorldSnapshot {
    WorldSnapshot { time, dt: 100, entities }
}

#[test]
fn flee_episode_cries_once_then_runs() {
    // Health fraction one tenth, below the flee threshold; the threat is
    // within the maximum flee distance; the scratch timer is zero.
    let me = me_with_health(10, 100);
    let world = world_at(1000, vec![enemy(9, Pos { x: 100, y: 0, z: 0 }, 100)]);
    let mut agent = agent_with_target(Target {
        entity: 9,
        hostile: true,
        selected_at: 900,
        aggro_on: true,
    });

    // First tick: one distress call, a non-zero timer, and no movement.
    let mut ctrl = Controller::new();
    let mut out = Outbox::new();
    do_combat(&mut agent, &me, &world, &mut ctrl, &mut out);
    assert_eq!(out.events, vec![OutEvent::DistressCall]);
    assert_eq!(agent.action_timer, FLEE_SPOKE_MARK_MS);
    assert!(agent.action_timer > 0);
    assert!(ctrl.movement.is_none());
    assert!(agent.target.is_some());

    // Second tick: fleeing begins, and no second distress call.
    let world2 = world_at(1100, vec![enemy(9, Pos { x: 100, y: 0, z: 0 }, 100)]);
    let mut ctrl2 = Controller::new();
    let mut out2 = Outbox::new();
    do_combat(&mut agent, &me, &world2, &mut ctrl2, &mut out2);
    assert!(out2.events.is_empty());
    assert_eq!(ctrl2.movement, Some(MovementIntent::Flee { from: Pos { x: 100, y: 0, z: 0 } }));
    assert_eq!(agent.action_timer, FLEE_SPOKE_MARK_MS + 100);
}

#[test]
fn flee_gives_up_beyond_bounds() {
    // Past the flee duration: the agent gives up, clears its target and
    // resets the episode timer.
    let me = me_with_health(10, 100);
    let world = world_at(10_000, vec![enemy(9, Pos { x: 100, y: 0, z: 0 }, 100)]);
    let mut agent = agent_with_target(Target {
        entity: 9,
        hostile: true,
        selected_at: 900,
        aggro_on: true,
    });
    agent.action_timer = 5_000;
    let mut ctrl = Controller::new();
    let mut out = Outbox::new();
    do_combat(&mut agent, &me, &world, &mut ctrl, &mut out);
    assert!(agent.target.is_none());
    assert_eq!(agent.action_timer, 0);
    assert_eq!(ctrl.movement, Some(MovementIntent::Wander));
    assert!(out.events.is_empty());
}

#[test]
fn dead_target_draws_relief_and_clears() {
    let me = me_with_health(90, 100);
    let world = world_at(1000, vec![enemy(9, Pos { x: 100, y: 0, z: 0 }, 0)]);
    let mut agent = agent_with_target(Target {
        entity: 9,
        hostile: true,
        selected_at: 900,
        aggro_on: true,
    });
    let mut ctrl = Controller::new();
    let mut out = Outbox::new();
    do_combat(&mut agent, &me, &world, &mut ctrl, &mut out);
    assert_eq!(out.events, vec![OutEvent::Chat { to: None, line: ChatLine::EnemyDefeated }]);
    assert!(agent.target.is_none());
}

#[test]
fn leash_disengages_far_from_patrol_origin() {
    let me = me_with_health(90, 100);
    let world = world_at(1000, vec![enemy(9, Pos { x: 100, y: 0, z: 0 }, 100)]);
    let mut agent = agent_with_target(Target {
        entity: 9,
        hostile: true,
        selected_at: 900,
        aggro_on: true,
    });
    // Dragged 2000 units from home with a 1000-unit leash.
    agent.patrol_origin = Some(Pos { x: 2000, y: 0, z: 0 });
    let mut ctrl = Controller::new();
    let mut out = Outbox::new();
    do_combat(&mut agent, &me, &world, &mut ctrl, &mut out);
    assert!(agent.target.is_none());
    assert_eq!(ctrl.movement, Some(MovementIntent::Wander));
    assert!(out.events.is_empty());
}

#[test]
fn menace_before_aggro_latches() {
    // The target sits outside the aggro radius and aggro never latched:
    // the agent menaces instead of attacking.
    let me = me_with_health(90, 100);
    let world = world_at(1000, vec![enemy(9, Pos { x: 600, y: 0, z: 0 }, 100)]);
    let mut agent = agent_with_target(Target {
        entity: 9,
        hostile: true,
        selected_at: 900,
        aggro_on: false,
    });
    let mut ctrl = Controller::new();
    let mut out = Outbox::new();
    do_combat(&mut agent, &me, &world, &mut ctrl, &mut out);
    assert_eq!(ctrl.movement, Some(MovementIntent::Menace { target: 9 }));
    let t = agent.target.expect("the target is kept");
    assert!(!t.aggro_on);
}

#[test]
fn aggro_latches_in_range_and_attacks() {
    let me = me_with_health(90, 100);
    let world = world_at(1000, vec![enemy(9, Pos { x: 100, y: 0, z: 0 }, 100)]);
    let mut agent = agent_with_target(Target {
        entity: 9,
        hostile: true,
        selected_at: 900,
        aggro_on: false,
    });
    let mut ctrl = Controller::new();
    let mut out = Outbox::new();
    do_combat(&mut agent, &me, &world, &mut ctrl, &mut out);
    assert_eq!(ctrl.movement, Some(MovementIntent::Attack { target: 9 }));
    let t = agent.target.expect("the target is kept");
    assert!(t.aggro_on);
}

#[test]
fn aggro_is_sticky_outside_range() {
    // Once latched, leaving the aggro radius mid-encounter does not
    // unlatch: the agent still attacks.
    let me = me_with_health(90, 100);
    let world = world_at(1000, vec![enemy(9, Pos { x: 600, y: 0, z: 0 }, 100)]);
    let mut agent = agent_with_target(Target {
        entity: 9,
        hostile: true,
        selected_at: 990,
        aggro_on: true,
    });
    let mut ctrl = Controller::new();
    let mut out = Outbox::new();
    do_combat(&mut agent, &me, &world, &mut ctrl, &mut out);
    assert_eq!(ctrl.movement, Some(MovementIntent::Attack { target: 9 }));
    assert!(agent.target.expect("kept").aggro_on);
}

#[test]
fn no_retarget_within_cooldown() {
    // A nearer hostile is available, the held target is out of aggro
    // range, but the cooldown since selection has not elapsed: the focus
    // must not move.
    let me = me_with_health(90, 100);
    let t0: u64 = 1000;
    let world = world_at(
        t0 + RETARGET_COOLDOWN_MS,
        vec![
            enemy(9, Pos { x: 600, y: 0, z: 0 }, 100),
            enemy(5, Pos { x: 50, y: 0, z: 0 }, 100),
        ],
    );
    let mut agent = agent_with_target(Target {
        entity: 9,
        hostile: true,
        selected_at: t0,
        aggro_on: false,
    });
    let mut ctrl = Controller::new();
    let mut out = Outbox::new();
    do_combat(&mut agent, &me, &world, &mut ctrl, &mut out);
    let t = agent.target.expect("the target is kept");
    assert_eq!(t.entity, 9);
    assert_eq!(t.selected_at, t0);
}

#[test]
fn retarget_after_cooldown_picks_nearest() {
    let me = me_with_health(90, 100);
    let t0: u64 = 1000;
    let now = t0 + RETARGET_COOLDOWN_MS + 1;
    let world = world_at(
        now,
        vec![
            enemy(9, Pos { x: 600, y: 0, z: 0 }, 100),
            enemy(5, Pos { x: 50, y: 0, z: 0 }, 100),
        ],
    );
    let mut agent = agent_with_target(Target {
        entity: 9,
        hostile: true,
        selected_at: t0,
        aggro_on: false,
    });
    let mut ctrl = Controller::new();
    let mut out = Outbox::new();
    do_combat(&mut agent, &me, &world, &mut ctrl, &mut out);
    let t = agent.target.expect("a fresh target is chosen");
    assert_eq!(t.entity, 5);
    assert_eq!(t.selected_at, now);
    assert!(!t.aggro_on);
}

#[test]
fn stop_pursuing_policy_exact() {
    let p = psyche();
    // Inside the leash, short chase: keep pursuing.
    assert!(!stop_pursuing(100, 100, 900, 500, 1000, &p));
    // Beyond the leash around the patrol origin: break off.
    assert!(stop_pursuing(100, 1_000_001, 900, 500, 1000, &p));
    // A long chase against a target in better shape: break off.
    assert!(stop_pursuing(100, 100, 400, 900, 60_001, &p));
    // A long chase against a weaker target: keep going.
    assert!(!stop_pursuing(100, 100, 900, 400, 60_001, &p));
}

#[test]
fn hurt_event_in_combat_is_consumed() {
    // Pick a seed whose single draw utters in pain.
    let mut seed: u64 = 0;
    loop {
        if npc_behavior::rng::TickRng::new(seed).chance_permille(400) {
            break;
        }
        seed += 1;
    }
    let world = world_at(1000, vec![enemy(9, Pos { x: 100, y: 0, z: 0 }, 100)]);
    let mut agent = agent_with_target(Target {
        entity: 9,
        hostile: true,
        selected_at: 900,
        aggro_on: true,
    });
    agent.inbox.push(npc_behavior::events::AgentEvent::Hurt);
    let mut ctrl = Controller::new();
    let mut rng = npc_behavior::rng::TickRng::new(seed);
    npc_behavior::combat::hurt_utterance(&mut agent, &world, &mut ctrl, &mut rng);
    assert!(agent.inbox.is_empty());
    assert!(ctrl.events.contains(&npc_behavior::control::ControlEvent::Utterance(
        npc_behavior::control::UtteranceKind::Hurt
    )));
}

#[test]
fn interaction_timer_semantics() {
    let mut timer = InteractionTimer { started_at: None };
    // Not running: polling reports it plainly out.
    assert_eq!(timer.poll(1000, 3000), Some(false));
    // Starting twice keeps the first start.
    timer.start(1000);
    timer.start(2000);
    assert_eq!(timer.started_at, Some(1000));
    // Within the timeout the timer runs.
    assert_eq!(timer.poll(4000, 3000), None);
    // Past the timeout it reports the elapse once and clears.
    assert_eq!(timer.poll(4001, 3000), Some(true));
    assert_eq!(timer.poll(4001, 3000), Some(false));
}
