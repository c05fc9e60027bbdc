//! Whole-tree ticks through the public run entry: the idle-fallback
//! guarantee, target upkeep, reflexes, interaction timing and the pet
//! subtree.

use npc_behavior::agent::{Agent, Behavior, InteractionTimer, Psyche, SelfData, Target};
use npc_behavior::control::{
    ControlAction, ControlEvent, Controller, HandledState, InviteResponse, MovementIntent, Outbox,
};
use npc_behavior::events::{AgentEvent, Sound};
use npc_behavior::rng::TickRng;
use npc_behavior::tree::BehaviorTree;
use npc_behavior::world::{
    Alignment, BodyKind, EntityInfo, Health, HealthChange, Pos, Vel, WorldSnapshot,
};

fn base_agent() -> Agent {
    Agent {
        target: None,
        inbox: vec![],
        timer: InteractionTimer { started_at: None },
        action_timer: 0,
        behavior: Behavior { can_speak: true, can_trade: false, trade_role: None },
        psyche: Psyche {
            aggro_dist: Some(500),
            flee_health_permille: 200,
            leash_dist: 1000,
            give_up_ms: 60_000,
        },
        patrol_origin: None,
        sounds_heard: vec![],
        memory_out: vec![],
    }
}

fn base_me() -> SelfData {
    SelfData {
        id: 1,
        pos: Pos { x: 0, y: 0, z: 0 },
        vel: Vel { x: 0, y: 0, z: 0 },
        health: Some(Health { current: 100, max: 100, last_change: None }),
        alignment: None,
        body: Some(BodyKind::Humanoid),
        on_fire: false,
        on_ground: true,
        can_fly: false,
        glider_equipped: false,
        has_healing_item: false,
        travel_to: None,
        profile: None,
    }
}

fn entity(id: u64, p: Pos) -> EntityInfo {
    EntityInfo {
        id,
        pos: Some(p),
        health: Some(Health { current: 100, max: 100, last_change: None }),
        alignment: Some(Alignment::Npc),
        body: None,
        invulnerable: false,
        name: None,
    }
}

fn world_at(time: u64, entities: Vec<EntityInfo>) -> WorldSnapshot {
    WorldSnapshot { time, dt: 100, entities }
}

#[test]
fn every_tick_is_handled() {
    // An empty-handed idle agent in an empty world: the idle fallback
    // still reports the tick handled.
    let mut agent = base_agent();
    let me = base_me();
    let world = world_at(1000, vec![]);
    let mut ctrl = Controller::new();
    let mut out = Outbox::new();
    let mut rng = TickRng::new(1);
    let r = BehaviorTree::root().run(&mut agent, &me, &world, &mut ctrl, &mut out, &mut rng);
    assert_eq!(r, HandledState::Handled);
}

#[test]
fn dead_hostile_target_is_gone_by_tick_end() {
    let mut agent = base_agent();
    agent.target = Some(Target { entity: 9, hostile: true, selected_at: 900, aggro_on: true });
    let me = base_me();
    let mut corpse = entity(9, Pos { x: 100, y: 0, z: 0 });
    corpse.health = Some(Health { current: 0, max: 100, last_change: None });
    let world = world_at(1000, vec![corpse]);
    let mut ctrl = Controller::new();
    let mut out = Outbox::new();
    let mut rng = TickRng::new(1);
    let r = BehaviorTree::root().run(&mut agent, &me, &world, &mut ctrl, &mut out, &mut rng);
    assert_eq!(r, HandledState::Handled);
    assert!(agent.target.is_none());
}

#[test]
fn dangerous_fall_takes_priority() {
    let mut agent = base_agent();
    // Even with a dead hostile target held, the falling reflex consumes
    // the tick first.
    agent.target = Some(Target { entity: 9, hostile: true, selected_at: 900, aggro_on: true });
    let mut me = base_me();
    me.vel = Vel { x: 0, y: 0, z: -250 };
    me.can_fly = true;
    let world = world_at(1000, vec![]);
    let mut ctrl = Controller::new();
    let mut out = Outbox::new();
    let mut rng = TickRng::new(1);
    let r = BehaviorTree::root().run(&mut agent, &me, &world, &mut ctrl, &mut out, &mut rng);
    assert_eq!(r, HandledState::Handled);
    assert_eq!(ctrl.movement, Some(MovementIntent::FlyUpward));
    assert!(agent.target.is_some());
}

#[test]
fn glider_breaks_the_fall_without_wings() {
    let mut agent = base_agent();
    let mut me = base_me();
    me.vel = Vel { x: 0, y: 0, z: -250 };
    me.glider_equipped = true;
    let world = world_at(1000, vec![]);
    let mut ctrl = Controller::new();
    let mut out = Outbox::new();
    let mut rng = TickRng::new(1);
    BehaviorTree::root().run(&mut agent, &me, &world, &mut ctrl, &mut out, &mut rng);
    assert_eq!(ctrl.movement, Some(MovementIntent::GlideFall));
}

#[test]
fn burning_grounded_humanoid_rolls() {
    let mut agent = base_agent();
    let mut me = base_me();
    me.on_fire = true;
    let mut world = world_at(1000, vec![]);
    // A delta this long drives the roll chance to certainty.
    world.dt = 60_000;
    let mut ctrl = Controller::new();
    let mut out = Outbox::new();
    let mut rng = TickRng::new(1);
    let r = BehaviorTree::root().run(&mut agent, &me, &world, &mut ctrl, &mut out, &mut rng);
    assert_eq!(r, HandledState::Handled);
    assert_eq!(ctrl.movement, Some(MovementIntent::RollForward));
}

#[test]
fn recent_attacker_becomes_hostile_target() {
    let mut agent = base_agent();
    let mut me = base_me();
    me.health = Some(Health {
        current: 80,
        max: 100,
        last_change: Some(HealthChange { time: 950, by: Some(7), harmful: true }),
    });
    let mut attacker = entity(7, Pos { x: 200, y: 0, z: 0 });
    attacker.alignment = Some(Alignment::Enemy);
    let world = world_at(1000, vec![attacker]);
    let mut ctrl = Controller::new();
    let mut out = Outbox::new();
    let mut rng = TickRng::new(1);
    BehaviorTree::root().run(&mut agent, &me, &world, &mut ctrl, &mut out, &mut rng);
    let t = agent.target.expect("the attacker is targeted");
    assert_eq!(t.entity, 7);
    assert!(t.hostile);
    assert!(t.aggro_on);
    assert_eq!(t.selected_at, 1000);
    // The first hostile encounter vents an angry utterance.
    assert!(ctrl.events.contains(&ControlEvent::Utterance(
        npc_behavior::control::UtteranceKind::Angry
    )));
}

#[test]
fn trade_invite_accepted_when_idle() {
    let mut agent = base_agent();
    agent.behavior.can_trade = true;
    agent.inbox.push(AgentEvent::TradeInvite { by: 2 });
    let me = base_me();
    let world = world_at(1000, vec![entity(2, Pos { x: 50, y: 0, z: 0 })]);
    let mut ctrl = Controller::new();
    let mut out = Outbox::new();
    let mut rng = TickRng::new(1);
    BehaviorTree::root().run(&mut agent, &me, &world, &mut ctrl, &mut out, &mut rng);
    assert_eq!(
        agent.behavior.trade_role,
        Some(npc_behavior::trade::TradeParty::Counterparty)
    );
    assert!(ctrl.events.contains(&ControlEvent::InviteResponse(InviteResponse::Accept)));
    let t = agent.target.expect("the inviter is focused");
    assert_eq!(t.entity, 2);
    assert!(!t.hostile);
    // Handling the interaction started the interaction timer.
    assert_eq!(agent.timer.started_at, Some(1000));
}

#[test]
fn interaction_timeout_drops_the_stance() {
    let mut agent = base_agent();
    agent.timer = InteractionTimer { started_at: Some(0) };
    agent.target = Some(Target { entity: 2, hostile: false, selected_at: 0, aggro_on: false });
    let me = base_me();
    // Well past the non-trading timeout.
    let world = world_at(50_000, vec![entity(2, Pos { x: 50, y: 0, z: 0 })]);
    let mut ctrl = Controller::new();
    let mut out = Outbox::new();
    let mut rng = TickRng::new(1);
    BehaviorTree::root().run(&mut agent, &me, &world, &mut ctrl, &mut out, &mut rng);
    assert_eq!(agent.timer.started_at, None);
    assert!(ctrl.actions.contains(&ControlAction::Stand));
}

#[test]
fn conversational_stance_while_timer_runs() {
    let mut agent = base_agent();
    agent.timer = InteractionTimer { started_at: Some(900) };
    agent.target = Some(Target { entity: 2, hostile: false, selected_at: 900, aggro_on: false });
    let me = base_me();
    let world = world_at(1000, vec![entity(2, Pos { x: 50, y: 0, z: 0 })]);
    let mut ctrl = Controller::new();
    let mut rng = TickRng::new(1);
    npc_behavior::idle::handle_timer(&mut agent, &me, &world, &mut ctrl, &mut rng);
    assert_eq!(agent.timer.started_at, Some(900));
    assert!(ctrl.actions.contains(&ControlAction::Talk));
    assert_eq!(ctrl.look_at, Some(Pos { x: 50, y: 0, z: 0 }));
}

#[test]
fn ambient_sound_joins_the_heard_list() {
    // Pick a seed whose second draw re-selects a target, so the heard
    // list survives the same tick for inspection.
    let mut seed: u64 = 0;
    loop {
        let mut probe = TickRng::new(seed);
        probe.chance_permille(100);
        if probe.chance_permille(100) {
            break;
        }
        seed += 1;
    }
    let mut agent = base_agent();
    let s = Sound { pos: Pos { x: 30, y: 0, z: 0 }, vol_permille: 200, time: 900 };
    agent.inbox.push(AgentEvent::AmbientSound(s));
    let me = base_me();
    let world = world_at(1000, vec![]);
    let mut ctrl = Controller::new();
    let mut out = Outbox::new();
    let mut rng = TickRng::new(seed);
    BehaviorTree::root().run(&mut agent, &me, &world, &mut ctrl, &mut out, &mut rng);
    assert!(agent.inbox.is_empty());
    assert_eq!(agent.sounds_heard, vec![s]);
}

#[test]
fn loud_sound_startles_on_timeout_processing() {
    // Pick a seed whose second draw goes to sound processing instead of
    // re-targeting.
    let mut seed: u64 = 0;
    loop {
        let mut probe = TickRng::new(seed);
        probe.chance_permille(100);
        if !probe.chance_permille(100) {
            break;
        }
        seed += 1;
    }
    let mut agent = base_agent();
    agent.sounds_heard.push(Sound {
        pos: Pos { x: 30, y: 0, z: 0 },
        vol_permille: 900,
        time: 900,
    });
    let me = base_me();
    let world = world_at(1000, vec![]);
    let mut ctrl = Controller::new();
    let mut out = Outbox::new();
    let mut rng = TickRng::new(seed);
    BehaviorTree::root().run(&mut agent, &me, &world, &mut ctrl, &mut out, &mut rng);
    assert!(agent.sounds_heard.is_empty());
    assert_eq!(ctrl.movement, Some(MovementIntent::Flee { from: Pos { x: 30, y: 0, z: 0 } }));
}

#[test]
fn hurt_event_is_consumed_idle() {
    let mut seed: u64 = 0;
    // Pick a seed whose second draw utters in pain (the first draw goes
    // to the owner-focus chance).
    loop {
        let mut probe = TickRng::new(seed);
        probe.chance_permille(100);
        if probe.chance_permille(400) {
            break;
        }
        seed += 1;
    }
    let mut agent = base_agent();
    agent.inbox.push(AgentEvent::Hurt);
    let me = base_me();
    let world = world_at(1000, vec![]);
    let mut ctrl = Controller::new();
    let mut out = Outbox::new();
    let mut rng = TickRng::new(seed);
    BehaviorTree::root().run(&mut agent, &me, &world, &mut ctrl, &mut out, &mut rng);
    assert!(agent.inbox.is_empty());
    assert!(ctrl.events.contains(&ControlEvent::Utterance(
        npc_behavior::control::UtteranceKind::Hurt
    )));
}

#[test]
fn loot_is_picked_up_in_range() {
    let mut agent = base_agent();
    agent.target = Some(Target { entity: 4, hostile: false, selected_at: 900, aggro_on: false });
    let me = base_me();
    let mut drop = entity(4, Pos { x: 10, y: 0, z: 0 });
    drop.body = Some(BodyKind::ItemDrop);
    drop.health = None;
    let world = world_at(1000, vec![drop]);
    let mut ctrl = Controller::new();
    let mut out = Outbox::new();
    let mut rng = TickRng::new(1);
    BehaviorTree::root().run(&mut agent, &me, &world, &mut ctrl, &mut out, &mut rng);
    assert!(ctrl.events.contains(&ControlEvent::PickupItem { from: 4 }));
}

#[test]
fn distant_loot_is_walked_to() {
    let mut agent = base_agent();
    agent.target = Some(Target { entity: 4, hostile: false, selected_at: 900, aggro_on: false });
    let me = base_me();
    let mut drop = entity(4, Pos { x: 100, y: 0, z: 0 });
    drop.body = Some(BodyKind::ItemDrop);
    drop.health = None;
    let world = world_at(1000, vec![drop]);
    let mut ctrl = Controller::new();
    let mut out = Outbox::new();
    let mut rng = TickRng::new(1);
    BehaviorTree::root().run(&mut agent, &me, &world, &mut ctrl, &mut out, &mut rng);
    assert_eq!(
        ctrl.movement,
        Some(MovementIntent::ChaseTo {
            dest: Pos { x: 100, y: 0, z: 0 },
            min_dist: npc_behavior::consts::PICKUP_STOP_RANGE,
        })
    );
}

#[test]
fn pet_follows_distant_owner() {
    let mut agent = base_agent();
    agent.target = Some(Target { entity: 3, hostile: false, selected_at: 900, aggro_on: false });
    let mut me = base_me();
    me.alignment = Some(Alignment::Owned(3));
    let world = world_at(1000, vec![entity(3, Pos { x: 200, y: 0, z: 0 })]);
    let mut ctrl = Controller::new();
    let mut out = Outbox::new();
    let mut rng = TickRng::new(1);
    BehaviorTree::root().run(&mut agent, &me, &world, &mut ctrl, &mut out, &mut rng);
    assert_eq!(
        ctrl.movement,
        Some(MovementIntent::ChaseTo {
            dest: Pos { x: 200, y: 0, z: 0 },
            min_dist: npc_behavior::consts::MAX_FOLLOW_DIST,
        })
    );
}

#[test]
fn pet_defends_hurt_owner() {
    let mut agent = base_agent();
    agent.target = Some(Target { entity: 3, hostile: false, selected_at: 900, aggro_on: false });
    let mut me = base_me();
    me.alignment = Some(Alignment::Owned(3));
    let mut owner = entity(3, Pos { x: 50, y: 0, z: 0 });
    owner.health = Some(Health {
        current: 60,
        max: 100,
        last_change: Some(HealthChange { time: 990, by: Some(9), harmful: true }),
    });
    let mut attacker = entity(9, Pos { x: 80, y: 0, z: 0 });
    attacker.alignment = Some(Alignment::Enemy);
    let world = world_at(1000, vec![owner, attacker]);
    let mut ctrl = Controller::new();
    let mut out = Outbox::new();
    let mut rng = TickRng::new(1);
    BehaviorTree::root().run(&mut agent, &me, &world, &mut ctrl, &mut out, &mut rng);
    let t = agent.target.expect("the owner's attacker is targeted");
    assert_eq!(t.entity, 9);
    assert!(t.hostile);
    assert_eq!(ctrl.movement, Some(MovementIntent::Attack { target: 9 }));
}

#[test]
fn untargeted_pet_drifts_toward_owner() {
    // Pick a seed whose first draw hits the owner-focus chance.
    let mut seed: u64 = 0;
    loop {
        if TickRng::new(seed).chance_permille(100) {
            break;
        }
        seed += 1;
    }
    let mut agent = base_agent();
    let mut me = base_me();
    me.alignment = Some(Alignment::Owned(3));
    let world = world_at(1000, vec![entity(3, Pos { x: 50, y: 0, z: 0 })]);
    let mut ctrl = Controller::new();
    let mut out = Outbox::new();
    let mut rng = TickRng::new(seed);
    BehaviorTree::root().run(&mut agent, &me, &world, &mut ctrl, &mut out, &mut rng);
    let t = agent.target.expect("the owner is focused");
    assert_eq!(t.entity, 3);
    assert!(!t.hostile);
}

#[test]
fn stray_focus_is_dropped_by_forced_untarget() {
    // A non-hostile, non-pet, non-loot focus is forcibly dropped when
    // the target list runs.
    let mut agent = base_agent();
    agent.target = Some(Target { entity: 2, hostile: false, selected_at: 900, aggro_on: false });
    let me = base_me();
    let world = world_at(1000, vec![entity(2, Pos { x: 50, y: 0, z: 0 })]);
    let mut ctrl = Controller::new();
    let mut out = Outbox::new();
    let mut rng = TickRng::new(1);
    let r = BehaviorTree::root().run(&mut agent, &me, &world, &mut ctrl, &mut out, &mut rng);
    assert_eq!(r, HandledState::Handled);
    assert!(agent.target.is_none());
}

#[test]
fn hurt_agent_with_potion_heals_first() {
    let mut agent = base_agent();
    agent.target = Some(Target { entity: 9, hostile: true, selected_at: 900, aggro_on: true });
    let mut me = base_me();
    me.health = Some(Health { current: 30, max: 100, last_change: None });
    me.has_healing_item = true;
    let mut foe = entity(9, Pos { x: 100, y: 0, z: 0 });
    foe.alignment = Some(Alignment::Enemy);
    let world = world_at(1000, vec![foe]);
    let mut ctrl = Controller::new();
    let mut out = Outbox::new();
    let mut rng = TickRng::new(1);
    BehaviorTree::root().run(&mut agent, &me, &world, &mut ctrl, &mut out, &mut rng);
    assert!(ctrl.events.contains(&ControlEvent::UseHealingItem));
    // Healing consumed the hostile subtree's tick: no combat movement.
    assert!(ctrl.movement.is_none());
    assert_eq!(agent.action_timer, npc_behavior::consts::HEAL_MARK_MS);
}

#[test]
fn attacker_outranks_farther_held_target() {
    // Attack history dominates proximity: the entity that just hurt the
    // agent takes the focus from a nearer, quieter foe.
    let mut agent = base_agent();
    agent.target = Some(Target { entity: 7, hostile: true, selected_at: 900, aggro_on: true });
    let mut me = base_me();
    me.health = Some(Health {
        current: 80,
        max: 100,
        last_change: Some(HealthChange { time: 950, by: Some(9), harmful: true }),
    });
    let mut near_foe = entity(7, Pos { x: 50, y: 0, z: 0 });
    near_foe.alignment = Some(Alignment::Enemy);
    let mut far_attacker = entity(9, Pos { x: 400, y: 0, z: 0 });
    far_attacker.alignment = Some(Alignment::Enemy);
    let world = world_at(1000, vec![near_foe, far_attacker]);
    let mut ctrl = Controller::new();
    let mut out = Outbox::new();
    let mut rng = TickRng::new(1);
    BehaviorTree::root().run(&mut agent, &me, &world, &mut ctrl, &mut out, &mut rng);
    let t = agent.target.expect("the attacker is targeted");
    assert_eq!(t.entity, 9);
    assert_eq!(t.selected_at, 1000);
}

#[test]
fn repeat_hit_from_held_target_keeps_selection() {
    // The held target striking again ties on history and on proximity, so
    // the focus is not re-stamped: the selection time (and with it the
    // retarget cooldown) stands.
    let mut agent = base_agent();
    agent.target = Some(Target { entity: 9, hostile: true, selected_at: 600, aggro_on: true });
    let mut me = base_me();
    me.health = Some(Health {
        current: 80,
        max: 100,
        last_change: Some(HealthChange { time: 950, by: Some(9), harmful: true }),
    });
    let mut foe = entity(9, Pos { x: 100, y: 0, z: 0 });
    foe.alignment = Some(Alignment::Enemy);
    let world = world_at(1000, vec![foe]);
    let mut ctrl = Controller::new();
    let mut out = Outbox::new();
    let mut rng = TickRng::new(1);
    BehaviorTree::root().run(&mut agent, &me, &world, &mut ctrl, &mut out, &mut rng);
    let t = agent.target.expect("the focus stands");
    assert_eq!(t.entity, 9);
    assert_eq!(t.selected_at, 600);
}
