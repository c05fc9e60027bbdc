//! Inbox handlers of the trade protocol: invites, acceptance, completion
//! and the offer-balancing update step.

use vstd::prelude::*;
use crate::agent::{agent_frame, Agent, Target};
use crate::control::{
    ChatLine, ControlAction, ControlEvent, Controller, HandledState, InviteResponse, OutEvent,
    Outbox,
};
use crate::events::AgentEvent;
use crate::trade::{
    spec_balance, TradeAction, TradeParty, TradePhase, TradeResult,
};
use crate::world::{spec_lookup, WorldSnapshot};

verus! {

/// Answer a trade invite: while able and idle, accept, focus the inviter
/// and become the counterparty; while already trading, decline with a
/// busy notice; while unable to trade at all, decline with a courtesy
/// notice. Consumes the tick whenever the front event is a trade invite.
pub fn handle_inbox_trade_invite(
    agent: &mut Agent,
    world: &WorldSnapshot,
    ctrl: &mut Controller,
    out: &mut Outbox,
) -> (r: HandledState)
    requires
        crate::world::world_wf(*world),
        crate::agent::agent_wf(*old(agent), world.time),
    ensures
        crate::agent::agent_wf(*final(agent), world.time),
        agent_frame(*old(agent), *final(agent)),
        final(agent).timer == old(agent).timer,
        final(agent).action_timer == old(agent).action_timer,
        final(agent).sounds_heard == old(agent).sounds_heard,
        final(agent).memory_out == old(agent).memory_out,
        final(ctrl).movement == old(ctrl).movement,
        final(ctrl).look_at == old(ctrl).look_at,
        ({
            let fronted = old(agent).inbox@.len() > 0 && old(agent).inbox@[0] is TradeInvite;
            let by = old(agent).inbox@[0]->TradeInvite_by;
            let b = old(agent).behavior;
            &&& r == if fronted {
                HandledState::Handled
            } else {
                HandledState::Continue
            }
            &&& final(agent).inbox@ == if fronted {
                old(agent).inbox@.remove(0)
            } else {
                old(agent).inbox@
            }
            &&& final(agent).behavior == if fronted && b.can_trade && !b.spec_is_trading() {
                crate::agent::Behavior {
                    trade_role: Some(TradeParty::Counterparty),
                    ..b
                }
            } else {
                b
            }
            &&& final(agent).target == if fronted && b.can_trade && !b.spec_is_trading()
                && spec_lookup(*world, by) is Some {
                Some(Target { entity: by, hostile: false, selected_at: world.time, aggro_on: false })
            } else {
                old(agent).target
            }
            &&& final(ctrl).actions@ == if fronted && b.can_trade && !b.spec_is_trading() {
                old(ctrl).actions@.push(ControlAction::Stand).push(ControlAction::Talk)
            } else {
                old(ctrl).actions@
            }
            &&& final(ctrl).events@ == if fronted && b.can_trade && !b.spec_is_trading() {
                old(ctrl).events@.push(ControlEvent::InviteResponse(InviteResponse::Accept))
            } else if fronted {
                old(ctrl).events@.push(ControlEvent::InviteResponse(InviteResponse::Decline))
            } else {
                old(ctrl).events@
            }
            &&& final(out).events@ == if fronted && b.can_speak && (b.can_trade
                && b.spec_is_trading()) {
                old(out).events@.push(OutEvent::Chat { to: None, line: ChatLine::MerchantBusy })
            } else if fronted && b.can_speak && !b.can_trade {
                old(out).events@.push(OutEvent::Chat { to: None, line: ChatLine::DeclineTrade })
            } else {
                old(out).events@
            }
        }),
{
    if agent.inbox.len() == 0 {
        return HandledState::Continue;
    }
    let fronted: bool = match &agent.inbox[0] {
        AgentEvent::TradeInvite { .. } => true,
        _ => false,
    };
    if !fronted {
        return HandledState::Continue;
    }
    let ev: AgentEvent = agent.inbox.remove(0);
    proof {
        crate::events::lemma_inbox_tail_wf(old(agent).inbox@, agent.inbox@, world.time);
    }
    if let AgentEvent::TradeInvite { by } = ev {
        if agent.behavior.can_trade {
            if !agent.behavior.is_trading() {
                ctrl.push_action(ControlAction::Stand);
                ctrl.push_action(ControlAction::Talk);
                if world.lookup(by).is_some() {
                    agent.target = Some(Target::new(by, false, world.time, false));
                }
                ctrl.push_event(ControlEvent::InviteResponse(InviteResponse::Accept));
                agent.behavior.trade_role = Some(TradeParty::Counterparty);
            } else {
                ctrl.push_event(ControlEvent::InviteResponse(InviteResponse::Decline));
                if agent.allowed_to_speak() {
                    out.say(ChatLine::MerchantBusy);
                }
            }
        } else {
            ctrl.push_event(ControlEvent::InviteResponse(InviteResponse::Decline));
            if agent.allowed_to_speak() {
                out.say(ChatLine::DeclineTrade);
            }
        }
    }
    HandledState::Handled
}

/// Note the counterparty's acceptance of this agent's invite: focus them
/// and become the issuer, unless a trade is already in progress. Consumes
/// the tick whenever the front event is a trade acceptance.
pub fn handle_inbox_trade_accepted(
    agent: &mut Agent,
    world: &WorldSnapshot,
) -> (r: HandledState)
    requires
        crate::world::world_wf(*world),
        crate::agent::agent_wf(*old(agent), world.time),
    ensures
        crate::agent::agent_wf(*final(agent), world.time),
        agent_frame(*old(agent), *final(agent)),
        final(agent).timer == old(agent).timer,
        final(agent).action_timer == old(agent).action_timer,
        final(agent).sounds_heard == old(agent).sounds_heard,
        final(agent).memory_out == old(agent).memory_out,
        ({
            let fronted = old(agent).inbox@.len() > 0 && old(agent).inbox@[0] is TradeAccepted;
            let by = old(agent).inbox@[0]->TradeAccepted_by;
            let b = old(agent).behavior;
            &&& r == if fronted {
                HandledState::Handled
            } else {
                HandledState::Continue
            }
            &&& final(agent).inbox@ == if fronted {
                old(agent).inbox@.remove(0)
            } else {
                old(agent).inbox@
            }
            &&& final(agent).behavior == if fronted && !b.spec_is_trading() {
                crate::agent::Behavior { trade_role: Some(TradeParty::Issuer), ..b }
            } else {
                b
            }
            &&& final(agent).target == if fronted && !b.spec_is_trading() && spec_lookup(
                *world,
                by,
            ) is Some {
                Some(Target { entity: by, hostile: false, selected_at: world.time, aggro_on: false })
            } else {
                old(agent).target
            }
        }),
{
    if agent.inbox.len() == 0 {
        return HandledState::Continue;
    }
    let fronted: bool = match &agent.inbox[0] {
        AgentEvent::TradeAccepted { .. } => true,
        _ => false,
    };
    if !fronted {
        return HandledState::Continue;
    }
    let ev: AgentEvent = agent.inbox.remove(0);
    proof {
        crate::events::lemma_inbox_tail_wf(old(agent).inbox@, agent.inbox@, world.time);
    }
    if let AgentEvent::TradeAccepted { by } = ev {
        if !agent.behavior.is_trading() {
            if world.lookup(by).is_some() {
                agent.target = Some(Target::new(by, false, world.time, false));
            }
            agent.behavior.trade_role = Some(TradeParty::Issuer);
        }
    }
    HandledState::Handled
}

/// Close out a finished trade: while trading, speak to the outcome and
/// clear the trading state. Consumes the tick whenever the front event
/// reports a finished trade.
pub fn handle_inbox_finished_trade(
    agent: &mut Agent,
    world: &WorldSnapshot,
    out: &mut Outbox,
) -> (r: HandledState)
    requires
        crate::agent::agent_wf(*old(agent), world.time),
    ensures
        crate::agent::agent_wf(*final(agent), world.time),
        agent_frame(*old(agent), *final(agent)),
        final(agent).target == old(agent).target,
        final(agent).timer == old(agent).timer,
        final(agent).action_timer == old(agent).action_timer,
        final(agent).sounds_heard == old(agent).sounds_heard,
        final(agent).memory_out == old(agent).memory_out,
        ({
            let fronted = old(agent).inbox@.len() > 0 && old(agent).inbox@[0] is FinishedTrade;
            let result = old(agent).inbox@[0]->FinishedTrade_result;
            let b = old(agent).behavior;
            &&& r == if fronted {
                HandledState::Handled
            } else {
                HandledState::Continue
            }
            &&& final(agent).inbox@ == if fronted {
                old(agent).inbox@.remove(0)
            } else {
                old(agent).inbox@
            }
            &&& final(agent).behavior == if fronted && b.spec_is_trading() {
                crate::agent::Behavior { trade_role: None, ..b }
            } else {
                b
            }
            &&& final(out).events@ == if fronted && b.spec_is_trading() {
                old(out).events@.push(
                    OutEvent::Chat {
                        to: None,
                        line: if result is Completed {
                            ChatLine::TradeSuccessful
                        } else {
                            ChatLine::TradeDeclined
                        },
                    },
                )
            } else {
                old(out).events@
            }
        }),
{
    if agent.inbox.len() == 0 {
        return HandledState::Continue;
    }
    let fronted: bool = match &agent.inbox[0] {
        AgentEvent::FinishedTrade { .. } => true,
        _ => false,
    };
    if !fronted {
        return HandledState::Continue;
    }
    let ev: AgentEvent = agent.inbox.remove(0);
    proof {
        crate::events::lemma_inbox_tail_wf(old(agent).inbox@, agent.inbox@, world.time);
    }
    if let AgentEvent::FinishedTrade { result } = ev {
        if agent.behavior.is_trading() {
            match result {
                TradeResult::Completed => out.say(ChatLine::TradeSuccessful),
                _ => out.say(ChatLine::TradeDeclined),
            }
            agent.behavior.trade_role = None;
        }
    }
    HandledState::Handled
}

/// The value offered to this agent under a trade update: the other
/// party's offer, reduced to its actual stock.
pub open spec fn spec_balance_in(ev: AgentEvent, my: TradeParty) -> int {
    spec_balance(
        ev->TradeUpdate_pending.spec_offer_of(my.spec_other()),
        ev->TradeUpdate_prices.prices@,
        ev->TradeUpdate_inventories.spec_of(my.spec_other()),
        true,
    )
}

/// The value this agent is asked to give under a trade update.
pub open spec fn spec_balance_out(ev: AgentEvent, my: TradeParty) -> int {
    spec_balance(
        ev->TradeUpdate_pending.spec_offer_of(my),
        ev->TradeUpdate_prices.prices@,
        ev->TradeUpdate_inventories.spec_of(my),
        false,
    )
}

/// Whom the coverage complaint is addressed to: the focused interlocutor
/// when one resolves in the snapshot, else nobody in particular.
pub open spec fn spec_chat_to(world: WorldSnapshot, old_t: Option<Target>) -> Option<
    crate::world::EntityId,
> {
    if old_t matches Some(t) && spec_lookup(world, t.entity) is Some {
        Some(old_t->Some_0.entity)
    } else {
        None
    }
}

/// The events a trade update appends: one accept when the offer is
/// favorable, not yet accepted and non-empty; else one coverage
/// complaint when a positive value is asked, and one decline when the
/// negotiation is already past the mutate phase.
pub open spec fn spec_trade_update_events(
    ev: AgentEvent,
    b: crate::agent::Behavior,
    to: Option<crate::world::EntityId>,
    old_events: Seq<OutEvent>,
) -> Seq<OutEvent> {
    match b.trade_role {
        None => old_events,
        Some(my) => {
            let pending = ev->TradeUpdate_pending;
            let bin = spec_balance_in(ev, my);
            let bout = spec_balance_out(ev, my);
            if bin >= bout {
                if !pending.spec_accepted(my) && !pending.spec_is_empty() {
                    old_events.push(
                        OutEvent::Trade {
                            trade_id: ev->TradeUpdate_trade_id,
                            action: TradeAction::Accept(pending.phase),
                        },
                    )
                } else {
                    old_events
                }
            } else {
                let with_chat = if bout > 0 {
                    old_events.push(
                        OutEvent::Chat {
                            to,
                            line: ChatLine::TradeCoverage { percent: (bin * 100 / bout) as u64 },
                        },
                    )
                } else {
                    old_events
                };
                if !(pending.phase is Mutate) {
                    with_chat.push(
                        OutEvent::Trade {
                            trade_id: ev->TradeUpdate_trade_id,
                            action: TradeAction::Decline,
                        },
                    )
                } else {
                    with_chat
                }
            }
        },
    }
}

/// The behavior a trade update leaves behind: trading state cleared
/// exactly by the unilateral decline of an unfavorable trade past the
/// mutate phase.
pub open spec fn spec_trade_update_behavior(
    ev: AgentEvent,
    b: crate::agent::Behavior,
) -> crate::agent::Behavior {
    match b.trade_role {
        None => b,
        Some(my) => if spec_balance_in(ev, my) < spec_balance_out(ev, my) && !(
        ev->TradeUpdate_pending.phase is Mutate) {
            crate::agent::Behavior { trade_role: None, ..b }
        } else {
            b
        },
    }
}

/// Balance a trade update: a favorable or even offer is auto-accepted,
/// but only once (an already-set accept flag never re-emits an accept)
/// and only when the trade is non-empty; an unfavorable offer with a
/// positive asked value draws one complaint naming the covered
/// percentage, told to the focused interlocutor when one resolves, else
/// broadcast; an unfavorable negotiation already past the mutate phase
/// is declined outright, clearing the trading state. Consumes the tick
/// whenever the front event is a trade update.
pub fn handle_inbox_update_pending_trade(
    agent: &mut Agent,
    world: &WorldSnapshot,
    out: &mut Outbox,
) -> (r: HandledState)
    requires
        crate::world::world_wf(*world),
        crate::agent::agent_wf(*old(agent), world.time),
    ensures
        crate::agent::agent_wf(*final(agent), world.time),
        agent_frame(*old(agent), *final(agent)),
        final(agent).target == old(agent).target,
        final(agent).timer == old(agent).timer,
        final(agent).action_timer == old(agent).action_timer,
        final(agent).sounds_heard == old(agent).sounds_heard,
        final(agent).memory_out == old(agent).memory_out,
        ({
            let fronted = old(agent).inbox@.len() > 0 && old(agent).inbox@[0] is TradeUpdate;
            let ev = old(agent).inbox@[0];
            let b = old(agent).behavior;
            let to = spec_chat_to(*world, old(agent).target);
            &&& r == if fronted {
                HandledState::Handled
            } else {
                HandledState::Continue
            }
            &&& final(agent).inbox@ == if fronted {
                old(agent).inbox@.remove(0)
            } else {
                old(agent).inbox@
            }
            &&& final(out).events@ == if fronted {
                spec_trade_update_events(ev, b, to, old(out).events@)
            } else {
                old(out).events@
            }
            &&& final(agent).behavior == if fronted {
                spec_trade_update_behavior(ev, b)
            } else {
                b
            }
            &&& ({
                &&& fronted
                &&& b.trade_role matches Some(my) && ev->TradeUpdate_pending.spec_accepted(my)
            } ==> forall|k: int|
                old(out).events@.len() <= k < final(out).events@.len()
                    ==> !((#[trigger] final(out).events@[k]) matches OutEvent::Trade {
                    action: TradeAction::Accept(_),
                    ..
                }))
        }),
{
    if agent.inbox.len() == 0 {
        return HandledState::Continue;
    }
    let fronted: bool = match &agent.inbox[0] {
        AgentEvent::TradeUpdate { .. } => true,
        _ => false,
    };
    if !fronted {
        return HandledState::Continue;
    }
    let ev: AgentEvent = agent.inbox.remove(0);
    proof {
        crate::events::lemma_inbox_tail_wf(old(agent).inbox@, agent.inbox@, world.time);
    }
    if let AgentEvent::TradeUpdate { trade_id, pending, prices, inventories } = ev {
        if let Some(my) = agent.behavior.trade_role {
            let other: TradeParty = my.other();
            let balance_in: u64 = prices.balance(&pending, &inventories, other, true);
            let balance_out: u64 = prices.balance(&pending, &inventories, my, false);
            if balance_in >= balance_out {
                if !pending.accepted(my) && !pending.is_empty_trade() {
                    out.emit(
                        OutEvent::Trade { trade_id, action: TradeAction::Accept(pending.phase) },
                    );
                }
            } else {
                if balance_out > 0 {
                    let percent: u64 = balance_in * 100 / balance_out;
                    let to: Option<crate::world::EntityId> = match &agent.target {
                        Some(t) => {
                            if world.lookup(t.entity).is_some() {
                                Some(t.entity)
                            } else {
                                None
                            }
                        },
                        None => None,
                    };
                    match to {
                        Some(w) => out.tell(w, ChatLine::TradeCoverage { percent }),
                        None => out.say(ChatLine::TradeCoverage { percent }),
                    }
                }
                let past_mutate: bool = match pending.phase {
                    TradePhase::Mutate => false,
                    _ => true,
                };
                if past_mutate {
                    agent.behavior.trade_role = None;
                    out.emit(OutEvent::Trade { trade_id, action: TradeAction::Decline });
                }
            }
        }
    }
    HandledState::Handled
}

} // verus!
