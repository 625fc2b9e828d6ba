//! What holds of every relay, whatever its state and whatever packet it is
//! handed. Each law is stated over the model of [`crate::model`], which is
//! what [`Relay::handle_packet`](crate::relay::Relay::handle_packet) is proved
//! to follow.

use crate::fault::DROP_SCALE;
use crate::model::{
    advanced, fan_out, flood_key, flood_sender, nack_for, ActionView, RelayState,
};
use crate::packet::{
    Command, EventView, FloodRequestView, Nack, NackType, NodeId, NodeType, PacketKind,
    PacketView, TraceEntry,
};
use vstd::prelude::*;

verus! {

/// `actions` holds a delivery of `packet` to `to`.
pub open spec fn delivers(actions: Seq<ActionView>, to: NodeId, packet: PacketView) -> bool {
    exists|k: int| 0 <= k < actions.len() && actions[k] == (ActionView::Deliver { to, packet })
}

/// The number of deliveries to `to` among `actions`.
pub open spec fn deliveries_to(actions: Seq<ActionView>, to: NodeId) -> nat
    decreases actions.len(),
{
    if actions.len() == 0 {
        0
    } else {
        let rest = deliveries_to(actions.drop_last(), to);
        match actions.last() {
            ActionView::Deliver { to: target, .. } => if target == to {
                rest + 1
            } else {
                rest
            },
            ActionView::Report(_) => rest,
        }
    }
}

/// `actions` puts a flood request on some queue.
pub open spec fn passes_flood_on(actions: Seq<ActionView>) -> bool {
    exists|k: int|
        0 <= k < actions.len() && (#[trigger] actions[k] matches ActionView::Deliver { packet, .. }
            && packet.kind is FloodRequest)
}

/// The packet that an action is about.
pub open spec fn packet_of(action: ActionView) -> PacketView {
    match action {
        ActionView::Deliver { packet, .. } => packet,
        ActionView::Report(EventView::PacketSent(packet)) => packet,
        ActionView::Report(EventView::PacketDropped(packet)) => packet,
    }
}

/// The action tells the controller that a packet was sent.
pub open spec fn reports_sent(action: ActionView) -> bool {
    action is Report && action->Report_0 is PacketSent
}

/// The action tells the controller that a fragment was discarded.
pub open spec fn reports_dropped(action: ActionView) -> bool {
    action is Report && action->Report_0 is PacketDropped
}

/// The flood trace that a packet carries, if it is a flood request or a
/// flood response.
pub open spec fn trace_of(packet: PacketView) -> Option<Seq<TraceEntry>> {
    match packet.kind {
        PacketKind::FloodRequest(request) => Some(request.path_trace),
        PacketKind::FloodResponse(response) => Some(response.path_trace),
        _ => None,
    }
}

/// Every delivery among `actions` is followed at once by the report that
/// the same packet was sent, every such report follows its delivery, and a
/// report of a discarded packet stands first.
pub open spec fn reports_match(actions: Seq<ActionView>) -> bool {
    &&& forall|k: int|
        0 <= k < actions.len() && #[trigger] actions[k] is Deliver ==> k + 1 < actions.len()
            && actions[k + 1] == ActionView::Report(
            EventView::PacketSent(actions[k]->Deliver_packet),
        )
    &&& forall|k: int|
        0 <= k < actions.len() && reports_sent(#[trigger] actions[k]) ==> k >= 1 && actions[k
            - 1] is Deliver && actions[k - 1]->Deliver_packet == packet_of(actions[k])
    &&& forall|k: int| 0 <= k < actions.len() && reports_dropped(#[trigger] actions[k]) ==> k == 0
}

proof fn lemma_filter_keeps_distinct(nodes: Seq<NodeId>, keep: spec_fn(NodeId) -> bool)
    requires
        nodes.no_duplicates(),
    ensures
        nodes.filter(keep).no_duplicates(),
        forall|node: NodeId| #[trigger]
            nodes.filter(keep).contains(node) <==> nodes.contains(node) && keep(node),
    decreases nodes.len(),
{
    reveal(Seq::filter);
    let all = nodes.filter(keep);
    if nodes.len() > 0 {
        let front = nodes.drop_last();
        let last = nodes.last();
        let kept = front.filter(keep);
        lemma_filter_keeps_distinct(front, keep);
        assert(!front.contains(last)) by {
            if front.contains(last) {
                let i = choose|i: int| 0 <= i < front.len() && front[i] == last;
                assert(nodes[i] == nodes[nodes.len() - 1]);
            }
        }
        assert(!kept.contains(last));
        assert forall|node: NodeId| #[trigger] all.contains(node) implies nodes.contains(node)
            && keep(node) by {
            let j = choose|j: int| 0 <= j < all.len() && all[j] == node;
            if j < kept.len() {
                assert(kept[j] == node);
                assert(kept.contains(node));
                assert(front.contains(node));
                let i = choose|i: int| 0 <= i < front.len() && front[i] == node;
                assert(nodes[i] == node);
            } else {
                assert(nodes[nodes.len() - 1] == node);
            }
        }
        assert forall|node: NodeId| nodes.contains(node) && keep(node) implies #[trigger]
            all.contains(node) by {
            let i = choose|i: int| 0 <= i < nodes.len() && nodes[i] == node;
            if i < nodes.len() - 1 {
                assert(front[i] == node);
                assert(front.contains(node));
                assert(kept.contains(node));
                let j = choose|j: int| 0 <= j < kept.len() && kept[j] == node;
                assert(all[j] == node);
            } else {
                assert(all[kept.len() as int] == node);
            }
        }
        assert forall|i: int, j: int| 0 <= i < j < all.len() implies all[i] != all[j] by {
            if j < kept.len() {
                assert(kept[i] != kept[j]);
            } else {
                assert(kept[i] == all[i]);
                assert(kept.contains(all[i]));
            }
        }
    }
}

proof fn lemma_fan_out_counts(targets: Seq<NodeId>, packet: PacketView, node: NodeId)
    requires
        targets.no_duplicates(),
    ensures
        deliveries_to(fan_out(targets, packet), node) == if targets.contains(node) {
            1nat
        } else {
            0nat
        },
    decreases targets.len(),
{
    let all = fan_out(targets, packet);
    if targets.len() > 0 {
        let front = targets.drop_last();
        let last = targets.last();
        lemma_fan_out_counts(front, packet, node);
        assert(all.drop_last().drop_last() =~= fan_out(front, packet));
        assert(all.last() == ActionView::Report(EventView::PacketSent(packet)));
        assert(all.drop_last().last() == (ActionView::Deliver { to: last, packet }));
        assert(deliveries_to(all, node) == deliveries_to(all.drop_last(), node));
        if front.contains(node) {
            let i = choose|i: int| 0 <= i < front.len() && front[i] == node;
            assert(targets[i] == node);
            assert(targets[targets.len() - 1] != targets[i]);
        }
        if targets.contains(node) && node != last {
            let i = choose|i: int| 0 <= i < targets.len() && targets[i] == node;
            assert(front[i] == node);
        }
        if node == last {
            assert(targets[targets.len() - 1] == node);
        }
    }
}

proof fn lemma_fan_out(targets: Seq<NodeId>, packet: PacketView)
    ensures
        fan_out(targets, packet).len() == 2 * targets.len(),
        reports_match(fan_out(targets, packet)),
        forall|k: int|
            0 <= k < fan_out(targets, packet).len() ==> packet_of(
                #[trigger] fan_out(targets, packet)[k],
            ) == packet,
        forall|k: int|
            0 <= k < fan_out(targets, packet).len() && (#[trigger] fan_out(targets, packet)[k])
                is Deliver ==> targets.contains(fan_out(targets, packet)[k]->to),
        forall|node: NodeId|
            delivers(fan_out(targets, packet), node, packet) <==> targets.contains(node),
{
    let all = fan_out(targets, packet);
    assert forall|k: int| 0 <= k < all.len() && (#[trigger] all[k]) is Deliver implies k + 1
        < all.len() && all[k + 1] == ActionView::Report(
        EventView::PacketSent(all[k]->Deliver_packet),
    ) && targets.contains(all[k]->to) by {
        assert(k % 2 == 0);
        assert((k + 1) % 2 == 1);
        assert(targets[k / 2] == all[k]->to);
    }
    assert forall|k: int| 0 <= k < all.len() && reports_sent(#[trigger] all[k]) implies k >= 1
        && all[k - 1] is Deliver && all[k - 1]->Deliver_packet == packet_of(all[k]) by {
        assert(k % 2 == 1);
        assert((k - 1) % 2 == 0);
    }
    assert forall|node: NodeId| delivers(all, node, packet) <==> targets.contains(node) by {
        if targets.contains(node) {
            let i = choose|i: int| 0 <= i < targets.len() && targets[i] == node;
            assert((2 * i) % 2 == 0 && (2 * i) / 2 == i);
            assert(all[2 * i] == (ActionView::Deliver { to: node, packet }));
        }
        if delivers(all, node, packet) {
            let k = choose|k: int|
                0 <= k < all.len() && all[k] == (ActionView::Deliver { to: node, packet });
            assert(k % 2 == 0);
            assert(targets[k / 2] == node);
        }
    }
}

proof fn lemma_transmit(state: RelayState, packet: PacketView)
    ensures
        reports_match(state.transmit(packet)),
        state.transmit(packet).len() == 0 || state.transmit(packet).len() == 2,
        forall|k: int|
            0 <= k < state.transmit(packet).len() ==> !reports_dropped(
                #[trigger] state.transmit(packet)[k],
            ),
        !(packet.kind is FloodRequest) ==> !passes_flood_on(state.transmit(packet)),
        forall|k: int|
            0 <= k < state.transmit(packet).len() ==> packet_of(
                #[trigger] state.transmit(packet)[k],
            ) == packet,
        forall|k: int|
            0 <= k < state.transmit(packet).len() && (#[trigger] state.transmit(
                packet,
            )[k]) is Deliver ==> state.linked(state.transmit(packet)[k]->to)
                && packet.route.has_current() && packet.route.current() == state.transmit(
                packet,
            )[k]->to,
{
}

/// A flood request that a relay has not seen before is passed on to every
/// neighbor but the one it came from, once to each, with the trace extended;
/// where there is no such neighbor, the relay answers the request itself.
pub proof fn law_fresh_flood_spreads(
    state: RelayState,
    packet: PacketView,
    request: FloodRequestView,
    draw: u32,
    node: NodeId,
)
    requires
        state.well_formed(),
        packet.kind == PacketKind::FloodRequest(request),
        !state.seen.contains(flood_key(request)),
    ensures
        ({
            let actions = state.react(packet, draw);
            let onward = state.flood_forward(packet, request);
            let others = can_spread(state, request);
            &&& others ==> (delivers(actions, node, onward) <==> state.linked(node) && node
                != flood_sender(request))
            &&& others ==> deliveries_to(actions, node) == if state.linked(node) && node
                != flood_sender(request) {
                1nat
            } else {
                0nat
            }
            &&& others ==> forall|k: int|
                0 <= k < actions.len() ==> packet_of(#[trigger] actions[k]) == onward
            &&& !others ==> actions == state.transmit(state.flood_response(packet, request))
            &&& !others ==> !passes_flood_on(actions)
            &&& state.after(packet).seen.contains(flood_key(request))
        }),
{
    let keep = |other: NodeId| other != flood_sender(request);
    let targets = state.flood_targets(request);
    let onward = state.flood_forward(packet, request);
    lemma_filter_keeps_distinct(state.neighbors, keep);
    assert(forall|other: NodeId|
        targets.contains(other) <==> state.linked(other) && other != flood_sender(request));
    let others = can_spread(state, request);
    if others {
        let other = choose|other: NodeId| state.linked(other) && other != flood_sender(request);
        assert(targets.contains(other));
        assert(targets.len() > 0);
        assert(state.react(packet, draw) == fan_out(targets, onward));
        lemma_fan_out(targets, onward);
        lemma_fan_out_counts(targets, onward, node);
    } else {
        if targets.len() > 0 {
            assert(targets.contains(targets[0]));
        }
        assert(state.react(packet, draw) == state.transmit(
            state.flood_response(packet, request),
        ));
        lemma_transmit(state, state.flood_response(packet, request));
    }
}

/// Once a relay has handled a flood request, it answers every further
/// request of the same initiator and flood id itself and passes none of
/// them on.
pub proof fn law_known_flood_is_answered(
    state: RelayState,
    first: PacketView,
    first_request: FloodRequestView,
    second: PacketView,
    second_request: FloodRequestView,
    draw: u32,
)
    requires
        first.kind == PacketKind::FloodRequest(first_request),
        second.kind == PacketKind::FloodRequest(second_request),
        flood_key(first_request) == flood_key(second_request),
    ensures
        ({
            let later = state.after(first);
            let actions = later.react(second, draw);
            &&& actions == later.transmit(later.flood_response(second, second_request))
            &&& !passes_flood_on(actions)
            &&& later.after(second) == later
        }),
{
    let later = state.after(first);
    lemma_transmit(later, later.flood_response(second, second_request));
    assert(later.seen.insert(flood_key(second_request)) =~= later.seen);
}

/// Whatever a relay sends or reports on a flood request carries the trace of
/// the request with one entry added at its end: the relay itself, as a relay.
pub proof fn law_trace_grows_by_one(
    state: RelayState,
    packet: PacketView,
    request: FloodRequestView,
    draw: u32,
)
    requires
        packet.kind == PacketKind::FloodRequest(request),
    ensures
        forall|k: int|
            0 <= k < state.react(packet, draw).len() ==> trace_of(
                packet_of(#[trigger] state.react(packet, draw)[k]),
            ) == Some(request.path_trace.push((state.id, NodeType::Relay))),
        request.path_trace.push((state.id, NodeType::Relay)).len() == request.path_trace.len() + 1,
        request.path_trace.push((state.id, NodeType::Relay)).take(request.path_trace.len() as int)
            == request.path_trace,
{
    lemma_transmit(state, state.flood_response(packet, request));
    assert(request.path_trace.push((state.id, NodeType::Relay)).take(
        request.path_trace.len() as int,
    ) =~= request.path_trace);
}

/// There is a neighbor, other than the sender of `request`, to pass it on to.
pub open spec fn can_spread(state: RelayState, request: FloodRequestView) -> bool {
    exists|other: NodeId| state.linked(other) && other != flood_sender(request)
}

/// Floods of different initiators do not touch each other, even under one
/// flood id: handling the request of one changes nothing in how the request
/// of the other is handled, and the relay ends in the same state whichever
/// came first. So where both floods are new to the relay and it has
/// neighbors to pass them on to, both are passed on, in either order of
/// arrival.
pub proof fn law_initiators_are_independent(
    state: RelayState,
    one: PacketView,
    one_request: FloodRequestView,
    other: PacketView,
    other_request: FloodRequestView,
    draw: u32,
)
    requires
        state.well_formed(),
        one.kind == PacketKind::FloodRequest(one_request),
        other.kind == PacketKind::FloodRequest(other_request),
        one_request.flood_id == other_request.flood_id,
        one_request.initiator_id != other_request.initiator_id,
    ensures
        state.after(one).react(other, draw) == state.react(other, draw),
        state.after(other).react(one, draw) == state.react(one, draw),
        state.after(one).after(other) == state.after(other).after(one),
        !state.seen.contains(flood_key(one_request)) && can_spread(state, one_request)
            ==> passes_flood_on(state.react(one, draw)) && passes_flood_on(
            state.after(other).react(one, draw),
        ),
        !state.seen.contains(flood_key(other_request)) && can_spread(state, other_request)
            ==> passes_flood_on(state.react(other, draw)) && passes_flood_on(
            state.after(one).react(other, draw),
        ),
{
    assert(state.after(one).after(other).seen =~= state.after(other).after(one).seen);
    if !state.seen.contains(flood_key(one_request)) && can_spread(state, one_request) {
        lemma_spreads(state, one, one_request, draw);
    }
    if !state.seen.contains(flood_key(other_request)) && can_spread(state, other_request) {
        lemma_spreads(state, other, other_request, draw);
    }
}

proof fn lemma_spreads(
    state: RelayState,
    packet: PacketView,
    request: FloodRequestView,
    draw: u32,
)
    requires
        state.well_formed(),
        packet.kind == PacketKind::FloodRequest(request),
        !state.seen.contains(flood_key(request)),
        can_spread(state, request),
    ensures
        passes_flood_on(state.react(packet, draw)),
{
    let keep = |other: NodeId| other != flood_sender(request);
    let targets = state.flood_targets(request);
    lemma_filter_keeps_distinct(state.neighbors, keep);
    let other = choose|other: NodeId| state.linked(other) && other != flood_sender(request);
    assert(targets.contains(other));
    let actions = state.react(packet, draw);
    assert(actions == fan_out(targets, state.flood_forward(packet, request)));
    assert(actions[0] is Deliver && actions[0]->Deliver_packet.kind is FloodRequest);
}

/// At a drop rate of zero a fragment that can be forwarded is forwarded on
/// every draw; at a drop rate of one it is discarded on every draw. Packets
/// of the other kinds are never discarded.
pub proof fn law_extreme_drop_rates(state: RelayState, packet: PacketView, draw: u32)
    requires
        !(packet.kind is FloodRequest),
        state.can_forward(packet.route),
    ensures
        packet.kind is Fragment && state.drop_threshold == 0 ==> state.react(packet, draw)
            == seq![
            ActionView::Deliver { to: packet.route.next(), packet: advanced(packet) },
            ActionView::Report(EventView::PacketSent(advanced(packet))),
        ],
        packet.kind is Fragment && state.drop_threshold == DROP_SCALE ==> state.react(
            packet,
            draw,
        ) == seq![ActionView::Report(EventView::PacketDropped(packet))] + state.transmit(
            nack_for(packet, NackType::Dropped),
        ),
        !(packet.kind is Fragment) ==> state.react(packet, draw) == seq![
            ActionView::Deliver { to: packet.route.next(), packet: advanced(packet) },
            ActionView::Report(EventView::PacketSent(advanced(packet))),
        ],
{
}

/// A fragment whose route ends at the relay is never forwarded. The relay
/// answers it with one failure report of type `DestinationIsDrone`, sent to
/// the node before it on the route; where it has no queue to that node, or
/// the route names none, nothing is sent.
pub proof fn law_relay_is_no_destination(state: RelayState, packet: PacketView, draw: u32)
    requires
        packet.kind is Fragment,
        state.is_destination(packet.route),
    ensures
        ({
            let actions = state.react(packet, draw);
            let nack = nack_for(packet, NackType::DestinationIsDrone);
            let answerable = packet.route.hop_index >= 1 && state.linked(
                packet.route.hops[packet.route.hop_index - 1],
            );
            &&& nack.kind == PacketKind::Nack(
                Nack {
                    fragment_index: packet.kind->Fragment_0.fragment_index,
                    nack_type: NackType::DestinationIsDrone,
                },
            )
            &&& answerable ==> actions == seq![
                ActionView::Deliver {
                    to: packet.route.hops[packet.route.hop_index - 1],
                    packet: nack,
                },
                ActionView::Report(EventView::PacketSent(nack)),
            ]
            &&& !answerable ==> actions == Seq::<ActionView>::empty()
            &&& forall|k: int|
                0 <= k < actions.len() ==> !(packet_of(#[trigger] actions[k]).kind is Fragment)
        }),
{
    let nack = nack_for(packet, NackType::DestinationIsDrone);
    let hops = packet.route.hops;
    let cursor = packet.route.hop_index as int;
    assert(nack.route.hops.len() == cursor + 1);
    if cursor >= 1 {
        assert(nack.route.hops[1] == hops[cursor - 1]);
    }
}

/// The reports of a relay match what it does. Every delivery is followed at
/// once by the report that this packet was sent, and no such report stands
/// without its delivery; deliveries go to neighbors only. What is forwarded
/// is reported with its cursor moved on, and a fragment discarded by fault
/// injection is reported first, as it came, before the failure report that
/// answers it.
pub proof fn law_reports_match_actions(state: RelayState, packet: PacketView, draw: u32)
    requires
        state.well_formed(),
    ensures
        reports_match(state.react(packet, draw)),
        forall|k: int|
            0 <= k < state.react(packet, draw).len() && (#[trigger] state.react(
                packet,
                draw,
            )[k]) is Deliver ==> state.linked(state.react(packet, draw)[k]->to),
        !(packet.kind is FloodRequest) && state.can_forward(packet.route) && !(packet.kind
            is Fragment && state.drops(draw)) ==> state.react(packet, draw) == seq![
            ActionView::Deliver { to: packet.route.next(), packet: advanced(packet) },
            ActionView::Report(EventView::PacketSent(advanced(packet))),
        ],
        packet.kind is Fragment && state.can_forward(packet.route) && state.drops(draw)
            ==> state.react(packet, draw)[0] == ActionView::Report(
            EventView::PacketDropped(packet),
        ) && state.react(packet, draw).skip(1) == state.transmit(
            nack_for(packet, NackType::Dropped),
        ),
        forall|k: int|
            0 <= k < state.react(packet, draw).len() && reports_dropped(
                #[trigger] state.react(packet, draw)[k],
            ) ==> packet_of(state.react(packet, draw)[k]) == packet && packet.kind is Fragment
                && state.can_forward(packet.route) && state.drops(draw),
{
    match packet.kind {
        PacketKind::FloodRequest(request) => {
            let keep = |other: NodeId| other != flood_sender(request);
            lemma_filter_keeps_distinct(state.neighbors, keep);
            lemma_transmit(state, state.flood_response(packet, request));
            lemma_fan_out(state.flood_targets(request), state.flood_forward(packet, request));
        },
        _ => {
            lemma_forward(state, packet, draw);
        },
    }
}

proof fn lemma_forward(state: RelayState, packet: PacketView, draw: u32)
    requires
        !(packet.kind is FloodRequest),
    ensures
        reports_match(state.forward(packet, draw)),
        forall|k: int|
            0 <= k < state.forward(packet, draw).len() && (#[trigger] state.forward(
                packet,
                draw,
            )[k]) is Deliver ==> state.linked(state.forward(packet, draw)[k]->to),
        packet.kind is Fragment && state.can_forward(packet.route) && state.drops(draw)
            ==> state.forward(packet, draw)[0] == ActionView::Report(
            EventView::PacketDropped(packet),
        ) && state.forward(packet, draw).skip(1) == state.transmit(
            nack_for(packet, NackType::Dropped),
        ),
        forall|k: int|
            0 <= k < state.forward(packet, draw).len() && reports_dropped(
                #[trigger] state.forward(packet, draw)[k],
            ) ==> packet_of(state.forward(packet, draw)[k]) == packet && packet.kind is Fragment
                && state.can_forward(packet.route) && state.drops(draw),
{
    let actions = state.forward(packet, draw);
    if packet.kind is Fragment && state.is_destination(packet.route) {
        lemma_transmit(state, nack_for(packet, NackType::DestinationIsDrone));
    } else if !state.can_forward(packet.route) {
        lemma_transmit(state, nack_for(packet, NackType::ErrorInRouting));
    } else if packet.kind is Fragment && state.drops(draw) {
        let tail = state.transmit(nack_for(packet, NackType::Dropped));
        lemma_transmit(state, nack_for(packet, NackType::Dropped));
        assert(actions.len() == tail.len() + 1);
        assert(actions[0] == ActionView::Report(EventView::PacketDropped(packet)));
        assert forall|k: int| 1 <= k < actions.len() implies #[trigger] actions[k] == tail[k
            - 1] by {}
        assert(actions.skip(1) =~= tail);
        if tail.len() > 0 {
            assert(actions[1] == tail[0]);
            assert(actions[2] == tail[1]);
        }
    } else {
        lemma_transmit(state, advanced(packet));
    }
}

/// A relay keeps routes in order. Whatever it sends or reports has the cursor
/// within its path or just behind it, provided the packet it was handed had.
/// And but for flood requests, which are broadcast and not routed, every
/// packet is delivered to the node that its cursor names.
pub proof fn law_routes_stay_in_order(state: RelayState, packet: PacketView, draw: u32)
    requires
        packet.route.well_formed(),
    ensures
        forall|k: int|
            0 <= k < state.react(packet, draw).len() ==> packet_of(
                #[trigger] state.react(packet, draw)[k],
            ).route.well_formed(),
        forall|k: int|
            0 <= k < state.react(packet, draw).len() && (#[trigger] state.react(
                packet,
                draw,
            )[k]) is Deliver && !(packet_of(state.react(packet, draw)[k]).kind is FloodRequest)
                ==> packet_of(state.react(packet, draw)[k]).route.has_current() && packet_of(
                state.react(packet, draw)[k],
            ).route.current() == state.react(packet, draw)[k]->to,
{
    match packet.kind {
        PacketKind::FloodRequest(request) => {
            lemma_transmit(state, state.flood_response(packet, request));
            lemma_fan_out(state.flood_targets(request), state.flood_forward(packet, request));
        },
        _ => {
            lemma_forward_routes(state, packet, draw);
        },
    }
}

proof fn lemma_forward_routes(state: RelayState, packet: PacketView, draw: u32)
    requires
        packet.route.well_formed(),
    ensures
        forall|k: int|
            0 <= k < state.forward(packet, draw).len() ==> packet_of(
                #[trigger] state.forward(packet, draw)[k],
            ).route.well_formed(),
        forall|k: int|
            0 <= k < state.forward(packet, draw).len() && (#[trigger] state.forward(
                packet,
                draw,
            )[k]) is Deliver ==> packet_of(state.forward(packet, draw)[k]).route.has_current()
                && packet_of(state.forward(packet, draw)[k]).route.current() == state.forward(
                packet,
                draw,
            )[k]->to,
{
    let actions = state.forward(packet, draw);
    if packet.kind is Fragment && state.is_destination(packet.route) {
        lemma_transmit(state, nack_for(packet, NackType::DestinationIsDrone));
    } else if !state.can_forward(packet.route) {
        lemma_transmit(state, nack_for(packet, NackType::ErrorInRouting));
    } else if packet.kind is Fragment && state.drops(draw) {
        let tail = state.transmit(nack_for(packet, NackType::Dropped));
        lemma_transmit(state, nack_for(packet, NackType::Dropped));
        assert(actions.len() == tail.len() + 1);
        assert(packet_of(actions[0]) == packet);
        assert forall|k: int| 1 <= k < actions.len() implies #[trigger] actions[k] == tail[k
            - 1] by {}
    } else {
        lemma_transmit(state, advanced(packet));
    }
}

/// What a relay remembers only grows: no packet and no command makes it
/// forget a flood. Its id, its neighbors and its drop rate never change.
pub proof fn law_memory_only_grows(state: RelayState, packet: PacketView, command: Command)
    ensures
        state.seen.subset_of(state.after(packet).seen),
        state.after_command(command).seen == state.seen,
        state.after(packet).id == state.id && state.after_command(command).id == state.id,
        state.after(packet).neighbors == state.neighbors && state.after_command(command).neighbors
            == state.neighbors,
        state.after(packet).drop_threshold == state.drop_threshold && state.after_command(
            command,
        ).drop_threshold == state.drop_threshold,
        state.after(packet).crash_received == state.crash_received,
        state.crash_received ==> state.after_command(command).crash_received,
{
}

} // verus!
