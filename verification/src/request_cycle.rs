//! The search of a unit for its own place, step by step.
//!
//! The unit asks every neighbour for the coordinates it knows, and
//! listens. What it hears goes into its table, and while it listens it
//! answers those who ask. If nothing of use comes in within a number
//! of readings, it asks again. It goes on until the table tells its
//! place.
//!
//! A driver carries out what it is told to do and comes back with
//! what happened: the request went out, a packet came in, nothing came
//! in, the link failed.

use vstd::prelude::*;
use crate::backoff::{spec_next_delay, Backoff, DELAY_INIT_MAX, DELAY_MAX};
use crate::bootstrap::{
    is_ready, lemma_accumulate_grows, process_reply_for_request_confirmed_coordinate,
    spec_no_duplicates, spec_process_reply, spec_ready, ConfirmedNeighbor,
};
use crate::confirm_coordinate::spec_load_report;
use crate::confirm_coordinate::spec_announcement;
use crate::error::NetworkError;
use crate::header::Header;
use crate::packet::{Packet, PacketView};
use crate::utils::type_alias::Id;

verus! {

/// How long a unit waits after its request before it listens, in
/// milliseconds.
pub const LISTEN_DELAY_MILLIS: u64 = 10;

/// How many readings without anything of use a unit allows before it
/// asks again.
pub const MAX_LISTEN_POLLS: u32 = 100;

/// What happened on the link since the last step.
#[derive(Debug)]
pub enum BootstrapEvent {
    /// The request went out.
    RequestSent,
    /// The request could not be sent.
    RequestFailed(NetworkError),
    /// The link was read, and there was nothing.
    Nothing,
    /// The link was read, and what came in could not be put together.
    ReceiveFailed(NetworkError),
    /// A packet came in.
    Received(Packet),
    /// The answer went out.
    ReplySent,
    /// The answer could not be sent.
    ReplyFailed(NetworkError),
}

/// What the driver is to do next.
#[derive(Debug)]
pub enum BootstrapAction {
    /// Empty the buffers of the link if `flush` is set, wait, and then
    /// send the request.
    Request { flush: bool, wait_millis: u64, packet: Packet },
    /// Empty the buffers of the link if `flush` is set, wait, and then
    /// try to receive a packet.
    Listen { flush: bool, wait_millis: u64 },
    /// Send an answer to a unit that asked.
    Reply(Packet),
    /// The table tells the place: the search is over.
    Confirmed,
}

/// One step of the search: what to do next, and what went wrong on the
/// way, if anything did.
#[derive(Debug)]
pub struct BootstrapStep {
    pub action: BootstrapAction,
    pub notice: Option<NetworkError>,
}

/// A unit in search of its place.
#[derive(Debug)]
pub struct Bootstrap {
    mac_address: Id,
    neighbor_confirmed: Vec<ConfirmedNeighbor>,
    backoff: Backoff,
    /// Readings without anything of use since the last request.
    polls: u32,
}

/// What `BootstrapEvent` says, apart from how the packet is stored.
pub ghost enum BootstrapEventView {
    RequestSent,
    RequestFailed(NetworkError),
    Nothing,
    ReceiveFailed(NetworkError),
    Received(PacketView),
    ReplySent,
    ReplyFailed(NetworkError),
}

impl View for BootstrapEvent {
    type V = BootstrapEventView;

    open spec fn view(&self) -> BootstrapEventView {
        match self {
            BootstrapEvent::RequestSent => BootstrapEventView::RequestSent,
            BootstrapEvent::RequestFailed(e) => BootstrapEventView::RequestFailed(*e),
            BootstrapEvent::Nothing => BootstrapEventView::Nothing,
            BootstrapEvent::ReceiveFailed(e) => BootstrapEventView::ReceiveFailed(*e),
            BootstrapEvent::Received(packet) => BootstrapEventView::Received(packet@),
            BootstrapEvent::ReplySent => BootstrapEventView::ReplySent,
            BootstrapEvent::ReplyFailed(e) => BootstrapEventView::ReplyFailed(*e),
        }
    }
}

/// What `BootstrapAction` says, apart from how the packet is stored.
pub ghost enum BootstrapActionView {
    Request { flush: bool, wait_millis: u64, packet: PacketView },
    Listen { flush: bool, wait_millis: u64 },
    Reply(PacketView),
    Confirmed,
}

impl View for BootstrapAction {
    type V = BootstrapActionView;

    open spec fn view(&self) -> BootstrapActionView {
        match self {
            BootstrapAction::Request { flush, wait_millis, packet } => BootstrapActionView::Request {
                flush: *flush,
                wait_millis: *wait_millis,
                packet: packet@,
            },
            BootstrapAction::Listen { flush, wait_millis } => BootstrapActionView::Listen {
                flush: *flush,
                wait_millis: *wait_millis,
            },
            BootstrapAction::Reply(packet) => BootstrapActionView::Reply(packet@),
            BootstrapAction::Confirmed => BootstrapActionView::Confirmed,
        }
    }
}

/// What `BootstrapStep` says, apart from how the packet is stored.
pub ghost struct BootstrapStepView {
    pub action: BootstrapActionView,
    pub notice: Option<NetworkError>,
}

impl View for BootstrapStep {
    type V = BootstrapStepView;

    open spec fn view(&self) -> BootstrapStepView {
        BootstrapStepView { action: self.action@, notice: self.notice }
    }
}

/// The state of the search.
pub ghost struct BootstrapView {
    pub mac_address: Id,
    pub table: Seq<ConfirmedNeighbor>,
    /// The time to wait after the next failure, in milliseconds.
    pub delay: u64,
    /// Readings without anything of use since the last request.
    pub polls: nat,
}

impl View for Bootstrap {
    type V = BootstrapView;

    closed spec fn view(&self) -> BootstrapView {
        BootstrapView {
            mac_address: self.mac_address,
            table: self.neighbor_confirmed@,
            delay: self.backoff@,
            polls: self.polls as nat,
        }
    }
}

/// The beginning of a round: the search is over if the table tells the
/// place, and else the unit asks.
pub open spec fn spec_next_cycle(
    state: BootstrapView,
    flush: bool,
    wait_millis: u64,
    notice: Option<NetworkError>,
) -> (BootstrapView, BootstrapStepView) {
    (
        BootstrapView { polls: 0, ..state },
        BootstrapStepView {
            action: if spec_ready(state.table, state.mac_address) {
                BootstrapActionView::Confirmed
            } else {
                BootstrapActionView::Request {
                    flush,
                    wait_millis,
                    packet: spec_announcement(
                        Header::HRequestConfirmedCoordinate,
                        state.mac_address,
                    ),
                }
            },
            notice,
        },
    )
}

/// After a reading that brought nothing of use: the unit listens on,
/// unless it has done so too often. Then the round is over.
pub open spec fn spec_listen_on(
    state: BootstrapView,
    flush: bool,
    wait_millis: u64,
    notice: Option<NetworkError>,
) -> (BootstrapView, BootstrapStepView) {
    if state.polls + 1 > MAX_LISTEN_POLLS {
        spec_next_cycle(state, flush, wait_millis, Some(NetworkError::BootstrapTimeout))
    } else {
        (
            BootstrapView { polls: state.polls + 1, ..state },
            BootstrapStepView { action: BootstrapActionView::Listen { flush, wait_millis }, notice },
        )
    }
}

/// One step of the search. `drawn` is the first waiting time that
/// chance gives where a step begins anew with waiting times.
///
/// After a request the unit waits a moment and listens, and its
/// waiting times begin anew. A request that failed is sent again after
/// the buffers were emptied and the waiting time is over; the next
/// waiting time is twice as long. A reading that found nothing is
/// followed by a wait, and the waiting times begin anew. A reading
/// that failed is followed by emptying the buffers and a wait; the
/// next waiting time is twice as long. A packet that came in is looked
/// at: a report that can be read ends the round, a request is
/// answered if there is an answer, and everything else is one more
/// reading without anything of use. With an answer that went out the
/// round ends; one that failed is one more such reading.
pub open spec fn spec_step(state: BootstrapView, event: BootstrapEventView, drawn: u64) -> (
    BootstrapView,
    BootstrapStepView,
) {
    match event {
        BootstrapEventView::RequestSent => (
            BootstrapView { delay: drawn, polls: 0, ..state },
            BootstrapStepView {
                action: BootstrapActionView::Listen {
                    flush: false,
                    wait_millis: LISTEN_DELAY_MILLIS,
                },
                notice: None,
            },
        ),
        BootstrapEventView::RequestFailed(e) => spec_next_cycle(
            BootstrapView { delay: spec_next_delay(state.delay), ..state },
            true,
            state.delay,
            Some(e),
        ),
        BootstrapEventView::Nothing => spec_listen_on(
            BootstrapView { delay: drawn, ..state },
            false,
            state.delay,
            None,
        ),
        BootstrapEventView::ReceiveFailed(e) => spec_listen_on(
            BootstrapView { delay: spec_next_delay(state.delay), ..state },
            true,
            state.delay,
            Some(e),
        ),
        BootstrapEventView::Received(packet) => match spec_process_reply(
            state.mac_address,
            packet,
            state.table,
        ) {
            Ok((processed, table)) => if processed.valid {
                match processed.reply {
                    Some(reply) => (
                        BootstrapView { table, ..state },
                        BootstrapStepView {
                            action: BootstrapActionView::Reply(reply),
                            notice: None,
                        },
                    ),
                    None => spec_next_cycle(BootstrapView { table, ..state }, false, 0, None),
                }
            } else {
                spec_listen_on(state, false, 0, None)
            },
            Err(e) => spec_listen_on(state, true, 0, Some(e)),
        },
        BootstrapEventView::ReplySent => spec_next_cycle(state, false, 0, None),
        BootstrapEventView::ReplyFailed(e) => spec_listen_on(state, true, 0, Some(e)),
    }
}

/// Whether every packet that a step hands to the driver can be sent.
pub open spec fn spec_can_be_carried_out(action: BootstrapActionView) -> bool {
    match action {
        BootstrapActionView::Request { flush, wait_millis, packet } => packet.sendable(),
        BootstrapActionView::Reply(packet) => packet.sendable(),
        _ => true,
    }
}

/// Whatever happens, the table keeps what it held, in its place, and
/// takes in no report twice. The unit stays the same unit, and it
/// never reads in vain more often than a round allows.
pub proof fn lemma_step_keeps_the_table(state: BootstrapView, event: BootstrapEventView, drawn: u64)
    ensures
        spec_step(state, event, drawn).0.mac_address == state.mac_address,
        spec_step(state, event, drawn).0.table.len() >= state.table.len(),
        spec_step(state, event, drawn).0.table.subrange(0, state.table.len() as int)
            == state.table,
        spec_no_duplicates(state.table) ==> spec_no_duplicates(
            spec_step(state, event, drawn).0.table,
        ),
        state.polls <= MAX_LISTEN_POLLS ==> spec_step(state, event, drawn).0.polls
            <= MAX_LISTEN_POLLS,
{
    assert(state.table.subrange(0, state.table.len() as int) =~= state.table);
    match event {
        BootstrapEventView::Received(packet) => {
            if packet.header == Header::ConfirmCoordinate {
                match spec_load_report(packet, state.mac_address) {
                    Ok(rows) => {
                        lemma_accumulate_grows(state.table, packet.global_from, rows);
                    },
                    Err(_) => {},
                }
            }
        },
        _ => {},
    }
}

/// The search ends only when the table tells the place.
pub proof fn lemma_confirmed_means_ready(state: BootstrapView, event: BootstrapEventView, drawn: u64)
    ensures
        spec_step(state, event, drawn).1.action is Confirmed ==> spec_ready(
            spec_step(state, event, drawn).0.table,
            state.mac_address,
        ),
{
}

impl Bootstrap {
    /// The search of the unit `mac_address`, and its first step: the
    /// table is empty, so the unit asks.
    pub fn new(mac_address: Id) -> (r: (Bootstrap, BootstrapStep))
        ensures
            r.0@.mac_address == mac_address,
            r.0@.table == Seq::<ConfirmedNeighbor>::empty(),
            r.0@.polls == 0,
            1 <= r.0@.delay < DELAY_INIT_MAX,
            (r.0@, r.1@) == spec_next_cycle(r.0@, false, 0, None),
            spec_can_be_carried_out(r.1@.action),
    {
        let mut bootstrap = Bootstrap {
            mac_address,
            neighbor_confirmed: Vec::new(),
            backoff: Backoff::new(),
            polls: 0,
        };
        let step = bootstrap.next_cycle(false, 0, None);
        (bootstrap, step)
    }

    /// Begins a round.
    fn next_cycle(&mut self, flush: bool, wait_millis: u64, notice: Option<NetworkError>) -> (step:
        BootstrapStep)
        ensures
            (final(self)@, step@) == spec_next_cycle(old(self)@, flush, wait_millis, notice),
            spec_can_be_carried_out(step@.action),
    {
        self.polls = 0;
        let action = if is_ready(&self.neighbor_confirmed, self.mac_address) {
            BootstrapAction::Confirmed
        } else {
            BootstrapAction::Request {
                flush,
                wait_millis,
                packet: Packet::make_request_confirmed_coordinate_packet(self.mac_address),
            }
        };
        BootstrapStep { action, notice }
    }

    /// Counts a reading that brought nothing of use.
    fn listen_on(&mut self, flush: bool, wait_millis: u64, notice: Option<NetworkError>) -> (step:
        BootstrapStep)
        ensures
            (final(self)@, step@) == spec_listen_on(old(self)@, flush, wait_millis, notice),
            spec_can_be_carried_out(step@.action),
    {
        if self.polls >= MAX_LISTEN_POLLS {
            self.next_cycle(flush, wait_millis, Some(NetworkError::BootstrapTimeout))
        } else {
            self.polls = self.polls + 1;
            BootstrapStep { action: BootstrapAction::Listen { flush, wait_millis }, notice }
        }
    }

    /// Takes in what happened and says what to do next.
    pub fn step(&mut self, event: BootstrapEvent) -> (step: BootstrapStep)
        ensures
            exists|drawn: u64|
                1 <= drawn < DELAY_INIT_MAX && (final(self)@, step@) == #[trigger] spec_step(
                    old(self)@,
                    event@,
                    drawn,
                ),
            spec_can_be_carried_out(step@.action),
    {
        let ghost before = self@;
        match event {
            BootstrapEvent::RequestSent => {
                self.backoff.reset();
                self.polls = 0;
                let step = BootstrapStep {
                    action: BootstrapAction::Listen {
                        flush: false,
                        wait_millis: LISTEN_DELAY_MILLIS,
                    },
                    notice: None,
                };
                assert((self@, step@) == spec_step(before, event@, self@.delay));
                step
            },
            BootstrapEvent::RequestFailed(e) => {
                let wait_millis = self.backoff.wait();
                let step = self.next_cycle(true, wait_millis, Some(e));
                assert((self@, step@) == spec_step(before, event@, 1));
                step
            },
            BootstrapEvent::Nothing => {
                let wait_millis = self.backoff.wait();
                self.backoff.reset();
                let ghost drawn = self@.delay;
                let step = self.listen_on(false, wait_millis, None);
                assert((self@, step@) == spec_step(before, event@, drawn));
                step
            },
            BootstrapEvent::ReceiveFailed(e) => {
                let wait_millis = self.backoff.wait();
                let step = self.listen_on(true, wait_millis, Some(e));
                assert((self@, step@) == spec_step(before, event@, 1));
                step
            },
            BootstrapEvent::Received(packet) => {
                let step = match process_reply_for_request_confirmed_coordinate(
                    self.mac_address,
                    &packet,
                    &mut self.neighbor_confirmed,
                ) {
                    Ok(processed) => {
                        if processed.valid {
                            match processed.reply {
                                Some(reply) => BootstrapStep {
                                    action: BootstrapAction::Reply(reply),
                                    notice: None,
                                },
                                None => self.next_cycle(false, 0, None),
                            }
                        } else {
                            self.listen_on(false, 0, None)
                        }
                    },
                    Err(e) => self.listen_on(true, 0, Some(e)),
                };
                assert((self@, step@) == spec_step(before, event@, 1));
                step
            },
            BootstrapEvent::ReplySent => {
                let step = self.next_cycle(false, 0, None);
                assert((self@, step@) == spec_step(before, event@, 1));
                step
            },
            BootstrapEvent::ReplyFailed(e) => {
                let step = self.listen_on(true, 0, Some(e));
                assert((self@, step@) == spec_step(before, event@, 1));
                step
            },
        }
    }

    /// What the unit has heard so far.
    pub fn get_neighbor_confirmed(&self) -> (table: &Vec<ConfirmedNeighbor>)
        ensures
            table@ == self@.table,
    {
        &self.neighbor_confirmed
    }

    /// Ends the search and hands out what the unit has heard.
    pub fn into_neighbor_confirmed(self) -> (table: Vec<ConfirmedNeighbor>)
        ensures
            table@ == self@.table,
    {
        self.neighbor_confirmed
    }

    pub fn get_mac_address(&self) -> (r: Id)
        ensures
            r == self@.mac_address,
    {
        self.mac_address
    }
}

} // verus!
