//! The forwarding engine: a two-state machine that relays packets
//! between the tunnel device and the datagram transport. Each readiness
//! outcome is an event; the engine answers with the single action the
//! runner must perform next. Payloads pass through byte-for-byte, one
//! at a time, so ordering within a direction is structural; transient
//! failures drop one packet, fatal ones stop the engine.

use vstd::prelude::*;
use crate::errors::{classify_spec, classify_os_error, IoErrorClass};

verus! {

/// Capacity of one packet buffer: a single MTU-sized allocation.
pub const MTU: usize = 1500;

/// The exact byte range a read produced: the first `n` bytes of the
/// buffer the read filled, as their own packet.
pub fn take_prefix(buf: &Vec<u8>, n: usize) -> (r: Vec<u8>)
    requires
        n <= buf@.len(),
    ensures
        r@ == buf@.take(n as int),
{
    let mut r: Vec<u8> = Vec::new();
    let mut i: usize = 0;
    while i < n
        invariant
            i <= n,
            n <= buf@.len(),
            r@ == buf@.take(i as int),
        decreases n - i,
    {
        r.push(buf[i]);
        i = i + 1;
        assert(r@ =~= buf@.take(i as int));
    }
    r
}

/// The remote peer of the transport leg: an IPv4 address and port.
#[derive(Clone, Copy, PartialEq, Eq, Structural, Debug)]
pub struct PeerAddr {
    pub addr: u32,
    pub port: u16,
}

/// The engine's two states.
#[derive(Clone, Copy, PartialEq, Eq, Structural, Debug)]
pub enum Status {
    Running,
    Stopped,
}

/// Why the engine stopped.
#[derive(Clone, Copy, PartialEq, Eq, Structural, Debug)]
pub enum StopReason {
    /// An external cancellation request.
    Cancelled,
    /// The transport's read side reached end of input: an empty
    /// datagram with no identifiable sender.
    EndOfInput,
    /// The device resource became permanently invalid.
    DeviceFailed,
    /// The transport resource became permanently invalid.
    TransportFailed,
}

/// One readiness outcome handed to the engine by the runner.
#[derive(Debug)]
pub enum Event {
    /// The device yielded a packet (empty means not ready).
    DeviceRead(Vec<u8>),
    /// A device read failed.
    DeviceError { fatal: bool },
    /// The transport yielded a datagram, with its sender when one was
    /// identifiable.
    TransportRecv { payload: Vec<u8>, source: Option<PeerAddr> },
    /// A transport receive failed.
    TransportError { fatal: bool },
    /// The outcome of the send the engine last asked for.
    SendDone { ok: bool, fatal: bool },
    /// The outcome of the device write the engine last asked for.
    WriteDone { ok: bool, fatal: bool },
    /// An external stop request.
    Cancel,
    /// A readiness wait ended with nothing to relay.
    NotReady,
}

/// The mathematical value of an event: payloads as byte sequences.
pub enum EventV {
    DeviceRead(Seq<u8>),
    DeviceError { fatal: bool },
    TransportRecv { payload: Seq<u8>, source: Option<PeerAddr> },
    TransportError { fatal: bool },
    SendDone { ok: bool, fatal: bool },
    WriteDone { ok: bool, fatal: bool },
    Cancel,
    NotReady,
}

impl View for Event {
    type V = EventV;

    open spec fn view(&self) -> EventV {
        match self {
            Event::DeviceRead(p) => EventV::DeviceRead(p@),
            Event::DeviceError { fatal } => EventV::DeviceError { fatal: *fatal },
            Event::TransportRecv { payload, source } => EventV::TransportRecv {
                payload: payload@,
                source: *source,
            },
            Event::TransportError { fatal } => EventV::TransportError { fatal: *fatal },
            Event::SendDone { ok, fatal } => EventV::SendDone { ok: *ok, fatal: *fatal },
            Event::WriteDone { ok, fatal } => EventV::WriteDone { ok: *ok, fatal: *fatal },
            Event::Cancel => EventV::Cancel,
            Event::NotReady => EventV::NotReady,
        }
    }
}

/// What the runner must do next.
#[derive(Debug)]
pub enum Action {
    /// Nothing to relay; wait for readiness again.
    Wait,
    /// Forward a device packet to the peer over the transport.
    Send { payload: Vec<u8>, dest: PeerAddr },
    /// Write a received datagram's payload to the device.
    Write { payload: Vec<u8> },
    /// Stop: release the device and the transport.
    Stop,
}

/// The mathematical value of an action.
pub enum ActionV {
    Wait,
    Send { payload: Seq<u8>, dest: PeerAddr },
    Write { payload: Seq<u8> },
    Stop,
}

impl View for Action {
    type V = ActionV;

    open spec fn view(&self) -> ActionV {
        match self {
            Action::Wait => ActionV::Wait,
            Action::Send { payload, dest } => ActionV::Send { payload: payload@, dest: *dest },
            Action::Write { payload } => ActionV::Write { payload: payload@ },
            Action::Stop => ActionV::Stop,
        }
    }
}

/// The forwarding engine's whole state: plain values, so the spec-level
/// transition speaks of the state directly.
#[derive(Clone, Copy, Debug)]
pub struct Engine {
    /// RUNNING or STOPPED; no other state exists.
    pub status: Status,
    /// Why the engine stopped, once it has.
    pub stop_reason: Option<StopReason>,
    /// The peer configured at startup, if any.
    pub fixed_peer: Option<PeerAddr>,
    /// The most recent sender, learned when no peer is configured.
    pub active_peer: Option<PeerAddr>,
    /// Packets forwarded device-to-transport (saturating).
    pub forwarded_to_transport: u64,
    /// Payloads written transport-to-device (saturating).
    pub forwarded_to_device: u64,
    /// Packets dropped after a transient failure or for want of a peer
    /// (saturating).
    pub dropped_packets: u64,
    /// Transient read failures (saturating).
    pub io_errors: u64,
}

/// Where a forwarded device packet is addressed: the configured peer,
/// or failing that the most recent sender.
pub open spec fn current_peer(e: Engine) -> Option<PeerAddr> {
    if e.fixed_peer is Some {
        e.fixed_peer
    } else {
        e.active_peer
    }
}

/// A counter bump that sticks at the top instead of wrapping.
pub open spec fn bump(c: u64) -> u64 {
    if c < u64::MAX {
        (c + 1) as u64
    } else {
        c
    }
}

/// The engine after stopping for the given reason.
pub open spec fn stopped_with(e: Engine, r: StopReason) -> Engine {
    Engine { status: Status::Stopped, stop_reason: Some(r), ..e }
}

/// The transition relation: from a state and an event to the next state
/// and the action the runner must perform.
pub open spec fn step_spec(e: Engine, ev: EventV) -> (Engine, ActionV) {
    if e.status is Stopped {
        (e, ActionV::Wait)
    } else {
        match ev {
            EventV::NotReady => (e, ActionV::Wait),
            EventV::Cancel => (stopped_with(e, StopReason::Cancelled), ActionV::Stop),
            EventV::DeviceRead(p) => if p.len() == 0 {
                (e, ActionV::Wait)
            } else {
                match current_peer(e) {
                    Some(d) => (e, ActionV::Send { payload: p, dest: d }),
                    None => (
                        Engine { dropped_packets: bump(e.dropped_packets), ..e },
                        ActionV::Wait,
                    ),
                }
            },
            EventV::DeviceError { fatal } => if fatal {
                (stopped_with(e, StopReason::DeviceFailed), ActionV::Stop)
            } else {
                (Engine { io_errors: bump(e.io_errors), ..e }, ActionV::Wait)
            },
            EventV::TransportRecv { payload, source } => {
                let learned = if e.fixed_peer is None && source is Some {
                    Engine { active_peer: source, ..e }
                } else {
                    e
                };
                if payload.len() == 0 {
                    if source is None {
                        (stopped_with(learned, StopReason::EndOfInput), ActionV::Stop)
                    } else {
                        (learned, ActionV::Wait)
                    }
                } else {
                    (learned, ActionV::Write { payload })
                }
            },
            EventV::TransportError { fatal } => if fatal {
                (stopped_with(e, StopReason::TransportFailed), ActionV::Stop)
            } else {
                (Engine { io_errors: bump(e.io_errors), ..e }, ActionV::Wait)
            },
            EventV::SendDone { ok, fatal } => if ok {
                (
                    Engine {
                        forwarded_to_transport: bump(e.forwarded_to_transport),
                        ..e
                    },
                    ActionV::Wait,
                )
            } else if fatal {
                (stopped_with(e, StopReason::TransportFailed), ActionV::Stop)
            } else {
                (Engine { dropped_packets: bump(e.dropped_packets), ..e }, ActionV::Wait)
            },
            EventV::WriteDone { ok, fatal } => if ok {
                (
                    Engine { forwarded_to_device: bump(e.forwarded_to_device), ..e },
                    ActionV::Wait,
                )
            } else if fatal {
                (stopped_with(e, StopReason::DeviceFailed), ActionV::Stop)
            } else {
                (Engine { dropped_packets: bump(e.dropped_packets), ..e }, ActionV::Wait)
            },
        }
    }
}

/// Bump a counter without wrapping.
fn bump_counter(c: u64) -> (r: u64)
    ensures
        r == bump(c),
{
    if c < u64::MAX {
        c + 1
    } else {
        c
    }
}

impl Engine {
    /// A fresh engine, RUNNING, with no packet relayed yet and no peer
    /// learned.
    pub fn new(fixed_peer: Option<PeerAddr>) -> (e: Engine)
        ensures
            e == (Engine {
                status: Status::Running,
                stop_reason: None,
                fixed_peer,
                active_peer: None,
                forwarded_to_transport: 0,
                forwarded_to_device: 0,
                dropped_packets: 0,
                io_errors: 0,
            }),
    {
        Engine {
            status: Status::Running,
            stop_reason: None,
            fixed_peer,
            active_peer: None,
            forwarded_to_transport: 0,
            forwarded_to_device: 0,
            dropped_packets: 0,
            io_errors: 0,
        }
    }

    /// Feed one readiness outcome to the engine; the result is exactly
    /// what the transition relation prescribes. In particular a packet
    /// read while RUNNING is forwarded byte-for-byte or dropped whole,
    /// an empty datagram with no sender stops the engine, a transient
    /// failure leaves it RUNNING, and once STOPPED every event leaves
    /// the state untouched.
    pub fn step(&mut self, ev: Event) -> (act: Action)
        ensures
            *final(self) == step_spec(*old(self), ev@).0,
            act@ == step_spec(*old(self), ev@).1,
    {
        if self.status == Status::Stopped {
            return Action::Wait;
        }
        match ev {
            Event::NotReady => Action::Wait,
            Event::Cancel => {
                self.status = Status::Stopped;
                self.stop_reason = Some(StopReason::Cancelled);
                Action::Stop
            },
            Event::DeviceRead(p) => {
                if p.len() == 0 {
                    Action::Wait
                } else {
                    let peer = if self.fixed_peer.is_some() {
                        self.fixed_peer
                    } else {
                        self.active_peer
                    };
                    match peer {
                        Some(d) => Action::Send { payload: p, dest: d },
                        None => {
                            self.dropped_packets = bump_counter(self.dropped_packets);
                            Action::Wait
                        },
                    }
                }
            },
            Event::DeviceError { fatal } => {
                if fatal {
                    self.status = Status::Stopped;
                    self.stop_reason = Some(StopReason::DeviceFailed);
                    Action::Stop
                } else {
                    self.io_errors = bump_counter(self.io_errors);
                    Action::Wait
                }
            },
            Event::TransportRecv { payload, source } => {
                if self.fixed_peer.is_none() && source.is_some() {
                    self.active_peer = source;
                }
                if payload.len() == 0 {
                    if source.is_none() {
                        self.status = Status::Stopped;
                        self.stop_reason = Some(StopReason::EndOfInput);
                        Action::Stop
                    } else {
                        Action::Wait
                    }
                } else {
                    Action::Write { payload }
                }
            },
            Event::TransportError { fatal } => {
                if fatal {
                    self.status = Status::Stopped;
                    self.stop_reason = Some(StopReason::TransportFailed);
                    Action::Stop
                } else {
                    self.io_errors = bump_counter(self.io_errors);
                    Action::Wait
                }
            },
            Event::SendDone { ok, fatal } => {
                if ok {
                    self.forwarded_to_transport = bump_counter(self.forwarded_to_transport);
                    Action::Wait
                } else if fatal {
                    self.status = Status::Stopped;
                    self.stop_reason = Some(StopReason::TransportFailed);
                    Action::Stop
                } else {
                    self.dropped_packets = bump_counter(self.dropped_packets);
                    Action::Wait
                }
            },
            Event::WriteDone { ok, fatal } => {
                if ok {
                    self.forwarded_to_device = bump_counter(self.forwarded_to_device);
                    Action::Wait
                } else if fatal {
                    self.status = Status::Stopped;
                    self.stop_reason = Some(StopReason::DeviceFailed);
                    Action::Stop
                } else {
                    self.dropped_packets = bump_counter(self.dropped_packets);
                    Action::Wait
                }
            },
        }
    }
}

/// The event a failed device read yields, by its OS error code.
pub open spec fn device_read_failure_spec(os_code: i32) -> EventV {
    match classify_spec(os_code) {
        IoErrorClass::NotReady => EventV::NotReady,
        IoErrorClass::Transient => EventV::DeviceError { fatal: false },
        IoErrorClass::Fatal => EventV::DeviceError { fatal: true },
    }
}

/// Map a failed device read to the engine's event: would-block is a
/// not-ready signal, a dead resource is fatal, anything else is one
/// transient error.
pub fn device_read_failure(os_code: i32) -> (ev: Event)
    ensures
        ev@ == device_read_failure_spec(os_code),
{
    match classify_os_error(os_code) {
        IoErrorClass::NotReady => Event::NotReady,
        IoErrorClass::Transient => Event::DeviceError { fatal: false },
        IoErrorClass::Fatal => Event::DeviceError { fatal: true },
    }
}

/// The event a failed transport receive yields, by its OS error code.
pub open spec fn transport_recv_failure_spec(os_code: i32) -> EventV {
    match classify_spec(os_code) {
        IoErrorClass::NotReady => EventV::NotReady,
        IoErrorClass::Transient => EventV::TransportError { fatal: false },
        IoErrorClass::Fatal => EventV::TransportError { fatal: true },
    }
}

/// Map a failed transport receive to the engine's event.
pub fn transport_recv_failure(os_code: i32) -> (ev: Event)
    ensures
        ev@ == transport_recv_failure_spec(os_code),
{
    match classify_os_error(os_code) {
        IoErrorClass::NotReady => Event::NotReady,
        IoErrorClass::Transient => Event::TransportError { fatal: false },
        IoErrorClass::Fatal => Event::TransportError { fatal: true },
    }
}

/// Outcome of a device write that returned a count: the device class is
/// packet-atomic, so anything short of the whole packet is a fatal
/// device failure.
pub fn device_write_done(written: usize, expected: usize) -> (ev: Event)
    ensures
        written == expected ==> ev@ == (EventV::WriteDone { ok: true, fatal: false }),
        written != expected ==> ev@ == (EventV::WriteDone { ok: false, fatal: true }),
{
    if written == expected {
        Event::WriteDone { ok: true, fatal: false }
    } else {
        Event::WriteDone { ok: false, fatal: true }
    }
}

/// Outcome of a device write that failed outright: fatal exactly when
/// the resource is dead; otherwise the packet is dropped, no retry.
pub fn device_write_failure(os_code: i32) -> (ev: Event)
    ensures
        ev@ == (EventV::WriteDone { ok: false, fatal: classify_spec(os_code) is Fatal }),
{
    let fatal = match classify_os_error(os_code) {
        IoErrorClass::Fatal => true,
        _ => false,
    };
    Event::WriteDone { ok: false, fatal }
}

/// Outcome of a transport send that returned a count: a datagram goes
/// out whole; a short send loses the one packet but not the tunnel.
pub fn transport_send_done(sent: usize, expected: usize) -> (ev: Event)
    ensures
        sent == expected ==> ev@ == (EventV::SendDone { ok: true, fatal: false }),
        sent != expected ==> ev@ == (EventV::SendDone { ok: false, fatal: false }),
{
    if sent == expected {
        Event::SendDone { ok: true, fatal: false }
    } else {
        Event::SendDone { ok: false, fatal: false }
    }
}

/// Outcome of a transport send that failed outright: fatal exactly when
/// the resource is dead; otherwise the packet is dropped, no retry.
pub fn transport_send_failure(os_code: i32) -> (ev: Event)
    ensures
        ev@ == (EventV::SendDone { ok: false, fatal: classify_spec(os_code) is Fatal }),
{
    let fatal = match classify_os_error(os_code) {
        IoErrorClass::Fatal => true,
        _ => false,
    };
    Event::SendDone { ok: false, fatal }
}

/// The state and actions after a whole sequence of events.
pub open spec fn run_spec(e: Engine, evs: Seq<EventV>) -> (Engine, Seq<ActionV>)
    decreases evs.len(),
{
    if evs.len() == 0 {
        (e, Seq::empty())
    } else {
        let first = step_spec(e, evs[0]);
        let rest = run_spec(first.0, evs.skip(1));
        (rest.0, seq![first.1] + rest.1)
    }
}

/// The payloads a run of actions sends to the transport, in order.
pub open spec fn sent_payloads(acts: Seq<ActionV>) -> Seq<Seq<u8>>
    decreases acts.len(),
{
    if acts.len() == 0 {
        Seq::empty()
    } else {
        let rest = sent_payloads(acts.skip(1));
        if acts[0] is Send {
            seq![acts[0]->Send_payload] + rest
        } else {
            rest
        }
    }
}

/// The payloads a run of actions writes to the device, in order.
pub open spec fn written_payloads(acts: Seq<ActionV>) -> Seq<Seq<u8>>
    decreases acts.len(),
{
    if acts.len() == 0 {
        Seq::empty()
    } else {
        let rest = written_payloads(acts.skip(1));
        if acts[0] is Write {
            seq![acts[0]->Write_payload] + rest
        } else {
            rest
        }
    }
}

/// The packets read from the device while the engine is RUNNING, in the
/// order they are read, empty not-ready reads left out.
pub open spec fn device_read_payloads(e: Engine, evs: Seq<EventV>) -> Seq<Seq<u8>>
    decreases evs.len(),
{
    if evs.len() == 0 {
        Seq::empty()
    } else {
        let rest = device_read_payloads(step_spec(e, evs[0]).0, evs.skip(1));
        if e.status is Running && (evs[0] matches EventV::DeviceRead(p) && p.len() > 0) {
            seq![evs[0]->DeviceRead_0] + rest
        } else {
            rest
        }
    }
}

/// The datagram payloads received from the transport while the engine
/// is RUNNING, in the order they arrive, empty ones left out.
pub open spec fn transport_recv_payloads(e: Engine, evs: Seq<EventV>) -> Seq<Seq<u8>>
    decreases evs.len(),
{
    if evs.len() == 0 {
        Seq::empty()
    } else {
        let rest = transport_recv_payloads(step_spec(e, evs[0]).0, evs.skip(1));
        if e.status is Running && (evs[0] matches EventV::TransportRecv { payload, .. }
            && payload.len() > 0) {
            seq![evs[0]->TransportRecv_payload] + rest
        } else {
            rest
        }
    }
}

proof fn lemma_sent_cons(a: ActionV, acts: Seq<ActionV>)
    ensures
        a is Send ==> sent_payloads(seq![a] + acts) == seq![a->Send_payload] + sent_payloads(acts),
        !(a is Send) ==> sent_payloads(seq![a] + acts) == sent_payloads(acts),
{
    let s = seq![a] + acts;
    assert(s[0] == a);
    assert(s.skip(1) =~= acts);
}

proof fn lemma_written_cons(a: ActionV, acts: Seq<ActionV>)
    ensures
        a is Write ==> written_payloads(seq![a] + acts) == seq![a->Write_payload]
            + written_payloads(acts),
        !(a is Write) ==> written_payloads(seq![a] + acts) == written_payloads(acts),
{
    let s = seq![a] + acts;
    assert(s[0] == a);
    assert(s.skip(1) =~= acts);
}

/// A reachable engine state is well formed: it is RUNNING with no stop
/// reason, or STOPPED with exactly one.
pub open spec fn engine_wf(e: Engine) -> bool {
    e.status is Running <==> e.stop_reason is None
}

/// A fresh engine is well formed, and every step keeps it so: the two
/// logical states are the only ones a run can reach.
pub proof fn lemma_step_preserves_wf(e: Engine, ev: EventV)
    requires
        engine_wf(e),
    ensures
        engine_wf(step_spec(e, ev).0),
{
}

/// The engine stops only for cause: an explicit cancellation, a fatal
/// failure on either resource, or end of input. A transient failure —
/// a permission-style write error among them — leaves it RUNNING, so
/// the next readiness wait still serves both directions.
pub proof fn lemma_stops_only_for_cause(e: Engine, ev: EventV)
    requires
        e.status is Running,
        step_spec(e, ev).0.status is Stopped,
    ensures
        ({
            ||| ev is Cancel
            ||| ev matches EventV::DeviceError { fatal } && fatal
            ||| ev matches EventV::TransportError { fatal } && fatal
            ||| ev matches EventV::SendDone { ok, fatal } && fatal
            ||| ev matches EventV::WriteDone { ok, fatal } && fatal
            ||| ev matches EventV::TransportRecv { payload, source } && payload.len() == 0
                && source is None
        }),
{
}

/// A step never changes the peer configured at startup.
pub proof fn lemma_step_keeps_fixed_peer(e: Engine, ev: EventV)
    ensures
        step_spec(e, ev).0.fixed_peer == e.fixed_peer,
{
}

/// With a peer configured at startup, every packet read from the device
/// while RUNNING is sent to the transport byte-for-byte, exactly once,
/// and in the order it was read — never partially, duplicated, or
/// reordered.
pub proof fn lemma_device_to_transport_order(e: Engine, evs: Seq<EventV>)
    requires
        e.fixed_peer is Some,
    ensures
        sent_payloads(run_spec(e, evs).1) == device_read_payloads(e, evs),
    decreases evs.len(),
{
    if evs.len() == 0 {
        assert(sent_payloads(run_spec(e, evs).1) =~= device_read_payloads(e, evs));
    } else {
        let ev0 = evs[0];
        let e1 = step_spec(e, ev0).0;
        let a0 = step_spec(e, ev0).1;
        lemma_step_keeps_fixed_peer(e, ev0);
        lemma_device_to_transport_order(e1, evs.skip(1));
        lemma_sent_cons(a0, run_spec(e1, evs.skip(1)).1);
    }
}

/// Every non-empty datagram received from the transport while RUNNING
/// is written to the device byte-for-byte, exactly once, and in the
/// order it arrived.
pub proof fn lemma_transport_to_device_order(e: Engine, evs: Seq<EventV>)
    ensures
        written_payloads(run_spec(e, evs).1) == transport_recv_payloads(e, evs),
    decreases evs.len(),
{
    if evs.len() == 0 {
        assert(written_payloads(run_spec(e, evs).1) =~= transport_recv_payloads(e, evs));
    } else {
        let ev0 = evs[0];
        let e1 = step_spec(e, ev0).0;
        let a0 = step_spec(e, ev0).1;
        lemma_transport_to_device_order(e1, evs.skip(1));
        lemma_written_cons(a0, run_spec(e1, evs.skip(1)).1);
    }
}

/// A run answers every event with exactly one action.
pub proof fn lemma_run_length(e: Engine, evs: Seq<EventV>)
    ensures
        run_spec(e, evs).1.len() == evs.len(),
    decreases evs.len(),
{
    if evs.len() > 0 {
        lemma_run_length(step_spec(e, evs[0]).0, evs.skip(1));
    }
}

/// Stopping is final and idempotent: once STOPPED, any further events —
/// repeated cancellations included — leave the state untouched and ask
/// the runner for nothing.
pub proof fn lemma_stopped_is_final(e: Engine, evs: Seq<EventV>)
    requires
        e.status is Stopped,
    ensures
        run_spec(e, evs).0 == e,
        forall|i: int| 0 <= i < evs.len() ==> run_spec(e, evs).1[i] is Wait,
    decreases evs.len(),
{
    if evs.len() == 0 {
    } else {
        let e1 = step_spec(e, evs[0]).0;
        assert(e1 == e);
        lemma_stopped_is_final(e, evs.skip(1));
        lemma_run_length(e, evs.skip(1));
        let acts = run_spec(e, evs).1;
        let rest = run_spec(e, evs.skip(1)).1;
        assert(acts == seq![step_spec(e, evs[0]).1] + rest);
        assert forall|i: int| 0 <= i < evs.len() implies acts[i] is Wait by {
            if i > 0 {
                assert(acts[i] == rest[i - 1]);
            }
        }
    }
}

/// How many times a run of actions asks the runner to stop.
pub open spec fn stop_count(acts: Seq<ActionV>) -> int
    decreases acts.len(),
{
    if acts.len() == 0 {
        0
    } else {
        (if acts[0] is Stop {
            1int
        } else {
            0int
        }) + stop_count(acts.skip(1))
    }
}

proof fn lemma_stop_count_cons(a: ActionV, acts: Seq<ActionV>)
    ensures
        stop_count(seq![a] + acts) == (if a is Stop {
            1int
        } else {
            0int
        }) + stop_count(acts),
{
    let s = seq![a] + acts;
    assert(s[0] == a);
    assert(s.skip(1) =~= acts);
}

/// A step that does not stop leaves a running engine running, and a
/// Stop action is asked for exactly when the engine stops.
pub proof fn lemma_step_stop_action(e: Engine, ev: EventV)
    requires
        e.status is Running,
    ensures
        step_spec(e, ev).1 is Stop <==> step_spec(e, ev).0.status is Stopped,
{
}

/// The resources are released at most once: over any run, the engine
/// asks the runner to stop at most once, and never once it is already
/// STOPPED.
pub proof fn lemma_stop_at_most_once(e: Engine, evs: Seq<EventV>)
    ensures
        e.status is Stopped ==> stop_count(run_spec(e, evs).1) == 0,
        stop_count(run_spec(e, evs).1) <= 1,
    decreases evs.len(),
{
    if evs.len() == 0 {
    } else {
        let ev0 = evs[0];
        let e1 = step_spec(e, ev0).0;
        let a0 = step_spec(e, ev0).1;
        lemma_stop_at_most_once(e1, evs.skip(1));
        lemma_stop_count_cons(a0, run_spec(e1, evs.skip(1)).1);
        if e.status is Running {
            lemma_step_stop_action(e, ev0);
        }
    }
}

} // verus!
