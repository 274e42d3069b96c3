//! The I/O coordinator: lifecycle state, command/event protocol, and the
//! coalescing of received byte bursts into timestamped history entries.
//!
//! The perpetual worker loop itself (thread, channels, reads and writes on
//! the serial handle) cannot be verified and lives outside this crate; every
//! decision it takes is a function here, from state and I/O outcome to next
//! state, emitted events and bytes to write.

use vstd::prelude::*;
use vstd::string::StringExecFns;

verus! {

/// A typed failure of connection setup, returned to the caller that asked
/// for a serial context; never a crash.
#[derive(Debug, PartialEq, Eq, Structural, Clone, Copy)]
pub enum PortError {
    BadSettings,
    FailedToFlush,
    FailedToOpen,
}

// The open serial handle is owned, not inspected: the type is declared so a
// context can carry it, and all reads and writes on it happen outside the
// verified library.
#[verifier::external_type_specification]
#[verifier::external_body]
pub struct ExSerialPort(serial2::SerialPort);

/// One open serial connection: its identifying name plus the owned handle.
/// Equality compares the name only. Exclusively owned by the coordinator
/// from `Start` to `Stop`; dropping it closes the handle.
pub struct SerialContext {
    pub port_name: String,
    pub com_port: Option<serial2::SerialPort>,
}

impl SerialContext {
    pub fn new(port_name: String, com_port: serial2::SerialPort) -> (r: SerialContext)
        ensures
            r.port_name@ == port_name@,
            r.com_port is Some,
    {
        SerialContext { port_name, com_port: Some(com_port) }
    }
}

impl PartialEq for SerialContext {
    fn eq(&self, other: &Self) -> bool {
        self.port_name == other.port_name
    }
}

impl vstd::std_specs::cmp::PartialEqSpecImpl for SerialContext {
    open spec fn obeys_eq_spec() -> bool {
        true
    }

    open spec fn eq_spec(&self, other: &Self) -> bool {
        self.port_name@ == other.port_name@
    }
}

/// Direction tag of a history entry: received or transmitted bytes.
#[derive(Debug, Clone, Copy, PartialEq, Eq, Structural)]
pub enum RxTx {
    Rx,
    Tx,
}

impl Default for RxTx {
    fn default() -> (r: RxTx)
        ensures
            r == RxTx::Rx,
    {
        RxTx::Rx
    }
}

impl RxTx {
    /// The two-letter tag shown in front of an entry.
    pub fn label(&self) -> (r: String)
        ensures
            *self == RxTx::Rx ==> r@ == "RX"@,
            *self == RxTx::Tx ==> r@ == "TX"@,
    {
        match self {
            RxTx::Rx => String::from_str("RX"),
            RxTx::Tx => String::from_str("TX"),
        }
    }
}

/// One timestamped, direction-tagged record of bytes sent or received.
/// Timestamps are wall-clock milliseconds. All bytes of one entry were
/// observed within one coalescing window; an entry is immutable once
/// emitted, and only the in-flight pending entry is still appended to.
#[derive(Debug)]
pub struct HistoryEntry {
    pub timestamp: i64,
    pub rx_tx: RxTx,
    pub data: Vec<u8>,
}

impl Default for HistoryEntry {
    fn default() -> (r: HistoryEntry)
        ensures
            r.timestamp == 0,
            r.rx_tx == RxTx::Rx,
            r.data@ == Seq::<u8>::empty(),
    {
        HistoryEntry { timestamp: 0, rx_tx: RxTx::Rx, data: Vec::new() }
    }
}

impl Clone for HistoryEntry {
    fn clone(&self) -> (r: HistoryEntry)
        ensures
            r.timestamp == self.timestamp,
            r.rx_tx == self.rx_tx,
            r.data@ == self.data@,
    {
        let mut data: Vec<u8> = Vec::new();
        let mut i: usize = 0;
        while i < self.data.len()
            invariant
                i <= self.data@.len(),
                data@ == self.data@.subrange(0, i as int),
            decreases self.data@.len() - i,
        {
            data.push(self.data[i]);
            proof {
                assert(data@ =~= self.data@.subrange(0, i + 1));
            }
            i = i + 1;
        }
        proof {
            assert(data@ =~= self.data@);
        }
        HistoryEntry { timestamp: self.timestamp, rx_tx: self.rx_tx, data }
    }
}

/// The lifecycle state of the coordinator: stopped, or running with
/// exclusive ownership of one open connection. Equality compares the tag
/// only, never the payload.
pub enum PortThreadState {
    Stopped,
    Running(SerialContext),
}

impl PartialEq for PortThreadState {
    fn eq(&self, other: &Self) -> bool {
        match (self, other) {
            (PortThreadState::Stopped, PortThreadState::Stopped) => true,
            (PortThreadState::Running(_), PortThreadState::Running(_)) => true,
            _ => false,
        }
    }
}

impl vstd::std_specs::cmp::PartialEqSpecImpl for PortThreadState {
    open spec fn obeys_eq_spec() -> bool {
        true
    }

    open spec fn eq_spec(&self, other: &Self) -> bool {
        *self is Stopped <==> *other is Stopped
    }
}

/// A command from the front end to the coordinator; ownership of the
/// payload transfers with the command.
pub enum SerialCommand {
    Stop,
    Start(SerialContext),
    Send(Vec<u8>),
}

/// An event from the coordinator to the front end.
#[derive(Debug)]
pub enum SerialStateMessage {
    DataEvent(HistoryEntry),
    ErrorEvent(String),
    Started,
    Stopped,
}

/// Two received chunks whose timestamps differ by less than this many
/// milliseconds are merged into one pending history entry.
pub const COALESCE_WINDOW_MS: i64 = 5;

/// The state after applying one command, per the lifecycle table: `Start`
/// opens only from `Stopped`, `Stop` always stops, `Send` never changes
/// the state.
pub open spec fn step_state(state: PortThreadState, cmd: SerialCommand) -> PortThreadState {
    match cmd {
        SerialCommand::Send(_) => state,
        SerialCommand::Stop => PortThreadState::Stopped,
        SerialCommand::Start(ctx) => if state is Stopped {
            PortThreadState::Running(ctx)
        } else {
            state
        },
    }
}

/// The events emitted by applying one command: `Started` and `Stopped` are
/// emitted exactly on the transitions that change the state, and never on
/// the redundant ones.
pub open spec fn step_events(state: PortThreadState, cmd: SerialCommand) -> Seq<
    SerialStateMessage,
> {
    match cmd {
        SerialCommand::Send(_) => Seq::empty(),
        SerialCommand::Stop => if state is Running {
            seq![SerialStateMessage::Stopped]
        } else {
            Seq::empty()
        },
        SerialCommand::Start(_) => if state is Stopped {
            seq![SerialStateMessage::Started]
        } else {
            Seq::empty()
        },
    }
}

/// The bytes queued for the write of the same cycle: the payload of a
/// `Send` received while running, and nothing otherwise — a `Send` while
/// stopped is discarded.
pub open spec fn step_queued(state: PortThreadState, cmd: SerialCommand) -> Seq<u8> {
    match cmd {
        SerialCommand::Send(d) => if state is Running {
            d@
        } else {
            Seq::empty()
        },
        _ => Seq::empty(),
    }
}

/// Applies one command to the lifecycle state, appends the emitted events,
/// and returns the bytes to write in this cycle. A `Start` while running
/// discards the new context; a `Stop` while stopped is a no-op; a `Send`
/// while stopped is discarded.
pub fn apply_command(
    state: &mut PortThreadState,
    cmd: SerialCommand,
    events: &mut Vec<SerialStateMessage>,
) -> (data_to_send: Vec<u8>)
    ensures
        *final(state) == step_state(*old(state), cmd),
        final(events)@ == old(events)@ + step_events(*old(state), cmd),
        data_to_send@ == step_queued(*old(state), cmd),
{
    match cmd {
        SerialCommand::Send(d) => {
            proof {
                assert(events@ =~= old(events)@ + step_events(*old(state), cmd));
            }
            match state {
                PortThreadState::Running(_) => d,
                PortThreadState::Stopped => Vec::new(),
            }
        },
        SerialCommand::Stop => {
            let was_running = match state {
                PortThreadState::Running(_) => true,
                PortThreadState::Stopped => false,
            };
            if was_running {
                events.push(SerialStateMessage::Stopped);
                *state = PortThreadState::Stopped;
                proof {
                    assert(events@ =~= old(events)@ + seq![SerialStateMessage::Stopped]);
                }
            } else {
                proof {
                    assert(events@ =~= old(events)@ + Seq::<SerialStateMessage>::empty());
                }
            }
            Vec::new()
        },
        SerialCommand::Start(ctx) => {
            let was_stopped = match state {
                PortThreadState::Stopped => true,
                PortThreadState::Running(_) => false,
            };
            if was_stopped {
                events.push(SerialStateMessage::Started);
                *state = PortThreadState::Running(ctx);
                proof {
                    assert(events@ =~= old(events)@ + seq![SerialStateMessage::Started]);
                }
            } else {
                proof {
                    assert(events@ =~= old(events)@ + Seq::<SerialStateMessage>::empty());
                }
            }
            Vec::new()
        },
    }
}

/// Redundant transitions change nothing and emit no event: a `Start` while
/// running keeps the running state (the new context is discarded), and a
/// `Stop` while stopped stays stopped, both in silence.
pub proof fn lemma_redundant_transitions(state: PortThreadState, cmd: SerialCommand)
    requires
        (state is Running && cmd is Start) || (state is Stopped && cmd is Stop),
    ensures
        step_state(state, cmd) == state,
        step_events(state, cmd) == Seq::<SerialStateMessage>::empty(),
        step_queued(state, cmd) == Seq::<u8>::empty(),
{
}

/// A `Send` received while stopped is discarded entirely: nothing is
/// queued, nothing is emitted, the state does not change, and a later
/// `Start` carries none of the discarded bytes into its own cycle.
pub proof fn lemma_send_while_stopped(
    state: PortThreadState,
    data: Vec<u8>,
    ctx: SerialContext,
)
    requires
        state is Stopped,
    ensures
        step_state(state, SerialCommand::Send(data)) == state,
        step_events(state, SerialCommand::Send(data)) == Seq::<SerialStateMessage>::empty(),
        step_queued(state, SerialCommand::Send(data)) == Seq::<u8>::empty(),
        step_queued(
            step_state(state, SerialCommand::Send(data)),
            SerialCommand::Start(ctx),
        ) == Seq::<u8>::empty(),
{
}

/// The command-acquisition policy: while stopped the worker blocks on the
/// command channel indefinitely (zero idle cost); while running it must
/// poll without blocking so the read/write cycle still runs every tick.
pub fn waits_for_command(state: &PortThreadState) -> (r: bool)
    ensures
        r == (*state is Stopped),
{
    match state {
        PortThreadState::Stopped => true,
        PortThreadState::Running(_) => false,
    }
}

/// The fixed text of the event reporting a failed write.
pub open spec fn write_failed_message() -> Seq<char> {
    "Failed to write to port"@
}

/// Turns the outcome of one attempted write into its event: on success a
/// transmit entry timestamped `now` carrying exactly the written bytes, on
/// failure exactly one error event with the fixed message — the bytes are
/// discarded either way and nothing is retried.
pub fn handle_write_result(
    write_ok: bool,
    data: Vec<u8>,
    now: i64,
    events: &mut Vec<SerialStateMessage>,
)
    ensures
        write_ok ==> final(events)@ == old(events)@.push(
            SerialStateMessage::DataEvent(
                (HistoryEntry { timestamp: now, rx_tx: RxTx::Tx, data: data }),
            ),
        ),
        !write_ok ==> (exists|m: String|
            m@ == write_failed_message() && final(events)@ == old(events)@.push(
                SerialStateMessage::ErrorEvent(m),
            )),
{
    if write_ok {
        events.push(
            SerialStateMessage::DataEvent(HistoryEntry { timestamp: now, rx_tx: RxTx::Tx, data }),
        );
    } else {
        let m = String::from_str("Failed to write to port");
        events.push(SerialStateMessage::ErrorEvent(m));
    }
}

/// Coalesces one newly received chunk, observed at time `now`, into the
/// pending entry: within the window the chunk is appended and the
/// timestamp is unchanged; past the window the previous pending entry is
/// emitted (if non-empty) and the chunk starts a new pending entry
/// timestamped `now`. The final pending burst is never flushed by itself.
pub fn handle_received_bytes(
    last_entry: &mut HistoryEntry,
    received_data: Vec<u8>,
    now: i64,
    events: &mut Vec<SerialStateMessage>,
)
    ensures
        final(last_entry).rx_tx == old(last_entry).rx_tx,
        now - old(last_entry).timestamp < COALESCE_WINDOW_MS ==> {
            &&& final(last_entry).timestamp == old(last_entry).timestamp
            &&& final(last_entry).data@ == old(last_entry).data@ + received_data@
            &&& final(events)@ == old(events)@
        },
        now - old(last_entry).timestamp >= COALESCE_WINDOW_MS ==> {
            &&& final(last_entry).timestamp == now
            &&& final(last_entry).data@ == received_data@
            &&& final(events)@ == if old(last_entry).data@.len() > 0 {
                old(events)@.push(SerialStateMessage::DataEvent(*old(last_entry)))
            } else {
                old(events)@
            }
        },
{
    let within_window = (now as i128) - (last_entry.timestamp as i128) < (
    COALESCE_WINDOW_MS as i128);
    if within_window {
        let mut chunk = received_data;
        last_entry.data.append(&mut chunk);
    } else {
        let mut taken = received_data;
        core::mem::swap(&mut last_entry.data, &mut taken);
        if taken.len() > 0 {
            events.push(
                SerialStateMessage::DataEvent(
                    HistoryEntry {
                        timestamp: last_entry.timestamp,
                        rx_tx: last_entry.rx_tx,
                        data: taken,
                    },
                ),
            );
        }
        last_entry.timestamp = now;
    }
}

/// Relies on chrono::Local::now, converted to milliseconds since the Unix
/// epoch; nothing can be promised of the clock's reading.
#[verifier::external_body]
fn now_ms() -> i64 {
    chrono::Local::now().timestamp_millis()
}

/// Coalesces a newly received chunk at the current wall-clock time, and
/// returns the time that was used, so that the effect is exactly
/// [`handle_received_bytes`] at the returned instant.
pub fn receive_chunk(
    last_entry: &mut HistoryEntry,
    received_data: Vec<u8>,
    events: &mut Vec<SerialStateMessage>,
) -> (now: i64)
    ensures
        final(last_entry).rx_tx == old(last_entry).rx_tx,
        now - old(last_entry).timestamp < COALESCE_WINDOW_MS ==> {
            &&& final(last_entry).timestamp == old(last_entry).timestamp
            &&& final(last_entry).data@ == old(last_entry).data@ + received_data@
            &&& final(events)@ == old(events)@
        },
        now - old(last_entry).timestamp >= COALESCE_WINDOW_MS ==> {
            &&& final(last_entry).timestamp == now
            &&& final(last_entry).data@ == received_data@
            &&& final(events)@ == if old(last_entry).data@.len() > 0 {
                old(events)@.push(SerialStateMessage::DataEvent(*old(last_entry)))
            } else {
                old(events)@
            }
        },
{
    let now = now_ms();
    handle_received_bytes(last_entry, received_data, now, events);
    now
}

/// Records the outcome of one attempted write at the current wall-clock
/// time, and returns the time that was used, so that the effect is exactly
/// [`handle_write_result`] at the returned instant.
pub fn record_transmission(
    write_ok: bool,
    data: Vec<u8>,
    events: &mut Vec<SerialStateMessage>,
) -> (now: i64)
    ensures
        write_ok ==> final(events)@ == old(events)@.push(
            SerialStateMessage::DataEvent(
                (HistoryEntry { timestamp: now, rx_tx: RxTx::Tx, data: data }),
            ),
        ),
        !write_ok ==> (exists|m: String|
            m@ == write_failed_message() && final(events)@ == old(events)@.push(
                SerialStateMessage::ErrorEvent(m),
            )),
{
    let now = now_ms();
    handle_write_result(write_ok, data, now, events);
    now
}

} // verus!
