//! Connection drivers.
//!
//! A byte source (a connected socket) is modelled abstractly: each read
//! yields a [`ReadEvent`] — some bytes, an orderly close (a read of zero
//! bytes), or a transport failure. The drivers here are pure transition
//! functions from state and event to the next state; the surrounding
//! process performs the reads and feeds the events in.
//!
//! Two interchangeable strategies handle a connection, selected by
//! [`ConnectionMode`]: decode one fixed-size header
//! ([`DriverState`]/[`step`]), or report raw chunks until the peer closes
//! ([`ChunkState`]/[`chunk_step`]).

use vstd::prelude::*;

use crate::header::{HeaderError, USBIPHeader, HEADER_LEN, spec_decode};

verus! {

/// Size of the buffer each read uses in the raw-chunk strategy.
pub const CHUNK_READ_LEN: usize = 4;

/// What one read from the byte source produced.
#[derive(Debug, PartialEq, Eq)]
pub enum ReadEvent {
    /// The read returned these bytes (more than zero of them).
    Data(Vec<u8>),
    /// The read returned zero bytes: the peer closed the stream.
    Closed,
    /// The read failed at the transport level.
    IoError,
}

/// Mathematical model of a [`ReadEvent`].
pub enum EventModel {
    Data(Seq<u8>),
    Closed,
    IoError,
}

impl View for ReadEvent {
    type V = EventModel;

    open spec fn view(&self) -> EventModel {
        match self {
            ReadEvent::Data(chunk) => EventModel::Data(chunk@),
            ReadEvent::Closed => EventModel::Closed,
            ReadEvent::IoError => EventModel::IoError,
        }
    }
}

/// State of the single-header driver.
///
/// `AwaitingHeader` holds the header bytes accumulated so far (always
/// fewer than `HEADER_LEN`); `HeaderReady` and `Failed` are terminal.
#[derive(Debug, PartialEq, Eq)]
pub enum DriverState {
    AwaitingHeader(Vec<u8>),
    HeaderReady(USBIPHeader),
    Failed(HeaderError),
}

/// Mathematical model of a [`DriverState`].
pub enum StateModel {
    Awaiting(Seq<u8>),
    Ready(USBIPHeader),
    Failed(HeaderError),
}

impl View for DriverState {
    type V = StateModel;

    open spec fn view(&self) -> StateModel {
        match self {
            DriverState::AwaitingHeader(buf) => StateModel::Awaiting(buf@),
            DriverState::HeaderReady(h) => StateModel::Ready(*h),
            DriverState::Failed(e) => StateModel::Failed(*e),
        }
    }
}

/// A driver state is well formed when an accumulating buffer is still
/// short of a full header; on reaching `HEADER_LEN` bytes it must have
/// decoded and moved on.
pub open spec fn state_wf(s: StateModel) -> bool {
    s matches StateModel::Awaiting(got) ==> got.len() < HEADER_LEN
}

/// The state a driver starts in: no header bytes accumulated yet.
pub open spec fn init_state() -> StateModel {
    StateModel::Awaiting(Seq::empty())
}

/// One transition of the single-header state machine.
///
/// Arriving bytes are appended to the accumulated buffer; as soon as
/// `HEADER_LEN` bytes are present the first `HEADER_LEN` of them decode to
/// the header. A close before that is a truncated header, a transport
/// failure is an I/O error, and the terminal states absorb every further
/// event.
pub open spec fn spec_step(s: StateModel, e: EventModel) -> StateModel {
    match s {
        StateModel::Awaiting(got) => match e {
            EventModel::Data(chunk) => {
                let all = got + chunk;
                if all.len() >= HEADER_LEN {
                    StateModel::Ready(spec_decode(all))
                } else {
                    StateModel::Awaiting(all)
                }
            },
            EventModel::Closed => StateModel::Failed(HeaderError::TruncatedHeader),
            EventModel::IoError => StateModel::Failed(HeaderError::IoError),
        },
        _ => s,
    }
}

/// How many bytes the driver wants from the byte source next; zero once
/// it is in a terminal state.
pub open spec fn spec_bytes_needed(s: StateModel) -> int {
    match s {
        StateModel::Awaiting(got) => HEADER_LEN - got.len(),
        _ => 0,
    }
}

impl DriverState {
    /// Well-formedness of the executable state; see [`state_wf`].
    pub open spec fn wf(&self) -> bool {
        state_wf(self@)
    }

    /// A fresh driver for one connection.
    pub fn init() -> (s: DriverState)
        ensures
            s@ == init_state(),
            s.wf(),
    {
        DriverState::AwaitingHeader(Vec::new())
    }

    /// Whether the driver still wants more bytes.
    pub fn is_awaiting(&self) -> (b: bool)
        ensures
            b == (self@ is Awaiting),
    {
        match self {
            DriverState::AwaitingHeader(_) => true,
            _ => false,
        }
    }

    /// How many more bytes to request from the byte source.
    pub fn bytes_needed(&self) -> (n: usize)
        requires
            self.wf(),
        ensures
            n == spec_bytes_needed(self@),
    {
        match self {
            DriverState::AwaitingHeader(buf) => HEADER_LEN - buf.len(),
            _ => 0,
        }
    }
}

/// One transition of the single-header driver; see [`spec_step`].
pub fn step(state: DriverState, event: ReadEvent) -> (r: DriverState)
    requires
        state.wf(),
    ensures
        r.wf(),
        r@ == spec_step(state@, event@),
{
    match state {
        DriverState::AwaitingHeader(mut buf) => match event {
            ReadEvent::Data(mut chunk) => {
                buf.append(&mut chunk);
                if buf.len() >= HEADER_LEN {
                    let h = crate::header::decode_prefix(&buf);
                    DriverState::HeaderReady(h)
                } else {
                    DriverState::AwaitingHeader(buf)
                }
            },
            ReadEvent::Closed => DriverState::Failed(HeaderError::TruncatedHeader),
            ReadEvent::IoError => DriverState::Failed(HeaderError::IoError),
        },
        terminal => terminal,
    }
}

/// The data events that deliver `chunks`, in order.
pub open spec fn data_events(chunks: Seq<Seq<u8>>) -> Seq<EventModel> {
    chunks.map_values(|c: Seq<u8>| EventModel::Data(c))
}

/// The state after consuming `events` in order, starting from `s`.
pub open spec fn drive(s: StateModel, events: Seq<EventModel>) -> StateModel
    decreases events.len(),
{
    if events.len() == 0 {
        s
    } else {
        drive(spec_step(s, events[0]), events.skip(1))
    }
}

/// Terminal states absorb every further event.
pub proof fn lemma_terminal_absorbs(s: StateModel, events: Seq<EventModel>)
    requires
        !(s is Awaiting),
    ensures
        drive(s, events) == s,
    decreases events.len(),
{
    if events.len() > 0 {
        lemma_terminal_absorbs(s, events.skip(1));
    }
}

/// Feeding data chunks one read at a time leaves the driver exactly where
/// delivering their concatenation in a single read would: short reads do
/// not change what is decoded.
pub proof fn lemma_reads_equal_concat(got: Seq<u8>, chunks: Seq<Seq<u8>>)
    requires
        got.len() < HEADER_LEN,
    ensures
        drive(StateModel::Awaiting(got), data_events(chunks)) == spec_step(
            StateModel::Awaiting(got),
            EventModel::Data(chunks.flatten()),
        ),
    decreases chunks.len(),
{
    if chunks.len() == 0 {
        assert(got + chunks.flatten() =~= got);
    } else {
        let first = chunks[0];
        let rest = chunks.skip(1);
        assert(data_events(chunks)[0] == EventModel::Data(first));
        assert(data_events(chunks).skip(1) =~= data_events(rest));
        assert(chunks.flatten() == first + rest.flatten());
        assert(got + chunks.flatten() =~= (got + first) + rest.flatten());
        let all0 = got + first;
        if all0.len() >= HEADER_LEN {
            lemma_terminal_absorbs(StateModel::Ready(spec_decode(all0)), data_events(rest));
            assert(spec_decode(all0) == spec_decode(all0 + rest.flatten()));
        } else {
            lemma_reads_equal_concat(all0, rest);
        }
    }
}

/// Consuming one more event after a run of events is one more step.
pub proof fn lemma_drive_push(s: StateModel, events: Seq<EventModel>, e: EventModel)
    ensures
        drive(s, events.push(e)) == spec_step(drive(s, events), e),
    decreases events.len(),
{
    if events.len() == 0 {
        assert(events.push(e)[0] == e);
        assert(events.push(e).skip(1) =~= Seq::<EventModel>::empty());
        assert(drive(spec_step(s, e), Seq::<EventModel>::empty()) == spec_step(s, e));
    } else {
        assert(events.push(e)[0] == events[0]);
        assert(events.push(e).skip(1) =~= events.skip(1).push(e));
        lemma_drive_push(spec_step(s, events[0]), events.skip(1), e);
        assert(drive(s, events.push(e)) == drive(
            spec_step(s, events[0]),
            events.skip(1).push(e),
        ));
    }
}

/// However a full header's bytes are split across reads, the driver ends
/// with the header decoded from their concatenation — identical to the
/// header a single full read would have produced.
pub proof fn lemma_split_reads_same_header(chunks: Seq<Seq<u8>>)
    requires
        chunks.flatten().len() >= HEADER_LEN,
    ensures
        drive(init_state(), data_events(chunks)) == StateModel::Ready(
            spec_decode(chunks.flatten()),
        ),
{
    lemma_reads_equal_concat(Seq::empty(), chunks);
    assert(Seq::empty() + chunks.flatten() =~= chunks.flatten());
}

/// If the stream closes before a full header's bytes have arrived, the
/// driver fails with `TruncatedHeader`: it never yields a header from a
/// partial buffer.
pub proof fn lemma_truncated_header(chunks: Seq<Seq<u8>>)
    requires
        chunks.flatten().len() < HEADER_LEN,
    ensures
        drive(init_state(), data_events(chunks).push(EventModel::Closed)) == StateModel::Failed(
            HeaderError::TruncatedHeader,
        ),
{
    lemma_drive_push(init_state(), data_events(chunks), EventModel::Closed);
    lemma_reads_equal_concat(Seq::empty(), chunks);
    assert(Seq::empty() + chunks.flatten() =~= chunks.flatten());
}

/// How a connection is handled: decode one header, or stream raw chunks.
#[derive(Debug, Clone, Copy, PartialEq, Eq, Structural)]
pub enum ConnectionMode {
    SingleHeader,
    RawChunks,
}

/// State of the raw-chunk loop.
#[derive(Debug, Clone, Copy, PartialEq, Eq, Structural)]
pub enum ChunkState {
    /// Still reading; each non-empty read is reported as one chunk.
    Streaming,
    /// The peer closed the stream; the loop ended cleanly.
    Done,
    /// A read failed at the transport level.
    Failed,
}

/// One transition of the raw-chunk loop: the next state, and the chunk to
/// report, if any. Non-empty bytes are reported verbatim and the loop goes
/// on; a read of zero bytes ends it cleanly; a transport failure ends it
/// in failure. The terminal states absorb further events and report
/// nothing.
pub open spec fn spec_chunk_step(s: ChunkState, e: EventModel) -> (ChunkState, Option<Seq<u8>>) {
    match s {
        ChunkState::Streaming => match e {
            EventModel::Data(chunk) => if chunk.len() > 0 {
                (ChunkState::Streaming, Some(chunk))
            } else {
                (ChunkState::Done, None)
            },
            EventModel::Closed => (ChunkState::Done, None),
            EventModel::IoError => (ChunkState::Failed, None),
        },
        _ => (s, None),
    }
}

/// One transition of the raw-chunk loop; see [`spec_chunk_step`].
pub fn chunk_step(state: ChunkState, event: ReadEvent) -> (r: (ChunkState, Option<Vec<u8>>))
    ensures
        r.0 == spec_chunk_step(state, event@).0,
        (match r.1 {
            Some(chunk) => Some(chunk@),
            None => None,
        }) == spec_chunk_step(state, event@).1,
{
    match state {
        ChunkState::Streaming => match event {
            ReadEvent::Data(chunk) => if chunk.len() > 0 {
                (ChunkState::Streaming, Some(chunk))
            } else {
                (ChunkState::Done, None)
            },
            ReadEvent::Closed => (ChunkState::Done, None),
            ReadEvent::IoError => (ChunkState::Failed, None),
        },
        terminal => (terminal, None),
    }
}

} // verus!
