//! The serial reader's streaming core: a bounded line accumulator that
//! splits incoming text into newline-terminated messages, and the step
//! function that turns one read outcome into the actions the background
//! task performs (emit a line, pause for backpressure, retry after an
//! idle read).
//!
//! The task itself — opening the device, the blocking reads, the timing —
//! runs outside the library; everything it decides is decided here.

use vstd::prelude::*;
use vstd::string::StrSliceExecFns;
use vstd::string::StringExecFns;
use crate::registry::PortRegistry;
use crate::text::drained;
use crate::text::find_newline;
use crate::text::first_nl;
use crate::text::is_ws;
use crate::text::is_ws_char;
use crate::text::lemma_trimmed_prefix;
use crate::text::remainder;
use crate::text::trimmed;

verus! {

/// Ceiling on the accumulator: a buffer that grows past this many
/// characters without a newline is discarded wholesale.
pub const MAX_BUFFER_CHARS: usize = 4000;

/// Minimum pause after each emitted line, capping the emission rate so a
/// fast device cannot overwhelm the downstream message channel.
pub const EMIT_PAUSE_MS: u64 = 20;

/// Pause before retrying after a read that yielded nothing.
pub const IDLE_PAUSE_MS: u64 = 10;

/// Baud rate at which the reader opens the serial device.
pub const BAUD_RATE: u32 = 9600;

/// Per-read timeout on the open serial handle.
pub const READ_TIMEOUT_MS: u64 = 100;

/// Settle delay between stopping a previous reader and activating a new
/// monitor session.
pub const MONITOR_SETTLE_MS: u64 = 200;

/// The messages one read produces once `chunk_total` is the buffered text
/// plus the newly read text: every complete line, trimmed, in order —
/// unless the whole exceeds the overflow ceiling, in which case it is
/// discarded and nothing at all is emitted from it.
pub open spec fn emitted(chunk_total: Seq<char>) -> Seq<Seq<char>> {
    if chunk_total.len() > MAX_BUFFER_CHARS {
        Seq::empty()
    } else {
        drained(chunk_total)
    }
}

/// What stays buffered after one read: the unterminated tail, or nothing
/// if the overflow ceiling was exceeded and the buffer was discarded.
pub open spec fn leftover(chunk_total: Seq<char>) -> Seq<char> {
    if chunk_total.len() > MAX_BUFFER_CHARS {
        Seq::empty()
    } else {
        remainder(chunk_total)
    }
}

/// Whether an action is the emission of exactly the line `l`.
pub open spec fn is_emit_of(a: ReaderAction, l: Seq<char>) -> bool {
    match a {
        ReaderAction::Emit(m) => m@ == l,
        _ => false,
    }
}

/// Whether an action is a pause of exactly `ms` milliseconds.
pub open spec fn is_pause_of(a: ReaderAction, ms: u64) -> bool {
    match a {
        ReaderAction::Pause(p) => p == ms,
        _ => false,
    }
}

/// Law: a buffer that exceeds the overflow ceiling is discarded whole —
/// nothing at all is emitted from the discarded content, not even a
/// partial line, and nothing of it stays buffered.
pub proof fn lemma_overflow_emits_nothing(chunk_total: Seq<char>)
    ensures
        chunk_total.len() > MAX_BUFFER_CHARS ==> emitted(chunk_total) == Seq::<Seq<char>>::empty()
            && leftover(chunk_total) == Seq::<char>::empty(),
{
}

/// The growable text buffer holding partial (non-newline-terminated)
/// input across reads. Its view is the buffered character sequence.
pub struct LineAccumulator {
    buf: String,
}

impl View for LineAccumulator {
    type V = Seq<char>;

    closed spec fn view(&self) -> Seq<char> {
        self.buf@
    }
}

impl LineAccumulator {
    /// A fresh, empty accumulator, created when a reader task starts.
    pub fn new() -> (a: LineAccumulator)
        ensures
            a@ == Seq::<char>::empty(),
    {
        let a = LineAccumulator { buf: String::new() };
        proof {
            assert(a@ =~= Seq::<char>::empty());
        }
        a
    }

    /// Append one decoded read to the buffer and drain every complete
    /// line out of it: each emitted message is one line, trimmed of
    /// trailing whitespace, in stream order. If the appended buffer
    /// exceeds `MAX_BUFFER_CHARS` it is discarded entirely before any
    /// line is extracted, so no message is ever emitted from the
    /// discarded content.
    pub fn process_chunk(&mut self, chunk: &str) -> (msgs: Vec<String>)
        ensures
            msgs@.map_values(|m: String| m@) == emitted(old(self)@ + chunk@),
            final(self)@ == leftover(old(self)@ + chunk@),
    {
        self.buf.append(chunk);
        if self.buf.as_str().unicode_len() > MAX_BUFFER_CHARS {
            self.buf = String::new();
            let msgs: Vec<String> = Vec::new();
            proof {
                assert(msgs@.map_values(|m: String| m@) =~= Seq::<Seq<char>>::empty());
            }
            return msgs;
        }
        let ghost combined = self@;
        let mut msgs: Vec<String> = Vec::new();
        proof {
            assert(msgs@.map_values(|m: String| m@) + drained(self@) =~= drained(combined));
        }
        loop
            invariant
                msgs@.map_values(|m: String| m@) + drained(self@) == drained(combined),
                remainder(self@) == remainder(combined),
            ensures
                msgs@.map_values(|m: String| m@) == drained(combined),
                self@ == remainder(combined),
            decreases self@.len(),
        {
            let pos = find_newline(self.buf.as_str());
            match pos {
                None => {
                    proof {
                        assert(drained(self@) =~= Seq::<Seq<char>>::empty());
                        assert(msgs@.map_values(|m: String| m@) + drained(self@)
                            =~= msgs@.map_values(|m: String| m@));
                    }
                    break;
                },
                Some(i) => {
                    let ghost before = self@;
                    let mut j: usize = i;
                    while j > 0 && is_ws_char(self.buf.as_str().get_char(j - 1))
                        invariant
                            j <= i,
                            i < self@.len(),
                            self@ == before,
                            i == first_nl(before),
                            forall|m: int| j <= m < i ==> is_ws(#[trigger] before[m]),
                        decreases j,
                    {
                        j -= 1;
                    }
                    proof {
                        assert forall|m: int| j <= m < before.take(i as int).len() implies is_ws(
                            #[trigger] before.take(i as int)[m],
                        ) by {
                            assert(before.take(i as int)[m] == before[m]);
                        }
                        lemma_trimmed_prefix(before.take(i as int), j as int);
                    }
                    let line = self.buf.as_str().substring_char(0, j).to_owned();
                    let n = self.buf.as_str().unicode_len();
                    let rest = self.buf.as_str().substring_char(i + 1, n).to_owned();
                    let ghost msgs_before = msgs@;
                    msgs.push(line);
                    self.buf = rest;
                    proof {
                        assert(before.take(i as int).take(j as int) =~= before.take(j as int));
                        assert(line@ == trimmed(before.take(i as int)));
                        assert(self@ =~= before.skip(i as int + 1));
                        assert(drained(before) == seq![trimmed(before.take(i as int))] + drained(
                            before.skip(i as int + 1),
                        ));
                        assert(msgs@.map_values(|m: String| m@) =~= msgs_before.map_values(
                            |m: String| m@,
                        ).push(line@));
                        assert(msgs@.map_values(|m: String| m@) + drained(self@) =~= drained(
                            combined,
                        ));
                    }
                },
            }
        }
        msgs
    }
}

/// What the bytes of one read decode to as text, with invalid sequences
/// replaced: the result of the lossy UTF-8 decoding, a function of the
/// bytes alone.
pub uninterp spec fn lossy_decoded(bytes: Seq<u8>) -> Seq<char>;

/// Relies on String::from_utf8_lossy: decodes the read bytes as UTF-8,
/// replacing invalid sequences — never fatal. The result is a pure
/// function of the bytes, named `lossy_decoded`; no bytes means no text.
#[verifier::external_body]
fn decode_lossy(bytes: &Vec<u8>) -> (r: String)
    ensures
        r@ == lossy_decoded(bytes@),
        bytes@.len() == 0 ==> r@.len() == 0,
{
    String::from_utf8_lossy(bytes.as_slice()).into_owned()
}

/// One outcome of a bounded read on the open serial handle: the bytes
/// read, or nothing (zero bytes, a timeout, or a transient error — all
/// non-fatal and treated alike).
pub enum ReadEvent {
    Data(Vec<u8>),
    Idle,
}

/// One instruction from the streaming core to the task running it.
/// `Emit` carries a trimmed line for the message sink; `EmitError`
/// carries a failure notice for the error sink; `Pause` asks the task to
/// sleep for the given number of milliseconds before going on.
pub enum ReaderAction {
    Emit(String),
    EmitError(String),
    Pause(u64),
}

/// Decide everything one reader-loop iteration does with its read
/// outcome. On data, the bytes are decoded lossily and appended, and
/// every complete buffered line is emitted in order, each followed by a
/// `Pause(EMIT_PAUSE_MS)` — so emission is capped at one line per pause
/// interval regardless of how fast the device produces text. On an idle
/// read, the task just pauses briefly and retries.
#[verifier::rlimit(60)]
#[verifier::spinoff_prover]
pub fn reader_step(acc: &mut LineAccumulator, ev: ReadEvent) -> (acts: Vec<ReaderAction>)
    ensures
        ev is Idle ==> final(acc)@ == old(acc)@ && acts@.len() == 1 && is_pause_of(
            acts@[0],
            IDLE_PAUSE_MS,
        ),
        ev matches ReadEvent::Data(bytes) ==> final(acc)@ == leftover(
            old(acc)@ + lossy_decoded(bytes@),
        ),
        ev matches ReadEvent::Data(bytes) ==> acts@.len() == 2 * emitted(
            old(acc)@ + lossy_decoded(bytes@),
        ).len(),
        ev matches ReadEvent::Data(bytes) ==> forall|i: int|
            0 <= i < emitted(old(acc)@ + lossy_decoded(bytes@)).len() ==> is_emit_of(
                acts@[2 * i],
                #[trigger] emitted(old(acc)@ + lossy_decoded(bytes@))[i],
            ) && is_pause_of(acts@[2 * i + 1], EMIT_PAUSE_MS),
{
    match ev {
        ReadEvent::Idle => {
            proof {
                // the data clauses are vacuous on this arm
                assert(!(ev is Data));
            }
            let mut acts: Vec<ReaderAction> = Vec::new();
            acts.push(ReaderAction::Pause(IDLE_PAUSE_MS));
            acts
        },
        ReadEvent::Data(bytes) => step_data(acc, bytes),
    }
}

/// The data half of `reader_step`: decode the bytes, drain the complete
/// lines, and interleave each emission with its backpressure pause.
#[verifier::rlimit(60)]
fn step_data(acc: &mut LineAccumulator, bytes: Vec<u8>) -> (acts: Vec<ReaderAction>)
    ensures
        final(acc)@ == leftover(old(acc)@ + lossy_decoded(bytes@)),
        acts@.len() == 2 * emitted(old(acc)@ + lossy_decoded(bytes@)).len(),
        forall|i: int|
            0 <= i < emitted(old(acc)@ + lossy_decoded(bytes@)).len() ==> is_emit_of(
                acts@[2 * i],
                #[trigger] emitted(old(acc)@ + lossy_decoded(bytes@))[i],
            ) && is_pause_of(acts@[2 * i + 1], EMIT_PAUSE_MS),
{
    let ghost acc0 = acc@;
    let chunk = decode_lossy(&bytes);
    let msgs = acc.process_chunk(chunk.as_str());
    let ghost lines = msgs@.map_values(|m: String| m@);
    let mut acts: Vec<ReaderAction> = Vec::new();
    let mut k: usize = 0;
    while k < msgs.len()
        invariant
            k <= msgs.len(),
            lines == msgs@.map_values(|m: String| m@),
            acts@.len() == 2 * k,
            forall|i: int|
                0 <= i < k ==> is_emit_of(acts@[2 * i], #[trigger] lines[i]) && is_pause_of(
                    acts@[2 * i + 1],
                    EMIT_PAUSE_MS,
                ),
        decreases msgs.len() - k,
    {
        let ghost acts_before = acts@;
        acts.push(ReaderAction::Emit(msgs[k].clone()));
        acts.push(ReaderAction::Pause(EMIT_PAUSE_MS));
        proof {
            assert forall|i: int|
                0 <= i < k + 1 implies is_emit_of(acts@[2 * i], #[trigger] lines[i])
                && is_pause_of(acts@[2 * i + 1], EMIT_PAUSE_MS) by {
                if i < k {
                    assert(acts@[2 * i] == acts_before[2 * i]);
                    assert(acts@[2 * i + 1] == acts_before[2 * i + 1]);
                }
            }
        }
        k += 1;
    }
    proof {
        assert(lines == emitted(acc0 + lossy_decoded(bytes@)));
        assert forall|i: int|
            0 <= i < emitted(acc0 + lossy_decoded(bytes@)).len() implies is_emit_of(
            acts@[2 * i],
            #[trigger] emitted(acc0 + lossy_decoded(bytes@))[i],
        ) && is_pause_of(acts@[2 * i + 1], EMIT_PAUSE_MS) by {
            assert(is_emit_of(acts@[2 * i], lines[i]));
            assert(is_pause_of(acts@[2 * i + 1], EMIT_PAUSE_MS));
        }
    }
    acts
}

/// The single error notice emitted when the serial device cannot be
/// opened at all: the task sends it and terminates without ever entering
/// the read loop. The message names the requested port.
pub fn open_failure_action(port: &str) -> (a: ReaderAction)
    ensures
        a matches ReaderAction::EmitError(m) && m@ == "could not open serial port "@ + port@,
{
    ReaderAction::EmitError("could not open serial port ".to_owned().concat(port))
}

/// Configuration handed to a freshly scheduled reader task.
pub struct MonitorConfig {
    pub port: String,
    pub baud: u32,
    pub read_timeout_ms: u64,
}

/// Begin a monitor session: force-stop any previous reader (idempotent,
/// so a caller that already stopped and waited out `MONITOR_SETTLE_MS`
/// loses nothing), then mark the session active and fix the parameters
/// the new reader opens the device with. The caller schedules the task;
/// this returns immediately.
pub fn start_monitor(registry: &mut PortRegistry, port: String) -> (c: MonitorConfig)
    ensures
        final(registry).active,
        c.port@ == port@,
        c.baud == BAUD_RATE,
        c.read_timeout_ms == READ_TIMEOUT_MS,
{
    registry.request_stop();
    registry.activate();
    MonitorConfig { port, baud: BAUD_RATE, read_timeout_ms: READ_TIMEOUT_MS }
}

} // verus!
