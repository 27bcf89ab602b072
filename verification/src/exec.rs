use vstd::prelude::*;

use crate::errors::ExecError;
use vstd::utf8::decode_utf8;
use vstd::utf8::valid_utf8;

verus! {

/// Outcome of opening the remote execution channel for a command.
#[derive(Clone, Copy, Debug, PartialEq, Eq, Structural)]
pub enum OpenOutcome {
    Opened,
    Failed,
}

/// One completed piece of outside work during command execution, as the
/// specification-level machine sees it: the channel opened or not, a chunk
/// of output arrived, the stream ended, or reading failed.
pub enum ExecEvent {
    Open(OpenOutcome),
    Data(Seq<u8>),
    Eof,
    ReadError,
}

/// What command execution is waiting on, or how it ended.
///
/// The phase doubles as the instruction to the driver: in `Opening` it must
/// open the execution channel, in `Reading` read the channel's output until
/// end-of-stream, reporting each chunk. `Done` and `Failed` are terminal.
#[derive(Clone, Copy, Debug, PartialEq, Eq, Structural)]
pub enum ExecPhase {
    Opening,
    Reading,
    Done,
    Failed(ExecError),
}

/// The command-execution protocol: open an execution channel, accumulate the
/// channel's output to end-of-stream, and return the accumulated bytes.
///
/// The machine holds no channel and performs no I/O itself; a driver opens
/// the channel and reads the stream, reporting each outcome. One machine
/// serves one command: it starts with an empty output buffer, so its result
/// can hold no trace of any earlier command.
pub struct ExecMachine {
    pub phase: ExecPhase,
    /// The bytes of standard output accumulated so far, in arrival order.
    pub output: Vec<u8>,
}

/// The machine a command execution starts from: waiting for the channel,
/// with nothing accumulated.
pub open spec fn exec_initial(m: ExecMachine) -> bool {
    m.phase is Opening && m.output@ == Seq::<u8>::empty()
}

/// The transition relation of command execution, over the machine's view.
/// An event that does not belong to the current phase changes nothing; in
/// particular `Done` and `Failed` absorb every event.
pub open spec fn exec_step(phase: ExecPhase, output: Seq<u8>, ev: ExecEvent) -> (ExecPhase, Seq<u8>) {
    match (phase, ev) {
        (ExecPhase::Opening, ExecEvent::Open(outcome)) => {
            match outcome {
                OpenOutcome::Opened => (ExecPhase::Reading, output),
                OpenOutcome::Failed => (ExecPhase::Failed(ExecError::OpenFailed), output),
            }
        },
        (ExecPhase::Reading, ExecEvent::Data(chunk)) => (ExecPhase::Reading, output + chunk),
        (ExecPhase::Reading, ExecEvent::Eof) => (ExecPhase::Done, output),
        (ExecPhase::Reading, ExecEvent::ReadError) => (ExecPhase::Failed(ExecError::ReadFailed), output),
        _ => (phase, output),
    }
}

/// The machine's view after a whole sequence of events, first event first.
pub open spec fn exec_run(phase: ExecPhase, output: Seq<u8>, evs: Seq<ExecEvent>) -> (ExecPhase, Seq<u8>)
    decreases evs.len(),
{
    if evs.len() == 0 {
        (phase, output)
    } else {
        let next = exec_step(phase, output, evs[0]);
        exec_run(next.0, next.1, evs.drop_first())
    }
}

impl ExecMachine {
    /// Begin executing one command.
    pub fn new() -> (m: ExecMachine)
        ensures
            exec_initial(m),
    {
        ExecMachine { phase: ExecPhase::Opening, output: Vec::new() }
    }

    /// Report the outcome of opening the execution channel.
    pub fn on_open(&mut self, outcome: OpenOutcome)
        ensures
            (final(self).phase, final(self).output@) == exec_step(
                old(self).phase,
                old(self).output@,
                ExecEvent::Open(outcome),
            ),
    {
        match (self.phase, outcome) {
            (ExecPhase::Opening, OpenOutcome::Opened) => {
                self.phase = ExecPhase::Reading;
            },
            (ExecPhase::Opening, OpenOutcome::Failed) => {
                self.phase = ExecPhase::Failed(ExecError::OpenFailed);
            },
            _ => {},
        }
    }

    /// Report one chunk of the command's output stream.
    pub fn on_data(&mut self, chunk: &[u8])
        ensures
            (final(self).phase, final(self).output@) == exec_step(
                old(self).phase,
                old(self).output@,
                ExecEvent::Data(chunk@),
            ),
    {
        match self.phase {
            ExecPhase::Reading => {
                self.output.extend_from_slice(chunk);
            },
            _ => {},
        }
    }

    /// Report that the output stream reached end-of-stream.
    pub fn on_eof(&mut self)
        ensures
            (final(self).phase, final(self).output@) == exec_step(
                old(self).phase,
                old(self).output@,
                ExecEvent::Eof,
            ),
    {
        match self.phase {
            ExecPhase::Reading => {
                self.phase = ExecPhase::Done;
            },
            _ => {},
        }
    }

    /// Report that reading the output stream failed.
    pub fn on_read_error(&mut self)
        ensures
            (final(self).phase, final(self).output@) == exec_step(
                old(self).phase,
                old(self).output@,
                ExecEvent::ReadError,
            ),
    {
        match self.phase {
            ExecPhase::Reading => {
                self.phase = ExecPhase::Failed(ExecError::ReadFailed);
            },
            _ => {},
        }
    }

    /// The command's raw standard output, or how execution failed: the
    /// complete accumulated bytes exactly when the stream was drained to
    /// end-of-stream.
    pub fn into_output(self) -> (r: Result<Vec<u8>, ExecError>)
        requires
            self.phase is Done || self.phase is Failed,
        ensures
            self.phase is Done ==> (r matches Ok(b) && b@ == self.output@),
            self.phase matches ExecPhase::Failed(e) ==> r == Err::<Vec<u8>, ExecError>(e),
    {
        match self.phase {
            ExecPhase::Failed(e) => Err(e),
            _ => Ok(self.output),
        }
    }

    /// The command's standard output decoded as text, or how that failed:
    /// the decoding of the accumulated bytes exactly when the stream was
    /// drained to end-of-stream and the bytes are valid UTF-8.
    pub fn into_text(self) -> (r: Result<String, ExecError>)
        requires
            self.phase is Done || self.phase is Failed,
        ensures
            self.phase is Done && valid_utf8(self.output@) ==> (r matches Ok(s) && s@
                == decode_utf8(self.output@)),
            self.phase is Done && !valid_utf8(self.output@) ==> r == Err::<String, ExecError>(
                ExecError::InvalidUtf8,
            ),
            self.phase matches ExecPhase::Failed(e) ==> r == Err::<String, ExecError>(e),
    {
        match self.phase {
            ExecPhase::Failed(e) => Err(e),
            _ => decode_output(self.output),
        }
    }
}

/// The concatenation of a sequence of output chunks, in arrival order.
pub open spec fn concat_chunks(chunks: Seq<Seq<u8>>) -> Seq<u8>
    decreases chunks.len(),
{
    if chunks.len() == 0 {
        Seq::empty()
    } else {
        chunks[0] + concat_chunks(chunks.drop_first())
    }
}

/// The events reporting the given chunks, in arrival order.
pub open spec fn data_events(chunks: Seq<Seq<u8>>) -> Seq<ExecEvent> {
    chunks.map(|i: int, c: Seq<u8>| ExecEvent::Data(c))
}

/// The event sequence of a command execution whose channel opens and whose
/// stream delivers the given chunks and then ends.
pub open spec fn drained_events(chunks: Seq<Seq<u8>>) -> Seq<ExecEvent> {
    seq![ExecEvent::Open(OpenOutcome::Opened)] + data_events(chunks) + seq![ExecEvent::Eof]
}

/// The text projection of a command's output bytes: their decoded
/// characters exactly when they are valid UTF-8, the UTF-8 error otherwise.
pub open spec fn text_of_output(bytes: Seq<u8>) -> Result<Seq<char>, ExecError> {
    if valid_utf8(bytes) {
        Ok(decode_utf8(bytes))
    } else {
        Err(ExecError::InvalidUtf8)
    }
}

/// Running a machine over concatenated event sequences is running it over
/// the first and going on from there over the second.
pub proof fn lemma_exec_run_append(
    phase: ExecPhase,
    output: Seq<u8>,
    a: Seq<ExecEvent>,
    b: Seq<ExecEvent>,
)
    ensures
        ({
            let r = exec_run(phase, output, a);
            exec_run(phase, output, a + b) == exec_run(r.0, r.1, b)
        }),
    decreases a.len(),
{
    if a.len() == 0 {
        assert(a + b =~= b);
    } else {
        assert((a + b)[0] == a[0]);
        assert((a + b).drop_first() =~= a.drop_first() + b);
        let next = exec_step(phase, output, a[0]);
        lemma_exec_run_append(next.0, next.1, a.drop_first(), b);
    }
}

/// Running a machine over a single event is stepping it once.
proof fn lemma_exec_run_one(phase: ExecPhase, output: Seq<u8>, ev: ExecEvent)
    ensures
        exec_run(phase, output, seq![ev]).0 == exec_step(phase, output, ev).0,
        exec_run(phase, output, seq![ev]).1 == exec_step(phase, output, ev).1,
{
    let s = seq![ev];
    let next = exec_step(phase, output, ev);
    assert(s[0] == ev);
    assert(s.drop_first() =~= Seq::<ExecEvent>::empty());
    assert(exec_run(next.0, next.1, Seq::<ExecEvent>::empty()) == (next.0, next.1));
}

/// While the stream is being read, each arriving chunk is appended in
/// order: a run of chunks extends the output by exactly their
/// concatenation, and by nothing else, and leaves the machine reading.
pub proof fn lemma_reading_accumulates(phase: ExecPhase, output: Seq<u8>, chunks: Seq<Seq<u8>>)
    requires
        phase is Reading,
    ensures
        ({
            let r = exec_run(phase, output, data_events(chunks));
            r.0 is Reading && r.1 == output + concat_chunks(chunks)
        }),
    decreases chunks.len(),
{
    let evs = data_events(chunks);
    if chunks.len() == 0 {
        assert(output + concat_chunks(chunks) =~= output);
    } else {
        assert(evs[0] == ExecEvent::Data(chunks[0]));
        let next = exec_step(phase, output, evs[0]);
        assert(next.0 is Reading && next.1 == output + chunks[0]);
        assert(evs.drop_first() =~= data_events(chunks.drop_first())) by {
            assert forall|j: int| 0 <= j < evs.drop_first().len() implies evs.drop_first()[j]
                == data_events(chunks.drop_first())[j] by {
                assert(evs.drop_first()[j] == evs[j + 1]);
                assert(chunks.drop_first()[j] == chunks[j + 1]);
            }
        }
        lemma_reading_accumulates(next.0, next.1, chunks.drop_first());
        assert((output + chunks[0]) + concat_chunks(chunks.drop_first()) =~= output + concat_chunks(
            chunks,
        ));
    }
}

/// A command execution whose channel opens and whose stream is drained to
/// end-of-stream ends `Done` with exactly the concatenation of the chunks
/// that arrived during that execution. Starting from a fresh machine, with
/// nothing accumulated, the output can hold no trace of any other command.
pub proof fn lemma_output_is_this_commands_chunks(m: ExecMachine, chunks: Seq<Seq<u8>>)
    requires
        exec_initial(m),
    ensures
        ({
            let r = exec_run(m.phase, m.output@, drained_events(chunks));
            r.0 is Done && r.1 == concat_chunks(chunks)
        }),
{
    let open_ev = seq![ExecEvent::Open(OpenOutcome::Opened)];
    let eof_ev = seq![ExecEvent::Eof];
    let datas = data_events(chunks);
    assert(drained_events(chunks) =~= open_ev + (datas + eof_ev));
    lemma_exec_run_append(m.phase, m.output@, open_ev, datas + eof_ev);
    lemma_exec_run_one(m.phase, m.output@, ExecEvent::Open(OpenOutcome::Opened));
    let r1 = exec_run(m.phase, m.output@, open_ev);
    assert(r1.0 is Reading && r1.1 == m.output@);
    lemma_exec_run_append(r1.0, r1.1, datas, eof_ev);
    lemma_reading_accumulates(r1.0, r1.1, chunks);
    let r2 = exec_run(r1.0, r1.1, datas);
    assert(r2.1 =~= concat_chunks(chunks));
    lemma_exec_run_one(r2.0, r2.1, ExecEvent::Eof);
    let r3 = exec_run(r2.0, r2.1, eof_ev);
    assert(r3.0 is Done && r3.1 == concat_chunks(chunks));
}

/// A command whose output is not UTF-8 still succeeds raw — draining the
/// stream ends `Done` with exactly those bytes — while the text projection
/// of the same output fails with the UTF-8 error.
pub proof fn lemma_raw_succeeds_where_text_fails(m: ExecMachine, chunks: Seq<Seq<u8>>)
    requires
        exec_initial(m),
        !valid_utf8(concat_chunks(chunks)),
    ensures
        ({
            let r = exec_run(m.phase, m.output@, drained_events(chunks));
            &&& r.0 is Done
            &&& r.1 == concat_chunks(chunks)
            &&& text_of_output(r.1) == Err::<Seq<char>, ExecError>(ExecError::InvalidUtf8)
        }),
{
    lemma_output_is_this_commands_chunks(m, chunks);
}

/// Relies on `String::from_utf8`: it returns `Ok` exactly when the bytes are
/// valid UTF-8, and the returned string's characters are their decoding.
#[verifier::external_body]
fn string_from_utf8(bytes: Vec<u8>) -> (r: Option<String>)
    ensures
        r is Some <==> valid_utf8(bytes@),
        r matches Some(s) ==> s@ == decode_utf8(bytes@),
{
    String::from_utf8(bytes).ok()
}

/// The stricter text projection of a command's raw output: decode the bytes
/// as UTF-8, never lossily, failing on exactly the byte sequences that are
/// not UTF-8. Raw bytes stay the ground truth; this is an optional view of
/// them.
pub fn decode_output(bytes: Vec<u8>) -> (r: Result<String, ExecError>)
    ensures
        valid_utf8(bytes@) ==> (r matches Ok(s) && s@ == decode_utf8(bytes@)),
        !valid_utf8(bytes@) ==> r == Err::<String, ExecError>(ExecError::InvalidUtf8),
{
    match string_from_utf8(bytes) {
        Some(s) => Ok(s),
        None => Err(ExecError::InvalidUtf8),
    }
}

} // verus!
