//! Gathering a worker's output and judging its termination.
//!
//! The caller launches the worker and awaits its events; each event is
//! handed to an [`Aggregator`], and when the event source is exhausted the
//! aggregator gives the one outcome of the invocation. The aggregator keeps
//! gathering output after the termination notice: the notice may overtake
//! output that is still in flight. Bytes are gathered as they come and
//! decoded when the outcome is given, so a character cut in two by a chunk
//! boundary is still read as one.

use vstd::prelude::*;
use vstd::string::*;
use crate::text::{
    contains, decode_lossy, lemma_contains_middle, render_decimal, signed_decimal, utf8_lossy,
};

verus! {

/// One event of a running worker.
#[derive(Clone, Debug, PartialEq, Eq)]
pub enum StreamEvent {
    /// Bytes the worker wrote to its standard output.
    StdoutChunk(Vec<u8>),
    /// Bytes the worker wrote to its standard error.
    StderrChunk(Vec<u8>),
    /// The worker ended, with its exit code, or with none when a signal
    /// ended it.
    Terminated(Option<i32>),
}

/// The single result of one invocation.
#[derive(Clone, Debug, PartialEq, Eq)]
pub enum OutcomeResult {
    /// The worker succeeded; the payload is everything it wrote to its
    /// standard output.
    Success(String),
    /// The worker failed, or could not be launched; the payload says why.
    Failure(String),
}

/// An [`OutcomeResult`] as plain text.
pub enum Outcome {
    Success(Seq<char>),
    Failure(Seq<char>),
}

impl View for OutcomeResult {
    type V = Outcome;

    open spec fn view(&self) -> Outcome {
        match self {
            OutcomeResult::Success(payload) => Outcome::Success(payload@),
            OutcomeResult::Failure(diagnostic) => Outcome::Failure(diagnostic@),
        }
    }
}

/// Where an invocation stands.
#[derive(Clone, Copy, Debug, PartialEq, Eq, Structural)]
pub enum Phase {
    /// Launched; no event has arrived yet.
    Spawned,
    /// Output has arrived; the worker has not reported its end.
    Draining,
    /// The worker has reported its end; output may still arrive.
    Terminated,
    /// The outcome has been given. Nothing changes any more.
    Classified,
}

/// The state of an [`Aggregator`] as plain values.
pub struct AggregatorState {
    pub phase: Phase,
    /// The bytes of standard output gathered so far.
    pub stdout: Seq<u8>,
    /// The bytes of standard error gathered so far.
    pub stderr: Seq<u8>,
    /// The termination on record: `None` while none was reported.
    pub exit: Option<Option<i32>>,
}

/// Gathers the events of one invocation and gives its outcome.
pub struct Aggregator {
    phase: Phase,
    stdout: Vec<u8>,
    stderr: Vec<u8>,
    exit: Option<Option<i32>>,
}

impl View for Aggregator {
    type V = AggregatorState;

    closed spec fn view(&self) -> AggregatorState {
        AggregatorState {
            phase: self.phase,
            stdout: self.stdout@,
            stderr: self.stderr@,
            exit: self.exit,
        }
    }
}

/// The state of a freshly launched invocation.
pub open spec fn initial_state() -> AggregatorState {
    AggregatorState { phase: Phase::Spawned, stdout: seq![], stderr: seq![], exit: None }
}

/// An exit code that reports failure: any code but zero, and the absence of
/// a code.
pub open spec fn is_failing(code: Option<i32>) -> bool {
    code != Some(0i32)
}

/// The termination on record once `code` is reported. A failing termination
/// stays on record whatever is reported after it.
pub open spec fn recorded_exit(previous: Option<Option<i32>>, code: Option<i32>) -> Option<
    Option<i32>,
> {
    match previous {
        Some(earlier) if is_failing(earlier) => previous,
        _ => Some(code),
    }
}

/// The state after `event` arrived in `state`. Once the outcome was given,
/// events change nothing.
pub open spec fn accepted(state: AggregatorState, event: StreamEvent) -> AggregatorState {
    if state.phase == Phase::Classified {
        state
    } else {
        let after_output = if state.phase == Phase::Spawned {
            Phase::Draining
        } else {
            state.phase
        };
        match event {
            StreamEvent::StdoutChunk(bytes) => AggregatorState {
                phase: after_output,
                stdout: state.stdout + bytes@,
                ..state
            },
            StreamEvent::StderrChunk(bytes) => AggregatorState {
                phase: after_output,
                stderr: state.stderr + bytes@,
                ..state
            },
            StreamEvent::Terminated(code) => AggregatorState {
                phase: Phase::Terminated,
                exit: recorded_exit(state.exit, code),
                ..state
            },
        }
    }
}

/// The phase agrees with what was gathered: nothing before the first event,
/// no termination on record while draining, one on record once terminated.
pub open spec fn well_formed(state: AggregatorState) -> bool {
    match state.phase {
        Phase::Spawned => state.stdout.len() == 0 && state.stderr.len() == 0
            && state.exit is None,
        Phase::Draining => state.exit is None,
        Phase::Terminated => state.exit is Some,
        Phase::Classified => true,
    }
}

/// How the exit code is worded in a diagnostic.
pub open spec fn exit_text(code: Option<i32>) -> Seq<char> {
    match code {
        Some(c) => "código de salida "@ + signed_decimal(c as int),
        None => "sin código de salida"@,
    }
}

/// The diagnostic of a failed worker: the exit code, then everything the
/// worker wrote to its standard error.
pub open spec fn failure_text(code: Option<i32>, stderr: Seq<char>) -> Seq<char> {
    "El script de Python falló ("@ + exit_text(code) + "). Detalles: "@ + stderr
}

/// The outcome of a worker that ended with `code` after writing `stdout` and
/// `stderr`.
///
/// A failing code gives a failure that carries the code and the standard
/// error. A clean exit that wrote only to standard error is judged a failure
/// too, with the standard error as its diagnostic. Anything else is a
/// success whose payload is the standard output.
pub open spec fn classified(stdout: Seq<char>, stderr: Seq<char>, code: Option<i32>) -> Outcome {
    if is_failing(code) {
        Outcome::Failure(failure_text(code, stderr))
    } else if stderr.len() > 0 && stdout.len() == 0 {
        Outcome::Failure(stderr)
    } else {
        Outcome::Success(stdout)
    }
}

/// The outcome an invocation in `state` gets when its events run out: both
/// buffers are decoded, invalid bytes giving the replacement character, and
/// the worker is judged by the termination on record. An invocation whose
/// worker never reported its end is judged by its output alone, as after a
/// clean exit.
pub open spec fn verdict(state: AggregatorState) -> Outcome {
    let stdout = utf8_lossy(state.stdout);
    let stderr = utf8_lossy(state.stderr);
    match state.exit {
        Some(code) => classified(stdout, stderr, code),
        None => classified(stdout, stderr, Some(0i32)),
    }
}

/// How far along an invocation is: each phase counts one more than the one
/// before it.
pub open spec fn phase_rank(phase: Phase) -> nat {
    match phase {
        Phase::Spawned => 0,
        Phase::Draining => 1,
        Phase::Terminated => 2,
        Phase::Classified => 3,
    }
}

/// The diagnostic of a failing exit contains the exit code's wording and the
/// whole standard error.
pub proof fn lemma_failure_text_contains(code: Option<i32>, stderr: Seq<char>)
    ensures
        contains(failure_text(code, stderr), stderr),
        contains(failure_text(code, stderr), exit_text(code)),
        code matches Some(c) ==> contains(failure_text(code, stderr), signed_decimal(c as int)),
{
    let lead_in = "El script de Python falló ("@;
    let lead_out = "). Detalles: "@;
    let text = failure_text(code, stderr);
    lemma_contains_middle(lead_in + exit_text(code) + lead_out, stderr, seq![]);
    assert(text =~= lead_in + exit_text(code) + lead_out + stderr + seq![]);
    lemma_contains_middle(lead_in, exit_text(code), lead_out + stderr);
    assert(text =~= lead_in + exit_text(code) + (lead_out + stderr));
    if let Some(c) = code {
        let lead = lead_in + "código de salida "@;
        lemma_contains_middle(lead, signed_decimal(c as int), lead_out + stderr);
        assert(text =~= lead + signed_decimal(c as int) + (lead_out + stderr));
    }
}

fn render_exit(code: Option<i32>) -> (text: String)
    ensures
        text@ == exit_text(code),
{
    match code {
        Some(c) => {
            let mut text = String::from_str("código de salida ");
            let digits = render_decimal(c);
            text.append(digits.as_str());
            text
        },
        None => String::from_str("sin código de salida"),
    }
}

/// Judges a worker that ended with `code` after writing `stdout` and
/// `stderr`.
pub fn classify(stdout: String, stderr: String, code: Option<i32>) -> (outcome: OutcomeResult)
    ensures
        outcome@ == classified(stdout@, stderr@, code),
        is_failing(code) ==> outcome@ is Failure && contains(outcome@->Failure_0, stderr@),
        code matches Some(c) ==> c != 0 ==> contains(
            outcome@->Failure_0,
            signed_decimal(c as int),
        ),
        !is_failing(code) && stdout@.len() > 0 ==> outcome@ == Outcome::Success(stdout@),
        !is_failing(code) && stdout@.len() == 0 && stderr@.len() > 0 ==> outcome@ is Failure,
{
    proof {
        lemma_failure_text_contains(code, stderr@);
    }
    let clean = match code {
        Some(c) => c == 0,
        None => false,
    };
    if !clean {
        let mut text = String::from_str("El script de Python falló (");
        let exit = render_exit(code);
        text.append(exit.as_str());
        text.append("). Detalles: ");
        text.append(stderr.as_str());
        OutcomeResult::Failure(text)
    } else if !stderr.as_str().is_empty() && stdout.as_str().is_empty() {
        OutcomeResult::Failure(stderr)
    } else {
        OutcomeResult::Success(stdout)
    }
}

/// The outcome of an invocation whose worker could not be launched: a
/// failure that carries the launcher's own account, `detail`.
pub fn spawn_failure(detail: &str) -> (outcome: OutcomeResult)
    ensures
        outcome@ == Outcome::Failure("Fallo al ejecutar el script: "@ + detail@),
{
    let mut text = String::from_str("Fallo al ejecutar el script: ");
    text.append(detail);
    OutcomeResult::Failure(text)
}

impl OutcomeResult {
    /// The outcome as a `Result`: the payload of a success, or the
    /// diagnostic of a failure as the error.
    pub fn into_result(self) -> (result: Result<String, String>)
        ensures
            match self {
                OutcomeResult::Success(payload) => result == Ok::<String, String>(payload),
                OutcomeResult::Failure(diagnostic) => result == Err::<String, String>(diagnostic),
            },
    {
        match self {
            OutcomeResult::Success(payload) => Ok(payload),
            OutcomeResult::Failure(diagnostic) => Err(diagnostic),
        }
    }
}

fn extend(buffer: &mut Vec<u8>, bytes: &Vec<u8>)
    ensures
        final(buffer)@ == old(buffer)@ + bytes@,
{
    buffer.extend_from_slice(bytes.as_slice());
    assert(buffer@ =~= old(buffer)@ + bytes@);
}

impl Aggregator {
    /// The aggregator of a freshly launched invocation.
    pub fn new() -> (aggregator: Aggregator)
        ensures
            aggregator@ == initial_state(),
            well_formed(aggregator@),
    {
        Aggregator {
            phase: Phase::Spawned,
            stdout: Vec::new(),
            stderr: Vec::new(),
            exit: None,
        }
    }

    /// Where the invocation stands.
    pub fn phase(&self) -> (phase: Phase)
        ensures
            phase == self@.phase,
    {
        self.phase
    }

    /// Takes in the next event. Output is appended to the buffer of its
    /// stream; a termination is put on record. The invocation never moves
    /// back to an earlier phase.
    pub fn accept(&mut self, event: &StreamEvent)
        ensures
            final(self)@ == accepted(old(self)@, *event),
            well_formed(old(self)@) ==> well_formed(final(self)@),
            phase_rank(final(self)@.phase) >= phase_rank(old(self)@.phase),
    {
        if self.phase == Phase::Classified {
            return ;
        }
        match event {
            StreamEvent::StdoutChunk(bytes) => {
                extend(&mut self.stdout, bytes);
                if self.phase == Phase::Spawned {
                    self.phase = Phase::Draining;
                }
            },
            StreamEvent::StderrChunk(bytes) => {
                extend(&mut self.stderr, bytes);
                if self.phase == Phase::Spawned {
                    self.phase = Phase::Draining;
                }
            },
            StreamEvent::Terminated(code) => {
                let keep = match self.exit {
                    Some(Some(earlier)) => earlier != 0,
                    Some(None) => true,
                    None => false,
                };
                if !keep {
                    self.exit = Some(*code);
                }
                self.phase = Phase::Terminated;
            },
        }
    }

    /// Closes the invocation when its events have run out, and gives its
    /// outcome. The outcome is given once: a second call gives `None`.
    pub fn finish(&mut self) -> (outcome: Option<OutcomeResult>)
        ensures
            final(self)@ == (AggregatorState { phase: Phase::Classified, ..old(self)@ }),
            well_formed(final(self)@),
            old(self)@.phase == Phase::Classified ==> outcome is None,
            old(self)@.phase != Phase::Classified ==> outcome is Some && outcome->Some_0@
                == verdict(old(self)@),
    {
        if self.phase == Phase::Classified {
            return None;
        }
        self.phase = Phase::Classified;
        let code = match self.exit {
            Some(code) => code,
            None => Some(0),
        };
        Some(classify(decode_lossy(&self.stdout), decode_lossy(&self.stderr), code))
    }
}

} // verus!
