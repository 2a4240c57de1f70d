//! Handing a session to a person at the terminal.
//!
//! The bridge between the terminal and the child is a machine that is told
//! what happened and answers with what to do next. It reads and writes
//! nothing itself, and calls no filter and no callback: whoever drives it
//! carries out each action and reports the event that came of it.

use vstd::prelude::*;
use vstd::slice::{slice_subrange, slice_to_vec};
use crate::error::{failure_view, Cause, Error, ErrorView};
use crate::search::{
    find, first_occurrence, lemma_first_occurrence_found, lemma_no_occurrence_before_first,
    views,
};

verus! {

/// The byte that ends an interaction unless another is chosen: Ctrl-].
pub const ESCAPE: u8 = 29;

/// The longest that the bridge waits before it looks again for the end of
/// the child, in milliseconds.
pub const TICK: u64 = 100;

/// How far an interaction has come.
#[derive(Debug, Clone, Copy, PartialEq, Eq, Structural)]
pub enum Phase {
    /// Nothing has been done yet.
    Fresh,
    /// The echo flag of the child's terminal has been asked for.
    AskedEcho,
    /// The echo of the child's terminal is being switched on.
    Enabling,
    /// Bytes pass between the terminal and the child.
    Bridging,
    /// Typed bytes are with the input filter.
    FilteringInput,
    /// A callback is running on output that is kept until all have run.
    Notifying,
    /// Output is with the output filter.
    FilteringOutput,
    /// The bytes typed before the escape sequence are on their way to the
    /// child; nothing is forwarded after them.
    Leaving,
    /// The echo of the child's terminal is being switched off again.
    Restoring,
    /// The interaction is over.
    Finished,
}

/// What happened since the last action.
#[derive(Debug, PartialEq, Eq)]
pub enum Event {
    /// Nothing yet: the interaction begins.
    Start,
    /// The echo flag of the child's terminal, as asked for.
    Echo(bool),
    /// The last action was carried out.
    Done,
    /// The person at the terminal typed these bytes.
    Input(Vec<u8>),
    /// The child wrote these bytes; none at all means that its stream has
    /// ended.
    Output(Vec<u8>),
    /// The filter made these bytes of those it was given.
    Filtered(Vec<u8>),
    /// The child has terminated.
    Exited,
    /// The tick passed and nothing happened.
    Idle,
    /// The caller asks for the interaction to end.
    Stop,
    /// The last action failed.
    Failed(Cause),
}

/// What to do next.
#[derive(Debug, PartialEq, Eq)]
pub enum Action {
    /// Read the echo flag of the child's terminal and report it.
    GetEcho,
    /// Set the echo flag of the child's terminal.
    SetEcho(bool),
    /// Run the input filter on these bytes and report what it made of them.
    FilterInput(Vec<u8>),
    /// Run the output filter on these bytes and report what it made of them.
    FilterOutput(Vec<u8>),
    /// Run the callback of the pattern with this index.
    Invoke { pattern: usize },
    /// Write these bytes to the child.
    WriteChild(Vec<u8>),
    /// Write these bytes to the terminal.
    WriteHost(Vec<u8>),
    /// Wait for input, for output or for the end of the child, for at most
    /// `tick` milliseconds.
    Wait { tick: u64 },
    /// Restore the terminal and return this result.
    Finish(Result<(), Error>),
}

/// An `Action` as contracts speak of it.
pub enum ActionView {
    GetEcho,
    SetEcho(bool),
    FilterInput(Seq<u8>),
    FilterOutput(Seq<u8>),
    Invoke { pattern: usize },
    WriteChild(Seq<u8>),
    WriteHost(Seq<u8>),
    Wait { tick: u64 },
    Finish(Option<ErrorView>),
}

impl View for Action {
    type V = ActionView;

    open spec fn view(&self) -> ActionView {
        match *self {
            Action::GetEcho => ActionView::GetEcho,
            Action::SetEcho(on) => ActionView::SetEcho(on),
            Action::FilterInput(bytes) => ActionView::FilterInput(bytes@),
            Action::FilterOutput(bytes) => ActionView::FilterOutput(bytes@),
            Action::Invoke { pattern } => ActionView::Invoke { pattern },
            Action::WriteChild(bytes) => ActionView::WriteChild(bytes@),
            Action::WriteHost(bytes) => ActionView::WriteHost(bytes@),
            Action::Wait { tick } => ActionView::Wait { tick },
            Action::Finish(Ok(())) => ActionView::Finish(None),
            Action::Finish(Err(e)) => ActionView::Finish(Some(e@)),
        }
    }
}

/// What an interaction is set up with.
#[derive(Debug, Clone, PartialEq, Eq)]
pub struct InteractOptions {
    /// The bytes that, typed at the terminal, end the interaction.
    pub escape: Vec<u8>,
    /// Whether typed bytes pass through a filter of the caller before they
    /// are looked at and forwarded.
    pub input_filter: bool,
    /// Whether the child's output passes through a filter of the caller
    /// before it is written to the terminal.
    pub output_filter: bool,
    /// The byte strings for which the caller has a callback: the callback of
    /// a pattern runs on output that holds it, before the output is
    /// forwarded.
    pub patterns: Vec<Vec<u8>>,
}

impl Default for InteractOptions {
    /// The escape sequence is the single byte Ctrl-]; there is no filter and
    /// no callback.
    fn default() -> (options: Self)
        ensures
            options.escape@ == seq![ESCAPE],
            !options.input_filter,
            !options.output_filter,
            options.patterns@.len() == 0,
    {
        let mut escape = Vec::new();
        escape.push(ESCAPE);
        InteractOptions {
            escape,
            input_filter: false,
            output_filter: false,
            patterns: Vec::new(),
        }
    }
}

impl InteractOptions {
    /// Ends the interaction on the byte `escape`.
    pub fn escape_character(self, escape: u8) -> (options: Self)
        ensures
            options.escape@ == seq![escape],
            options.input_filter == self.input_filter,
            options.output_filter == self.output_filter,
            options.patterns == self.patterns,
    {
        let mut sequence = Vec::new();
        sequence.push(escape);
        InteractOptions { escape: sequence, ..self }
    }

    /// Ends the interaction on the bytes `escape`.
    pub fn escape_sequence(self, escape: Vec<u8>) -> (options: Self)
        ensures
            options.escape == escape,
            options.input_filter == self.input_filter,
            options.output_filter == self.output_filter,
            options.patterns == self.patterns,
    {
        InteractOptions { escape, ..self }
    }

    /// Says whether typed bytes pass through a filter of the caller.
    pub fn input_filter(self, on: bool) -> (options: Self)
        ensures
            options.input_filter == on,
            options.escape == self.escape,
            options.output_filter == self.output_filter,
            options.patterns == self.patterns,
    {
        InteractOptions { input_filter: on, ..self }
    }

    /// Says whether the child's output passes through a filter of the caller.
    pub fn output_filter(self, on: bool) -> (options: Self)
        ensures
            options.output_filter == on,
            options.escape == self.escape,
            options.input_filter == self.input_filter,
            options.patterns == self.patterns,
    {
        InteractOptions { output_filter: on, ..self }
    }

    /// Adds a pattern with a callback; its index is the number of patterns
    /// added before it.
    pub fn on_output(self, pattern: Vec<u8>) -> (options: Self)
        ensures
            options.patterns@ == self.patterns@.push(pattern),
            options.escape == self.escape,
            options.input_filter == self.input_filter,
            options.output_filter == self.output_filter,
    {
        let mut patterns = self.patterns;
        patterns.push(pattern);
        InteractOptions {
            escape: self.escape,
            input_filter: self.input_filter,
            output_filter: self.output_filter,
            patterns,
        }
    }
}

/// The state of one interaction.
#[derive(Debug)]
pub struct Interact {
    phase: Phase,
    escape: Vec<u8>,
    input_filter: bool,
    output_filter: bool,
    patterns: Vec<Vec<u8>>,
    restore: bool,
    failure: Option<Error>,
    pending: Vec<u8>,
    next_pattern: usize,
}

/// An `Interact` as contracts speak of it.
pub struct InteractView {
    /// How far the interaction has come.
    pub phase: Phase,
    /// The bytes that end the interaction.
    pub escape: Seq<u8>,
    /// Whether typed bytes pass through a filter.
    pub input_filter: bool,
    /// Whether output passes through a filter.
    pub output_filter: bool,
    /// The byte strings that have a callback.
    pub patterns: Seq<Seq<u8>>,
    /// Whether the echo of the child's terminal was off, has been switched
    /// on, and is still to be switched off again.
    pub restore: bool,
    /// The failure that ended the bridging, kept while the echo is restored.
    pub failure: Option<ErrorView>,
    /// The output that is kept while callbacks run on it.
    pub pending: Seq<u8>,
    /// The index of the first pattern that the kept output has not been
    /// searched for yet.
    pub next_pattern: nat,
}

impl View for Interact {
    type V = InteractView;

    closed spec fn view(&self) -> InteractView {
        InteractView {
            phase: self.phase,
            escape: self.escape@,
            input_filter: self.input_filter,
            output_filter: self.output_filter,
            patterns: views(self.patterns@),
            restore: self.restore,
            failure: match self.failure {
                Some(e) => Some(e@),
                None => None,
            },
            pending: self.pending@,
            next_pattern: self.next_pattern as nat,
        }
    }
}

/// What one step of an interaction comes to: the state after it, the action
/// to carry out, and the unconsumed bytes and the end-of-stream flag of the
/// session.
pub struct Outcome {
    pub state: InteractView,
    pub action: ActionView,
    pub buffer: Seq<u8>,
    pub eof: bool,
}

/// The note that goes with a failure to read the echo flag.
pub open spec fn echo_note() -> Seq<char> {
    "failed to get echo"@
}

/// The index of the first pattern, from the index `from` on, that occurs in
/// `bytes`.
pub open spec fn next_hit(patterns: Seq<Seq<u8>>, bytes: Seq<u8>, from: nat) -> Option<nat>
    decreases patterns.len() - from,
{
    if from >= patterns.len() {
        None
    } else if first_occurrence(patterns[from as int], bytes) is Some {
        Some(from)
    } else {
        next_hit(patterns, bytes, from + 1)
    }
}

/// The bridge stays between the terminal and the child, and waits.
pub open spec fn wait(state: InteractView, buffer: Seq<u8>, eof: bool) -> Outcome {
    Outcome {
        state: InteractView { phase: Phase::Bridging, ..state },
        action: ActionView::Wait { tick: TICK },
        buffer,
        eof,
    }
}

/// The bridging ends with `failure`, or well with `None`: an echo that was
/// switched on is switched off first, and the result is kept until then.
pub open spec fn leave(
    state: InteractView,
    failure: Option<ErrorView>,
    buffer: Seq<u8>,
    eof: bool,
) -> Outcome {
    if state.restore {
        Outcome {
            state: InteractView { phase: Phase::Restoring, restore: false, failure, ..state },
            action: ActionView::SetEcho(false),
            buffer,
            eof,
        }
    } else {
        Outcome {
            state: InteractView { phase: Phase::Finished, failure: None, ..state },
            action: ActionView::Finish(failure),
            buffer,
            eof,
        }
    }
}

/// Typed bytes, after the filter if there is one, go to the child up to the
/// first escape sequence, which ends the interaction and is not forwarded.
pub open spec fn forward_input(
    state: InteractView,
    bytes: Seq<u8>,
    buffer: Seq<u8>,
    eof: bool,
) -> Outcome {
    match first_occurrence(state.escape, bytes) {
        Some(at) => if at == 0 {
            leave(state, None, buffer, eof)
        } else {
            Outcome {
                state: InteractView { phase: Phase::Leaving, ..state },
                action: ActionView::WriteChild(bytes.subrange(0, at)),
                buffer,
                eof,
            }
        },
        None => if bytes.len() == 0 {
            wait(state, buffer, eof)
        } else {
            Outcome {
                state: InteractView { phase: Phase::Bridging, ..state },
                action: ActionView::WriteChild(bytes),
                buffer,
                eof,
            }
        },
    }
}

/// Output on which every callback has run goes to the output filter if
/// there is one, else to the terminal as it is.
pub open spec fn deliver_output(
    state: InteractView,
    bytes: Seq<u8>,
    buffer: Seq<u8>,
    eof: bool,
) -> Outcome {
    let state = InteractView { pending: Seq::empty(), next_pattern: 0, ..state };
    if state.output_filter {
        Outcome {
            state: InteractView { phase: Phase::FilteringOutput, ..state },
            action: ActionView::FilterOutput(bytes),
            buffer,
            eof,
        }
    } else {
        Outcome {
            state: InteractView { phase: Phase::Bridging, ..state },
            action: ActionView::WriteHost(bytes),
            buffer,
            eof,
        }
    }
}

/// The callbacks of the patterns from the index `from` on run on `bytes`,
/// one at a time and in the order of the patterns, each where its pattern
/// occurs; the output is kept meanwhile and delivered when none is left.
pub open spec fn notify_from(
    state: InteractView,
    bytes: Seq<u8>,
    from: nat,
    buffer: Seq<u8>,
    eof: bool,
) -> Outcome {
    match next_hit(state.patterns, bytes, from) {
        Some(hit) => Outcome {
            state: InteractView {
                phase: Phase::Notifying,
                pending: bytes,
                next_pattern: hit + 1,
                ..state
            },
            action: ActionView::Invoke { pattern: hit as usize },
            buffer,
            eof,
        },
        None => deliver_output(state, bytes, buffer, eof),
    }
}

/// The bridging begins: what the session had read and not consumed is
/// treated as output of the child; with nothing left over, the bridge waits.
pub open spec fn enter_bridge(state: InteractView, buffer: Seq<u8>, eof: bool) -> Outcome {
    if buffer.len() > 0 {
        notify_from(state, buffer, 0, Seq::empty(), eof)
    } else {
        wait(state, buffer, eof)
    }
}

/// What the bridge does with an event while bytes pass: input is filtered
/// and forwarded, output is shown to the callbacks, filtered and forwarded;
/// the end of the child, a request to stop and a failure end the
/// interaction.
pub open spec fn bridge(state: InteractView, buffer: Seq<u8>, eof: bool, event: Event) -> Outcome {
    match event {
        Event::Input(bytes) => if bytes@.len() > 0 && state.input_filter {
            Outcome {
                state: InteractView { phase: Phase::FilteringInput, ..state },
                action: ActionView::FilterInput(bytes@),
                buffer,
                eof,
            }
        } else {
            forward_input(state, bytes@, buffer, eof)
        },
        Event::Output(bytes) => if bytes@.len() == 0 {
            leave(state, None, buffer, true)
        } else {
            notify_from(state, bytes@, 0, buffer, eof)
        },
        Event::Exited => leave(state, None, buffer, true),
        Event::Stop => leave(state, None, buffer, eof),
        Event::Failed(cause) => leave(state, Some(ErrorView::Io(cause@)), buffer, eof),
        _ => wait(state, buffer, eof),
    }
}

/// One step of an interaction, from the state, the unconsumed bytes and the
/// end-of-stream flag of the session, and the event.
pub open spec fn transition(state: InteractView, buffer: Seq<u8>, eof: bool, event: Event) -> Outcome {
    match state.phase {
        Phase::Fresh => Outcome {
            state: InteractView { phase: Phase::AskedEcho, ..state },
            action: ActionView::GetEcho,
            buffer,
            eof,
        },
        Phase::AskedEcho => match event {
            Event::Echo(on) => if on {
                enter_bridge(state, buffer, eof)
            } else {
                Outcome {
                    state: InteractView { phase: Phase::Enabling, restore: true, ..state },
                    action: ActionView::SetEcho(true),
                    buffer,
                    eof,
                }
            },
            Event::Failed(cause) => Outcome {
                state: InteractView { phase: Phase::Finished, ..state },
                action: ActionView::Finish(
                    Some(ErrorView::Unknown { message: echo_note(), cause: cause@ }),
                ),
                buffer,
                eof,
            },
            _ => Outcome { state, action: ActionView::GetEcho, buffer, eof },
        },
        Phase::Enabling => enter_bridge(state, buffer, eof),
        Phase::Bridging => bridge(state, buffer, eof, event),
        Phase::FilteringInput => match event {
            Event::Filtered(bytes) => forward_input(state, bytes@, buffer, eof),
            Event::Failed(cause) => leave(state, Some(ErrorView::Io(cause@)), buffer, eof),
            _ => wait(state, buffer, eof),
        },
        Phase::Notifying => match event {
            Event::Failed(cause) => leave(
                InteractView { pending: Seq::empty(), next_pattern: 0, ..state },
                Some(ErrorView::Io(cause@)),
                buffer,
                eof,
            ),
            _ => notify_from(state, state.pending, state.next_pattern, buffer, eof),
        },
        Phase::FilteringOutput => match event {
            Event::Filtered(bytes) => if bytes@.len() == 0 {
                wait(state, buffer, eof)
            } else {
                Outcome {
                    state: InteractView { phase: Phase::Bridging, ..state },
                    action: ActionView::WriteHost(bytes@),
                    buffer,
                    eof,
                }
            },
            Event::Failed(cause) => leave(state, Some(ErrorView::Io(cause@)), buffer, eof),
            _ => wait(state, buffer, eof),
        },
        Phase::Leaving => match event {
            Event::Failed(cause) => leave(state, Some(ErrorView::Io(cause@)), buffer, eof),
            _ => leave(state, None, buffer, eof),
        },
        Phase::Restoring => Outcome {
            state: InteractView { phase: Phase::Finished, failure: None, ..state },
            action: ActionView::Finish(state.failure),
            buffer,
            eof,
        },
        Phase::Finished => Outcome { state, action: ActionView::Finish(None), buffer, eof },
    }
}

/// Whether bytes pass in this phase, or are with a filter or a callback on
/// their way.
pub open spec fn is_bridging(phase: Phase) -> bool {
    phase == Phase::Bridging || phase == Phase::FilteringInput || phase == Phase::Notifying
        || phase == Phase::FilteringOutput
}

/// Whether a state can come about: an echo is only to be restored while it
/// is switched on, while bytes pass or while the last input is on its way;
/// a failure is only kept while the echo is restored; output is only kept
/// while callbacks run on it; and bytes are only with a filter that is
/// there.
pub open spec fn reachable(state: InteractView) -> bool {
    &&& state.restore ==> state.phase == Phase::Enabling || is_bridging(state.phase)
        || state.phase == Phase::Leaving
    &&& state.failure is Some ==> state.phase == Phase::Restoring
    &&& state.phase != Phase::Notifying ==> state.pending.len() == 0 && state.next_pattern == 0
    &&& state.phase == Phase::FilteringInput ==> state.input_filter
    &&& state.phase == Phase::FilteringOutput ==> state.output_filter
    &&& state.patterns.len() <= usize::MAX
}

impl Interact {
    #[verifier::type_invariant]
    spec fn wf(self) -> bool {
        reachable(self@)
    }

    /// An interaction that has not begun.
    pub fn new(options: InteractOptions) -> (bridge: Interact)
        ensures
            bridge@ == (InteractView {
                phase: Phase::Fresh,
                escape: options.escape@,
                input_filter: options.input_filter,
                output_filter: options.output_filter,
                patterns: views(options.patterns@),
                restore: false,
                failure: None,
                pending: Seq::empty(),
                next_pattern: 0,
            }),
    {
        let count = options.patterns.len();
        proof {
            assert(views(options.patterns@).len() == count);
        }
        Interact {
            phase: Phase::Fresh,
            escape: options.escape,
            input_filter: options.input_filter,
            output_filter: options.output_filter,
            patterns: options.patterns,
            restore: false,
            failure: None,
            pending: Vec::new(),
            next_pattern: 0,
        }
    }

    /// How far the interaction has come.
    pub fn phase(&self) -> (phase: Phase)
        ensures
            phase == self@.phase,
    {
        self.phase
    }

    /// Whether the interaction is over.
    pub fn is_finished(&self) -> (over: bool)
        ensures
            over == (self@.phase == Phase::Finished),
    {
        match self.phase {
            Phase::Finished => true,
            _ => false,
        }
    }

    /// The index of the first pattern, from the index `from` on, that occurs
    /// in `bytes`.
    fn hit_from(&self, bytes: &[u8], from: usize) -> (hit: Option<usize>)
        ensures
            hit matches Some(k) ==> k < usize::MAX && k < self.patterns@.len() && next_hit(
                self@.patterns,
                bytes@,
                from as nat,
            ) == Some(k as nat),
            hit is None ==> next_hit(self@.patterns, bytes@, from as nat) is None,
    {
        let count = self.patterns.len();
        let mut k = from;
        while k < count
            invariant
                count == self.patterns@.len(),
                from <= k,
                next_hit(self@.patterns, bytes@, from as nat) == next_hit(
                    self@.patterns,
                    bytes@,
                    k as nat,
                ),
            decreases count - k,
        {
            if find(self.patterns[k].as_slice(), bytes).is_some() {
                return Some(k);
            }
            k += 1;
        }
        None
    }

    /// Stays between the terminal and the child, and waits.
    fn wait_on(&mut self) -> (action: Action)
        requires
            old(self).phase != Phase::Notifying,
            old(self).phase != Phase::Restoring,
            old(self).phase != Phase::Finished,
            old(self).phase != Phase::Fresh,
        ensures
            final(self)@ == wait(old(self)@, Seq::empty(), true).state,
            action@ == wait(old(self)@, Seq::empty(), true).action,
    {
        proof {
            use_type_invariant(&*self);
        }
        self.phase = Phase::Bridging;
        Action::Wait { tick: TICK }
    }

    /// Ends the bridging with `failure`, or well with `None`.
    fn end(&mut self, failure: Option<Error>) -> (action: Action)
        requires
            is_bridging(old(self).phase) || old(self).phase == Phase::Leaving,
            old(self).pending@.len() == 0,
            old(self).next_pattern == 0,
        ensures
            final(self)@ == leave(old(self)@, failure_view(failure), Seq::empty(), true).state,
            action@ == leave(old(self)@, failure_view(failure), Seq::empty(), true).action,
    {
        proof {
            use_type_invariant(&*self);
        }
        if self.restore {
            self.restore = false;
            self.phase = Phase::Restoring;
            self.failure = failure;
            Action::SetEcho(false)
        } else {
            self.phase = Phase::Finished;
            match failure {
                Some(e) => Action::Finish(Err(e)),
                None => Action::Finish(Ok(())),
            }
        }
    }

    /// Sends typed bytes on to the child, up to the first escape sequence.
    fn forward(&mut self, bytes: Vec<u8>) -> (action: Action)
        requires
            old(self).phase == Phase::Bridging || old(self).phase == Phase::FilteringInput,
        ensures
            final(self)@ == forward_input(old(self)@, bytes@, Seq::empty(), true).state,
            action@ == forward_input(old(self)@, bytes@, Seq::empty(), true).action,
    {
        proof {
            use_type_invariant(&*self);
        }
        match find(self.escape.as_slice(), bytes.as_slice()) {
            Some(at) => {
                if at == 0 {
                    self.end(None)
                } else {
                    self.phase = Phase::Leaving;
                    Action::WriteChild(slice_to_vec(slice_subrange(bytes.as_slice(), 0, at)))
                }
            },
            None => {
                if bytes.len() == 0 {
                    self.wait_on()
                } else {
                    self.phase = Phase::Bridging;
                    Action::WriteChild(bytes)
                }
            },
        }
    }

    /// Sends output on which every callback has run on to the output filter
    /// or to the terminal.
    fn deliver(&mut self, bytes: Vec<u8>) -> (action: Action)
        requires
            old(self).phase == Phase::AskedEcho || old(self).phase == Phase::Enabling
                || is_bridging(old(self).phase),
        ensures
            final(self)@ == deliver_output(old(self)@, bytes@, Seq::empty(), true).state,
            action@ == deliver_output(old(self)@, bytes@, Seq::empty(), true).action,
    {
        proof {
            use_type_invariant(&*self);
        }
        self.pending = Vec::new();
        self.next_pattern = 0;
        if self.output_filter {
            self.phase = Phase::FilteringOutput;
            Action::FilterOutput(bytes)
        } else {
            self.phase = Phase::Bridging;
            Action::WriteHost(bytes)
        }
    }

    /// Runs the next callback, from the pattern with the index `from` on,
    /// whose pattern occurs in `bytes`, or delivers `bytes` where none is left.
    fn notify(&mut self, bytes: Vec<u8>, from: usize) -> (action: Action)
        requires
            old(self).phase == Phase::AskedEcho || old(self).phase == Phase::Enabling
                || is_bridging(old(self).phase),
        ensures
            final(self)@ == notify_from(old(self)@, bytes@, from as nat, Seq::empty(), true).state,
            action@ == notify_from(old(self)@, bytes@, from as nat, Seq::empty(), true).action,
    {
        proof {
            use_type_invariant(&*self);
        }
        match self.hit_from(bytes.as_slice(), from) {
            Some(hit) => {
                self.phase = Phase::Notifying;
                self.pending = bytes;
                self.next_pattern = hit + 1;
                Action::Invoke { pattern: hit }
            },
            None => self.deliver(bytes),
        }
    }

    /// Begins the bridging: what was left over in `carry` goes first.
    fn begin(&mut self, carry: &mut Vec<u8>) -> (action: Action)
        requires
            old(self).phase == Phase::AskedEcho || old(self).phase == Phase::Enabling,
        ensures
            final(self)@ == enter_bridge(old(self)@, old(carry)@, true).state,
            action@ == enter_bridge(old(self)@, old(carry)@, true).action,
            final(carry)@ == enter_bridge(old(self)@, old(carry)@, true).buffer,
    {
        if carry.len() > 0 {
            let mut left_over = Vec::new();
            left_over.append(carry);
            self.notify(left_over, 0)
        } else {
            self.wait_on()
        }
    }

    /// One step of the interaction: takes the event that came of the last
    /// action and answers with the next action. `carry` holds the bytes that
    /// the session has read and not consumed, `eof` whether its stream has
    /// ended.
    pub fn step(&mut self, event: Event, carry: &mut Vec<u8>, eof: &mut bool) -> (action: Action)
        ensures
            reachable(old(self)@),
            reachable(final(self)@),
            (Outcome {
                state: final(self)@,
                action: action@,
                buffer: final(carry)@,
                eof: *final(eof),
            }) == transition(old(self)@, old(carry)@, *old(eof), event),
    {
        proof {
            use_type_invariant(&*self);
        }
        let action = match self.phase {
            Phase::Fresh => {
                self.phase = Phase::AskedEcho;
                Action::GetEcho
            },
            Phase::AskedEcho => match event {
                Event::Echo(on) => {
                    if on {
                        self.begin(carry)
                    } else {
                        self.phase = Phase::Enabling;
                        self.restore = true;
                        Action::SetEcho(true)
                    }
                },
                Event::Failed(cause) => {
                    self.phase = Phase::Finished;
                    Action::Finish(Err(Error::unknown("failed to get echo", cause)))
                },
                _ => Action::GetEcho,
            },
            Phase::Enabling => self.begin(carry),
            Phase::Bridging => match event {
                Event::Input(bytes) => {
                    if bytes.len() > 0 && self.input_filter {
                        self.phase = Phase::FilteringInput;
                        Action::FilterInput(bytes)
                    } else {
                        self.forward(bytes)
                    }
                },
                Event::Output(bytes) => {
                    if bytes.len() == 0 {
                        *eof = true;
                        self.end(None)
                    } else {
                        self.notify(bytes, 0)
                    }
                },
                Event::Exited => {
                    *eof = true;
                    self.end(None)
                },
                Event::Stop => self.end(None),
                Event::Failed(cause) => self.end(Some(Error::Io(cause))),
                _ => self.wait_on(),
            },
            Phase::FilteringInput => match event {
                Event::Filtered(bytes) => self.forward(bytes),
                Event::Failed(cause) => self.end(Some(Error::Io(cause))),
                _ => self.wait_on(),
            },
            Phase::Notifying => match event {
                Event::Failed(cause) => {
                    self.pending = Vec::new();
                    self.next_pattern = 0;
                    self.end(Some(Error::Io(cause)))
                },
                _ => {
                    let mut kept = Vec::new();
                    core::mem::swap(&mut self.pending, &mut kept);
                    let from = self.next_pattern;
                    self.notify(kept, from)
                },
            },
            Phase::FilteringOutput => match event {
                Event::Filtered(bytes) => {
                    if bytes.len() == 0 {
                        self.wait_on()
                    } else {
                        self.phase = Phase::Bridging;
                        Action::WriteHost(bytes)
                    }
                },
                Event::Failed(cause) => self.end(Some(Error::Io(cause))),
                _ => self.wait_on(),
            },
            Phase::Leaving => match event {
                Event::Failed(cause) => self.end(Some(Error::Io(cause))),
                _ => self.end(None),
            },
            Phase::Restoring => {
                let mut failure: Option<Error> = None;
                core::mem::swap(&mut self.failure, &mut failure);
                self.phase = Phase::Finished;
                match failure {
                    Some(e) => Action::Finish(Err(e)),
                    None => Action::Finish(Ok(())),
                }
            },
            Phase::Finished => Action::Finish(Ok(())),
        };
        proof {
            use_type_invariant(&*self);
        }
        action
    }
}

/// What `next_hit` names is the first pattern, from `from` on, that occurs
/// in the bytes; where it names none, none of them occurs.
pub proof fn lemma_next_hit(patterns: Seq<Seq<u8>>, bytes: Seq<u8>, from: nat)
    ensures
        next_hit(patterns, bytes, from) matches Some(hit) ==> from <= hit < patterns.len()
            && first_occurrence(patterns[hit as int], bytes) is Some && forall|k: int|
            from <= k < hit ==> first_occurrence(#[trigger] patterns[k], bytes) is None,
        next_hit(patterns, bytes, from) is None ==> forall|k: int|
            from <= k < patterns.len() ==> first_occurrence(#[trigger] patterns[k], bytes)
                is None,
    decreases patterns.len() - from,
{
    if from < patterns.len() && first_occurrence(patterns[from as int], bytes) is None {
        lemma_next_hit(patterns, bytes, from + 1);
    }
}

/// A step leads from a state that can come about to one that can.
pub proof fn lemma_reachable_is_kept(state: InteractView, buffer: Seq<u8>, eof: bool, event: Event)
    requires
        reachable(state),
    ensures
        reachable(transition(state, buffer, eof, event).state),
{
}

/// An echo that the interaction has switched on is switched off again before
/// the interaction ends, on every way out. The echo is marked as to be
/// restored exactly when it is switched on, the mark goes exactly when it is
/// switched off, and no interaction finishes while the mark is set.
pub proof fn lemma_echo_is_restored(state: InteractView, buffer: Seq<u8>, eof: bool, event: Event)
    requires
        reachable(state),
    ensures
        ({
            let next = transition(state, buffer, eof, event);
            &&& next.action is Finish ==> !state.restore && !next.state.restore
                && next.state.phase == Phase::Finished
            &&& (!state.restore && next.state.restore) <==> next.action == ActionView::SetEcho(
                true,
            )
            &&& (state.restore && !next.state.restore) <==> next.action == ActionView::SetEcho(
                false,
            )
        }),
{
}

/// The escape sequence never reaches the child: what is forwarded is the
/// input, or what the input filter made of it, up to the first escape
/// sequence, and does not hold the escape sequence.
pub proof fn lemma_escape_is_not_forwarded(
    state: InteractView,
    buffer: Seq<u8>,
    eof: bool,
    event: Event,
)
    ensures
        transition(state, buffer, eof, event).action matches ActionView::WriteChild(bytes) ==> {
            &&& first_occurrence(state.escape, bytes) is None
            &&& match event {
                Event::Input(input) => !state.input_filter && bytes == input@.subrange(
                    0,
                    bytes.len() as int,
                ),
                Event::Filtered(made) => bytes == made@.subrange(0, bytes.len() as int),
                _ => false,
            }
        },
{
    if let ActionView::WriteChild(bytes) = transition(state, buffer, eof, event).action {
        let typed = match event {
            Event::Input(input) => input@,
            Event::Filtered(made) => made@,
            _ => Seq::empty(),
        };
        match first_occurrence(state.escape, typed) {
            Some(at) => {
                lemma_first_occurrence_found(state.escape, typed);
                lemma_no_occurrence_before_first(state.escape, typed, at);
            },
            None => {
                assert(typed.subrange(0, typed.len() as int) =~= typed);
            },
        }
    }
}

/// What reaches the terminal is what the child wrote, or what the output
/// filter made of it, whole and as it is; and output goes to the output
/// filter exactly when there is one.
pub proof fn lemma_output_is_passed_on(
    state: InteractView,
    buffer: Seq<u8>,
    eof: bool,
    event: Event,
)
    requires
        reachable(state),
    ensures
        ({
            let next = transition(state, buffer, eof, event);
            let shown = match state.phase {
                Phase::AskedEcho => buffer,
                Phase::Enabling => buffer,
                Phase::Notifying => state.pending,
                _ => match event {
                    Event::Output(output) => output@,
                    Event::Filtered(made) => made@,
                    _ => Seq::empty(),
                },
            };
            &&& next.action matches ActionView::WriteHost(bytes) ==> bytes == shown && (
            state.output_filter <==> state.phase == Phase::FilteringOutput)
            &&& next.action matches ActionView::FilterOutput(bytes) ==> bytes == shown
                && state.output_filter
        }),
{
}

/// A callback runs only on output that holds its pattern, the callbacks of
/// one output run in the order of their patterns, and the output is kept,
/// whole and as it is, until they have run.
pub proof fn lemma_callbacks_run_on_their_patterns(
    state: InteractView,
    buffer: Seq<u8>,
    eof: bool,
    event: Event,
)
    requires
        reachable(state),
    ensures
        ({
            let next = transition(state, buffer, eof, event);
            next.action matches ActionView::Invoke { pattern } ==> {
                &&& pattern < state.patterns.len()
                &&& next.state.phase == Phase::Notifying
                &&& next.state.next_pattern == pattern + 1
                &&& state.phase == Phase::Notifying ==> state.next_pattern <= pattern
                    && next.state.pending == state.pending
                &&& first_occurrence(state.patterns[pattern as int], next.state.pending) is Some
            }
        }),
{
    let next = transition(state, buffer, eof, event);
    if let ActionView::Invoke { pattern } = next.action {
        lemma_next_hit(state.patterns, next.state.pending, 0);
        lemma_next_hit(state.patterns, next.state.pending, state.next_pattern);
    }
}

} // verus!
