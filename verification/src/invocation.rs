//! The decisions of one invocation, as a state machine.
//!
//! Serving a request alternates between work done outside the library
//! (decoding the JSON payload into the handler's input type, awaiting the
//! user's asynchronous handler, encoding its output) and decisions about what
//! to do with each outcome.  The outside driver starts an invocation with
//! [`Invocation::begin`], performs every [`Action`] it is handed, and feeds
//! the outcome back as an [`Event`] through [`Invocation::step`], until the
//! action is a `Reply`.

use std::collections::HashMap;
use vstd::prelude::*;
use crate::messages::{Code, Context, InvokeOutcome, InvokeRequest, InvokeResult, Problem, Status, Success};

verus! {

/// Where an invocation stands.
pub enum Invocation {
    /// The payload is being decoded; the request's metadata waits to become
    /// the handler's context.
    DecodingInput { metadata: HashMap<String, String> },
    /// The handler is running.
    RunningHandler,
    /// The handler's output is being encoded.
    EncodingOutput,
    /// The reply has been given.
    Finished,
}

/// What the outside driver reports back.
pub enum Event<In, Out> {
    /// The payload decoded into this input.
    InputDecoded(In),
    /// The payload could not be decoded; the decoder's error text.
    InputRejected(String),
    /// The handler completed with its output or with a problem.
    HandlerReturned(Result<Out, Problem>),
    /// The handler panicked; the text of the panic payload.
    HandlerPanicked(String),
    /// The output encoded into these bytes.
    OutputEncoded(Vec<u8>),
    /// The output could not be encoded.
    OutputUnencodable,
}

/// What the outside driver is asked to do next.
pub enum Action<In, Out> {
    /// Decode these bytes into the handler's input.
    Decode(Vec<u8>),
    /// Run the handler once on this input and context.
    Call(In, Context),
    /// Encode this output.
    Encode(Out),
    /// Answer the request; the invocation is over.
    Reply(Result<InvokeResult, Status>),
}

/// The message of the status that answers a payload that could not be decoded.
pub open spec fn invalid_input_message(detail: Seq<char>) -> Seq<char> {
    "Invalid input: "@ + detail
}

/// The message of the status that answers an output that could not be encoded.
pub open spec fn unencodable_output_message() -> Seq<char> {
    "Could not convert output to json"@
}

/// Whether `state` expects `event` next.
pub open spec fn accepts<In, Out>(state: Invocation, event: Event<In, Out>) -> bool {
    match state {
        Invocation::DecodingInput { .. } => event is InputDecoded || event is InputRejected,
        Invocation::RunningHandler => event is HandlerReturned || event is HandlerPanicked,
        Invocation::EncodingOutput => event is OutputEncoded || event is OutputUnencodable,
        Invocation::Finished => false,
    }
}

/// How many more events an invocation in `state` can take at most.
pub open spec fn remaining_events(state: Invocation) -> nat {
    match state {
        Invocation::DecodingInput { .. } => 3,
        Invocation::RunningHandler => 2,
        Invocation::EncodingOutput => 1,
        Invocation::Finished => 0,
    }
}

/// The first step: `begin(request)` leads to `post` with `action`.
pub open spec fn begins<In, Out>(request: InvokeRequest, post: Invocation, action: Action<In, Out>) -> bool {
    &&& post == (Invocation::DecodingInput { metadata: request.metadata })
    &&& action matches Action::Decode(bytes) && bytes@ == request.payload@
}

/// One step: in `pre`, `event` leads to `post` with `action`.
pub open spec fn steps<In, Out>(
    pre: Invocation,
    event: Event<In, Out>,
    post: Invocation,
    action: Action<In, Out>,
) -> bool {
    match event {
        Event::InputDecoded(input) => {
            &&& post is RunningHandler
            &&& pre is DecodingInput
            &&& action matches Action::Call(arg, ctx) && (arg == input && ctx.values == pre->metadata)
        },
        Event::InputRejected(detail) => {
            &&& post is Finished
            &&& action matches Action::Reply(Err(status))
                && status.code == Code::InvalidArgument
                && status.message@ == invalid_input_message(detail@)
        },
        Event::HandlerReturned(Ok(out)) => {
            &&& post is EncodingOutput
            &&& action == Action::<In, Out>::Encode(out)
        },
        Event::HandlerReturned(Err(problem)) => {
            &&& post is Finished
            &&& action matches Action::Reply(Ok(InvokeResult { result: Some(InvokeOutcome::Problem(p)) }))
                && p == problem
        },
        Event::HandlerPanicked(text) => {
            &&& post is Finished
            &&& action matches Action::Reply(Err(status))
                && status.code == Code::Internal
                && status.message@ == text@
        },
        Event::OutputEncoded(bytes) => {
            &&& post is Finished
            &&& action matches Action::Reply(Ok(InvokeResult { result: Some(InvokeOutcome::Success(s)) }))
                && s.output@ == bytes@
        },
        Event::OutputUnencodable => {
            &&& post is Finished
            &&& action matches Action::Reply(Err(status))
                && status.code == Code::DataLoss
                && status.message@ == unencodable_output_message()
        },
    }
}

/// A complete record of one invocation: the states it went through, the
/// events it took in and the actions it handed out, starting from
/// `begin(request)` (`states[0]`, `actions[0]`); event `i` moves
/// `states[i]` to `states[i + 1]` and hands out `actions[i + 1]`.
pub open spec fn is_run<In, Out>(
    request: InvokeRequest,
    states: Seq<Invocation>,
    events: Seq<Event<In, Out>>,
    actions: Seq<Action<In, Out>>,
) -> bool {
    &&& states.len() == events.len() + 1
    &&& actions.len() == events.len() + 1
    &&& begins(request, states[0], actions[0])
    &&& forall|i: int|
        0 <= i < events.len() ==> accepts(#[trigger] states[i], events[i])
            && steps(states[i], events[i], states[i + 1], actions[i + 1])
}

/// A reply ends the invocation: a step answers the request exactly when it
/// finishes the invocation, and a finished invocation takes no further event.
pub proof fn lemma_reply_ends_invocation<In, Out>(
    pre: Invocation,
    event: Event<In, Out>,
    post: Invocation,
    action: Action<In, Out>,
)
    requires
        accepts(pre, event),
        steps(pre, event, post, action),
    ensures
        (action is Reply) <==> (post is Finished),
        !accepts(Invocation::Finished, event),
{
}

/// Every step brings the invocation closer to its reply: the number of
/// events it can still take strictly decreases.
pub proof fn lemma_step_makes_progress<In, Out>(
    pre: Invocation,
    event: Event<In, Out>,
    post: Invocation,
    action: Action<In, Out>,
)
    requires
        accepts(pre, event),
        steps(pre, event, post, action),
    ensures
        remaining_events(post) < remaining_events(pre),
{
}

/// Every answer that is not an error carries a result: a reply never leaves
/// `InvokeResult::result` empty.
pub proof fn lemma_ok_reply_has_result<In, Out>(
    pre: Invocation,
    event: Event<In, Out>,
    post: Invocation,
    action: Action<In, Out>,
)
    requires
        accepts(pre, event),
        steps(pre, event, post, action),
    ensures
        action matches Action::Reply(Ok(res)) ==> res.result is Some,
{
}

/// Over a whole invocation: it takes at most three events, the handler is
/// called at most once (and only right after the payload decoded), exactly
/// one reply is given if the invocation finished, and it is the last action;
/// no action before the last one is a reply.
pub proof fn lemma_run_replies_once<In, Out>(
    request: InvokeRequest,
    states: Seq<Invocation>,
    events: Seq<Event<In, Out>>,
    actions: Seq<Action<In, Out>>,
)
    requires
        is_run(request, states, events, actions),
    ensures
        events.len() <= 3,
        forall|i: int| 0 <= i < actions.len() && (#[trigger] actions[i] is Call) ==> i == 1,
        forall|i: int| 0 <= i < actions.len() - 1 ==> !(#[trigger] actions[i] is Reply),
        states.last() is Finished <==> actions.last() is Reply,
{
    assert forall|i: int| 0 <= i < states.len() implies
        remaining_events(#[trigger] states[i]) + i <= 3
        && (i > 0 ==> !(states[i] is DecodingInput))
        && ((actions[i] is Reply) <==> (states[i] is Finished))
        by {
        lemma_run_prefix(request, states, events, actions, i);
    }
    if events.len() > 3 {
        assert(accepts(states[3], events[3]));
        assert(remaining_events(states[3]) + 3 <= 3);
    }
    assert forall|i: int| 0 <= i < actions.len() && (#[trigger] actions[i] is Call) implies i == 1 by {
        if i == 0 {
        } else {
            assert(accepts(states[i - 1], events[i - 1]));
            assert(steps(states[i - 1], events[i - 1], states[i], actions[i]));
            if i > 1 {
                assert(!(states[i - 1] is DecodingInput));
            }
        }
    }
    assert forall|i: int| 0 <= i < actions.len() - 1 implies !(#[trigger] actions[i] is Reply) by {
        assert(accepts(states[i], events[i]));
    }
}

/// The facts of `lemma_run_replies_once` for the states up to `k`.
proof fn lemma_run_prefix<In, Out>(
    request: InvokeRequest,
    states: Seq<Invocation>,
    events: Seq<Event<In, Out>>,
    actions: Seq<Action<In, Out>>,
    k: int,
)
    requires
        is_run(request, states, events, actions),
        0 <= k < states.len(),
    ensures
        remaining_events(states[k]) + k <= 3,
        k > 0 ==> !(states[k] is DecodingInput),
        (actions[k] is Reply) <==> (states[k] is Finished),
    decreases k,
{
    if k > 0 {
        lemma_run_prefix(request, states, events, actions, k - 1);
        assert(accepts(states[k - 1], events[k - 1]));
        lemma_step_makes_progress(states[k - 1], events[k - 1], states[k], actions[k]);
        lemma_reply_ends_invocation(states[k - 1], events[k - 1], states[k], actions[k]);
    }
}

/// Whether `event` is an outcome of performing `action`: decoding yields an
/// input or a decoder error, running the handler yields its return or a
/// panic, encoding yields bytes or a failure.  A reply has no outcome.
pub open spec fn answers<In, Out>(action: Action<In, Out>, event: Event<In, Out>) -> bool {
    match action {
        Action::Decode(_) => event is InputDecoded || event is InputRejected,
        Action::Call(_, _) => event is HandlerReturned || event is HandlerPanicked,
        Action::Encode(_) => event is OutputEncoded || event is OutputUnencodable,
        Action::Reply(_) => false,
    }
}

/// Whatever the driver reports for the action it was handed is accepted:
/// after `begin`, and after every step, each possible outcome of the pending
/// action (among them an output that cannot be encoded) is an event the
/// invocation expects next.
pub proof fn lemma_every_outcome_is_accepted<In, Out>(
    request: InvokeRequest,
    pre: Invocation,
    event: Event<In, Out>,
    post: Invocation,
    action: Action<In, Out>,
    start: Invocation,
    first: Action<In, Out>,
    outcome: Event<In, Out>,
)
    ensures
        begins(request, start, first) && answers(first, outcome) ==> accepts(start, outcome),
        accepts(pre, event) && steps(pre, event, post, action) && answers(action, outcome)
            ==> accepts(post, outcome),
{
}

/// The outcomes of encoding are both expected while the output is being
/// encoded: the encoded bytes, and the failure to encode.
pub proof fn lemma_encoding_outcomes_accepted<In, Out>(bytes: Vec<u8>)
    ensures
        accepts(Invocation::EncodingOutput, Event::<In, Out>::OutputEncoded(bytes)),
        accepts(Invocation::EncodingOutput, Event::<In, Out>::OutputUnencodable),
{
}

/// `begin` hands the decoder the whole payload, byte for byte, and keeps the
/// whole metadata for the handler.
pub proof fn lemma_begin_decodes_whole_payload<In, Out>(
    request: InvokeRequest,
    post: Invocation,
    action: Action<In, Out>,
)
    requires
        begins(request, post, action),
    ensures
        action is Decode,
        action->Decode_0@.len() == request.payload@.len(),
        forall|i: int| 0 <= i < request.payload@.len() ==> action->Decode_0@[i] == request.payload@[i],
        post is DecodingInput,
        post->metadata@ == request.metadata@,
{
}

/// Decoded input calls the handler with exactly that input, and its context
/// holds every entry of the request's metadata and nothing else.
pub proof fn lemma_context_is_the_metadata<In, Out>(
    metadata: HashMap<String, String>,
    input: In,
    post: Invocation,
    action: Action<In, Out>,
)
    requires
        steps(Invocation::DecodingInput { metadata }, Event::InputDecoded(input), post, action),
    ensures
        action is Call,
        action->Call_0 == input,
        forall|k: String| #[trigger] action->Call_1.values@.contains_key(k) <==> metadata@.contains_key(k),
        forall|k: String| metadata@.contains_key(k) ==> #[trigger] action->Call_1.values@[k] == metadata@[k],
        post is RunningHandler,
{
}

/// A problem that the handler reports is never a transport error: the reply
/// is a successful answer whose result is that very problem, whatever its
/// type and detail.
pub proof fn lemma_problem_is_answered_as_result<In, Out>(
    pre: Invocation,
    problem: Problem,
    post: Invocation,
    action: Action<In, Out>,
)
    requires
        steps(pre, Event::<In, Out>::HandlerReturned(Err(problem)), post, action),
    ensures
        action is Reply,
        action->Reply_0 is Ok,
        action->Reply_0->Ok_0.result == Some(InvokeOutcome::Problem(problem)),
        action->Reply_0->Ok_0.result->0->Problem_0.problem_type@ == problem.problem_type@,
        action->Reply_0->Ok_0.result->0->Problem_0.detail@ == problem.detail@,
        post is Finished,
{
}

/// Encoded output is answered as a success that carries exactly the encoded
/// bytes, whatever their length.
pub proof fn lemma_encoded_output_is_answered_verbatim<In, Out>(
    pre: Invocation,
    bytes: Vec<u8>,
    post: Invocation,
    action: Action<In, Out>,
)
    requires
        steps(pre, Event::<In, Out>::OutputEncoded(bytes), post, action),
    ensures
        action is Reply,
        action->Reply_0 is Ok,
        action->Reply_0->Ok_0.result is Some,
        action->Reply_0->Ok_0.result->0 is Success,
        action->Reply_0->Ok_0.result->0->Success_0.output@.len() == bytes@.len(),
        forall|i: int| 0 <= i < bytes@.len()
            ==> action->Reply_0->Ok_0.result->0->Success_0.output@[i] == bytes@[i],
        post is Finished,
{
}

/// An output that cannot be encoded is answered with `DataLoss`, never with
/// a success.
pub proof fn lemma_unencodable_output_is_data_loss<In, Out>(
    pre: Invocation,
    post: Invocation,
    action: Action<In, Out>,
)
    requires
        steps(pre, Event::<In, Out>::OutputUnencodable, post, action),
    ensures
        action is Reply,
        action->Reply_0 is Err,
        action->Reply_0->Err_0.code == Code::DataLoss,
        action->Reply_0->Err_0.message@ == "Could not convert output to json"@,
        post is Finished,
{
}

/// A payload that does not decode is answered with `InvalidArgument`, and
/// the message is `"Invalid input: "` followed by the decoder's whole error
/// text.
pub proof fn lemma_rejected_input_is_invalid_argument<In, Out>(
    pre: Invocation,
    detail: String,
    post: Invocation,
    action: Action<In, Out>,
)
    requires
        steps(pre, Event::<In, Out>::InputRejected(detail), post, action),
    ensures
        action is Reply,
        action->Reply_0 is Err,
        action->Reply_0->Err_0.code == Code::InvalidArgument,
        action->Reply_0->Err_0.message@.len() == "Invalid input: "@.len() + detail@.len(),
        action->Reply_0->Err_0.message@.subrange(0, "Invalid input: "@.len() as int) == "Invalid input: "@,
        action->Reply_0->Err_0.message@.subrange("Invalid input: "@.len() as int, action->Reply_0->Err_0.message@.len() as int) == detail@,
        post is Finished,
{
    let m = action->Reply_0->Err_0.message@;
    assert(m.subrange(0, "Invalid input: "@.len() as int) =~= "Invalid input: "@);
    assert(m.subrange("Invalid input: "@.len() as int, m.len() as int) =~= detail@);
}

/// A handler that panics is answered with `Internal`, carrying the panic's
/// text.
pub proof fn lemma_panic_is_internal<In, Out>(
    pre: Invocation,
    text: String,
    post: Invocation,
    action: Action<In, Out>,
)
    requires
        steps(pre, Event::<In, Out>::HandlerPanicked(text), post, action),
    ensures
        action is Reply,
        action->Reply_0 is Err,
        action->Reply_0->Err_0.code == Code::Internal,
        action->Reply_0->Err_0.message@ == text@,
        post is Finished,
{
}

/// An output that the handler returns is handed to the encoder unchanged.
pub proof fn lemma_output_is_encoded<In, Out>(
    pre: Invocation,
    out: Out,
    post: Invocation,
    action: Action<In, Out>,
)
    requires
        steps(pre, Event::<In, Out>::HandlerReturned(Ok(out)), post, action),
    ensures
        action is Encode,
        action->Encode_0 == out,
        post is EncodingOutput,
{
}

impl Invocation {
    /// Starts serving `request`: its payload is to be decoded, and its
    /// metadata is kept for the handler's context.
    pub fn begin<In, Out>(request: InvokeRequest) -> (res: (Invocation, Action<In, Out>))
        ensures
            begins(request, res.0, res.1),
    {
        let InvokeRequest { payload, metadata } = request;
        (Invocation::DecodingInput { metadata }, Action::Decode(payload))
    }

    /// Whether this invocation expects `event` next.
    pub fn accepts<In, Out>(&self, event: &Event<In, Out>) -> (b: bool)
        ensures
            b == accepts(*self, *event),
    {
        match self {
            Invocation::DecodingInput { .. } => match event {
                Event::InputDecoded(_) | Event::InputRejected(_) => true,
                _ => false,
            },
            Invocation::RunningHandler => match event {
                Event::HandlerReturned(_) | Event::HandlerPanicked(_) => true,
                _ => false,
            },
            Invocation::EncodingOutput => match event {
                Event::OutputEncoded(_) | Event::OutputUnencodable => true,
                _ => false,
            },
            Invocation::Finished => false,
        }
    }

    /// Whether the reply has been given.
    pub fn is_finished(&self) -> (b: bool)
        ensures
            b == (*self is Finished),
    {
        match self {
            Invocation::Finished => true,
            _ => false,
        }
    }

    /// Takes in the outcome of the last action and decides the next one.
    pub fn step<In, Out>(self, event: Event<In, Out>) -> (res: (Invocation, Action<In, Out>))
        requires
            accepts(self, event),
        ensures
            steps(self, event, res.0, res.1),
    {
        match event {
            Event::InputDecoded(input) => {
                match self {
                    Invocation::DecodingInput { metadata } => {
                        (Invocation::RunningHandler, Action::Call(input, Context { values: metadata }))
                    },
                    _ => vstd::pervasive::unreached(),
                }
            },
            Event::InputRejected(detail) => {
                let message = String::from_str("Invalid input: ").concat(detail.as_str());
                (Invocation::Finished, Action::Reply(Err(Status::invalid_argument(message))))
            },
            Event::HandlerReturned(Ok(out)) => (Invocation::EncodingOutput, Action::Encode(out)),
            Event::HandlerReturned(Err(problem)) => {
                let res = InvokeResult { result: Some(InvokeOutcome::Problem(problem)) };
                (Invocation::Finished, Action::Reply(Ok(res)))
            },
            Event::HandlerPanicked(text) => {
                (Invocation::Finished, Action::Reply(Err(Status::internal(text))))
            },
            Event::OutputEncoded(output) => {
                let res = InvokeResult { result: Some(InvokeOutcome::Success(Success { output })) };
                (Invocation::Finished, Action::Reply(Ok(res)))
            },
            Event::OutputUnencodable => {
                let message = String::from_str("Could not convert output to json");
                (Invocation::Finished, Action::Reply(Err(Status::data_loss(message))))
            },
        }
    }
}

} // verus!
