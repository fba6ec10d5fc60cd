//! A session and a host together.
//!
//! The engine cannot see the host, but what it does depends on nothing but the
//! host's answers. This module describes a host by its answers, runs a session
//! against it step by step, and shows that the run is the one that the
//! recursive description of the encoders gives.

use crate::handle::{OwnedHandle, ValueHandle};
use crate::serialize::error::SerializeError;
use crate::serialize::host::{ReplyView, Request, RuntimeType, Substitute};
use crate::serialize::per_type::default::{decision, successor};
use crate::serialize::per_type::unicode::str_outcome;
use crate::serialize::serializer::ObjectSerializer;
use crate::serialize::session::{entered, settled, SessionView, StepView};
use crate::serialize::token::{Outcome, TokenView};
use vstd::prelude::*;

verus! {

/// A host runtime, described by what it answers.
pub struct HostModel {
    /// The bytes that reading the stored text of a value yields.
    pub stored_text: spec_fn(ValueHandle) -> Option<Seq<u8>>,
    /// The bytes that the host's conversion of a value yields.
    pub converted_text: spec_fn(ValueHandle) -> Option<Seq<u8>>,
    /// The number that an integer value holds.
    pub number: spec_fn(ValueHandle) -> i64,
    /// What a callable returns for an argument.
    pub fallback: spec_fn(ValueHandle, ValueHandle) -> Option<Substitute>,
}

impl HostModel {
    /// What `callable` returns when it is called with `argument`.
    pub open spec fn returned(self, callable: ValueHandle, argument: ValueHandle) -> Option<
        Substitute,
    > {
        (self.fallback)(callable, argument)
    }

    /// The host's answer to a request.
    pub open spec fn answer(self, request: Request) -> ReplyView {
        match request {
            Request::ReadText(value) => ReplyView::Text((self.stored_text)(value)),
            Request::ConvertText(value) => ReplyView::Text((self.converted_text)(value)),
            Request::ReadInt(value) => ReplyView::Int((self.number)(value)),
            Request::CallFallback { callable, argument } => ReplyView::Returned(
                self.returned(callable, argument),
            ),
            Request::Release(_) => ReplyView::Released,
        }
    }
}

/// What a session did: the requests it made of the host, in order, and how
/// it ended.
pub struct Run {
    pub requests: Seq<Request>,
    pub outcome: Outcome,
}

/// A bound on the steps that are left from `step` on.
pub open spec fn effort(step: StepView) -> nat {
    match step {
        StepView::Done(_) => 0,
        StepView::Ask(session) => 2 * session.current.state.calls_left()
            + session.substitutes.len() + if session.outcome is None {
            1nat
        } else {
            0nat
        },
    }
}

/// The session from `step` on, with every request answered by `host`.
pub open spec fn run(host: HostModel, step: StepView) -> Run
    decreases effort(step),
    when step.wf()
    via run_decreases
{
    match step {
        StepView::Done(outcome) => Run { requests: Seq::empty(), outcome },
        StepView::Ask(session) => {
            let rest = run(host, session.after(host.answer(session.request())));
            Run { requests: seq![session.request()] + rest.requests, outcome: rest.outcome }
        },
    }
}

#[via_fn]
proof fn run_decreases(host: HostModel, step: StepView) {
    if let StepView::Ask(session) = step {
        lemma_step(host, session);
    }
}

/// An answered request brings a well-formed session strictly closer to its
/// end, and leaves it well-formed.
pub proof fn lemma_step(host: HostModel, session: SessionView)
    requires
        session.wf(),
    ensures
        session.answered_by(host.answer(session.request())),
        session.after(host.answer(session.request())).wf(),
        effort(session.after(host.answer(session.request()))) < effort(StepView::Ask(session)),
{
}

/// The requests that release `substitutes`, the last one created first.
pub open spec fn releases(substitutes: Seq<OwnedHandle>) -> Seq<Request> {
    Seq::new(
        substitutes.len(),
        |i: int| Request::Release(substitutes[substitutes.len() - 1 - i].lent()),
    )
}

/// The encoding of `value` on `host`, told as the encoders are described:
/// a string or a number is read and encoded; any other value goes to the
/// fallback, and what the fallback returns is encoded in its place and
/// released right after, whether that encoding succeeded or not.
pub open spec fn encode(host: HostModel, value: ObjectSerializer) -> Run
    decreases value.state.calls_left(),
{
    match value.runtime_type {
        RuntimeType::Str => Run {
            requests: seq![Request::ReadText(value.ptr)],
            outcome: str_outcome((host.stored_text)(value.ptr)),
        },
        RuntimeType::StrSubclass => Run {
            requests: seq![Request::ConvertText(value.ptr)],
            outcome: str_outcome((host.converted_text)(value.ptr)),
        },
        RuntimeType::Int => Run {
            requests: seq![Request::ReadInt(value.ptr)],
            outcome: Ok(TokenView::Int((host.number)(value.ptr))),
        },
        RuntimeType::Other => match decision(value) {
            Err(error) => Run { requests: Seq::empty(), outcome: Err(error) },
            Ok(call) => match host.returned(value.state.fallback_callback.unwrap(), value.ptr) {
                None => Run {
                    requests: seq![call],
                    outcome: Err(SerializeError::UnsupportedType(value.ptr)),
                },
                Some(substitute) => {
                    let inner = encode(host, successor(value, substitute));
                    Run {
                        requests: seq![call] + inner.requests + seq![
                            Request::Release(substitute.handle.lent()),
                        ],
                        outcome: inner.outcome,
                    }
                },
            },
        },
    }
}

/// Once the result is known, what is left of a session is the release of the
/// substitutes it owns, and its end is that result.
pub proof fn lemma_settled_run(
    host: HostModel,
    current: ObjectSerializer,
    substitutes: Seq<OwnedHandle>,
    outcome: Outcome,
)
    ensures
        run(host, settled(current, substitutes, outcome)).requests == releases(substitutes),
        run(host, settled(current, substitutes, outcome)).outcome == outcome,
    decreases substitutes.len(),
{
    if substitutes.len() == 0 {
        assert(run(host, settled(current, substitutes, outcome)).requests =~= releases(
            substitutes,
        ));
    } else {
        let session = SessionView { current, substitutes, outcome: Some(outcome) };
        lemma_step(host, session);
        lemma_settled_run(host, current, substitutes.drop_last(), outcome);
        assert(session.after(host.answer(session.request())) == settled(
            current,
            substitutes.drop_last(),
            outcome,
        ));
        assert(run(host, settled(current, substitutes, outcome)).requests =~= releases(
            substitutes,
        ));
    }
}

/// A session that takes `value` in hand while it owns `substitutes` makes
/// the requests of the encoding of `value`, then releases what it owns, and
/// ends as that encoding ends.
pub proof fn lemma_entered_run(
    host: HostModel,
    value: ObjectSerializer,
    substitutes: Seq<OwnedHandle>,
)
    ensures
        run(host, entered(value, substitutes)).requests == encode(host, value).requests
            + releases(substitutes),
        run(host, entered(value, substitutes)).outcome == encode(host, value).outcome,
    decreases value.state.calls_left(),
{
    let step = entered(value, substitutes);
    if value.runtime_type == RuntimeType::Other && decision(value) is Err {
        lemma_settled_run(host, value, substitutes, Err(decision(value)->Err_0));
        assert(run(host, step).requests =~= encode(host, value).requests + releases(substitutes));
    } else {
        let session = SessionView { current: value, substitutes, outcome: None };
        lemma_step(host, session);
        let next = session.after(host.answer(session.request()));
        match value.runtime_type {
            RuntimeType::Str => {
                lemma_settled_run(
                    host,
                    value,
                    substitutes,
                    str_outcome((host.stored_text)(value.ptr)),
                );
            },
            RuntimeType::StrSubclass => {
                lemma_settled_run(
                    host,
                    value,
                    substitutes,
                    str_outcome((host.converted_text)(value.ptr)),
                );
            },
            RuntimeType::Int => {
                lemma_settled_run(
                    host,
                    value,
                    substitutes,
                    Ok(TokenView::Int((host.number)(value.ptr))),
                );
            },
            RuntimeType::Other => {
                match host.returned(value.state.fallback_callback.unwrap(), value.ptr) {
                    None => {
                        lemma_settled_run(
                            host,
                            value,
                            substitutes,
                            Err(SerializeError::UnsupportedType(value.ptr)),
                        );
                    },
                    Some(substitute) => {
                        let owned = substitutes.push(substitute.handle);
                        lemma_entered_run(host, successor(value, substitute), owned);
                        assert(releases(owned) =~= seq![
                            Request::Release(substitute.handle.lent()),
                        ] + releases(substitutes));
                    },
                }
            },
        }
        assert(run(host, step).requests =~= encode(host, value).requests + releases(substitutes));
    }
}

/// The whole session on `value`, from its start to its end, with every
/// request answered by `host`.
pub open spec fn session(host: HostModel, value: ObjectSerializer) -> Run {
    run(host, entered(value, Seq::empty()))
}

/// A session started on `value` and answered by `host` is the encoding of
/// `value` on `host`: the same requests in the same order, and the same end.
pub proof fn theorem_session_encodes(host: HostModel, value: ObjectSerializer)
    ensures
        session(host, value) == encode(host, value),
{
    lemma_entered_run(host, value, Seq::empty());
    assert(releases(Seq::empty()) =~= Seq::empty());
    assert(session(host, value).requests =~= encode(host, value).requests);
}

} // verus!
