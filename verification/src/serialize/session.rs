//! One encode session as a sequence of steps.
//!
//! A session takes one value in and gives one token or one error out. On the
//! way it asks the host for whatever the encoder in charge needs, follows the
//! fallback from substitute to substitute, and, once the result is known,
//! has every substitute released, the last one created first.

use crate::handle::OwnedHandle;
use crate::serialize::error::SerializeError;
use crate::serialize::host::{Reply, ReplyView, Request, RuntimeType};
use crate::serialize::per_type::default::{decision, successor};
use crate::serialize::per_type::unicode::str_outcome;
use crate::serialize::serializer::{Encoder, ObjectSerializer};
use crate::serialize::token::{outcome_of, Outcome, Token, TokenView};
use vstd::pervasive::unreached;
use vstd::prelude::*;

verus! {

/// A session that waits for the host, as a mathematical value.
pub struct SessionView {
    /// The value in hand.
    pub current: ObjectSerializer,
    /// The substitutes that the session owns, in the order of their creation.
    pub substitutes: Seq<OwnedHandle>,
    /// The result, once it is known. From then on only releases are left.
    pub outcome: Option<Outcome>,
}

/// Where a session stands after a step, as a mathematical value.
pub enum StepView {
    /// The session waits for the answer to its request.
    Ask(SessionView),
    /// The session is over.
    Done(Outcome),
}

impl StepView {
    /// A step is well-formed where the session that waits in it is.
    pub open spec fn wf(self) -> bool {
        match self {
            StepView::Ask(session) => session.wf(),
            StepView::Done(_) => true,
        }
    }

    /// The substitutes that the session owns at this step. A session that is
    /// over owns nothing.
    pub open spec fn owned(self) -> Seq<OwnedHandle> {
        match self {
            StepView::Ask(session) => session.substitutes,
            StepView::Done(_) => Seq::empty(),
        }
    }
}

impl SessionView {
    /// A waiting session has something to wait for: while the result is open,
    /// a value for the fallback encoder is one that the callable can still be
    /// called for; once the result is known, a substitute is left to release.
    pub open spec fn wf(self) -> bool {
        match self.outcome {
            Some(_) => self.substitutes.len() > 0,
            None => self.current.runtime_type == RuntimeType::Other ==> decision(self.current) is Ok,
        }
    }

    /// What the session waits for.
    pub open spec fn request(self) -> Request {
        if self.outcome is Some {
            Request::Release(self.substitutes.last().lent())
        } else {
            match self.current.runtime_type {
                RuntimeType::Str => Request::ReadText(self.current.ptr),
                RuntimeType::StrSubclass => Request::ConvertText(self.current.ptr),
                RuntimeType::Int => Request::ReadInt(self.current.ptr),
                RuntimeType::Other => Request::CallFallback {
                    callable: self.current.state.fallback_callback.unwrap(),
                    argument: self.current.ptr,
                },
            }
        }
    }

    /// Whether `reply` is an answer to what the session waits for.
    pub open spec fn answered_by(self, reply: ReplyView) -> bool {
        match (self.request(), reply) {
            (Request::ReadText(_), ReplyView::Text(_)) => true,
            (Request::ConvertText(_), ReplyView::Text(_)) => true,
            (Request::ReadInt(_), ReplyView::Int(_)) => true,
            (Request::CallFallback { .. }, ReplyView::Returned(_)) => true,
            (Request::Release(_), ReplyView::Released) => true,
            _ => false,
        }
    }

    /// The step that `reply` leads to. A reply that does not answer the
    /// request changes nothing: the session goes on waiting.
    pub open spec fn after(self, reply: ReplyView) -> StepView {
        match (self.request(), reply) {
            (Request::ReadText(_), ReplyView::Text(raw)) => settled(
                self.current,
                self.substitutes,
                str_outcome(raw),
            ),
            (Request::ConvertText(_), ReplyView::Text(raw)) => settled(
                self.current,
                self.substitutes,
                str_outcome(raw),
            ),
            (Request::ReadInt(_), ReplyView::Int(number)) => settled(
                self.current,
                self.substitutes,
                Ok(TokenView::Int(number)),
            ),
            (Request::CallFallback { .. }, ReplyView::Returned(None)) => settled(
                self.current,
                self.substitutes,
                Err(SerializeError::UnsupportedType(self.current.ptr)),
            ),
            (Request::CallFallback { .. }, ReplyView::Returned(Some(substitute))) => entered(
                successor(self.current, substitute),
                self.substitutes.push(substitute.handle),
            ),
            (Request::Release(_), ReplyView::Released) => settled(
                self.current,
                self.substitutes.drop_last(),
                self.outcome.unwrap(),
            ),
            _ => StepView::Ask(self),
        }
    }
}

/// The step once the result is known: the session is over where it owns no
/// substitute, and otherwise waits for the release of the last one created.
pub open spec fn settled(
    current: ObjectSerializer,
    substitutes: Seq<OwnedHandle>,
    outcome: Outcome,
) -> StepView {
    if substitutes.len() == 0 {
        StepView::Done(outcome)
    } else {
        StepView::Ask(SessionView { current, substitutes, outcome: Some(outcome) })
    }
}

/// The step on taking a value in hand. A value for the fallback encoder that
/// the callable cannot be called for settles the result at once; every other
/// value has the session wait for the host.
pub open spec fn entered(current: ObjectSerializer, substitutes: Seq<OwnedHandle>) -> StepView {
    if current.runtime_type == RuntimeType::Other && decision(current) is Err {
        settled(current, substitutes, Err(decision(current)->Err_0))
    } else {
        StepView::Ask(SessionView { current, substitutes, outcome: None })
    }
}

/// A session that waits for the host to answer its request.
pub struct Session {
    current: ObjectSerializer,
    substitutes: Vec<OwnedHandle>,
    outcome: Option<Result<Token, SerializeError>>,
}

/// Where a session stands after a step.
pub enum Step {
    /// The session waits: perform its request and resume it with the answer.
    Ask(Session),
    /// The session is over, with one token or one error.
    Done(Result<Token, SerializeError>),
}

impl View for Session {
    type V = SessionView;

    closed spec fn view(&self) -> SessionView {
        SessionView {
            current: self.current,
            substitutes: self.substitutes@,
            outcome: match self.outcome {
                Some(result) => Some(outcome_of(result)),
                None => None,
            },
        }
    }
}

impl View for Step {
    type V = StepView;

    open spec fn view(&self) -> StepView {
        match self {
            Step::Ask(session) => StepView::Ask(session@),
            Step::Done(result) => StepView::Done(outcome_of(*result)),
        }
    }
}

fn settle(
    current: ObjectSerializer,
    substitutes: Vec<OwnedHandle>,
    result: Result<Token, SerializeError>,
) -> (step: Step)
    ensures
        step@ == settled(current, substitutes@, outcome_of(result)),
{
    if substitutes.len() == 0 {
        Step::Done(result)
    } else {
        Step::Ask(Session { current, substitutes, outcome: Some(result) })
    }
}

fn enter(current: ObjectSerializer, substitutes: Vec<OwnedHandle>) -> (step: Step)
    ensures
        step@ == entered(current, substitutes@),
{
    let refused = match current.dispatch() {
        Encoder::Default(fallback) => match fallback.serialize() {
            Ok(_) => None,
            Err(error) => Some(error),
        },
        _ => None,
    };
    match refused {
        Some(error) => settle(current, substitutes, Err(error)),
        None => Step::Ask(Session { current, substitutes, outcome: None }),
    }
}

impl Session {
    #[verifier::type_invariant]
    spec fn inv(&self) -> bool {
        self@.wf()
    }


    /// Starts a session on `value`.
    ///
    /// It is over at once, with the fallback encoder's error, where the value
    /// is of a type that no encoder knows and the callable cannot be called
    /// for it; otherwise it waits for the host.
    pub fn start(value: ObjectSerializer) -> (step: Step)
        ensures
            step@ == entered(value, Seq::empty()),
    {
        enter(value, Vec::new())
    }

    /// What the session waits for.
    pub fn request(&self) -> (request: Request)
        ensures
            request == self@.request(),
    {
        proof {
            use_type_invariant(self);
        }
        if self.outcome.is_some() {
            let last = self.substitutes.len() - 1;
            Request::Release(self.substitutes[last].borrow())
        } else {
            match self.current.dispatch() {
                Encoder::Str(encoder) => encoder.request(),
                Encoder::StrSubclass(encoder) => encoder.request(),
                Encoder::Int(encoder) => encoder.request(),
                Encoder::Default(encoder) => match encoder.serialize() {
                    Ok(request) => request,
                    Err(_) => unreached(),
                },
            }
        }
    }

    /// Takes the host's answer and makes the next step.
    pub fn resume(self, reply: Reply) -> (step: Step)
        ensures
            step@ == self@.after(reply@),
    {
        proof {
            use_type_invariant(&self);
        }
        let Session { current, substitutes, outcome } = self;
        match outcome {
            Some(result) => match reply {
                Reply::Released => {
                    let mut substitutes = substitutes;
                    substitutes.pop();
                    settle(current, substitutes, result)
                },
                _ => Step::Ask(Session { current, substitutes, outcome: Some(result) }),
            },
            None => match current.dispatch() {
                Encoder::Str(encoder) => match reply {
                    Reply::Text(raw) => settle(current, substitutes, encoder.serialize(raw)),
                    _ => Step::Ask(Session { current, substitutes, outcome: None }),
                },
                Encoder::StrSubclass(encoder) => match reply {
                    Reply::Text(raw) => settle(current, substitutes, encoder.serialize(raw)),
                    _ => Step::Ask(Session { current, substitutes, outcome: None }),
                },
                Encoder::Int(encoder) => match reply {
                    Reply::Int(number) => settle(current, substitutes, encoder.serialize(number)),
                    _ => Step::Ask(Session { current, substitutes, outcome: None }),
                },
                Encoder::Default(encoder) => match reply {
                    Reply::Returned(returned) => match encoder.resume(returned) {
                        Ok((next, handle)) => {
                            let mut substitutes = substitutes;
                            substitutes.push(handle);
                            enter(next, substitutes)
                        },
                        Err(error) => settle(current, substitutes, Err(error)),
                    },
                    _ => Step::Ask(Session { current, substitutes, outcome: None }),
                },
            },
        }
    }
}

} // verus!
