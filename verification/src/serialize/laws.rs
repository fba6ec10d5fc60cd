//! What holds of every encoding, whatever the host answers.

use crate::handle::ValueHandle;
use crate::serialize::error::SerializeError;
use crate::serialize::host::{ReplyView, Request, RuntimeType};
use crate::serialize::model::{encode, session, theorem_session_encodes, HostModel, Run};
use crate::serialize::per_type::default::{decision, successor};
use crate::serialize::serializer::ObjectSerializer;
use crate::serialize::session::{SessionView, StepView};
use crate::serialize::token::TokenView;
use crate::text::text_of;
use vstd::prelude::*;
use vstd::utf8::*;

verus! {

/// The number of fallback calls among `requests`.
pub open spec fn fallback_calls(requests: Seq<Request>) -> nat
    decreases requests.len(),
{
    if requests.len() == 0 {
        0
    } else {
        fallback_calls(requests.drop_last()) + if requests.last() is CallFallback {
            1nat
        } else {
            0nat
        }
    }
}

/// The values that `requests` release, in the order of their release.
pub open spec fn released(requests: Seq<Request>) -> Seq<ValueHandle>
    decreases requests.len(),
{
    if requests.len() == 0 {
        Seq::empty()
    } else {
        let before = released(requests.drop_last());
        match requests.last() {
            Request::Release(value) => before.push(value),
            _ => before,
        }
    }
}

/// The substitutes that `host` creates in answer to `requests`, in the order
/// of their creation: one for each fallback call that does not fail.
pub open spec fn created(host: HostModel, requests: Seq<Request>) -> Seq<ValueHandle>
    decreases requests.len(),
{
    if requests.len() == 0 {
        Seq::empty()
    } else {
        let before = created(host, requests.drop_last());
        match requests.last() {
            Request::CallFallback { callable, argument } => match host.returned(
                callable,
                argument,
            ) {
                Some(substitute) => before.push(substitute.handle.lent()),
                None => before,
            },
            _ => before,
        }
    }
}

/// The fallback leads from `value`, through `depth` substitutes of which all
/// but the last are of a type that no encoder knows, to a value that has an
/// encoder.
pub open spec fn leads_to_encodable(host: HostModel, value: ObjectSerializer, depth: nat) -> bool
    decreases depth,
{
    if depth == 0 {
        value.runtime_type != RuntimeType::Other
    } else {
        &&& value.runtime_type == RuntimeType::Other
        &&& value.state.fallback_callback is Some
        &&& host.returned(value.state.fallback_callback.unwrap(), value.ptr) matches Some(substitute)
        &&& leads_to_encodable(host, successor(value, substitute), (depth - 1) as nat)
    }
}

/// The value that the fallback leads to from `value` after `depth` calls.
pub open spec fn descendant(host: HostModel, value: ObjectSerializer, depth: nat) -> ObjectSerializer
    decreases depth,
{
    if depth == 0 {
        value
    } else {
        descendant(
            host,
            successor(value, host.returned(value.state.fallback_callback.unwrap(), value.ptr).unwrap()),
            (depth - 1) as nat,
        )
    }
}

/// A value of the string type itself whose stored bytes are well-formed UTF-8
/// is encoded as the string token with exactly the text those bytes encode:
/// encoding the token's text gives the stored bytes back. The stored text is
/// read directly, and nothing else is asked of the host.
pub proof fn law_str_is_its_text(host: HostModel, value: ObjectSerializer, bytes: Seq<u8>)
    requires
        value.runtime_type == RuntimeType::Str,
        (host.stored_text)(value.ptr) == Some(bytes),
        valid_utf8(bytes),
    ensures
        session(host, value).requests == seq![Request::ReadText(value.ptr)],
        session(host, value).outcome == Ok::<TokenView, SerializeError>(
            TokenView::Str(decode_utf8(bytes)),
        ),
        encode_utf8(decode_utf8(bytes)) == bytes,
{
    theorem_session_encodes(host, value);
    decode_utf8_encode_utf8(bytes);
}

/// A value of a type derived from the string type is never read directly: it
/// goes through the host's conversion. What comes of it is what the direct
/// reading gives for a value of the string type itself that stores the same
/// bytes.
pub proof fn law_subclass_encodes_alike(
    host: HostModel,
    derived: ObjectSerializer,
    canonical: ObjectSerializer,
)
    requires
        derived.runtime_type == RuntimeType::StrSubclass,
        canonical.runtime_type == RuntimeType::Str,
        (host.converted_text)(derived.ptr) == (host.stored_text)(canonical.ptr),
    ensures
        session(host, derived).requests == seq![Request::ConvertText(derived.ptr)],
        session(host, canonical).requests == seq![Request::ReadText(canonical.ptr)],
        session(host, derived).outcome == session(host, canonical).outcome,
{
    theorem_session_encodes(host, derived);
    theorem_session_encodes(host, canonical);
}

/// A string-like value whose bytes are missing or are not well-formed UTF-8
/// is not encoded: the result is `InvalidStr`, and there is no token.
pub proof fn law_invalid_text_is_refused(host: HostModel, value: ObjectSerializer)
    requires
        match value.runtime_type {
            RuntimeType::Str => text_of((host.stored_text)(value.ptr)) is None,
            RuntimeType::StrSubclass => text_of((host.converted_text)(value.ptr)) is None,
            _ => false,
        },
    ensures
        session(host, value).outcome == Err::<TokenView, SerializeError>(
            SerializeError::InvalidStr,
        ),
{
    theorem_session_encodes(host, value);
}

/// Without a fallback callable, a value of a type that no encoder knows is
/// unsupported, and the host is not asked for anything.
pub proof fn law_no_fallback_is_unsupported(host: HostModel, value: ObjectSerializer)
    requires
        value.runtime_type == RuntimeType::Other,
        value.state.fallback_callback is None,
    ensures
        session(host, value) == (Run {
            requests: Seq::empty(),
            outcome: Err(SerializeError::UnsupportedType(value.ptr)),
        }),
{
    theorem_session_encodes(host, value);
}

/// A fallback that answers every value with yet another value that no
/// encoder knows is called exactly as often as the ceiling allows, no call
/// less and no call more, and the encoding ends with `DefaultRecursionLimit`.
pub proof fn law_endless_fallback_stops_at_limit(
    host: HostModel,
    value: ObjectSerializer,
    callable: ValueHandle,
)
    requires
        value.runtime_type == RuntimeType::Other,
        value.state.fallback_callback == Some(callable),
        forall|argument: ValueHandle| #[trigger]
            host.returned(callable, argument) matches Some(substitute)
                && substitute.runtime_type == RuntimeType::Other,
    ensures
        session(host, value).outcome == Err::<TokenView, SerializeError>(
            SerializeError::DefaultRecursionLimit,
        ),
        fallback_calls(session(host, value).requests) == value.state.calls_left(),
        value.state.default_calls == 0 ==> fallback_calls(session(host, value).requests)
            == value.state.default_calls_limit,
{
    theorem_session_encodes(host, value);
    lemma_endless_fallback(host, value, callable);
}

/// Where the fallback reaches an encodable value within the calls that are
/// left, the encoding ends as the encoding of that value does, after exactly
/// that many fallback calls.
pub proof fn law_fallback_chain_within_limit(
    host: HostModel,
    value: ObjectSerializer,
    depth: nat,
)
    requires
        leads_to_encodable(host, value, depth),
        depth <= value.state.calls_left(),
    ensures
        session(host, value).outcome == session(host, descendant(host, value, depth)).outcome,
        fallback_calls(session(host, value).requests) == depth,
{
    theorem_session_encodes(host, value);
    theorem_session_encodes(host, descendant(host, value, depth));
    lemma_within_limit(host, value, depth);
}

/// Where the fallback would reach an encodable value only after more calls
/// than are left, the encoding ends with `DefaultRecursionLimit`, after
/// exactly the calls that were left.
pub proof fn law_fallback_chain_beyond_limit(host: HostModel, value: ObjectSerializer, depth: nat)
    requires
        leads_to_encodable(host, value, depth),
        depth > value.state.calls_left(),
    ensures
        session(host, value).outcome == Err::<TokenView, SerializeError>(
            SerializeError::DefaultRecursionLimit,
        ),
        fallback_calls(session(host, value).requests) == value.state.calls_left(),
{
    theorem_session_encodes(host, value);
    lemma_beyond_limit(host, value, depth);
}

/// Where the fallback maps a value that no encoder knows to one that has an
/// encoder, the output is the encoding of that substitute: the same token or
/// the same error that encoding it on its own gives, under any counters.
pub proof fn law_fallback_output_is_substitutes(
    host: HostModel,
    value: ObjectSerializer,
    alone: ObjectSerializer,
)
    requires
        value.runtime_type == RuntimeType::Other,
        decision(value) is Ok,
        host.returned(value.state.fallback_callback.unwrap(), value.ptr) matches Some(substitute)
            && substitute.runtime_type != RuntimeType::Other && alone.ptr
            == substitute.handle.lent() && alone.runtime_type == substitute.runtime_type,
    ensures
        session(host, value).outcome == session(host, alone).outcome,
{
    theorem_session_encodes(host, value);
    theorem_session_encodes(host, alone);
    let substitute = host.returned(value.state.fallback_callback.unwrap(), value.ptr)->Some_0;
    let next = successor(value, substitute);
    assert(encode(host, value).outcome == encode(host, next).outcome);
    assert(encode(host, next).outcome == encode(host, alone).outcome);
}

/// Every substitute that a fallback call creates is released exactly once,
/// whether the encoding succeeds or fails: the values released are the
/// substitutes created, the last one created first.
pub proof fn law_substitutes_released_once(host: HostModel, value: ObjectSerializer)
    ensures
        released(session(host, value).requests) == created(
            host,
            session(host, value).requests,
        ).reverse(),
{
    theorem_session_encodes(host, value);
    lemma_released_once(host, value);
}

/// Whatever the host answers, a step changes what the session owns in two
/// ways only. A substitute that a fallback call returned is owned from then
/// on. The substitute created last is given up, and no other, on the answer
/// to the request that named it for release. Nothing is dropped on the way:
/// a session that is over owns nothing.
pub proof fn law_step_accounts_for_substitutes(session: SessionView, reply: ReplyView)
    requires
        session.wf(),
    ensures
        session.after(reply).owned() == match (session.request(), reply) {
            (Request::CallFallback { .. }, ReplyView::Returned(Some(substitute))) =>
                session.substitutes.push(substitute.handle),
            (Request::Release(value), ReplyView::Released) => session.substitutes.drop_last(),
            _ => session.substitutes,
        },
        session.request() matches Request::Release(value) ==> session.substitutes.len() > 0
            && value == session.substitutes.last().lent(),
{
    assert(session.after(reply).owned() =~= match (session.request(), reply) {
        (Request::CallFallback { .. }, ReplyView::Returned(Some(substitute))) =>
            session.substitutes.push(substitute.handle),
        (Request::Release(value), ReplyView::Released) => session.substitutes.drop_last(),
        _ => session.substitutes,
    });
}

/// Whatever the host answers, the fallback is only ever called below the
/// ceiling, with the session's callable and the value in hand as its one
/// argument, and the substitute it returns is the next value in hand, under
/// a counter that is higher by exactly one.
pub proof fn law_call_only_below_limit(session: SessionView, reply: ReplyView)
    requires
        session.wf(),
        session.request() is CallFallback,
    ensures
        !session.current.state.at_limit(),
        session.request() == (Request::CallFallback {
            callable: session.current.state.fallback_callback.unwrap(),
            argument: session.current.ptr,
        }),
        session.current.state.fallback_callback is Some,
        reply matches ReplyView::Returned(Some(substitute)) ==> session.after(reply) matches StepView::Ask(
            next,
        ) && next.current == successor(session.current, substitute)
            && next.current.state.default_calls == session.current.state.default_calls + 1,
{
}

/// The counter of fallback calls never passes its ceiling: a session whose
/// counters are within it keeps them within it at every step.
pub proof fn law_counter_stays_within_limit(session: SessionView, reply: ReplyView)
    requires
        session.wf(),
        session.current.state.wf(),
    ensures
        session.after(reply) matches StepView::Ask(next) ==> next.current.state.wf(),
{
}

/// The work of a session is bounded by the fallback calls that are left: two
/// requests for each of them, the call and the release, and one for the
/// value at the end.
pub proof fn law_session_is_bounded(host: HostModel, value: ObjectSerializer)
    ensures
        session(host, value).requests.len() <= 2 * value.state.calls_left() + 1,
{
    theorem_session_encodes(host, value);
    lemma_bounded(host, value);
}

/// The three counts for a single request.
proof fn lemma_single(host: HostModel, request: Request)
    ensures
        fallback_calls(seq![request]) == if request is CallFallback {
            1nat
        } else {
            0nat
        },
        released(seq![request]) == match request {
            Request::Release(value) => seq![value],
            _ => Seq::empty(),
        },
        created(host, seq![request]) == match request {
            Request::CallFallback { callable, argument } => match host.returned(
                callable,
                argument,
            ) {
                Some(substitute) => seq![substitute.handle.lent()],
                None => Seq::empty(),
            },
            _ => Seq::empty(),
        },
{
    let one = seq![request];
    assert(one.drop_last() =~= Seq::<Request>::empty());
    assert(one.last() == request);
    assert(fallback_calls(one.drop_last()) == 0);
    assert(released(one.drop_last()) =~= Seq::empty());
    assert(created(host, one.drop_last()) =~= Seq::empty());
    assert(released(one) =~= match request {
        Request::Release(value) => seq![value],
        _ => Seq::empty(),
    });
    assert(created(host, one) =~= match request {
        Request::CallFallback { callable, argument } => match host.returned(callable, argument) {
            Some(substitute) => seq![substitute.handle.lent()],
            None => Seq::empty(),
        },
        _ => Seq::empty(),
    });
}

/// Counting the fallback calls of two runs of requests, one after the other,
/// is adding up their counts.
proof fn lemma_fallback_calls_concat(first: Seq<Request>, second: Seq<Request>)
    ensures
        fallback_calls(first + second) == fallback_calls(first) + fallback_calls(second),
    decreases second.len(),
{
    if second.len() == 0 {
        assert(first + second =~= first);
    } else {
        lemma_fallback_calls_concat(first, second.drop_last());
        assert((first + second).drop_last() =~= first + second.drop_last());
    }
}

/// What two runs of requests release, one after the other, is what the first
/// releases followed by what the second releases.
proof fn lemma_released_concat(first: Seq<Request>, second: Seq<Request>)
    ensures
        released(first + second) == released(first) + released(second),
    decreases second.len(),
{
    if second.len() == 0 {
        assert(first + second =~= first);
        assert(released(first) + released(second) =~= released(first));
    } else {
        lemma_released_concat(first, second.drop_last());
        assert((first + second).drop_last() =~= first + second.drop_last());
        assert(released(first + second) =~= released(first) + released(second));
    }
}

/// What the host creates in answer to two runs of requests, one after the
/// other, is what it creates for the first followed by what it creates for
/// the second.
proof fn lemma_created_concat(host: HostModel, first: Seq<Request>, second: Seq<Request>)
    ensures
        created(host, first + second) == created(host, first) + created(host, second),
    decreases second.len(),
{
    if second.len() == 0 {
        assert(first + second =~= first);
        assert(created(host, first) + created(host, second) =~= created(host, first));
    } else {
        lemma_created_concat(host, first, second.drop_last());
        assert((first + second).drop_last() =~= first + second.drop_last());
        assert(created(host, first + second) =~= created(host, first) + created(host, second));
    }
}

/// The encoding under an endless fallback, by induction on the calls left.
proof fn lemma_endless_fallback(host: HostModel, value: ObjectSerializer, callable: ValueHandle)
    requires
        value.runtime_type == RuntimeType::Other,
        value.state.fallback_callback == Some(callable),
        forall|argument: ValueHandle| #[trigger]
            host.returned(callable, argument) matches Some(substitute)
                && substitute.runtime_type == RuntimeType::Other,
    ensures
        encode(host, value).outcome == Err::<TokenView, SerializeError>(
            SerializeError::DefaultRecursionLimit,
        ),
        fallback_calls(encode(host, value).requests) == value.state.calls_left(),
    decreases value.state.calls_left(),
{
    if decision(value) is Ok {
        let call = decision(value)->Ok_0;
        let substitute = host.returned(callable, value.ptr)->Some_0;
        let next = successor(value, substitute);
        let inner = encode(host, next);
        let release = Request::Release(substitute.handle.lent());
        lemma_endless_fallback(host, next, callable);
        lemma_single(host, call);
        lemma_single(host, release);
        lemma_fallback_calls_concat(seq![call], inner.requests);
        lemma_fallback_calls_concat(seq![call] + inner.requests, seq![release]);
    }
}

/// The encoding along a fallback chain that ends within the calls left, by
/// induction on its length.
proof fn lemma_within_limit(host: HostModel, value: ObjectSerializer, depth: nat)
    requires
        leads_to_encodable(host, value, depth),
        depth <= value.state.calls_left(),
    ensures
        encode(host, value).outcome == encode(host, descendant(host, value, depth)).outcome,
        fallback_calls(encode(host, value).requests) == depth,
    decreases depth,
{
    if depth == 0 {
        lemma_single(host, encode(host, value).requests[0]);
        assert(encode(host, value).requests =~= seq![encode(host, value).requests[0]]);
    } else {
        let call = decision(value)->Ok_0;
        let substitute = host.returned(value.state.fallback_callback.unwrap(), value.ptr)->Some_0;
        let next = successor(value, substitute);
        let inner = encode(host, next);
        let release = Request::Release(substitute.handle.lent());
        lemma_within_limit(host, next, (depth - 1) as nat);
        lemma_single(host, call);
        lemma_single(host, release);
        lemma_fallback_calls_concat(seq![call], inner.requests);
        lemma_fallback_calls_concat(seq![call] + inner.requests, seq![release]);
    }
}

/// The encoding along a fallback chain that is longer than the calls left,
/// by induction on its length.
proof fn lemma_beyond_limit(host: HostModel, value: ObjectSerializer, depth: nat)
    requires
        leads_to_encodable(host, value, depth),
        depth > value.state.calls_left(),
    ensures
        encode(host, value).outcome == Err::<TokenView, SerializeError>(
            SerializeError::DefaultRecursionLimit,
        ),
        fallback_calls(encode(host, value).requests) == value.state.calls_left(),
    decreases depth,
{
    if decision(value) is Ok {
        let call = decision(value)->Ok_0;
        let substitute = host.returned(value.state.fallback_callback.unwrap(), value.ptr)->Some_0;
        let next = successor(value, substitute);
        let inner = encode(host, next);
        let release = Request::Release(substitute.handle.lent());
        lemma_beyond_limit(host, next, (depth - 1) as nat);
        lemma_single(host, call);
        lemma_single(host, release);
        lemma_fallback_calls_concat(seq![call], inner.requests);
        lemma_fallback_calls_concat(seq![call] + inner.requests, seq![release]);
    }
}

/// Releases mirror creations in every encoding, by induction on the calls
/// left.
proof fn lemma_released_once(host: HostModel, value: ObjectSerializer)
    ensures
        released(encode(host, value).requests) == created(
            host,
            encode(host, value).requests,
        ).reverse(),
    decreases value.state.calls_left(),
{
    let requests = encode(host, value).requests;
    if value.runtime_type == RuntimeType::Other {
        match decision(value) {
            Err(_) => {
                assert(created(host, requests).reverse() =~= released(requests));
            },
            Ok(call) => {
                lemma_single(host, call);
                match host.returned(value.state.fallback_callback.unwrap(), value.ptr) {
                    None => {
                        assert(requests =~= seq![call]);
                        assert(created(host, requests).reverse() =~= released(requests));
                    },
                    Some(substitute) => {
                        let inner = encode(host, successor(value, substitute)).requests;
                        let release = Request::Release(substitute.handle.lent());
                        lemma_released_once(host, successor(value, substitute));
                        lemma_single(host, release);
                        lemma_released_concat(seq![call], inner);
                        lemma_released_concat(seq![call] + inner, seq![release]);
                        lemma_created_concat(host, seq![call], inner);
                        lemma_created_concat(host, seq![call] + inner, seq![release]);
                        assert(created(host, requests) =~= seq![substitute.handle.lent()]
                            + created(host, inner));
                        assert(released(requests) =~= released(inner).push(
                            substitute.handle.lent(),
                        ));
                        assert(created(host, requests).reverse() =~= created(
                            host,
                            inner,
                        ).reverse().push(substitute.handle.lent()));
                    },
                }
            },
        }
    } else {
        lemma_single(host, requests[0]);
        assert(requests =~= seq![requests[0]]);
        assert(created(host, requests).reverse() =~= released(requests));
    }
}

/// The bound on the requests of an encoding, by induction on the calls left.
proof fn lemma_bounded(host: HostModel, value: ObjectSerializer)
    ensures
        encode(host, value).requests.len() <= 2 * value.state.calls_left() + 1,
    decreases value.state.calls_left(),
{
    if value.runtime_type == RuntimeType::Other && decision(value) is Ok {
        if let Some(substitute) = host.returned(value.state.fallback_callback.unwrap(), value.ptr) {
            lemma_bounded(host, successor(value, substitute));
        }
    }
}

} // verus!
