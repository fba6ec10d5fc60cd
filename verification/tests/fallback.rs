use value_encoder::handle::{OwnedHandle, ValueHandle};
use value_encoder::serialize::error::SerializeError;
use value_encoder::serialize::host::{Request, RuntimeType, Substitute};
use value_encoder::serialize::per_type::default::DefaultSerializer;
use value_encoder::serialize::serializer::{Encoder, ObjectSerializer};
use value_encoder::serialize::state::SerializationState;

fn state(
    default_calls: u32,
    default_calls_limit: u32,
    fallback_callback: Option<ValueHandle>,
) -> SerializationState {
    SerializationState { recursion_depth: 0, default_calls, default_calls_limit, fallback_callback }
}

fn unknown(id: usize, state: SerializationState) -> ObjectSerializer {
    ObjectSerializer::new(ValueHandle::new(id), RuntimeType::Other, state)
}

#[test]
fn handles_keep_their_identity() {
    assert_eq!(ValueHandle::new(9).id, 9);
    let owned = OwnedHandle::new(11);
    assert_eq!(owned.id, 11);
    assert_eq!(owned.borrow(), ValueHandle::new(11));
}

#[test]
fn new_state_starts_at_zero() {
    let fresh = SerializationState::new(254, None);
    assert_eq!(fresh.recursion_depth, 0);
    assert_eq!(fresh.default_calls, 0);
    assert_eq!(fresh.default_calls_limit, 254);
    assert_eq!(fresh.fallback_callback, None);
    assert!(!fresh.default_calls_limit());
}

#[test]
fn new_state_keeps_the_callable() {
    let callable = Some(ValueHandle::new(100));
    assert_eq!(SerializationState::new(3, callable).fallback_callback, callable);
}

#[test]
fn a_limit_of_zero_is_reached_at_once() {
    assert!(SerializationState::new(0, None).default_calls_limit());
}

#[test]
fn the_limit_is_reached_at_and_over_the_ceiling() {
    assert!(!state(2, 3, None).default_calls_limit());
    assert!(state(3, 3, None).default_calls_limit());
    assert!(state(4, 3, None).default_calls_limit());
}

#[test]
fn copy_for_default_call_counts_one_call() {
    let callable = Some(ValueHandle::new(100));
    let before = SerializationState {
        recursion_depth: 5,
        default_calls: 1,
        default_calls_limit: 3,
        fallback_callback: callable,
    };
    let after = before.copy_for_default_call();
    assert_eq!(
        after,
        SerializationState {
            recursion_depth: 5,
            default_calls: 2,
            default_calls_limit: 3,
            fallback_callback: callable,
        }
    );
    assert_eq!(before.default_calls, 1);
    assert!(!after.default_calls_limit());
    assert!(after.copy_for_default_call().default_calls_limit());
}

#[test]
fn dispatch_routes_by_exact_type() {
    let ptr = ValueHandle::new(4);
    let fresh = SerializationState::new(3, None);
    let route = |runtime_type| ObjectSerializer::new(ptr, runtime_type, fresh);
    assert!(matches!(route(RuntimeType::Str).dispatch(), Encoder::Str(e) if e.ptr == ptr));
    assert!(matches!(
        route(RuntimeType::StrSubclass).dispatch(),
        Encoder::StrSubclass(e) if e.ptr == ptr
    ));
    assert!(matches!(route(RuntimeType::Int).dispatch(), Encoder::Int(e) if e.ptr == ptr));
    let value = route(RuntimeType::Other);
    assert!(matches!(value.dispatch(), Encoder::Default(e) if *e.previous == value));
}

#[test]
fn without_a_callable_the_value_is_unsupported() {
    let value = unknown(5, SerializationState::new(3, None));
    assert_eq!(
        DefaultSerializer::new(&value).serialize(),
        Err(SerializeError::UnsupportedType(ValueHandle::new(5)))
    );
}

#[test]
fn without_a_callable_the_limit_does_not_matter() {
    let value = unknown(5, state(3, 3, None));
    assert_eq!(
        DefaultSerializer::new(&value).serialize(),
        Err(SerializeError::UnsupportedType(ValueHandle::new(5)))
    );
}

#[test]
fn at_the_limit_nothing_is_called() {
    let value = unknown(5, state(3, 3, Some(ValueHandle::new(100))));
    assert_eq!(
        DefaultSerializer::new(&value).serialize(),
        Err(SerializeError::DefaultRecursionLimit)
    );
}

#[test]
fn below_the_limit_the_callable_gets_the_value_as_its_argument() {
    let value = unknown(5, state(2, 3, Some(ValueHandle::new(100))));
    assert_eq!(
        DefaultSerializer::new(&value).serialize(),
        Ok(Request::CallFallback {
            callable: ValueHandle::new(100),
            argument: ValueHandle::new(5)
        })
    );
}

#[test]
fn a_failed_call_leaves_the_value_unsupported() {
    let value = unknown(5, state(0, 3, Some(ValueHandle::new(100))));
    assert_eq!(
        DefaultSerializer::new(&value).resume(None),
        Err(SerializeError::UnsupportedType(ValueHandle::new(5)))
    );
}

#[test]
fn a_substitute_is_encoded_under_advanced_counters() {
    let callable = Some(ValueHandle::new(100));
    let before = SerializationState {
        recursion_depth: 2,
        default_calls: 1,
        default_calls_limit: 3,
        fallback_callback: callable,
    };
    let value = unknown(5, before);
    let returned =
        Substitute { handle: OwnedHandle::new(6), runtime_type: RuntimeType::StrSubclass };
    let (next, owned) = DefaultSerializer::new(&value).resume(Some(returned)).unwrap();
    assert_eq!(owned, OwnedHandle::new(6));
    assert_eq!(
        next,
        ObjectSerializer {
            ptr: ValueHandle::new(6),
            runtime_type: RuntimeType::StrSubclass,
            state: SerializationState {
                recursion_depth: 2,
                default_calls: 2,
                default_calls_limit: 3,
                fallback_callback: callable,
            },
        }
    );
}
