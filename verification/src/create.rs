//! Registration of closures, one function per arity.
//!
//! Each wraps the closure, puts it into a slot and registers the slot in the
//! table behind the lock given. The closure must accept every argument, since
//! it is the host that picks them. What comes back is the handle to give to
//! the host, or `None` where the table's counter is spent.
use crate::closure::{
    Closure0, Closure1, Closure10, Closure2, Closure3, Closure4, Closure5, Closure6, Closure7,
    Closure8, Closure9,
};
use crate::handler::CallbackHandler;
use crate::manager::{create_callback, CallbackHandle, CallbackManager};
use vstd::prelude::*;

verus! {

/// Registers a closure without arguments.
pub fn create_callback_0<V: Send + 'static, F: FnMut() + Send + 'static>(
    cbs: &spin::Mutex<CallbackManager<V>>,
    cb: F,
) -> (handle: Option<CallbackHandle>)
    requires
        call_requires(cb, ()),
    ensures
        handle matches Some(h) ==> h >= 1,
{
    create_callback(cbs, CallbackHandler::Callback0(Box::new(Closure0::new(cb))))
}

/// Registers a closure of one value.
pub fn create_callback_1<V: Send + 'static, F: FnMut(V) + Send + 'static>(
    cbs: &spin::Mutex<CallbackManager<V>>,
    cb: F,
) -> (handle: Option<CallbackHandle>)
    requires
        forall|v0: V| call_requires(cb, (v0,)),
    ensures
        handle matches Some(h) ==> h >= 1,
{
    create_callback(cbs, CallbackHandler::Callback1(Box::new(Closure1::new(cb))))
}

/// Registers a closure of two values.
pub fn create_callback_2<V: Send + 'static, F: FnMut(V, V) + Send + 'static>(
    cbs: &spin::Mutex<CallbackManager<V>>,
    cb: F,
) -> (handle: Option<CallbackHandle>)
    requires
        forall|v0: V, v1: V| call_requires(cb, (v0, v1)),
    ensures
        handle matches Some(h) ==> h >= 1,
{
    create_callback(cbs, CallbackHandler::Callback2(Box::new(Closure2::new(cb))))
}

/// Registers a closure of three values.
pub fn create_callback_3<V: Send + 'static, F: FnMut(V, V, V) + Send + 'static>(
    cbs: &spin::Mutex<CallbackManager<V>>,
    cb: F,
) -> (handle: Option<CallbackHandle>)
    requires
        forall|v0: V, v1: V, v2: V| call_requires(cb, (v0, v1, v2)),
    ensures
        handle matches Some(h) ==> h >= 1,
{
    create_callback(cbs, CallbackHandler::Callback3(Box::new(Closure3::new(cb))))
}

/// Registers a closure of four values.
pub fn create_callback_4<V: Send + 'static, F: FnMut(V, V, V, V) + Send + 'static>(
    cbs: &spin::Mutex<CallbackManager<V>>,
    cb: F,
) -> (handle: Option<CallbackHandle>)
    requires
        forall|v0: V, v1: V, v2: V, v3: V| call_requires(cb, (v0, v1, v2, v3)),
    ensures
        handle matches Some(h) ==> h >= 1,
{
    create_callback(cbs, CallbackHandler::Callback4(Box::new(Closure4::new(cb))))
}

/// Registers a closure of five values.
pub fn create_callback_5<V: Send + 'static, F: FnMut(V, V, V, V, V) + Send + 'static>(
    cbs: &spin::Mutex<CallbackManager<V>>,
    cb: F,
) -> (handle: Option<CallbackHandle>)
    requires
        forall|v0: V, v1: V, v2: V, v3: V, v4: V| call_requires(cb, (v0, v1, v2, v3, v4)),
    ensures
        handle matches Some(h) ==> h >= 1,
{
    create_callback(cbs, CallbackHandler::Callback5(Box::new(Closure5::new(cb))))
}

/// Registers a closure of six values.
pub fn create_callback_6<V: Send + 'static, F: FnMut(V, V, V, V, V, V) + Send + 'static>(
    cbs: &spin::Mutex<CallbackManager<V>>,
    cb: F,
) -> (handle: Option<CallbackHandle>)
    requires
        forall|v0: V, v1: V, v2: V, v3: V, v4: V, v5: V|
            call_requires(cb, (v0, v1, v2, v3, v4, v5)),
    ensures
        handle matches Some(h) ==> h >= 1,
{
    create_callback(cbs, CallbackHandler::Callback6(Box::new(Closure6::new(cb))))
}

/// Registers a closure of seven values.
pub fn create_callback_7<V: Send + 'static, F: FnMut(V, V, V, V, V, V, V) + Send + 'static>(
    cbs: &spin::Mutex<CallbackManager<V>>,
    cb: F,
) -> (handle: Option<CallbackHandle>)
    requires
        forall|v0: V, v1: V, v2: V, v3: V, v4: V, v5: V, v6: V|
            call_requires(cb, (v0, v1, v2, v3, v4, v5, v6)),
    ensures
        handle matches Some(h) ==> h >= 1,
{
    create_callback(cbs, CallbackHandler::Callback7(Box::new(Closure7::new(cb))))
}

/// Registers a closure of eight values.
pub fn create_callback_8<V: Send + 'static, F: FnMut(V, V, V, V, V, V, V, V) + Send + 'static>(
    cbs: &spin::Mutex<CallbackManager<V>>,
    cb: F,
) -> (handle: Option<CallbackHandle>)
    requires
        forall|v0: V, v1: V, v2: V, v3: V, v4: V, v5: V, v6: V, v7: V|
            call_requires(cb, (v0, v1, v2, v3, v4, v5, v6, v7)),
    ensures
        handle matches Some(h) ==> h >= 1,
{
    create_callback(cbs, CallbackHandler::Callback8(Box::new(Closure8::new(cb))))
}

/// Registers a closure of nine values.
pub fn create_callback_9<V: Send + 'static, F: FnMut(V, V, V, V, V, V, V, V, V) + Send + 'static>(
    cbs: &spin::Mutex<CallbackManager<V>>,
    cb: F,
) -> (handle: Option<CallbackHandle>)
    requires
        forall|v0: V, v1: V, v2: V, v3: V, v4: V, v5: V, v6: V, v7: V, v8: V|
            call_requires(cb, (v0, v1, v2, v3, v4, v5, v6, v7, v8)),
    ensures
        handle matches Some(h) ==> h >= 1,
{
    create_callback(cbs, CallbackHandler::Callback9(Box::new(Closure9::new(cb))))
}

/// Registers a closure of ten values.
pub fn create_callback_10<
    V: Send + 'static,
    F: FnMut(V, V, V, V, V, V, V, V, V, V) + Send + 'static,
>(
    cbs: &spin::Mutex<CallbackManager<V>>,
    cb: F,
) -> (handle: Option<CallbackHandle>)
    requires
        forall|v0: V, v1: V, v2: V, v3: V, v4: V, v5: V, v6: V, v7: V, v8: V, v9: V|
            call_requires(cb, (v0, v1, v2, v3, v4, v5, v6, v7, v8, v9)),
    ensures
        handle matches Some(h) ==> h >= 1,
{
    create_callback(cbs, CallbackHandler::Callback10(Box::new(Closure10::new(cb))))
}

} // verus!
