//! A registry of callbacks that a host runtime fires by handle, and a future
//! that resolves when its handle is fired.
//!
//! Native code registers a closure and gets a handle; the host later fires the
//! handle with values, and the closure runs on them. `CallbackFuture` builds
//! on that: it registers a callback of one value for itself and is ready, with
//! that value, once the host has fired it.
pub mod closure;
pub mod create;
pub mod future;
pub mod handler;
pub mod manager;
pub mod registry;
pub mod state;
pub mod sync;

pub use crate::closure::Callback;
pub use crate::create::{
    create_callback_0, create_callback_1, create_callback_10, create_callback_2,
    create_callback_3, create_callback_4, create_callback_5, create_callback_6,
    create_callback_7, create_callback_8, create_callback_9,
};
pub use crate::future::CallbackFuture;
pub use crate::handler::CallbackHandler;
pub use crate::state::SharedState;
pub use crate::manager::{
    create_callback, create_callback_once, fire, fire_found, get_callback, invoke,
    remove_callback, retire_callback, CallbackHandle, CallbackManager, Dispatch, Slot,
};
