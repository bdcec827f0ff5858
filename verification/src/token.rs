//! The cancellation token: one internally synchronized boolean shared by the
//! stop-signal listener and the capture handler. The token exposes only
//! `request_stop` and `is_stop_requested`; the synchronization itself is done
//! by `std::sync::Mutex`, which the library reaches only through the trusted
//! methods below.

use vstd::prelude::*;
use std::sync::Arc;
use std::sync::Mutex;

verus! {

/// `std::sync::Mutex`, declared so a field may hold one. Every read and
/// write of the guarded value goes through a trusted method of
/// [`CancelToken`].
#[verifier::external_type_specification]
#[verifier::external_body]
#[verifier::reject_recursive_types(T)]
pub struct ExMutex<T: ?Sized>(Mutex<T>);

/// A handle to one shared stop flag. Handles made by [`CancelToken::handle`]
/// reach the same flag, so a stop requested through any of them is seen by
/// all of them. The flag starts false and nothing ever writes false to it
/// again: only [`CancelToken::request_stop`] writes, and it writes true.
///
/// The value [`CancelToken::is_stop_requested`] returns depends on what the
/// other threads holding a handle have done, so no contract pins it down;
/// the capture handler takes the observed value as a plain argument and is
/// verified for both values of it.
pub struct CancelToken {
    flag: Arc<Mutex<bool>>,
}

impl CancelToken {
    /// Relies on `std::sync::Mutex::new`: a mutex guarding the given value.
    #[verifier::external_body]
    fn new_flag_cell(value: bool) -> Mutex<bool> {
        Mutex::new(value)
    }

    /// A fresh token whose flag is false until some holder requests a stop.
    pub fn new() -> CancelToken {
        CancelToken { flag: Arc::new(Self::new_flag_cell(false)) }
    }

    /// Relies on `Arc::clone`: a second handle to the same shared flag.
    #[verifier::external_body]
    pub fn handle(&self) -> CancelToken {
        CancelToken { flag: Arc::clone(&self.flag) }
    }

    /// Relies on `std::sync::Mutex::lock`: writes true to the shared flag.
    /// Panics only on a poisoned lock, that is only if another holder of the
    /// lock panicked while holding it.
    #[verifier::external_body]
    pub fn request_stop(&self) {
        *self.flag.lock().unwrap() = true;
    }

    /// Relies on `std::sync::Mutex::lock`: reads the shared flag. The value
    /// is whatever the latest write left there; nothing can be promised of
    /// it, so the callers state what holds whichever value comes back.
    /// Panics only on a poisoned lock.
    #[verifier::external_body]
    pub fn is_stop_requested(&self) -> bool {
        *self.flag.lock().unwrap()
    }
}

} // verus!
