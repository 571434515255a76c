//! The shared persistence handle and the generic command plumbing.
//!
//! `AppState` owns the single persistence-client handle for the whole
//! process, created once at startup. `run` is the safe "borrow the handle
//! and run an operation" primitive: it lends the store to one unit of
//! business logic and returns its result unchanged (a transparent
//! pass-through); a command arriving before the handle was initialized
//! fails fast with `ClientInitError` without attempting the operation.
//! `handle_db_operation` composes `run` with the envelope conversion, so
//! every dispatched command yields a well-formed envelope.
use vstd::prelude::*;

use crate::error::AppError;
use crate::response::IpcResponse;
use crate::store::Store;

verus! {

/// Process-wide application state: the persistence handle (present once
/// startup has completed) and the injected token-signing secret.
pub struct AppState {
    pub db: Option<Store>,
    pub secret: Vec<u8>,
}

impl AppState {
    /// The persistence client has been initialized.
    pub open spec fn is_init(&self) -> bool {
        self.db is Some
    }

    /// The store behind the handle.
    pub open spec fn store(&self) -> Store
        recommends
            self.is_init(),
    {
        self.db->Some_0
    }

    /// A state is well-formed when its store (if initialized) is.
    pub open spec fn wf(&self) -> bool {
        self.is_init() ==> self.store().wf()
    }

    /// Wraps an initialized persistence client. Done once at startup,
    /// before any command is accepted.
    pub fn new(db: Store, secret: Vec<u8>) -> (r: AppState)
        ensures
            r.db == Some(db),
            r.secret == secret,
            r.is_init(),
            r.store() == db,
    {
        AppState { db: Some(db), secret }
    }

    /// The state of a process whose startup failed before the client was
    /// built: every command against it fails fast with `ClientInitError`.
    pub fn uninitialized(secret: Vec<u8>) -> (r: AppState)
        ensures
            r.db is None,
            r.secret == secret,
            !r.is_init(),
    {
        AppState { db: None, secret }
    }

    /// Lends the shared handle to one operation and returns the operation's
    /// result unchanged. If the handle was never initialized, surfaces
    /// `ClientInitError` immediately without attempting the operation; the
    /// handle itself survives every call, so the state is usable afterwards
    /// either way.
    pub fn run<T, F: FnOnce(Store) -> (Store, Result<T, AppError>)>(&mut self, operation: F) -> (r:
        Result<T, AppError>)
        requires
            old(self).is_init() ==> call_requires(operation, (old(self).store(),)),
        ensures
            final(self).secret == old(self).secret,
            final(self).is_init() == old(self).is_init(),
            !old(self).is_init() ==> *final(self) == *old(self) && r == Err::<T, AppError>(
                AppError::ClientInitError,
            ),
            old(self).is_init() ==> exists|out: (Store, Result<T, AppError>)|
                #[trigger] call_ensures(operation, (old(self).store(),), out) && final(self).store()
                    == out.0 && r == out.1,
    {
        let db = self.db.take();
        match db {
            None => Err(AppError::ClientInitError),
            Some(store) => {
                let out = operation(store);
                let (store2, res) = out;
                self.db = Some(store2);
                res
            },
        }
    }

    /// Runs one operation against the shared handle and converts its result
    /// into the uniform response envelope, whatever happened.
    pub fn handle_db_operation<T, F: FnOnce(Store) -> (Store, Result<T, AppError>)>(
        &mut self,
        operation: F,
    ) -> (r: IpcResponse<T>)
        requires
            old(self).is_init() ==> call_requires(operation, (old(self).store(),)),
        ensures
            final(self).secret == old(self).secret,
            final(self).is_init() == old(self).is_init(),
            !old(self).is_init() ==> *final(self) == *old(self) && r.is_envelope_of(
                Err(AppError::ClientInitError),
            ),
            old(self).is_init() ==> exists|out: (Store, Result<T, AppError>)|
                #[trigger] call_ensures(operation, (old(self).store(),), out) && final(self).store()
                    == out.0 && r.is_envelope_of(out.1),
    {
        let res = self.run(operation);
        IpcResponse::from_result(res)
    }
}

} // verus!
