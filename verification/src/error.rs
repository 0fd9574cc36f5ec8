//! The error taxonomy of the library.
//!
//! Every operation that can fail reports one of these variants; the
//! contracts of the session operations say exactly which variant comes on
//! which input.

use vstd::prelude::*;

verus! {

#[derive(Clone, Copy, Debug, PartialEq, Eq, Structural)]
pub enum WfpError {
    /// The engine is unreachable or the caller lacks privilege. Raised only
    /// by bindings against a live engine, never by the in-memory store.
    ConnectionError,
    /// Registering the tool's provider or sublayer failed for a reason other
    /// than the pair already existing.
    RegistrationError,
    /// A transaction could not be begun or committed, e.g. because another
    /// one is already open on the session.
    TransactionError,
    /// A catalog page fetch failed; partial results are discarded. Raised
    /// only by bindings against a live engine, never by the in-memory store.
    EnumerationError,
    /// No rule with this identifier exists.
    NotFound { id: u64 },
    /// The rule with this identifier is not owned by this tool (or does not
    /// exist, which deliberately reads the same): editing it is refused.
    NotOwned { id: u64 },
    /// A rule config carried a zero remote port.
    PortInvalid,
    /// An imported payload was malformed. Raised by the front end while
    /// decoding an exchange payload, never by the in-memory store.
    ParseError,
}

} // verus!
