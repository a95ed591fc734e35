//! The fault-safety wrapper.
//!
//! The boundary calling convention does not allow an abnormal native
//! termination to cross into host code, so every boundary-exposed function
//! runs its body under a capture point.  This module holds the verified
//! decision logic of that capture point: how a captured fault payload is
//! translated into a host exception, and what the wrapped call returns in
//! each case.  The capture mechanism itself (unwinding) lives with the
//! unverified glue, which hands the outcome to [`catch_panic`].

use vstd::prelude::*;

verus! {

/// The payload carried by an abnormal native termination, as far as the
/// default fault handler reads it: a string-like message, or anything
/// else.
pub enum FaultPayload {
    /// The fault carried a string-like message.
    Message(String),
    /// The fault carried a payload of some other type.
    Opaque,
}

/// A host-runtime exception to be raised on the environment handle: the
/// host class of the exception and its message.
pub struct HostException {
    /// The host class of the exception, in the loader's notation.
    pub class_name: String,
    /// The exception's message.
    pub message: String,
}

/// How a wrapped computation ended: normally, with its result, or
/// abnormally, with the captured fault payload.
pub enum Outcome<R> {
    /// The computation completed and returned a value.
    Completed(R),
    /// The computation terminated abnormally and its payload was captured.
    Aborted(FaultPayload),
}

/// The message the default fault handler reports: the payload's own string
/// when it carries one, and a generic placeholder otherwise.
pub open spec fn default_fault_message_spec(payload: FaultPayload) -> Seq<char> {
    match payload {
        FaultPayload::Message(s) => s@,
        FaultPayload::Opaque => "Box<dyn Any>"@,
    }
}

/// The host class of the exception the default fault handler raises.
pub open spec fn runtime_exception_class() -> Seq<char> {
    "java/lang/RuntimeException"@
}

/// The default fault handler: translates a captured fault payload into a
/// generic host runtime exception whose message is the payload's string,
/// or a placeholder when the payload is not string-like.
pub fn default_handler(payload: FaultPayload) -> (r: HostException)
    ensures
        r.class_name@ == runtime_exception_class(),
        r.message@ == default_fault_message_spec(payload),
{
    let message = match payload {
        FaultPayload::Message(s) => s,
        FaultPayload::Opaque => String::from_str("Box<dyn Any>"),
    };
    HostException { class_name: String::from_str("java/lang/RuntimeException"), message }
}

/// Resolves the outcome of a wrapped computation under the default fault
/// handler.
///
/// A completed computation's result is returned as it is, and no exception
/// is raised.  An abnormal termination is consumed exactly once: the
/// caller receives the statically supplied dummy value in its place,
/// together with the host exception the default handler built from the
/// payload, to be raised on the environment handle before control returns
/// to host code.
pub fn catch_panic<R>(outcome: Outcome<R>, default: R) -> (r: (R, Option<HostException>))
    ensures
        outcome matches Outcome::Completed(v) ==> r.0 == v && r.1 is None,
        outcome matches Outcome::Aborted(p) ==> {
            &&& r.0 == default
            &&& r.1 matches Some(e) && e.class_name@ == runtime_exception_class()
                && e.message@ == default_fault_message_spec(p)
        },
{
    match outcome {
        Outcome::Completed(value) => (value, None),
        Outcome::Aborted(payload) => (default, Some(default_handler(payload))),
    }
}

/// Resolves the outcome of a wrapped computation under a custom fault
/// handler.
///
/// As [`catch_panic`], but the exception raised for an abnormal
/// termination is whatever `handler` builds from the payload.
pub fn catch_panic_with<R, H: FnOnce(FaultPayload) -> HostException>(
    outcome: Outcome<R>,
    default: R,
    handler: H,
) -> (r: (R, Option<HostException>))
    requires
        forall|p: FaultPayload| handler.requires((p,)),
    ensures
        outcome matches Outcome::Completed(v) ==> r.0 == v && r.1 is None,
        outcome matches Outcome::Aborted(p) ==> {
            &&& r.0 == default
            &&& r.1 matches Some(e) && handler.ensures((p,), e)
        },
{
    match outcome {
        Outcome::Completed(value) => (value, None),
        Outcome::Aborted(payload) => (default, Some(handler(payload))),
    }
}

} // verus!
