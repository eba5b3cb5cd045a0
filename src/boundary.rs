//! The entry point's decision: build the greeting through the host, or
//! terminate the process.
//!
//! Looking the string constructor up in the host's callback table is done by
//! the caller, which reports what it found as a `CallbackLookup`. A missing
//! constructor is never turned into a return value: the only safe answer at a
//! foreign-call boundary is to terminate, so the decision is `Abort`. A null
//! environment handle is treated the same way as a null table.
use vstd::prelude::*;

use vstd::utf8::{decode_utf8, valid_utf8};

use crate::payload::{
    c_string_content, greeting_spec, is_c_string, lemma_payload_decodes_to_greeting,
    lemma_payload_well_formed, payload, payload_spec,
};

verus! {

/// What the lookup of the string constructor in the host's callback table
/// found.
#[derive(Clone, Copy, Debug, PartialEq, Eq, Structural)]
pub enum CallbackLookup {
    /// The environment handle itself was null.
    NullEnvironment,
    /// The environment handle points at no callback table.
    NullTable,
    /// The table's string-constructor slot is empty.
    EmptySlot,
    /// The constructor is there and can be called.
    Present,
}

/// What the entry point does next.
#[derive(Debug)]
pub enum BoundaryAction {
    /// Call the host's string constructor with this NUL-terminated buffer and
    /// return its handle unchanged.
    NewStringUtf(Vec<u8>),
    /// Terminate the process at once, without unwinding into the host.
    Abort,
}

impl View for BoundaryAction {
    /// The buffer handed to the constructor, or `None` for termination.
    type V = Option<Seq<u8>>;

    open spec fn view(&self) -> Option<Seq<u8>> {
        match self {
            BoundaryAction::NewStringUtf(b) => Some(b@),
            BoundaryAction::Abort => None,
        }
    }
}

/// The lookup found a constructor that can be called.
pub open spec fn is_callable(lookup: CallbackLookup) -> bool {
    lookup == CallbackLookup::Present
}

/// What one call of the entry point does: the payload goes to the
/// constructor when there is one, and the process terminates otherwise. The
/// caller object handle takes no part.
pub open spec fn hello_spec<T>(lookup: CallbackLookup, this: T) -> Option<Seq<u8>> {
    if is_callable(lookup) {
        Some(payload_spec())
    } else {
        None
    }
}

/// Decides the entry point's action from what the constructor lookup found.
/// `this` is the host's caller object handle, which the answer ignores.
pub fn hello<T>(lookup: CallbackLookup, this: &T) -> (r: BoundaryAction)
    ensures
        r@ == hello_spec(lookup, *this),
        is_callable(lookup) <==> r is NewStringUtf,
{
    match lookup {
        CallbackLookup::Present => BoundaryAction::NewStringUtf(payload()),
        _ => BoundaryAction::Abort,
    }
}

/// Whenever the constructor is there, the buffer it receives is a C string
/// whose content decodes as UTF-8 to exactly the greeting, with no trailing
/// NUL character.
pub proof fn lemma_hello_gives_greeting<T>(lookup: CallbackLookup, this: T)
    requires
        is_callable(lookup),
    ensures
        hello_spec(lookup, this) matches Some(b) && {
            &&& is_c_string(b)
            &&& valid_utf8(c_string_content(b))
            &&& decode_utf8(c_string_content(b)) == greeting_spec()
        },
{
    lemma_payload_well_formed();
    lemma_payload_decodes_to_greeting();
}

/// The caller object handle has no effect: two calls with the same lookup
/// and different callers do the same thing.
pub proof fn lemma_caller_has_no_effect<T>(lookup: CallbackLookup, a: T, b: T)
    ensures
        hello_spec(lookup, a) == hello_spec(lookup, b),
{
}

/// When the constructor is missing, however the lookup failed, the entry
/// point returns nothing and terminates the process.
pub proof fn lemma_missing_constructor_terminates<T>(lookup: CallbackLookup, this: T)
    requires
        !is_callable(lookup),
    ensures
        hello_spec(lookup, this) is None,
{
}

/// Any number of calls that find the constructor each hand it the same
/// bytes: the payload does not change from one call to the next.
pub proof fn lemma_repeated_calls_agree<T>(calls: Seq<(CallbackLookup, T)>)
    requires
        forall|i: int| 0 <= i < calls.len() ==> is_callable(#[trigger] calls[i].0),
    ensures
        forall|i: int, j: int|
            0 <= i < calls.len() && 0 <= j < calls.len() ==> hello_spec(
                #[trigger] calls[i].0,
                calls[i].1,
            ) == hello_spec(#[trigger] calls[j].0, calls[j].1),
        forall|i: int|
            0 <= i < calls.len() ==> hello_spec(#[trigger] calls[i].0, calls[i].1) == Some(
                payload_spec(),
            ),
{
}

} // verus!
