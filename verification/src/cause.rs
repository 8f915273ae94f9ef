//! Trusted boundary around the cause-chain engine (`anyhow`).
//!
//! An `anyhow::Error` holds a non-empty chain of causes, outermost context
//! first, innermost root cause last. The chain is modelled here by the
//! uninterpreted function [`spec_chain_of`], which gives the display text of
//! each chain entry, outermost first. Every wrapper below states what the
//! called `anyhow` function does to that model, as `anyhow`'s documentation
//! gives it; the chain entries this crate installs itself are plain strings,
//! whose display text is the string itself, so the model is a function of
//! the error value alone. [`chain_from_value`] and [`chain_from_cause`]
//! admit caller-supplied values, whose entry texts the contracts leave
//! unconstrained (or tie to one rendering taken at construction); the model
//! assumes, as the error contract does, that a cause's rendering is a pure
//! function of the value.

use vstd::prelude::*;

use anyhow::Error as AnyhowError;

verus! {

#[verifier::external_type_specification]
#[verifier::external_body]
pub struct ExAnyhowError(AnyhowError);

/// The display text of each entry of the cause chain, outermost first.
pub uninterp spec fn spec_chain_of(e: AnyhowError) -> Seq<Seq<char>>;

/// Relies on `anyhow::Error::msg`: the resulting error wraps the message
/// alone, with no source, so its chain is the single entry `m` (a `String`
/// displays as itself).
#[verifier::external_body]
pub(crate) fn chain_from_message(m: &str) -> (r: AnyhowError)
    ensures
        spec_chain_of(r) == seq![m@],
{
    anyhow::Error::msg(m.to_string())
}

/// Relies on `anyhow::Error::msg`: the resulting error wraps the message
/// alone, with no source, so its chain is one entry holding the message's
/// display rendering — returned alongside, as `ToString::to_string` gives
/// it (the two renderings agree because a rendering is a pure function of
/// the value).
#[verifier::external_body]
pub(crate) fn chain_from_value<T: core::fmt::Display + core::fmt::Debug + Send + Sync + 'static>(
    m: T,
) -> (r: (AnyhowError, String))
    ensures
        spec_chain_of(r.0) == seq![r.1@],
        vstd::string::to_string_from_display_ensures::<T>(&m, r.1),
{
    let text = m.to_string();
    (anyhow::Error::msg(m), text)
}

/// Relies on the `Into<anyhow::Error>` conversion (`anyhow::Error::from` on
/// a standard error type): the chain begins with the given cause and
/// continues with its sources, so it has at least one entry.
#[verifier::external_body]
pub(crate) fn chain_from_cause<E: Into<anyhow::Error>>(e: E) -> (r: AnyhowError)
    ensures
        spec_chain_of(r).len() >= 1,
{
    e.into()
}

/// Relies on `anyhow::Error::context`: the message becomes a new outermost
/// chain entry and the prior chain stays intact beneath it (a `String`
/// displays as itself).
#[verifier::external_body]
pub(crate) fn chain_wrap(e: AnyhowError, m: &str) -> (r: AnyhowError)
    ensures
        spec_chain_of(r) == seq![m@] + spec_chain_of(e),
{
    e.context(m.to_string())
}

/// Relies on `anyhow::Error`'s `Display` impl: it shows the outermost
/// entry of the chain.
#[verifier::external_body]
pub(crate) fn chain_display(e: &AnyhowError) -> (r: String)
    ensures
        r@ == spec_chain_of(*e)[0],
{
    e.to_string()
}

/// Relies on `anyhow::Error`'s `Debug` impl: it writes the outermost chain
/// entry's display text first; what follows (the cause list, possibly a
/// backtrace) depends on the environment, so nothing more is stated.
#[verifier::external_body]
pub(crate) fn chain_debug(e: &AnyhowError) -> (r: String)
    ensures
        spec_chain_of(*e)[0].is_prefix_of(r@),
{
    format!("{:?}", e)
}

/// Relies on `anyhow::Error::root_cause`: it is the innermost chain entry.
#[verifier::external_body]
pub(crate) fn chain_root_cause(e: &AnyhowError) -> (r: String)
    ensures
        r@ == spec_chain_of(*e).last(),
{
    e.root_cause().to_string()
}

/// Relies on `anyhow::Error::chain`: it yields every chain entry, outermost
/// first.
#[verifier::external_body]
pub(crate) fn chain_entries(e: &AnyhowError) -> (r: Vec<String>)
    ensures
        r@.len() == spec_chain_of(*e).len(),
        forall|i: int| 0 <= i < r@.len() ==> r@[i]@ == spec_chain_of(*e)[i],
{
    e.chain().map(|c| c.to_string()).collect()
}

/// Relies on `anyhow::Error::downcast`: when no entry of the chain has type
/// `E`, the error comes back unchanged.
#[verifier::external_body]
pub(crate) fn chain_downcast<E: core::fmt::Display + core::fmt::Debug + Send + Sync + 'static>(
    e: AnyhowError,
) -> (r: Result<E, AnyhowError>)
    ensures
        r matches Err(rest) ==> spec_chain_of(rest) == spec_chain_of(e),
{
    e.downcast::<E>()
}

} // verus!
