//! Consumption surface for success/failure and present/absent values: on
//! the failure or absent branch these operations build an [`Error`], attach
//! a context message or a named field, and otherwise pass the success value
//! through unchanged.

use vstd::prelude::*;

use crate::error::Error;

verus! {

/// Extension operations that turn the failure or absent branch of a carrier
/// into a structured [`Error`] and pass success through unchanged.
pub trait Context<T>: Sized {
    /// The success value this carrier holds, if any.
    spec fn ok_of(self) -> Option<T>;

    /// Whether the failure branch carries a prior cause that the built
    /// error keeps beneath any new chain entry: a failed `Result` does; an
    /// absent `Option` has none, so its error's chain is the new entry
    /// alone.
    spec fn keeps_cause() -> bool;

    /// On failure, an error whose outermost chain entry is `msg`, with no
    /// fields; a kept cause stays intact beneath it.
    fn context(self, msg: &str) -> (r: Result<T, Error>)
        ensures
            r is Ok <==> self.ok_of() is Some,
            r matches Ok(v) ==> self.ok_of() == Some(v),
            r matches Err(e) ==> e.fields_view().len() == 0 && e.chain_view().len() >= 1
                && e.chain_view()[0] == msg@,
            Self::keeps_cause() ==> (r matches Err(e) ==> e.chain_view().len() >= 2),
            !Self::keeps_cause() ==> (r matches Err(e) ==> e.chain_view() == seq![msg@]),
    ;

    /// As [`Context::context`], with the message produced by the closure,
    /// which runs at most once, and only on the failure branch.
    fn with_context<F: FnOnce() -> String>(self, f: F) -> (r: Result<T, Error>)
        requires
            call_requires(f, ()),
        ensures
            r is Ok <==> self.ok_of() is Some,
            r matches Ok(v) ==> self.ok_of() == Some(v),
            r matches Err(e) ==> e.fields_view().len() == 0 && e.chain_view().len() >= 1
                && exists|m: String| #[trigger] call_ensures(f, (), m) && e.chain_view()[0] == m@,
            Self::keeps_cause() ==> (r matches Err(e) ==> e.chain_view().len() >= 2),
            !Self::keeps_cause() ==> (r matches Err(e) ==> exists|m: String|
                #[trigger] call_ensures(f, (), m) && e.chain_view() == seq![m@]),
    ;

    /// On failure, an error carrying the single field `key`, its value
    /// display-rendered; without a kept cause the chain is the fixed
    /// absence message alone.
    fn with_field<V: core::fmt::Display>(self, key: &'static str, value: V) -> (r: Result<
        T,
        Error,
    >)
        ensures
            r is Ok <==> self.ok_of() is Some,
            r matches Ok(v) ==> self.ok_of() == Some(v),
            r matches Err(e) ==> e.chain_view().len() >= 1 && e.fields_view().len() == 1
                && e.fields_view()[0].0 == key@,
            r matches Err(e) ==> exists|t: String|
                #[trigger] vstd::string::to_string_from_display_ensures::<V>(&value, t)
                    && e.fields_view()[0].1 == t@,
            !Self::keeps_cause() ==> (r matches Err(e) ==> e.chain_view() == seq![
                "None value"@,
            ]),
    ;

    /// On failure, an error carrying the single field `key`, its value
    /// debug-rendered; without a kept cause the chain is the fixed absence
    /// message alone.
    fn with_field_debug<V: core::fmt::Debug>(self, key: &'static str, value: V) -> (r: Result<
        T,
        Error,
    >)
        ensures
            r is Ok <==> self.ok_of() is Some,
            r matches Ok(v) ==> self.ok_of() == Some(v),
            r matches Err(e) ==> e.chain_view().len() >= 1 && e.fields_view().len() == 1
                && e.fields_view()[0].0 == key@,
            !Self::keeps_cause() ==> (r matches Err(e) ==> e.chain_view() == seq![
                "None value"@,
            ]),
    ;
}

impl<T, E: Into<anyhow::Error>> Context<T> for Result<T, E> {
    open spec fn ok_of(self) -> Option<T> {
        match self {
            Ok(v) => Some(v),
            Err(_) => None,
        }
    }

    open spec fn keeps_cause() -> bool {
        true
    }

    fn context(self, msg: &str) -> (r: Result<T, Error>) {
        match self {
            Ok(v) => Ok(v),
            Err(e) => Err(Error::from_cause(e).context(msg)),
        }
    }

    fn with_context<F: FnOnce() -> String>(self, f: F) -> (r: Result<T, Error>) {
        match self {
            Ok(v) => Ok(v),
            Err(e) => Err(Error::from_cause(e).with_context(f)),
        }
    }

    fn with_field<V: core::fmt::Display>(self, key: &'static str, value: V) -> (r: Result<
        T,
        Error,
    >) {
        match self {
            Ok(v) => Ok(v),
            Err(e) => Err(Error::from_cause(e).with_field(key, value)),
        }
    }

    fn with_field_debug<V: core::fmt::Debug>(self, key: &'static str, value: V) -> (r: Result<
        T,
        Error,
    >) {
        match self {
            Ok(v) => Ok(v),
            Err(e) => Err(Error::from_cause(e).with_field_debug(key, value)),
        }
    }
}

impl<T> Context<T> for Option<T> {
    open spec fn ok_of(self) -> Option<T> {
        self
    }

    open spec fn keeps_cause() -> bool {
        false
    }

    fn context(self, msg: &str) -> (r: Result<T, Error>) {
        match self {
            Some(v) => Ok(v),
            None => Err(Error::from_message(msg)),
        }
    }

    fn with_context<F: FnOnce() -> String>(self, f: F) -> (r: Result<T, Error>) {
        match self {
            Some(v) => Ok(v),
            None => {
                let m = f();
                Err(Error::from_message(m.as_str()))
            },
        }
    }

    fn with_field<V: core::fmt::Display>(self, key: &'static str, value: V) -> (r: Result<
        T,
        Error,
    >) {
        match self {
            Some(v) => Ok(v),
            None => Err(Error::from_message("None value").with_field(key, value)),
        }
    }

    fn with_field_debug<V: core::fmt::Debug>(self, key: &'static str, value: V) -> (r: Result<
        T,
        Error,
    >) {
        match self {
            Some(v) => Ok(v),
            None => Err(Error::from_message("None value").with_field_debug(key, value)),
        }
    }
}

} // verus!
