//! The construction resolver: turns one call's worth of field
//! specifications plus a format string and its positional arguments into
//! exactly one [`Error`], with a fixed disambiguation policy.
//!
//! Each [`FieldSpec`] is one field-spec shape of the input grammar, captured
//! with its value already rendered by the shape's mode (debug when marked
//! `?`, display otherwise). The resolver walks the specs left to right,
//! resolves each field's name — an explicit name verbatim, else a bare
//! identifier's own name, else the fixed fallback `"value"` — and appends
//! the field, in source order, to a fresh error built from the message.

use vstd::prelude::*;

use crate::error::Error;
use crate::message::{format_message, spec_arg_views, spec_format, FormatError};
use crate::text::{render_debug, render_str_debug};

verus! {

/// How one field spec names its field.
pub enum FieldName {
    /// An explicit `name =` part: used verbatim.
    Explicit(&'static str),
    /// A bare identifier argument: the identifier's own name.
    Ident(&'static str),
    /// A marked positional expression that is no bare identifier.
    Anonymous,
}

/// The name under which a spec's value is attached.
pub open spec fn spec_resolved_name(n: FieldName) -> Seq<char> {
    match n {
        FieldName::Explicit(s) => s@,
        FieldName::Ident(s) => s@,
        FieldName::Anonymous => "value"@,
    }
}

/// One field specification: its name shape and its value text, rendered at
/// capture time by the shape's mode.
pub struct FieldSpec {
    pub name: FieldName,
    pub text: String,
}

/// The `(name, value)` pairs that a list of specs resolves to, in order.
pub open spec fn spec_resolved_fields(specs: Seq<FieldSpec>) -> Seq<(Seq<char>, Seq<char>)> {
    specs.map(|i: int, s: FieldSpec| (spec_resolved_name(s.name), s.text@))
}

impl FieldSpec {
    /// `name = value`: an explicit name, the value display-rendered.
    pub fn named<V: core::fmt::Display>(name: &'static str, value: V) -> (r: FieldSpec)
        ensures
            r.name == FieldName::Explicit(name),
            exists|t: String|
                #[trigger] vstd::string::to_string_from_display_ensures::<V>(&value, t) && r.text
                    == t,
    {
        FieldSpec { name: FieldName::Explicit(name), text: value.to_string() }
    }

    /// `name = %value`: an explicit name with the display marker; same
    /// effect as the unmarked form.
    pub fn named_display<V: core::fmt::Display>(name: &'static str, value: V) -> (r: FieldSpec)
        ensures
            r.name == FieldName::Explicit(name),
            exists|t: String|
                #[trigger] vstd::string::to_string_from_display_ensures::<V>(&value, t) && r.text
                    == t,
    {
        FieldSpec { name: FieldName::Explicit(name), text: value.to_string() }
    }

    /// `name = value` with a string value: stored verbatim, since a string
    /// displays as itself.
    pub fn named_str(name: &'static str, value: &str) -> (r: FieldSpec)
        ensures
            r.name == FieldName::Explicit(name),
            r.text@ == value@,
    {
        FieldSpec { name: FieldName::Explicit(name), text: value.to_owned() }
    }

    /// `name = ?value`: an explicit name, the value debug-rendered.
    pub fn named_debug<V: core::fmt::Debug>(name: &'static str, value: V) -> (r: FieldSpec)
        ensures
            r.name == FieldName::Explicit(name),
    {
        FieldSpec { name: FieldName::Explicit(name), text: render_debug(&value) }
    }

    /// `name = ?value` with a string value: the string's debug rendering.
    pub fn named_debug_str(name: &'static str, value: &str) -> (r: FieldSpec)
        ensures
            r.name == FieldName::Explicit(name),
            r.text@ == crate::text::spec_str_debug(value@),
    {
        FieldSpec { name: FieldName::Explicit(name), text: render_str_debug(value) }
    }

    /// A bare identifier `x`, or `%x`: the field is named after the
    /// identifier, the value display-rendered.
    pub fn ident<V: core::fmt::Display>(name: &'static str, value: V) -> (r: FieldSpec)
        ensures
            r.name == FieldName::Ident(name),
            exists|t: String|
                #[trigger] vstd::string::to_string_from_display_ensures::<V>(&value, t) && r.text
                    == t,
    {
        FieldSpec { name: FieldName::Ident(name), text: value.to_string() }
    }

    /// `?x` on a bare identifier: named after the identifier, the value
    /// debug-rendered.
    pub fn ident_debug<V: core::fmt::Debug>(name: &'static str, value: V) -> (r: FieldSpec)
        ensures
            r.name == FieldName::Ident(name),
    {
        FieldSpec { name: FieldName::Ident(name), text: render_debug(&value) }
    }

    /// `%expr` on an expression that is no bare identifier: the fallback
    /// name applies, the value display-rendered.
    pub fn anonymous<V: core::fmt::Display>(value: V) -> (r: FieldSpec)
        ensures
            r.name == FieldName::Anonymous,
            exists|t: String|
                #[trigger] vstd::string::to_string_from_display_ensures::<V>(&value, t) && r.text
                    == t,
    {
        FieldSpec { name: FieldName::Anonymous, text: value.to_string() }
    }

    /// `?expr` on an expression that is no bare identifier: the fallback
    /// name applies, the value debug-rendered.
    pub fn anonymous_debug<V: core::fmt::Debug>(value: V) -> (r: FieldSpec)
        ensures
            r.name == FieldName::Anonymous,
    {
        FieldSpec { name: FieldName::Anonymous, text: render_debug(&value) }
    }
}

/// Builds one error from a ready message and field specs: the message
/// becomes the single chain entry, and each spec's field is appended in
/// left-to-right order under its resolved name.
pub fn resolve(msg: &str, specs: Vec<FieldSpec>) -> (r: Error)
    ensures
        r.chain_view() == seq![msg@],
        r.fields_view() == spec_resolved_fields(specs@),
{
    let mut e = Error::from_message(msg);
    let mut rest = specs;
    proof {
        assert(e.fields_view() + spec_resolved_fields(rest@) =~= spec_resolved_fields(specs@));
    }
    while rest.len() > 0
        invariant
            e.chain_view() == seq![msg@],
            e.fields_view() + spec_resolved_fields(rest@) == spec_resolved_fields(specs@),
        decreases rest.len(),
    {
        let ghost rest0 = rest@;
        let ghost fields0 = e.fields_view();
        let s = rest.remove(0);
        let name: &'static str = match s.name {
            FieldName::Explicit(n) => n,
            FieldName::Ident(n) => n,
            FieldName::Anonymous => "value",
        };
        proof {
            assert(name@ == spec_resolved_name(s.name));
        }
        e = e.attach(name, s.text);
        proof {
            assert(rest@ =~= rest0.drop_first());
            assert(spec_resolved_fields(rest0)[0] == (spec_resolved_name(s.name), s.text@));
            assert(spec_resolved_fields(rest0.drop_first()) =~= spec_resolved_fields(
                rest0,
            ).drop_first());
            assert(e.fields_view() + spec_resolved_fields(rest@) =~= fields0
                + spec_resolved_fields(rest0));
        }
    }
    proof {
        assert(spec_resolved_fields(rest@).len() == 0);
        assert(e.fields_view() =~= e.fields_view() + spec_resolved_fields(rest@));
    }
    e
}

/// The full resolver: builds the message from the format string and its
/// arguments, then the error from the message and the field specs. The only
/// failure is the format string's own, passed through unchanged.
pub fn resolve_format(fmt: &str, args: &[String], specs: Vec<FieldSpec>) -> (r: Result<
    Error,
    FormatError,
>)
    ensures
        r matches Ok(e) ==> (spec_format(fmt@, spec_arg_views(args@)) matches Ok(m)
            && e.chain_view() == seq![m] && e.fields_view() == spec_resolved_fields(specs@)),
        r matches Err(fe) ==> spec_format(fmt@, spec_arg_views(args@)) == Err::<
            Seq<char>,
            FormatError,
        >(fe),
{
    match format_message(fmt, args) {
        Ok(msg) => Ok(resolve(msg.as_str(), specs)),
        Err(fe) => Err(fe),
    }
}

/// Short-circuit guard: `Ok(())` exactly when the condition holds, else the
/// error built from the message and the field specs.
pub fn ensure(cond: bool, msg: &str, specs: Vec<FieldSpec>) -> (r: Result<(), Error>)
    ensures
        r is Ok <==> cond,
        r matches Err(e) ==> e.chain_view() == seq![msg@] && e.fields_view()
            == spec_resolved_fields(specs@),
{
    if cond {
        Ok(())
    } else {
        Err(resolve(msg, specs))
    }
}

/// Unconditional short-circuit: always the failure branch, holding the
/// error built from the message and the field specs.
pub fn bail<T>(msg: &str, specs: Vec<FieldSpec>) -> (r: Result<T, Error>)
    ensures
        r is Err,
        r matches Err(e) ==> e.chain_view() == seq![msg@] && e.fields_view()
            == spec_resolved_fields(specs@),
{
    Err(resolve(msg, specs))
}

} // verus!
