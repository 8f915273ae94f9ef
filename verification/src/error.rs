//! The structured error value: a cause chain plus an ordered list of named,
//! pre-rendered diagnostic fields.

use vstd::prelude::*;
use vstd::string::StringExecFns;

use crate::cause::{
    chain_debug, chain_display, chain_downcast, chain_entries, chain_from_cause,
    chain_from_message, chain_from_value, chain_root_cause, chain_wrap, spec_chain_of,
};
use crate::text::{render_debug, render_str_debug, spec_str_debug, str_eq};

verus! {

/// An error carrying a cause chain and an ordered list of named fields.
///
/// The chain is modelled by [`Error::chain_view`], the display text of each
/// chain entry outermost first; the fields by [`Error::fields_view`], the
/// `(name, rendered value)` pairs in attachment order.
#[derive(Debug)]
pub struct Error {
    inner: anyhow::Error,
    fields: Vec<(&'static str, String)>,
}

/// The first value attached under `name`, scanning left to right.
pub open spec fn spec_lookup(fields: Seq<(Seq<char>, Seq<char>)>, name: Seq<char>) -> Option<
    Seq<char>,
>
    decreases fields.len(),
{
    if fields.len() == 0 {
        None
    } else if fields[0].0 == name {
        Some(fields[0].1)
    } else {
        spec_lookup(fields.drop_first(), name)
    }
}

/// One field as it is rendered in the display form: `name=value`.
pub open spec fn spec_field_entry(f: (Seq<char>, Seq<char>)) -> Seq<char> {
    f.0 + "="@ + f.1
}

/// The fields joined with `", "`, in order.
pub open spec fn spec_fields_joined(fields: Seq<(Seq<char>, Seq<char>)>) -> Seq<char>
    decreases fields.len(),
{
    if fields.len() == 0 {
        Seq::empty()
    } else if fields.len() == 1 {
        spec_field_entry(fields[0])
    } else {
        spec_fields_joined(fields.drop_last()) + ", "@ + spec_field_entry(fields.last())
    }
}

/// The display form: the outermost chain entry, then, when fields exist, a
/// bracketed, comma-separated `name=value` suffix in field order.
pub open spec fn spec_display(chain: Seq<Seq<char>>, fields: Seq<(Seq<char>, Seq<char>)>) -> Seq<
    char,
> {
    if fields.len() == 0 {
        chain[0]
    } else {
        chain[0] + " ["@ + spec_fields_joined(fields) + "]"@
    }
}

/// One field as it is rendered in the debug listing, with a trailing comma
/// on every line but the last.
pub open spec fn spec_debug_line(f: (Seq<char>, Seq<char>), comma: bool) -> Seq<char> {
    "\t"@ + f.0 + ": "@ + spec_str_debug(f.1) + (if comma {
        ","@
    } else {
        Seq::<char>::empty()
    }) + "\n"@
}

/// The debug lines of `fields`, each with a trailing comma.
pub open spec fn spec_debug_lines(fields: Seq<(Seq<char>, Seq<char>)>) -> Seq<char>
    decreases fields.len(),
{
    if fields.len() == 0 {
        Seq::empty()
    } else {
        spec_debug_lines(fields.drop_last()) + spec_debug_line(fields.last(), true)
    }
}

/// The whole field listing of the debug form: empty when there are no
/// fields, else a header and one line per field, the last without a comma.
pub open spec fn spec_debug_listing(fields: Seq<(Seq<char>, Seq<char>)>) -> Seq<char> {
    if fields.len() == 0 {
        Seq::empty()
    } else {
        "\n\nFields:\n"@ + spec_debug_lines(fields.drop_last()) + spec_debug_line(
            fields.last(),
            false,
        )
    }
}

impl Error {
    /// The display text of each cause-chain entry, outermost first.
    pub closed spec fn chain_view(self) -> Seq<Seq<char>> {
        spec_chain_of(self.inner)
    }

    /// The `(name, rendered value)` pairs, in attachment order.
    pub closed spec fn fields_view(self) -> Seq<(Seq<char>, Seq<char>)> {
        self.fields@.map(|i: int, kv: (&'static str, String)| (kv.0@, kv.1@))
    }

    /// Wraps an existing cause chain, with no fields.
    pub fn new(error: anyhow::Error) -> (r: Error)
        ensures
            r.chain_view() == spec_chain_of(error),
            r.fields_view() == Seq::<(Seq<char>, Seq<char>)>::empty(),
    {
        let r = Error { inner: error, fields: Vec::new() };
        proof {
            assert(r.fields_view() =~= Seq::<(Seq<char>, Seq<char>)>::empty());
        }
        r
    }

    /// A fresh error whose chain is the single given message, with no
    /// fields.
    pub fn from_message(msg: &str) -> (r: Error)
        ensures
            r.chain_view() == seq![msg@],
            r.fields_view() == Seq::<(Seq<char>, Seq<char>)>::empty(),
    {
        Error::new(chain_from_message(msg))
    }

    /// A fresh error whose chain is the single entry holding the given
    /// value's display rendering, with no fields.
    pub fn msg<T: core::fmt::Display + core::fmt::Debug + Send + Sync + 'static>(msg: T) -> (r:
        Error)
        ensures
            exists|t: String|
                #[trigger] vstd::string::to_string_from_display_ensures::<T>(&msg, t)
                    && r.chain_view() == seq![t@],
            r.fields_view() == Seq::<(Seq<char>, Seq<char>)>::empty(),
    {
        let (inner, _text) = chain_from_value(msg);
        Error::new(inner)
    }

    /// A fresh error whose chain begins with the given cause, with no
    /// fields.
    pub fn from_cause<E: Into<anyhow::Error>>(cause: E) -> (r: Error)
        ensures
            r.chain_view().len() >= 1,
            r.fields_view() == Seq::<(Seq<char>, Seq<char>)>::empty(),
    {
        Error::new(chain_from_cause(cause))
    }

    /// Appends one already-rendered field; everything else is unchanged.
    pub(crate) fn attach(self, key: &'static str, text: String) -> (r: Error)
        ensures
            r.chain_view() == self.chain_view(),
            r.fields_view() == self.fields_view().push((key@, text@)),
    {
        let ghost orig = self;
        let mut e = self;
        e.fields.push((key, text));
        proof {
            assert(e.fields_view() =~= orig.fields_view().push((key@, text@)));
        }
        e
    }

    /// Appends a field holding the display rendering of `value`.
    pub fn with_field<V: core::fmt::Display>(self, key: &'static str, value: V) -> (r: Error)
        ensures
            r.chain_view() == self.chain_view(),
            exists|t: String|
                #[trigger] vstd::string::to_string_from_display_ensures::<V>(&value, t)
                    && r.fields_view() == self.fields_view().push((key@, t@)),
    {
        let text = value.to_string();
        self.attach(key, text)
    }

    /// Appends a field holding a string value verbatim: the display
    /// rendering of a string is the string itself.
    pub fn with_field_str(self, key: &'static str, value: &str) -> (r: Error)
        ensures
            r.chain_view() == self.chain_view(),
            r.fields_view() == self.fields_view().push((key@, value@)),
    {
        self.attach(key, value.to_owned())
    }

    /// Appends a field holding the debug rendering of `value`.
    pub fn with_field_debug<V: core::fmt::Debug>(self, key: &'static str, value: V) -> (r: Error)
        ensures
            r.chain_view() == self.chain_view(),
            r.fields_view().len() == self.fields_view().len() + 1,
            r.fields_view().drop_last() == self.fields_view(),
            r.fields_view().last().0 == key@,
    {
        let text = render_debug(&value);
        let r = self.attach(key, text);
        proof {
            assert(r.fields_view().drop_last() =~= self.fields_view());
        }
        r
    }

    /// The fields, in attachment order.
    pub fn fields(&self) -> (r: &[(&'static str, String)])
        ensures
            r@.len() == self.fields_view().len(),
            forall|i: int|
                0 <= i < r@.len() ==> (#[trigger] r@[i]).0@ == self.fields_view()[i].0 && r@[i].1@
                    == self.fields_view()[i].1,
    {
        self.fields.as_slice()
    }

    /// The value of the first field named `key`, if any.
    pub fn get_field(&self, key: &str) -> (r: Option<&str>)
        ensures
            r matches Some(v) ==> spec_lookup(self.fields_view(), key@) == Some(v@),
            r is None ==> spec_lookup(self.fields_view(), key@) is None,
    {
        proof {
            assert(self.fields_view().skip(0) =~= self.fields_view());
        }
        let mut i: usize = 0;
        while i < self.fields.len()
            invariant
                i <= self.fields.len(),
                spec_lookup(self.fields_view(), key@) == spec_lookup(
                    self.fields_view().skip(i as int),
                    key@,
                ),
            decreases self.fields.len() - i,
        {
            let kv = &self.fields[i];
            if str_eq(kv.0, key) {
                return Some(kv.1.as_str());
            }
            proof {
                assert(self.fields_view().skip(i as int).drop_first() =~= self.fields_view().skip(
                    i as int + 1,
                ));
            }
            i += 1;
        }
        proof {
            assert(self.fields_view().skip(i as int) =~= Seq::<(Seq<char>, Seq<char>)>::empty());
        }
        None
    }

    /// Pushes `msg` as a new outermost chain entry; fields are untouched.
    pub fn context(self, msg: &str) -> (r: Error)
        ensures
            r.chain_view() == seq![msg@] + self.chain_view(),
            r.fields_view() == self.fields_view(),
    {
        Error { inner: chain_wrap(self.inner, msg), fields: self.fields }
    }

    /// As [`Error::context`], with the message produced by the closure,
    /// which runs exactly once, here.
    pub fn with_context<F: FnOnce() -> String>(self, f: F) -> (r: Error)
        requires
            call_requires(f, ()),
        ensures
            exists|m: String|
                #[trigger] call_ensures(f, (), m) && r.chain_view() == seq![m@]
                    + self.chain_view(),
            r.fields_view() == self.fields_view(),
    {
        let m = f();
        self.context(m.as_str())
    }

    /// The display text of the innermost chain entry.
    pub fn root_cause(&self) -> (r: String)
        ensures
            r@ == self.chain_view().last(),
    {
        chain_root_cause(&self.inner)
    }

    /// The display text of every chain entry, outermost first.
    pub fn chain(&self) -> (r: Vec<String>)
        ensures
            r@.len() == self.chain_view().len(),
            forall|i: int| 0 <= i < r@.len() ==> (#[trigger] r@[i])@ == self.chain_view()[i],
    {
        chain_entries(&self.inner)
    }

    /// Extracts the outermost chain entry of concrete type `E`, consuming
    /// the error; when no entry has that type, the original comes back with
    /// chain and fields intact.
    pub fn downcast<E: core::fmt::Display + core::fmt::Debug + Send + Sync + 'static>(self) -> (r:
        Result<E, Error>)
        ensures
            r matches Err(e) ==> e.chain_view() == self.chain_view() && e.fields_view()
                == self.fields_view(),
    {
        let Error { inner, fields } = self;
        match chain_downcast::<E>(inner) {
            Ok(v) => Ok(v),
            Err(rest) => Err(Error { inner: rest, fields }),
        }
    }

    /// Relies on `anyhow::Error::downcast_ref`: a reference to the outermost
    /// chain entry of type `E`, if any.
    #[verifier::external_body]
    pub fn downcast_ref<E: core::fmt::Display + core::fmt::Debug + Send + Sync + 'static>(
        &self,
    ) -> Option<&E> {
        self.inner.downcast_ref::<E>()
    }

    /// Relies on `anyhow::Error::downcast_mut`: a mutable reference to the
    /// outermost chain entry of type `E`, if any.
    #[verifier::external_body]
    pub fn downcast_mut<E: core::fmt::Display + core::fmt::Debug + Send + Sync + 'static>(
        &mut self,
    ) -> Option<&mut E> {
        self.inner.downcast_mut::<E>()
    }

    /// Relies on `anyhow::Error::is`: whether some chain entry has type `E`.
    #[verifier::external_body]
    pub fn is<E: core::fmt::Display + core::fmt::Debug + Send + Sync + 'static>(&self) -> bool {
        self.inner.is::<E>()
    }

    /// The display form: outermost message, then the bracketed field suffix
    /// when fields exist.
    pub fn to_display_string(&self) -> (r: String)
        ensures
            r@ == spec_display(self.chain_view(), self.fields_view()),
    {
        let mut s = chain_display(&self.inner);
        if self.fields.len() > 0 {
            s.append(" [");
            let mut i: usize = 0;
            while i < self.fields.len()
                invariant
                    i <= self.fields.len(),
                    self.fields.len() > 0,
                    s@ == self.chain_view()[0] + " ["@ + spec_fields_joined(
                        self.fields_view().take(i as int),
                    ),
                decreases self.fields.len() - i,
            {
                let ghost before = self.fields_view().take(i as int);
                if i > 0 {
                    s.append(", ");
                }
                let kv = &self.fields[i];
                s.append(kv.0);
                s.append("=");
                s.append(kv.1.as_str());
                proof {
                    let after = self.fields_view().take(i as int + 1);
                    assert(after.drop_last() =~= before);
                    assert(after.last() == self.fields_view()[i as int]);
                    assert(s@ =~= self.chain_view()[0] + " ["@ + spec_fields_joined(after));
                }
                i += 1;
            }
            proof {
                assert(self.fields_view().take(i as int) =~= self.fields_view());
            }
            s.append("]");
            proof {
                assert(s@ =~= spec_display(self.chain_view(), self.fields_view()));
            }
        }
        s
    }

    /// The debug form: the chain's own diagnostic dump — which begins with
    /// the outermost entry's display text and is otherwise environment
    /// dependent — then the itemized field listing when fields exist.
    pub fn to_debug_string(&self) -> (r: String)
        ensures
            exists|base: Seq<char>| r@ == base + spec_debug_listing(self.fields_view()),
            self.chain_view()[0].is_prefix_of(r@),
    {
        let mut s = chain_debug(&self.inner);
        let ghost base = s@;
        let n = self.fields.len();
        if n > 0 {
            s.append("\n\nFields:\n");
            let mut i: usize = 0;
            while i + 1 < n
                invariant
                    n == self.fields.len(),
                    0 < n,
                    i < n,
                    self.chain_view()[0].is_prefix_of(base),
                    s@ == base + "\n\nFields:\n"@ + spec_debug_lines(
                        self.fields_view().take(i as int),
                    ),
                decreases n - i,
            {
                let ghost before = self.fields_view().take(i as int);
                let kv = &self.fields[i];
                s.append("\t");
                s.append(kv.0);
                s.append(": ");
                let d = render_str_debug(kv.1.as_str());
                s.append(d.as_str());
                s.append(",");
                s.append("\n");
                proof {
                    let after = self.fields_view().take(i as int + 1);
                    assert(after.drop_last() =~= before);
                    assert(after.last() == self.fields_view()[i as int]);
                    assert(s@ =~= base + "\n\nFields:\n"@ + spec_debug_lines(after));
                }
                i += 1;
            }
            let kv = &self.fields[i];
            s.append("\t");
            s.append(kv.0);
            s.append(": ");
            let d = render_str_debug(kv.1.as_str());
            s.append(d.as_str());
            s.append("\n");
            proof {
                assert(self.fields_view().take(i as int) =~= self.fields_view().drop_last());
                assert(self.fields_view().last() == self.fields_view()[i as int]);
                assert(s@ =~= base + spec_debug_listing(self.fields_view()));
            }
        } else {
            proof {
                assert(s@ =~= base + spec_debug_listing(self.fields_view()));
            }
        }
        proof {
            let p = self.chain_view()[0];
            assert(p.is_prefix_of(base));
            assert(p =~= s@.subrange(0, p.len() as int));
        }
        s
    }
}

impl From<Error> for anyhow::Error {
    /// Collapses a structured error back into a bare cause chain: the chain
    /// stays as it is, except that when fields exist, the display form (with
    /// its field suffix) becomes a new outermost entry, so no field text is
    /// lost.
    fn from(e: Error) -> (r: anyhow::Error) {
        if e.fields.len() == 0 {
            let Error { inner, fields: _ } = e;
            inner
        } else {
            let d = e.to_display_string();
            let Error { inner, fields: _ } = e;
            chain_wrap(inner, d.as_str())
        }
    }
}

impl vstd::std_specs::convert::FromSpecImpl<Error> for anyhow::Error {
    open spec fn obeys_from_spec() -> bool {
        false
    }

    open spec fn from_spec(v: Error) -> anyhow::Error {
        vstd::pervasive::arbitrary()
    }
}

/// A run of field attachments, modelled as the attachment operations'
/// contracts model each one: every attachment appends its `(name, value)`
/// entry by `push`.
pub open spec fn spec_attach_all(
    fields: Seq<(Seq<char>, Seq<char>)>,
    added: Seq<(Seq<char>, Seq<char>)>,
) -> Seq<(Seq<char>, Seq<char>)>
    decreases added.len(),
{
    if added.len() == 0 {
        fields
    } else {
        spec_attach_all(fields.push(added[0]), added.drop_first())
    }
}

/// Field order preservation: a run of field attachments — any mix of the
/// attachment operations, each of which appends by `push` — yields exactly
/// the attached entries, after the prior ones, in attachment order.
pub proof fn lemma_field_order(
    fields: Seq<(Seq<char>, Seq<char>)>,
    added: Seq<(Seq<char>, Seq<char>)>,
)
    ensures
        spec_attach_all(fields, added) == fields + added,
    decreases added.len(),
{
    if added.len() == 0 {
        assert(fields + added =~= fields);
    } else {
        lemma_field_order(fields.push(added[0]), added.drop_first());
        assert(fields.push(added[0]) + added.drop_first() =~= fields + added);
    }
}

/// First-match lookup: when the entry at `i` is the first whose name is
/// `name`, lookup returns that entry's value, never a later duplicate's.
pub proof fn lemma_lookup_first_match(
    fields: Seq<(Seq<char>, Seq<char>)>,
    name: Seq<char>,
    i: int,
)
    requires
        0 <= i < fields.len(),
        fields[i].0 == name,
        forall|k: int| 0 <= k < i ==> (#[trigger] fields[k]).0 != name,
    ensures
        spec_lookup(fields, name) == Some(fields[i].1),
    decreases i,
{
    if i > 0 {
        let rest = fields.drop_first();
        assert forall|k: int| 0 <= k < i - 1 implies (#[trigger] rest[k]).0 != name by {
            assert(rest[k] == fields[k + 1]);
        }
        lemma_lookup_first_match(rest, name, i - 1);
    }
}

} // verus!
