//! Positional message formatting: a format string whose `{}` placeholders
//! take the given arguments in order, with `{{` and `}}` as escapes. Any
//! other placeholder, a stray brace, or an arity mismatch is rejected as a
//! distinct, caller-visible error.

use vstd::prelude::*;

use crate::text::{chars_of, push_chars, string_from_chars};

verus! {

/// Why a format string is rejected.
#[derive(Clone, Copy, Debug, PartialEq, Eq, Structural)]
pub enum FormatError {
    /// A `{` that does not begin `{}` or `{{`.
    UnsupportedPlaceholder,
    /// A `}` that is not escaped as `}}`.
    StrayBrace,
    /// More `{}` placeholders than arguments.
    MissingArgument,
    /// An argument beyond the placeholders.
    UnusedArgument,
}

/// The views of the argument strings, in order.
pub open spec fn spec_arg_views(args: Seq<String>) -> Seq<Seq<char>> {
    args.map(|i: int, a: String| a@)
}

/// Prepends `prefix` to a successful formatting result.
pub open spec fn spec_prepend(prefix: Seq<char>, r: Result<Seq<char>, FormatError>) -> Result<
    Seq<char>,
    FormatError,
> {
    match r {
        Ok(t) => Ok(prefix + t),
        Err(e) => Err(e),
    }
}

/// Applies the format string `f` to `args`, left to right: each `{}` takes
/// the next argument, `{{` and `}}` stand for literal braces, and every
/// argument must be taken.
pub open spec fn spec_format(f: Seq<char>, args: Seq<Seq<char>>) -> Result<Seq<char>, FormatError>
    decreases f.len(),
{
    if f.len() == 0 {
        if args.len() == 0 {
            Ok(Seq::empty())
        } else {
            Err(FormatError::UnusedArgument)
        }
    } else if f[0] == '{' {
        if f.len() >= 2 && f[1] == '{' {
            spec_prepend(seq!['{'], spec_format(f.skip(2), args))
        } else if f.len() >= 2 && f[1] == '}' {
            if args.len() == 0 {
                Err(FormatError::MissingArgument)
            } else {
                spec_prepend(args[0], spec_format(f.skip(2), args.drop_first()))
            }
        } else {
            Err(FormatError::UnsupportedPlaceholder)
        }
    } else if f[0] == '}' {
        if f.len() >= 2 && f[1] == '}' {
            spec_prepend(seq!['}'], spec_format(f.skip(2), args))
        } else {
            Err(FormatError::StrayBrace)
        }
    } else {
        spec_prepend(seq![f[0]], spec_format(f.skip(1), args))
    }
}

proof fn lemma_prepend_assoc(p1: Seq<char>, p2: Seq<char>, r: Result<Seq<char>, FormatError>)
    ensures
        spec_prepend(p1, spec_prepend(p2, r)) == spec_prepend(p1 + p2, r),
{
    match r {
        Ok(t) => {
            assert(p1 + (p2 + t) =~= (p1 + p2) + t);
        },
        Err(_) => {},
    }
}

/// Builds the message text from the format string and its positional
/// arguments, exactly as [`spec_format`] gives it.
pub fn format_message(fmt: &str, args: &[String]) -> (r: Result<String, FormatError>)
    ensures
        r matches Ok(s) ==> spec_format(fmt@, spec_arg_views(args@)) == Ok::<
            Seq<char>,
            FormatError,
        >(s@),
        r matches Err(e) ==> spec_format(fmt@, spec_arg_views(args@)) == Err::<
            Seq<char>,
            FormatError,
        >(e),
{
    let ghost av = spec_arg_views(args@);
    let f = chars_of(fmt);
    let mut out: Vec<char> = Vec::new();
    let mut i: usize = 0;
    let mut a: usize = 0;
    proof {
        assert(f@.skip(0) =~= f@);
        assert(av.skip(0) =~= av);
        let r0 = spec_format(fmt@, av);
        lemma_prepend_assoc(Seq::empty(), Seq::empty(), r0);
        match r0 {
            Ok(t) => {
                assert(Seq::<char>::empty() + t =~= t);
            },
            Err(_) => {},
        }
    }
    while i < f.len()
        invariant
            f@ == fmt@,
            av == spec_arg_views(args@),
            i <= f@.len(),
            a <= args@.len(),
            spec_format(fmt@, av) == spec_prepend(
                out@,
                spec_format(f@.skip(i as int), av.skip(a as int)),
            ),
        decreases f@.len() - i,
    {
        let ghost tail = f@.skip(i as int);
        let ghost atail = av.skip(a as int);
        let c = f[i];
        proof {
            assert(tail[0] == f@[i as int]);
        }
        if c == '{' {
            if i + 1 < f.len() && f[i + 1] == '{' {
                proof {
                    assert(tail[1] == f@[i as int + 1]);
                    assert(tail.skip(2) =~= f@.skip(i as int + 2));
                    lemma_prepend_assoc(out@, seq!['{'], spec_format(tail.skip(2), atail));
                    assert(out@ + seq!['{'] =~= out@.push('{'));
                }
                out.push('{');
                i += 2;
            } else if i + 1 < f.len() && f[i + 1] == '}' {
                proof {
                    assert(tail[1] == f@[i as int + 1]);
                }
                if a < args.len() {
                    proof {
                        assert(tail.skip(2) =~= f@.skip(i as int + 2));
                        assert(atail.drop_first() =~= av.skip(a as int + 1));
                        assert(atail[0] == av[a as int]);
                        assert(av[a as int] == args@[a as int]@);
                        lemma_prepend_assoc(
                            out@,
                            atail[0],
                            spec_format(tail.skip(2), atail.drop_first()),
                        );
                    }
                    push_chars(&mut out, args[a].as_str());
                    a += 1;
                    i += 2;
                } else {
                    proof {
                        assert(atail.len() == 0);
                    }
                    return Err(FormatError::MissingArgument);
                }
            } else {
                proof {
                    if i as int + 1 < f@.len() {
                        assert(tail[1] == f@[i as int + 1]);
                    }
                }
                return Err(FormatError::UnsupportedPlaceholder);
            }
        } else if c == '}' {
            if i + 1 < f.len() && f[i + 1] == '}' {
                proof {
                    assert(tail[1] == f@[i as int + 1]);
                    assert(tail.skip(2) =~= f@.skip(i as int + 2));
                    lemma_prepend_assoc(out@, seq!['}'], spec_format(tail.skip(2), atail));
                    assert(out@ + seq!['}'] =~= out@.push('}'));
                }
                out.push('}');
                i += 2;
            } else {
                proof {
                    if i as int + 1 < f@.len() {
                        assert(tail[1] == f@[i as int + 1]);
                    }
                }
                return Err(FormatError::StrayBrace);
            }
        } else {
            proof {
                assert(tail.skip(1) =~= f@.skip(i as int + 1));
                lemma_prepend_assoc(out@, seq![tail[0]], spec_format(tail.skip(1), atail));
                assert(out@ + seq![tail[0]] =~= out@.push(f@[i as int]));
            }
            out.push(c);
            i += 1;
        }
    }
    proof {
        assert(f@.skip(i as int) =~= Seq::<char>::empty());
    }
    if a == args.len() {
        proof {
            assert(av.skip(a as int).len() == 0);
            let r0 = spec_format(f@.skip(i as int), av.skip(a as int));
            assert(r0 == Ok::<Seq<char>, FormatError>(Seq::empty()));
            assert(out@ + Seq::<char>::empty() =~= out@);
        }
        Ok(string_from_chars(&out))
    } else {
        proof {
            assert(av.skip(a as int).len() == av.len() - a);
        }
        Err(FormatError::UnusedArgument)
    }
}

} // verus!
