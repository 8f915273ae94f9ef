use std::io;

use anyhow_tracing::{
    bail, ensure, format_message, resolve, resolve_format, Context, Error, FieldSpec, FormatError,
};

/// Positional formatting replaces each `{}` with the next argument.
#[test]
fn format_message_substitutes_in_order() {
    let out = format_message(
        "User '{}' failed to log in",
        &["alice".to_string()],
    )
    .unwrap();
    assert_eq!(out, "User 'alice' failed to log in");

    let out = format_message("{} + {} = {}", &["1".to_string(), "2".to_string(), "3".to_string()])
        .unwrap();
    assert_eq!(out, "1 + 2 = 3");

    let out = format_message("no placeholders", &[]).unwrap();
    assert_eq!(out, "no placeholders");
}

/// `{{` and `}}` are literal braces.
#[test]
fn format_message_handles_escapes() {
    let out = format_message("{{}} and {}", &["x".to_string()]).unwrap();
    assert_eq!(out, "{} and x");

    let out = format_message("{{literal}}", &[]).unwrap();
    assert_eq!(out, "{literal}");
}

/// Each malformed format string is rejected with its own error.
#[test]
fn format_message_rejects_malformed_strings() {
    assert_eq!(
        format_message("{}", &[]),
        Err(FormatError::MissingArgument)
    );
    assert_eq!(
        format_message("no slot", &["x".to_string()]),
        Err(FormatError::UnusedArgument)
    );
    assert_eq!(
        format_message("{name}", &["x".to_string()]),
        Err(FormatError::UnsupportedPlaceholder)
    );
    assert_eq!(
        format_message("open {", &[]),
        Err(FormatError::UnsupportedPlaceholder)
    );
    assert_eq!(format_message("close }", &[]), Err(FormatError::StrayBrace));
    assert_eq!(
        resolve_format("{}", &[], vec![]).unwrap_err(),
        FormatError::MissingArgument
    );
}

/// A bare identifier argument named `value` with integer value `42` yields
/// a field named `"value"` with rendered text `"42"`.
#[test]
fn resolver_infers_field_name_from_identifier() {
    let value = 42;
    let err = resolve("boom", vec![FieldSpec::ident("value", value)]);
    assert_eq!(err.fields().len(), 1);
    assert_eq!(err.get_field("value"), Some("42"));
}

/// An explicit name is used verbatim even when the expression is a bare
/// identifier of another name; a marked non-identifier expression falls
/// back to the literal name `value`.
#[test]
fn resolver_name_disambiguation() {
    let user = "u1";
    let err = resolve(
        "boom",
        vec![
            FieldSpec::named("who", user),
            FieldSpec::anonymous(1 + 1),
            FieldSpec::anonymous_debug(vec![1, 2, 3]),
        ],
    );
    assert_eq!(err.fields().len(), 3);
    assert_eq!(err.get_field("who"), Some("u1"));
    // First match wins: both positional forms resolve to "value".
    assert_eq!(err.get_field("value"), Some("2"));
    let all = err.fields();
    assert_eq!(all[1].0, "value");
    assert_eq!(&*all[1].1, "2");
    assert_eq!(all[2].0, "value");
    assert_eq!(&*all[2].1, "[1, 2, 3]");
}

/// Fields come back in attachment order, whatever mix of resolver and
/// direct attachment produced them.
#[test]
fn fields_keep_attachment_order() {
    let err = resolve(
        "boom",
        vec![
            FieldSpec::named_str("a", "1"),
            FieldSpec::named_debug("b", 2),
        ],
    )
    .with_field("c", 3)
    .with_field_str("d", "4")
    .with_field_debug("e", 5);
    let names: Vec<&str> = err.fields().iter().map(|kv| kv.0).collect();
    assert_eq!(names, vec!["a", "b", "c", "d", "e"]);
}

/// With duplicate names, lookup returns the first field attached and keeps
/// both in the listing.
#[test]
fn get_field_returns_first_match() {
    let err = Error::from_message("boom")
        .with_field_str("k", "first")
        .with_field_str("k", "second");
    assert_eq!(err.get_field("k"), Some("first"));
    assert_eq!(err.fields().len(), 2);
    assert_eq!(err.get_field("missing"), None);
}

/// Display rendering of a string stores it verbatim; debug rendering of a
/// sequence matches debug-formatting it directly.
#[test]
fn rendering_fidelity() {
    let seq_val = vec![1, 2, 3];
    let err = Error::from_message("boom")
        .with_field_str("s", "payload \"x\" \\ 测试")
        .with_field_str("empty", "")
        .with_field_str("blank", "  ")
        .with_field_debug("seq", &seq_val);
    assert_eq!(err.get_field("s"), Some("payload \"x\" \\ 测试"));
    assert_eq!(err.get_field("empty"), Some(""));
    assert_eq!(err.get_field("blank"), Some("  "));
    assert_eq!(err.get_field("seq").unwrap(), format!("{:?}", seq_val));
}

/// Adding context never reorders or drops fields, and stacks the chain
/// outermost-first above the intact prior chain.
#[test]
fn context_is_non_destructive() {
    let err = Error::from_message("root")
        .with_field_str("a", "1")
        .with_field_str("b", "2");
    let wrapped = err.context("c2");
    assert_eq!(wrapped.fields().len(), 2);
    assert_eq!(wrapped.get_field("a"), Some("1"));
    assert_eq!(wrapped.get_field("b"), Some("2"));
    let chain = wrapped.chain();
    assert_eq!(chain, vec!["c2".to_string(), "root".to_string()]);
    assert_eq!(wrapped.root_cause(), "root");
}

/// The lazy context closure runs exactly once when the wrapping call
/// executes, and not at all on the success branch of the trait form.
#[test]
fn with_context_runs_closure_once() {
    let mut runs = 0;
    let err = Error::from_message("root").with_context(|| {
        runs += 1;
        "outer".to_string()
    });
    assert_eq!(runs, 1);
    assert_eq!(err.to_display_string(), "outer");

    let mut skipped_runs = 0;
    let ok: Result<i32, io::Error> = Ok(7);
    let passed = ok.with_context(|| {
        skipped_runs += 1;
        "never".to_string()
    });
    assert_eq!(passed.unwrap(), 7);
    assert_eq!(skipped_runs, 0);
}

/// Downcast round-trip: the wrapped concrete cause is visible to `is`,
/// `downcast_ref`, `downcast_mut` and the consuming `downcast`; a miss
/// returns the error intact, fields and chain preserved.
#[test]
fn downcast_round_trip() {
    let cause = io::Error::new(io::ErrorKind::PermissionDenied, "access denied");
    let err = Error::from_cause(cause).with_field_str("request_id", "req-abc");

    assert!(err.is::<io::Error>());
    assert!(!err.is::<std::fmt::Error>());
    assert_eq!(
        err.downcast_ref::<io::Error>().unwrap().kind(),
        io::ErrorKind::PermissionDenied
    );

    // A miss keeps everything intact.
    let err = match err.downcast::<std::fmt::Error>() {
        Ok(_) => panic!("unrelated type must not match"),
        Err(original) => original,
    };
    assert_eq!(err.get_field("request_id"), Some("req-abc"));
    assert_eq!(err.chain().len(), 1);

    // A mutable borrow reaches the stored cause.
    let mut err = err;
    assert!(err.downcast_mut::<io::Error>().is_some());

    // The hit consumes the error and hands the cause back.
    let extracted = err.downcast::<io::Error>().unwrap();
    assert_eq!(extracted.kind(), io::ErrorKind::PermissionDenied);
}

/// The debug form lists every field on its own line, values
/// debug-rendered, with a comma after every line but the last.
#[test]
fn debug_form_lists_fields() {
    let err = Error::from_message("boom")
        .with_field_str("field1", "value1")
        .with_field_debug("field2", vec![10, 20]);
    let text = err.to_debug_string();
    assert!(text.starts_with("boom"));
    assert!(text.contains("\n\nFields:\n"));
    assert!(text.contains("\tfield1: \"value1\",\n"));
    assert!(text.contains("\tfield2: \"[10, 20]\"\n"));
}

/// A message-only error has no field suffix in either rendering.
#[test]
fn message_only_error_renders_bare() {
    let err = Error::from_message("just a message");
    assert_eq!(err.to_display_string(), "just a message");
    assert_eq!(err.fields().len(), 0);
    assert!(!err.to_debug_string().contains("Fields:"));
}

/// The generic message constructor and the short-circuit helpers agree
/// with the resolver on chain and fields.
#[test]
fn helpers_build_the_resolved_error() {
    let err = Error::msg(17);
    assert_eq!(err.to_display_string(), "17");
    assert_eq!(err.chain().len(), 1);

    let failed: Result<i32, Error> = bail(
        "stop",
        vec![FieldSpec::named_debug_str("why", "broken")],
    );
    let err = failed.unwrap_err();
    assert_eq!(err.to_display_string(), "stop [why=\"broken\"]");

    assert!(ensure(true, "unused", vec![]).is_ok());
    let err = ensure(false, "guard", vec![FieldSpec::named_str("k", "v")]).unwrap_err();
    assert_eq!(err.to_display_string(), "guard [k=v]");
    assert_eq!(err.chain(), vec!["guard".to_string()]);
}

/// The `Context` trait keeps the existing failure as the root cause
/// beneath the new context entry.
#[test]
fn context_trait_keeps_cause_chain() {
    let io_result: Result<(), io::Error> =
        Err(io::Error::new(io::ErrorKind::NotFound, "file not found"));
    let err = io_result.context("File operation failed").unwrap_err();
    let chain = err.chain();
    assert_eq!(chain.len(), 2);
    assert_eq!(chain[0], "File operation failed");
    assert_eq!(chain[1], "file not found");
    assert_eq!(err.root_cause(), "file not found");
    assert!(err.is::<io::Error>());

    let missing: Option<u8> = None;
    let err = missing
        .with_field_debug("looked_for", "port")
        .unwrap_err();
    assert_eq!(err.get_field("looked_for"), Some("\"port\""));
    assert!(err.to_display_string().contains("None value"));
}
