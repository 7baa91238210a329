use playground_core::dispatch::{
    convert, Channel, Dispatch, DispatchState, Edition, Endpoint, InboundRequest, Mode, Operation,
    OperationResponse,
};
use playground_core::error::Error;

fn inbound(channel: &str, mode: &str, edition: &str, code: &str) -> InboundRequest {
    InboundRequest {
        channel: channel.to_string(),
        mode: mode.to_string(),
        edition: edition.to_string(),
        code: code.to_string(),
    }
}

fn response(success: bool, stdout: &str, stderr: &str) -> OperationResponse {
    OperationResponse { success, stdout: stdout.to_string(), stderr: stderr.to_string() }
}

#[test]
fn convert_accepts_well_formed_request() {
    let r = convert(inbound("stable", "debug", "2021", "fn main(){}")).unwrap();
    assert_eq!(r.channel, Channel::Stable);
    assert_eq!(r.mode, Mode::Debug);
    assert_eq!(r.edition, Edition::E2021);
    assert_eq!(r.code, "fn main(){}");
}

#[test]
fn convert_parses_every_field_value() {
    assert_eq!(convert(inbound("beta", "release", "2015", "")).unwrap().channel, Channel::Beta);
    assert_eq!(convert(inbound("nightly", "debug", "2018", "")).unwrap().channel, Channel::Nightly);
    assert_eq!(convert(inbound("stable", "release", "2018", "")).unwrap().mode, Mode::Release);
    assert_eq!(convert(inbound("stable", "debug", "2015", "")).unwrap().edition, Edition::E2015);
    assert_eq!(convert(inbound("stable", "debug", "2018", "")).unwrap().edition, Edition::E2018);
}

#[test]
fn convert_rejects_malformed_fields() {
    for req in [
        inbound("2015", "debug", "2021", ""),
        inbound("", "debug", "2021", ""),
        inbound("stable", "fast", "2021", ""),
        inbound("stable", "debug", "1999", ""),
    ] {
        assert!(matches!(convert(req), Err(Error::RequestConversionFailed)));
    }
}

#[test]
fn dispatch_success_path() {
    let d = Dispatch::new(inbound("stable", "debug", "2021", "fn main(){}"), Operation::Execute, None);
    let d = d.on_context(true);
    assert!(matches!(d.state, DispatchState::ReadyToInvoke(_)));
    let req = d.pending_request();
    assert_eq!(req.channel, Channel::Stable);
    assert_eq!(req.code, "fn main(){}");
    let (d, rec) = d.on_outcome(Some(response(true, "hello", "")));
    assert_eq!(rec.label, Endpoint::Execute);
    assert!(rec.success);
    let out = d.into_outcome().unwrap();
    assert!(out.success);
    assert_eq!(out.stdout, "hello");
}

#[test]
fn malformed_request_short_circuits_before_invocation() {
    // A malformed inbound request never reaches the provider: after the
    // context step the machine is finished with a conversion error, not an
    // operation error, and never ready to invoke.
    let d = Dispatch::new(inbound("stable", "debug", "1999", ""), Operation::Compile, None);
    let d = d.on_context(true);
    assert!(!matches!(d.state, DispatchState::ReadyToInvoke(_)));
    assert!(matches!(d.into_outcome(), Err(Error::RequestConversionFailed)));
}

#[test]
fn context_failure_is_reported_distinctly() {
    let d = Dispatch::new(inbound("stable", "debug", "2021", ""), Operation::Compile, None);
    let d = d.on_context(false);
    assert!(matches!(d.into_outcome(), Err(Error::ContextCreationFailed)));
}

#[test]
fn operation_failure_is_tagged_with_the_operation() {
    let d = Dispatch::new(inbound("nightly", "release", "2018", ""), Operation::Lint, None);
    let d = d.on_context(true);
    let (d, rec) = d.on_outcome(None);
    assert_eq!(rec.label, Endpoint::Lint);
    assert!(!rec.success);
    assert!(matches!(d.into_outcome(), Err(Error::OperationFailed(Operation::Lint))));
}

#[test]
fn evaluate_alias_keeps_its_own_label() {
    // The legacy evaluate endpoint runs Execute but is always recorded under
    // its own label.
    let d = Dispatch::new(
        inbound("stable", "debug", "2021", "fn main(){}"),
        Operation::Execute,
        Some(Endpoint::Evaluate),
    );
    assert_eq!(d.resolved_label(), Endpoint::Evaluate);
    let d = d.on_context(true);
    let (_, rec) = d.on_outcome(Some(response(true, "", "")));
    assert_eq!(rec.label, Endpoint::Evaluate);
}

#[test]
fn labels_derive_from_the_operation_without_override() {
    let cases = [
        (Operation::Compile, Endpoint::Compile),
        (Operation::Execute, Endpoint::Execute),
        (Operation::Format, Endpoint::Format),
        (Operation::Lint, Endpoint::Lint),
        (Operation::Interpret, Endpoint::Interpret),
        (Operation::Expand, Endpoint::Expand),
    ];
    for (op, label) in cases {
        let d = Dispatch::new(inbound("stable", "debug", "2021", ""), op, None);
        assert_eq!(d.resolved_label(), label);
    }
}

#[test]
fn error_messages_are_fixed_per_kind() {
    assert_eq!(Error::AuthorizationFailed.message(), "wrong credentials");
    assert_eq!(
        Error::ContextCreationFailed.message(),
        "unable to create the execution context"
    );
    assert_eq!(
        Error::OperationFailed(Operation::Expand).message(),
        "the macro expansion operation failed"
    );
    assert_eq!(
        Error::MetadataFetchFailed(playground_core::cache::Resource::Crates).message(),
        "unable to fetch the crate list"
    );
    assert_eq!(Error::SnippetCreateFailed.message(), "unable to create the shared snippet");
    assert_eq!(Error::SnippetLoadFailed.message(), "unable to load the shared snippet");
}
