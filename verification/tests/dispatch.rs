use zknotes_core::dispatch::{dispatch_outcome, CoreError, ServerResponse};

#[test]
fn success_passes_through_unchanged() {
    let reply = dispatch_outcome(Ok(ServerResponse {
        what: "searchresult".to_string(),
        content: "[]".to_string(),
    }));
    assert_eq!(reply.what, "searchresult");
    assert_eq!(reply.content, "[]");
}

#[test]
fn unknown_tag_becomes_server_error_reply() {
    let reply = dispatch_outcome(Err(CoreError::UnknownTag("frobnicate".to_string())));
    assert_eq!(reply.what, "server error");
    assert_eq!(reply.content, "unknown message tag: frobnicate");
}

#[test]
fn every_failure_maps_to_server_error_with_nonempty_content() {
    let failures = vec![
        CoreError::NotFound,
        CoreError::Mismatch,
        CoreError::Storage("database unavailable".to_string()),
        CoreError::MalformedInput("not json".to_string()),
        CoreError::NotAuthenticated,
        CoreError::UnknownTag("".to_string()),
    ];
    for e in failures {
        let reply = dispatch_outcome(Err(e));
        assert_eq!(reply.what, "server error");
        assert!(!reply.content.is_empty());
    }
}

#[test]
fn not_found_description() {
    let reply = dispatch_outcome(Err(CoreError::NotFound));
    assert_eq!(reply.content, "not found");
}

#[test]
fn mismatch_description() {
    let reply = dispatch_outcome(Err(CoreError::Mismatch));
    assert_eq!(reply.content, "registration key or user doesn't match");
}

#[test]
fn storage_description_carries_detail() {
    let reply = dispatch_outcome(Err(CoreError::Storage("disk full".to_string())));
    assert_eq!(reply.content, "storage error: disk full");
}

#[test]
fn malformed_input_description_carries_detail() {
    let reply = dispatch_outcome(Err(CoreError::MalformedInput("bad envelope".to_string())));
    assert_eq!(reply.content, "malformed input: bad envelope");
}

#[test]
fn not_authenticated_description() {
    let reply = dispatch_outcome(Err(CoreError::NotAuthenticated));
    assert_eq!(reply.content, "not authenticated");
}
