use verification_svc::claim_match::{check_claims, parse_claims, ClaimMatch};
use verification_svc::config::{resolve, Claim, DirectoryRead, FileEntry};
use verification_svc::engine::{verify, TargetReport, VerificationOutcome};
use verification_svc::error::{ErrorKind, VerificationError};
use verification_svc::handler::{
    handle, respond, HttpReply, ReplyBody, ServerState, VerificationRequest, VerificationResponse,
};

fn entry(name: &str, contents: &str) -> FileEntry {
    FileEntry { name: name.as_bytes().to_vec(), contents: contents.as_bytes().to_vec() }
}

fn claim(name: &str, value: &str) -> Claim {
    Claim { name: name.as_bytes().to_vec(), value: value.as_bytes().to_vec() }
}

fn valid_dir() -> DirectoryRead {
    DirectoryRead::Listed(vec![
        entry("target", "10.0.0.1:9000"),
        entry("measurement", "abc123"),
        entry("identity", "node-7"),
    ])
}

fn matching_answer() -> TargetReport {
    TargetReport::Answered(frame(&[("identity", "node-7"), ("measurement", "abc123")]))
}

fn frame(claims: &[(&str, &str)]) -> Vec<u8> {
    let mut out = Vec::new();
    for (n, v) in claims {
        out.push(n.len() as u8);
        out.extend_from_slice(n.as_bytes());
        out.push((v.len() / 256) as u8);
        out.push((v.len() % 256) as u8);
        out.extend_from_slice(v.as_bytes());
    }
    out
}

#[test]
fn resolve_valid_directory() {
    let b = resolve(&ClaimMatch {}, &valid_dir()).unwrap();
    assert_eq!(b.target(), &b"10.0.0.1:9000".to_vec());
    let names: Vec<Vec<u8>> = b.expected().iter().map(|c| c.name.clone()).collect();
    assert_eq!(names, vec![b"measurement".to_vec(), b"identity".to_vec()]);
    assert_eq!(b.expected()[0].value, b"abc123".to_vec());
}

#[test]
fn resolve_is_idempotent() {
    let a = resolve(&ClaimMatch {}, &valid_dir()).unwrap();
    let b = resolve(&ClaimMatch {}, &valid_dir()).unwrap();
    assert_eq!(a.target(), b.target());
    assert_eq!(a.expected().len(), b.expected().len());
    for i in 0..a.expected().len() {
        assert_eq!(a.expected()[i].name, b.expected()[i].name);
        assert_eq!(a.expected()[i].value, b.expected()[i].value);
    }
}

#[test]
fn resolve_missing_directory() {
    let e = resolve(&ClaimMatch {}, &DirectoryRead::NotFound).unwrap_err();
    assert_eq!(e.kind(), ErrorKind::ConfigNotFound);
}

#[test]
fn resolve_permission_denied() {
    let e = resolve(&ClaimMatch {}, &DirectoryRead::PermissionDenied).unwrap_err();
    assert_eq!(e.kind(), ErrorKind::ConfigPermissionDenied);
}

#[test]
fn resolve_unreadable_is_internal() {
    let e = resolve(&ClaimMatch {}, &DirectoryRead::Unreadable).unwrap_err();
    assert_eq!(e.kind(), ErrorKind::ConfigUnreadable);
    assert!(e.kind().is_config());
    assert_eq!(e.status(), 500);
}

#[test]
fn resolve_missing_target_file() {
    let d = DirectoryRead::Listed(vec![entry("measurement", "abc123")]);
    assert_eq!(resolve(&ClaimMatch {}, &d).unwrap_err().kind(), ErrorKind::ConfigMalformed);
}

#[test]
fn resolve_empty_target_file() {
    let d = DirectoryRead::Listed(vec![entry("target", ""), entry("measurement", "abc123")]);
    assert_eq!(resolve(&ClaimMatch {}, &d).unwrap_err().kind(), ErrorKind::ConfigMalformed);
}

#[test]
fn resolve_no_expected_claims() {
    let d = DirectoryRead::Listed(vec![entry("target", "host:1")]);
    assert_eq!(resolve(&ClaimMatch {}, &d).unwrap_err().kind(), ErrorKind::ConfigMalformed);
}

#[test]
fn resolve_empty_listing() {
    let d = DirectoryRead::Listed(vec![]);
    assert_eq!(resolve(&ClaimMatch {}, &d).unwrap_err().kind(), ErrorKind::ConfigMalformed);
}

#[test]
fn resolve_duplicate_names() {
    let d = DirectoryRead::Listed(vec![
        entry("target", "host:1"),
        entry("measurement", "a"),
        entry("measurement", "b"),
    ]);
    assert_eq!(resolve(&ClaimMatch {}, &d).unwrap_err().kind(), ErrorKind::ConfigMalformed);
}

#[test]
fn verify_matching_target_succeeds() {
    let b = resolve(&ClaimMatch {}, &valid_dir()).unwrap();
    let r = verify(&ClaimMatch {}, &b, &matching_answer()).unwrap();
    assert_eq!(r, VerificationOutcome { success: true });
}

#[test]
fn verify_extra_claims_still_succeed() {
    let b = resolve(&ClaimMatch {}, &valid_dir()).unwrap();
    let a = frame(&[("identity", "node-7"), ("firmware", "v2"), ("measurement", "abc123")]);
    assert!(verify(&ClaimMatch {}, &b, &TargetReport::Answered(a)).unwrap().success);
}

#[test]
fn verify_one_failed_check_is_negative_outcome() {
    let b = resolve(&ClaimMatch {}, &valid_dir()).unwrap();
    let a = frame(&[("identity", "node-7"), ("measurement", "abc124")]);
    let r = verify(&ClaimMatch {}, &b, &TargetReport::Answered(a)).unwrap();
    assert!(!r.success);
}

#[test]
fn verify_missing_claim_is_negative_outcome() {
    let b = resolve(&ClaimMatch {}, &valid_dir()).unwrap();
    let a = frame(&[("identity", "node-7")]);
    assert!(!verify(&ClaimMatch {}, &b, &TargetReport::Answered(a)).unwrap().success);
}

#[test]
fn verify_garbled_reply_is_negative_outcome() {
    let b = resolve(&ClaimMatch {}, &valid_dir()).unwrap();
    let r = verify(&ClaimMatch {}, &b, &TargetReport::Answered(vec![9, b'x'])).unwrap();
    assert!(!r.success);
}

#[test]
fn verify_unreachable_is_error() {
    let b = resolve(&ClaimMatch {}, &valid_dir()).unwrap();
    let e = verify(&ClaimMatch {}, &b, &TargetReport::Unreachable).unwrap_err();
    assert_eq!(e.kind(), ErrorKind::VerificationUnreachable);
    assert!(e.kind().is_recoverable());
}

#[test]
fn verify_fault_is_internal_error() {
    let b = resolve(&ClaimMatch {}, &valid_dir()).unwrap();
    let e = verify(&ClaimMatch {}, &b, &TargetReport::Fault).unwrap_err();
    assert_eq!(e.kind(), ErrorKind::VerificationInternal);
    assert_eq!(e.status(), 500);
}

#[test]
fn verify_is_deterministic() {
    let b = resolve(&ClaimMatch {}, &valid_dir()).unwrap();
    let t = matching_answer();
    assert_eq!(verify(&ClaimMatch {}, &b, &t).unwrap(), verify(&ClaimMatch {}, &b, &t).unwrap());
    let t = TargetReport::Answered(frame(&[("identity", "x")]));
    assert_eq!(verify(&ClaimMatch {}, &b, &t).unwrap(), verify(&ClaimMatch {}, &b, &t).unwrap());
}

#[test]
fn check_claims_empty_presented() {
    assert!(!check_claims(&vec![claim("a", "b")], &vec![]));
    assert!(check_claims(&vec![], &vec![]));
}

#[test]
fn parse_claims_round() {
    let bytes = frame(&[("identity", "node-7"), ("measurement", "abc123")]);
    let c = parse_claims(&bytes).unwrap();
    assert_eq!(c.len(), 2);
    assert_eq!(c[0].name, b"identity".to_vec());
    assert_eq!(c[0].value, b"node-7".to_vec());
    assert_eq!(c[1].name, b"measurement".to_vec());
    assert_eq!(c[1].value, b"abc123".to_vec());
}

#[test]
fn parse_claims_long_value() {
    let v = "x".repeat(300);
    let bytes = frame(&[("cert", &v)]);
    assert_eq!(bytes[5], 1);
    assert_eq!(bytes[6], 44);
    let c = parse_claims(&bytes).unwrap();
    assert_eq!(c[0].value.len(), 300);
}

#[test]
fn parse_claims_empty_and_truncated() {
    assert_eq!(parse_claims(&vec![]).unwrap().len(), 0);
    assert!(parse_claims(&vec![3, b'a', b'b']).is_none());
    assert!(parse_claims(&vec![1, b'a', 0, 5, b'x']).is_none());
}

#[test]
fn error_kind_names() {
    assert_eq!(ErrorKind::ConfigNotFound.name(), "config_not_found");
    assert_eq!(ErrorKind::ConfigMalformed.name(), "config_malformed");
    assert_eq!(ErrorKind::ConfigPermissionDenied.name(), "config_permission_denied");
    assert_eq!(ErrorKind::ConfigUnreadable.name(), "config_unreadable");
    assert_eq!(ErrorKind::VerificationUnreachable.name(), "verification_unreachable");
    assert_eq!(ErrorKind::VerificationInternal.name(), "verification_internal");
}

#[test]
fn response_from_bool() {
    assert_eq!(VerificationResponse::from(true), VerificationResponse { success: true });
    assert_eq!(VerificationResponse::from(false).success, false);
}

#[test]
fn error_status_mapping() {
    assert_eq!(ErrorKind::ConfigNotFound.status(), 500);
    assert_eq!(ErrorKind::ConfigMalformed.status(), 500);
    assert_eq!(ErrorKind::ConfigPermissionDenied.status(), 500);
    assert_eq!(ErrorKind::VerificationInternal.status(), 500);
    assert_eq!(ErrorKind::VerificationUnreachable.status(), 503);
    assert!(ErrorKind::ConfigMalformed.is_config());
    assert!(!ErrorKind::VerificationUnreachable.is_config());
    let e = VerificationError::new(ErrorKind::ConfigMalformed, "bad");
    assert_eq!(e.message(), "bad");
    assert_eq!(e.duplicate().kind(), ErrorKind::ConfigMalformed);
}

#[test]
fn respond_maps_results() {
    assert_eq!(
        respond(&Ok(VerificationResponse { success: false })),
        HttpReply { status: 200, body: ReplyBody::Outcome(VerificationResponse { success: false }) }
    );
    let e = VerificationError::new(ErrorKind::VerificationUnreachable, "silent");
    assert_eq!(
        respond(&Err(e)),
        HttpReply { status: 503, body: ReplyBody::Failure(ErrorKind::VerificationUnreachable) }
    );
}

#[test]
fn scenario_valid_bundle_matching_target() {
    let state = ServerState::new(ClaimMatch {}, &valid_dir());
    let report = matching_answer();
    let reply = handle(&state, &VerificationRequest {}, &report);
    assert_eq!(
        reply,
        HttpReply { status: 200, body: ReplyBody::Outcome(VerificationResponse { success: true }) }
    );
}

#[test]
fn scenario_valid_bundle_mismatching_target() {
    let state = ServerState::new(ClaimMatch {}, &valid_dir());
    let report = TargetReport::Answered(frame(&[("identity", "node-8"), ("measurement", "abc123")]));
    let reply = handle(&state, &VerificationRequest {}, &report);
    assert_eq!(
        reply,
        HttpReply { status: 200, body: ReplyBody::Outcome(VerificationResponse { success: false }) }
    );
}

#[test]
fn scenario_missing_directory_every_request_fails() {
    let state = ServerState::new(ClaimMatch {}, &DirectoryRead::NotFound);
    assert!(state.target().is_none());
    let reports = vec![
        matching_answer(),
        TargetReport::Unreachable,
        TargetReport::Answered(vec![]),
        TargetReport::Fault,
    ];
    for r in &reports {
        let reply = handle(&state, &VerificationRequest {}, r);
        assert_eq!(
            reply,
            HttpReply { status: 500, body: ReplyBody::Failure(ErrorKind::ConfigNotFound) }
        );
    }
}

#[test]
fn scenario_missing_required_file_is_not_ok() {
    let state = ServerState::new(ClaimMatch {}, &DirectoryRead::Listed(vec![entry("measurement", "abc123")]));
    let reply = handle(&state, &VerificationRequest {}, &matching_answer());
    assert_eq!(reply.status, 500);
    assert_eq!(reply.body, ReplyBody::Failure(ErrorKind::ConfigMalformed));
}

#[test]
fn scenario_target_times_out() {
    let state = ServerState::new(ClaimMatch {}, &valid_dir());
    assert_eq!(state.target().unwrap(), &b"10.0.0.1:9000".to_vec());
    let reply = handle(&state, &VerificationRequest {}, &TargetReport::Unreachable);
    assert_eq!(reply.status, 503);
    assert!(!matches!(reply.body, ReplyBody::Outcome(_)));
}
