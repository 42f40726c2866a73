use vstd::prelude::*;

use crate::config::{
    entries_view, resolve_entries_spec, resolve_spec, target_file_name, target_of, BundleModel,
    ClaimView, DirectoryRead,
};
use crate::engine::{ReportModel, TrustPolicy};
use crate::error::{ErrorKind, STATUS_OK, STATUS_SERVER_FAULT, STATUS_UNAVAILABLE};
use crate::handler::{handle_spec, reply_spec, HttpReply, ReplyBody, VerificationResponse};

verus! {

/// Two reads of a directory whose contents did not change.
pub open spec fn same_contents(d1: DirectoryRead, d2: DirectoryRead) -> bool {
    match (d1, d2) {
        (DirectoryRead::NotFound, DirectoryRead::NotFound) => true,
        (DirectoryRead::PermissionDenied, DirectoryRead::PermissionDenied) => true,
        (DirectoryRead::Unreadable, DirectoryRead::Unreadable) => true,
        (DirectoryRead::Listed(a), DirectoryRead::Listed(b)) => entries_view(a@) == entries_view(
            b@,
        ),
        _ => false,
    }
}

/// Under any policy, resolving the same directory twice, with unchanged
/// contents, gives equal bundles, or the same kind of error both times.
pub proof fn lemma_resolve_idempotent<P: TrustPolicy>(p: P, d1: DirectoryRead, d2: DirectoryRead)
    requires
        same_contents(d1, d2),
    ensures
        resolve_spec(p, d1) == resolve_spec(p, d2),
{
}

proof fn lemma_no_target_file(s: Seq<ClaimView>)
    requires
        forall|i: int| 0 <= i < s.len() ==> s[i].0 != target_file_name(),
    ensures
        target_of(s) is None,
    decreases s.len(),
{
    if s.len() > 0 {
        lemma_no_target_file(s.drop_last());
    }
}

/// Under any policy, a directory without the required `target` file is
/// malformed, and every request then gets a server-fault reply, never `200`
/// with an outcome.
pub proof fn lemma_missing_required_file<P: TrustPolicy>(p: P, s: Seq<ClaimView>, t: ReportModel)
    requires
        forall|i: int| 0 <= i < s.len() ==> s[i].0 != target_file_name(),
    ensures
        resolve_entries_spec(p, s) == Err::<BundleModel, ErrorKind>(ErrorKind::ConfigMalformed),
        reply_spec(handle_spec(p, resolve_entries_spec(p, s), t)) == (HttpReply {
            status: STATUS_SERVER_FAULT,
            body: ReplyBody::Failure(ErrorKind::ConfigMalformed),
        }),
        reply_spec(handle_spec(p, resolve_entries_spec(p, s), t)).status != STATUS_OK,
{
    lemma_no_target_file(s);
}

/// Under any policy, when the directory did not exist at startup, every
/// request gets a server-fault reply that names the configuration error.
pub proof fn lemma_missing_directory<P: TrustPolicy>(p: P, t: ReportModel)
    ensures
        reply_spec(handle_spec(p, resolve_spec(p, DirectoryRead::NotFound), t)) == (HttpReply {
            status: STATUS_SERVER_FAULT,
            body: ReplyBody::Failure(ErrorKind::ConfigNotFound),
        }),
{
}

/// Under any policy, with a valid bundle, a target whose answer meets the
/// bundle's predicate gets `200` with `success: true`.
pub proof fn lemma_matching_target_reply<P: TrustPolicy>(
    p: P,
    s: Seq<ClaimView>,
    b: BundleModel,
    a: Seq<u8>,
)
    requires
        resolve_entries_spec(p, s) == Ok::<BundleModel, ErrorKind>(b),
        p.accepts(b, a),
    ensures
        reply_spec(handle_spec(p, resolve_entries_spec(p, s), ReportModel::Answered(a))) == (
        HttpReply {
            status: STATUS_OK,
            body: ReplyBody::Outcome(VerificationResponse { success: true }),
        }),
{
}

/// Under any policy, with a valid bundle, a target whose answer fails the
/// bundle's predicate gets `200` with `success: false`.
pub proof fn lemma_mismatching_target_reply<P: TrustPolicy>(
    p: P,
    s: Seq<ClaimView>,
    b: BundleModel,
    a: Seq<u8>,
)
    requires
        resolve_entries_spec(p, s) == Ok::<BundleModel, ErrorKind>(b),
        !p.accepts(b, a),
    ensures
        reply_spec(handle_spec(p, resolve_entries_spec(p, s), ReportModel::Answered(a))) == (
        HttpReply {
            status: STATUS_OK,
            body: ReplyBody::Outcome(VerificationResponse { success: false }),
        }),
{
}

/// Under any policy, with a valid bundle, a target that does not answer
/// within the timeout gets a `503` reply that carries no outcome.
pub proof fn lemma_silent_target_reply<P: TrustPolicy>(p: P, b: BundleModel)
    ensures
        reply_spec(handle_spec(p, Ok(b), ReportModel::Unreachable)) == (HttpReply {
            status: STATUS_UNAVAILABLE,
            body: ReplyBody::Failure(ErrorKind::VerificationUnreachable),
        }),
        !(reply_spec(handle_spec(p, Ok(b), ReportModel::Unreachable)).body is Outcome),
{
}

} // verus!
