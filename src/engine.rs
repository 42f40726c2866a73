use vstd::prelude::*;

use crate::config::{claims_view, BundleModel, Claim, ClaimView, ConfigBundle};
use crate::error::{ErrorKind, VerificationError};

verus! {

/// The trust check: how the trusted material is read and how a target's
/// answer is judged against it. The scheme is deployment-defined; the engine
/// is correct for every implementation.
pub trait TrustPolicy {
    /// The trusted material of a configuration directory is usable.
    spec fn material_ok(&self, files: Seq<ClaimView>) -> bool;

    /// A target whose answer is `answer` meets the trust predicate of
    /// `bundle`.
    spec fn accepts(&self, bundle: BundleModel, answer: Seq<u8>) -> bool;

    fn check_material(&self, files: &Vec<Claim>) -> (r: bool)
        ensures
            r == self.material_ok(claims_view(files@)),
    ;

    fn evaluate(&self, bundle: &ConfigBundle, answer: &Vec<u8>) -> (r: bool)
        ensures
            r == self.accepts(bundle@, answer@),
    ;
}

/// What contacting the target gave, as handed to the engine.
#[derive(Clone, Debug)]
pub enum TargetReport {
    /// No answer came within the timeout, or no connection could be made.
    Unreachable,
    /// An unexpected fault on this side kept the exchange from completing,
    /// such as an answer longer than this side reads.
    Fault,
    /// The target's complete answer.
    Answered(Vec<u8>),
}

/// The mathematical content of a target report.
pub enum ReportModel {
    Unreachable,
    Fault,
    Answered(Seq<u8>),
}

impl View for TargetReport {
    type V = ReportModel;

    open spec fn view(&self) -> ReportModel {
        match self {
            TargetReport::Unreachable => ReportModel::Unreachable,
            TargetReport::Fault => ReportModel::Fault,
            TargetReport::Answered(v) => ReportModel::Answered(v@),
        }
    }
}

/// A completed trust determination.
#[derive(Clone, Copy, Debug, PartialEq, Eq, Structural)]
pub struct VerificationOutcome {
    pub success: bool,
}

/// The determination for a bundle and a report under a policy: an outcome,
/// or the kind of the failure that kept one from being reached.
pub open spec fn verify_spec<P: TrustPolicy>(p: P, b: BundleModel, t: ReportModel) -> Result<
    bool,
    ErrorKind,
> {
    match t {
        ReportModel::Unreachable => Err(ErrorKind::VerificationUnreachable),
        ReportModel::Fault => Err(ErrorKind::VerificationInternal),
        ReportModel::Answered(a) => Ok(p.accepts(b, a)),
    }
}

pub open spec fn outcome_view(r: Result<VerificationOutcome, VerificationError>) -> Result<
    bool,
    ErrorKind,
> {
    match r {
        Ok(o) => Ok(o.success),
        Err(e) => Err(e@),
    }
}

/// Runs the trust check of `policy` for `config` against what the target
/// reported. An unreachable target is an error, never a negative outcome.
pub fn verify<P: TrustPolicy>(policy: &P, config: &ConfigBundle, target: &TargetReport) -> (r:
    Result<VerificationOutcome, VerificationError>)
    ensures
        outcome_view(r) == verify_spec(*policy, config@, target@),
{
    match target {
        TargetReport::Unreachable => Err(
            VerificationError::new(
                ErrorKind::VerificationUnreachable,
                "the target could not be contacted within the timeout",
            ),
        ),
        TargetReport::Fault => Err(
            VerificationError::new(
                ErrorKind::VerificationInternal,
                "an internal fault interrupted the exchange with the target",
            ),
        ),
        TargetReport::Answered(a) => {
            let success = policy.evaluate(config, a);
            Ok(VerificationOutcome { success })
        },
    }
}

/// Under any policy, a reachable target whose answer meets the bundle's
/// predicate is trusted.
pub proof fn lemma_accepted_target_trusted<P: TrustPolicy>(p: P, b: BundleModel, a: Seq<u8>)
    requires
        p.accepts(b, a),
    ensures
        verify_spec(p, b, ReportModel::Answered(a)) == Ok::<bool, ErrorKind>(true),
{
}

/// Under any policy, a reachable target whose answer fails the predicate gets
/// a negative outcome, never an error.
pub proof fn lemma_rejected_target_untrusted<P: TrustPolicy>(p: P, b: BundleModel, a: Seq<u8>)
    requires
        !p.accepts(b, a),
    ensures
        verify_spec(p, b, ReportModel::Answered(a)) == Ok::<bool, ErrorKind>(false),
{
}

/// Under any policy, an unreachable target gives the unreachable error, never
/// a negative outcome, whatever the bundle.
pub proof fn lemma_unreachable_is_error<P: TrustPolicy>(p: P, b: BundleModel)
    ensures
        verify_spec(p, b, ReportModel::Unreachable) == Err::<bool, ErrorKind>(
            ErrorKind::VerificationUnreachable,
        ),
        verify_spec(p, b, ReportModel::Unreachable) != Ok::<bool, ErrorKind>(false),
{
}

/// Under any policy, two verifications with the same bundle and the same
/// target state give the same result.
pub proof fn lemma_verify_deterministic<P: TrustPolicy>(
    p: P,
    c1: ConfigBundle,
    c2: ConfigBundle,
    t1: TargetReport,
    t2: TargetReport,
    r1: Result<VerificationOutcome, VerificationError>,
    r2: Result<VerificationOutcome, VerificationError>,
)
    requires
        c1@ == c2@,
        t1@ == t2@,
        outcome_view(r1) == verify_spec(p, c1@, t1@),
        outcome_view(r2) == verify_spec(p, c2@, t2@),
    ensures
        outcome_view(r1) == outcome_view(r2),
{
}

} // verus!
