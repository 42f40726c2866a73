use vstd::prelude::*;

use crate::config::{resolve, resolve_spec, BundleModel, ConfigBundle, DirectoryRead};
use crate::engine::{self, verify_spec, ReportModel, TargetReport, TrustPolicy};
use crate::error::{ErrorKind, VerificationError, STATUS_OK};

verus! {

/// A request to verify the target. The target is fixed by the configuration
/// directory given at startup, so the request carries no fields: callers
/// cannot choose what is verified.
#[derive(Clone, Copy, Debug, PartialEq, Eq, Structural)]
pub struct VerificationRequest {}

/// The answer to a completed verification.
#[derive(Clone, Copy, Debug, PartialEq, Eq, Structural)]
pub struct VerificationResponse {
    pub success: bool,
}

impl From<bool> for VerificationResponse {
    fn from(value: bool) -> (r: VerificationResponse) {
        VerificationResponse { success: value }
    }
}

impl vstd::std_specs::convert::FromSpecImpl<bool> for VerificationResponse {
    open spec fn obeys_from_spec() -> bool {
        true
    }

    open spec fn from_spec(v: bool) -> VerificationResponse {
        VerificationResponse { success: v }
    }
}

pub open spec fn response_view(r: Result<VerificationResponse, VerificationError>) -> Result<
    bool,
    ErrorKind,
> {
    match r {
        Ok(o) => Ok(o.success),
        Err(e) => Err(e@),
    }
}

/// The process-wide state shared by every request: the trust policy and the
/// configuration. The configuration is resolved once, at startup, and cached
/// for the life of the process: a change of the directory on disk is seen
/// only after a restart.
pub struct ServerState<P: TrustPolicy> {
    policy: P,
    config: Result<ConfigBundle, VerificationError>,
}

impl<P: TrustPolicy> View for ServerState<P> {
    type V = Result<BundleModel, ErrorKind>;

    closed spec fn view(&self) -> Result<BundleModel, ErrorKind> {
        match self.config {
            Ok(b) => Ok(b@),
            Err(e) => Err(e@),
        }
    }
}

impl<P: TrustPolicy> ServerState<P> {
    /// Resolves the configuration directory, as read at startup, for
    /// `policy`.
    pub fn new(policy: P, dir: &DirectoryRead) -> (r: ServerState<P>)
        ensures
            r@ == resolve_spec(policy, *dir),
            r.policy_spec() == policy,
    {
        let config = resolve(&policy, dir);
        ServerState { policy, config }
    }

    pub closed spec fn policy_spec(&self) -> P {
        self.policy
    }

    /// The trust policy that every request is judged by.
    pub fn policy(&self) -> (r: &P)
        ensures
            *r == self.policy_spec(),
    {
        &self.policy
    }

    /// The resolved bundle, or the error that resolving it gave.
    pub closed spec fn config_spec(&self) -> Result<ConfigBundle, VerificationError> {
        self.config
    }

    /// The resolved bundle, or the error that resolving it gave.
    pub fn config(&self) -> (r: &Result<ConfigBundle, VerificationError>)
        ensures
            *r == self.config_spec(),
            match *r {
                Ok(b) => self@ == Ok::<BundleModel, ErrorKind>(b@),
                Err(e) => self@ == Err::<BundleModel, ErrorKind>(e@),
            },
    {
        &self.config
    }

    /// Where the target is found, when the configuration resolved.
    pub fn target(&self) -> (r: Option<&Vec<u8>>)
        ensures
            match r {
                Some(t) => self@ matches Ok(b) && t@ == b.target,
                None => self@ is Err,
            },
    {
        match &self.config {
            Ok(b) => Some(b.target()),
            Err(_) => None,
        }
    }
}

/// What a request gives: the bundle's error where the configuration did not
/// resolve, else the engine's determination.
pub open spec fn handle_spec<P: TrustPolicy>(
    p: P,
    c: Result<BundleModel, ErrorKind>,
    t: ReportModel,
) -> Result<bool, ErrorKind> {
    match c {
        Err(k) => Err(k),
        Ok(b) => verify_spec(p, b, t),
    }
}

/// Verifies the target against the configuration held by `state`. Errors of
/// the configuration and of the engine are passed on unchanged.
pub fn verify<P: TrustPolicy>(state: &ServerState<P>, target: &TargetReport) -> (r: Result<
    VerificationResponse,
    VerificationError,
>)
    ensures
        response_view(r) == handle_spec(state.policy_spec(), state@, target@),
        state.config_spec() matches Err(e) ==> r == Err::<VerificationResponse, VerificationError>(e),
{
    match state.config() {
        Err(e) => Err(e.duplicate()),
        Ok(b) => match engine::verify(state.policy(), b, target) {
            Ok(o) => Ok(VerificationResponse::from(o.success)),
            Err(e) => Err(e),
        },
    }
}

/// The body of a reply: the outcome, or the kind of the failure. Only
/// failures have the second shape.
#[derive(Clone, Copy, Debug, PartialEq, Eq, Structural)]
pub enum ReplyBody {
    Outcome(VerificationResponse),
    Failure(ErrorKind),
}

/// A reply at the HTTP boundary.
#[derive(Clone, Copy, Debug, PartialEq, Eq, Structural)]
pub struct HttpReply {
    pub status: u16,
    pub body: ReplyBody,
}

/// The reply for a result: `200` with the outcome, or the failure's status
/// with its kind.
pub open spec fn reply_spec(r: Result<bool, ErrorKind>) -> HttpReply {
    match r {
        Ok(b) => HttpReply {
            status: STATUS_OK,
            body: ReplyBody::Outcome(VerificationResponse { success: b }),
        },
        Err(k) => HttpReply { status: k.status_spec(), body: ReplyBody::Failure(k) },
    }
}

/// Maps a verification result to the reply sent to the caller.
pub fn respond(r: &Result<VerificationResponse, VerificationError>) -> (out: HttpReply)
    ensures
        out == reply_spec(response_view(*r)),
{
    match r {
        Ok(o) => HttpReply { status: STATUS_OK, body: ReplyBody::Outcome(*o) },
        Err(e) => HttpReply { status: e.status(), body: ReplyBody::Failure(e.kind()) },
    }
}

/// Answers one verification request.
pub fn handle<P: TrustPolicy>(
    state: &ServerState<P>,
    _request: &VerificationRequest,
    target: &TargetReport,
) -> (out: HttpReply)
    ensures
        out == reply_spec(handle_spec(state.policy_spec(), state@, target@)),
{
    let r = verify(state, target);
    respond(&r)
}

} // verus!
