use vstd::prelude::*;

verus! {

/// The kind of a failure that kept the service from reaching a trust
/// determination. A completed check that finds the target untrustworthy is
/// never one of these: it is an outcome with `success == false`.
#[derive(Clone, Copy, Debug, PartialEq, Eq, Structural)]
pub enum ErrorKind {
    ConfigNotFound,
    ConfigMalformed,
    ConfigPermissionDenied,
    ConfigUnreadable,
    VerificationUnreachable,
    VerificationInternal,
}

/// HTTP status for a successful verification call.
pub const STATUS_OK: u16 = 200;

/// HTTP status for configuration faults and internal faults.
pub const STATUS_SERVER_FAULT: u16 = 500;

/// HTTP status for a target that could not be contacted.
pub const STATUS_UNAVAILABLE: u16 = 503;

impl ErrorKind {
    /// Configuration faults are deployment errors: the operator must fix them.
    pub open spec fn is_config_spec(self) -> bool {
        self is ConfigNotFound || self is ConfigMalformed || self is ConfigPermissionDenied
            || self is ConfigUnreadable
    }

    /// Only an unreachable target is worth retrying later.
    pub open spec fn is_recoverable_spec(self) -> bool {
        self is VerificationUnreachable
    }

    /// The documented status mapping: 503 for an unreachable target, 500 for
    /// everything else.
    pub open spec fn status_spec(self) -> u16 {
        if self is VerificationUnreachable {
            STATUS_UNAVAILABLE
        } else {
            STATUS_SERVER_FAULT
        }
    }

    pub fn is_config(&self) -> (r: bool)
        ensures
            r == self.is_config_spec(),
    {
        match self {
            ErrorKind::ConfigNotFound | ErrorKind::ConfigMalformed
            | ErrorKind::ConfigPermissionDenied | ErrorKind::ConfigUnreadable => true,
            _ => false,
        }
    }

    pub fn is_recoverable(&self) -> (r: bool)
        ensures
            r == self.is_recoverable_spec(),
    {
        match self {
            ErrorKind::VerificationUnreachable => true,
            _ => false,
        }
    }

    pub fn status(&self) -> (r: u16)
        ensures
            r == self.status_spec(),
            r != STATUS_OK,
    {
        match self {
            ErrorKind::VerificationUnreachable => STATUS_UNAVAILABLE,
            _ => STATUS_SERVER_FAULT,
        }
    }

    /// A short stable name for the kind, used in failure bodies.
    pub open spec fn name_spec(self) -> Seq<char> {
        match self {
            ErrorKind::ConfigNotFound => "config_not_found"@,
            ErrorKind::ConfigMalformed => "config_malformed"@,
            ErrorKind::ConfigPermissionDenied => "config_permission_denied"@,
            ErrorKind::ConfigUnreadable => "config_unreadable"@,
            ErrorKind::VerificationUnreachable => "verification_unreachable"@,
            ErrorKind::VerificationInternal => "verification_internal"@,
        }
    }

    pub fn name(&self) -> (r: &'static str)
        ensures
            r@ == self.name_spec(),
    {
        match self {
            ErrorKind::ConfigNotFound => "config_not_found",
            ErrorKind::ConfigMalformed => "config_malformed",
            ErrorKind::ConfigPermissionDenied => "config_permission_denied",
            ErrorKind::ConfigUnreadable => "config_unreadable",
            ErrorKind::VerificationUnreachable => "verification_unreachable",
            ErrorKind::VerificationInternal => "verification_internal",
        }
    }
}

/// A failure with its kind and a human-readable message. Messages never carry
/// key or credential bytes.
#[derive(Clone, Debug)]
pub struct VerificationError {
    pub kind: ErrorKind,
    pub message: String,
}

impl View for VerificationError {
    type V = ErrorKind;

    open spec fn view(&self) -> ErrorKind {
        self.kind
    }
}

impl VerificationError {
    pub fn new(kind: ErrorKind, message: &str) -> (r: VerificationError)
        ensures
            r@ == kind,
            r.message@ == message@,
    {
        VerificationError { kind, message: message.to_owned() }
    }

    pub fn kind(&self) -> (r: ErrorKind)
        ensures
            r == self@,
    {
        self.kind
    }

    pub fn status(&self) -> (r: u16)
        ensures
            r == self@.status_spec(),
    {
        self.kind.status()
    }

    /// A copy of this error, equal to it.
    pub fn duplicate(&self) -> (r: VerificationError)
        ensures
            r == *self,
    {
        VerificationError { kind: self.kind, message: self.message.clone() }
    }

    pub fn message(&self) -> (r: &String)
        ensures
            r@ == self.message@,
    {
        &self.message
    }
}

} // verus!
