//! Errors of the client, and how a Vault response status maps to them.
use vstd::prelude::*;

verus! {

/// What can go wrong while resolving settings, talking to Vault, or reading
/// its answer. Each status-class variant carries the HTTP status code that
/// Vault answered with.
#[derive(Debug, Clone, PartialEq, Eq)]
pub enum VaultError {
    VaultSealed(u16),
    VaultNotInitialized(u16),
    VaultStandby(u16),
    VaultActiveDRsecondaryNode(u16),
    VaultStandbyPerformanceNode(u16),
    VaultInvalidPath(u16),
    Unknown(u16),
    /// Neither an explicit secret path nor the secret path variable was given.
    MissingSecretPath,
    /// Neither an explicit token nor the token variable was given.
    MissingToken,
    /// The port text does not read as a 16-bit unsigned integer.
    InvalidPort(String),
    /// The request could not be built or sent.
    Transport(String),
    /// The response body does not match the expected envelope.
    Deserialize(String),
}

/// The status code that Vault answers with when it is healthy and active.
pub const STATUS_OK: u16 = 200;

/// The error that a response status maps to, or `None` for success.
pub open spec fn status_error(code: u16) -> Option<VaultError> {
    if code == 200 {
        None
    } else if code == 404 {
        Some(VaultError::VaultInvalidPath(code))
    } else if code == 429 || code == 503 {
        Some(VaultError::VaultSealed(code))
    } else if code == 472 {
        Some(VaultError::VaultActiveDRsecondaryNode(code))
    } else if code == 473 {
        Some(VaultError::VaultStandbyPerformanceNode(code))
    } else if code == 501 {
        Some(VaultError::VaultNotInitialized(code))
    } else {
        Some(VaultError::Unknown(code))
    }
}

impl VaultError {
    /// The status code carried by a status-class error.
    pub open spec fn status_of(self) -> Option<u16> {
        match self {
            VaultError::VaultSealed(c) => Some(c),
            VaultError::VaultNotInitialized(c) => Some(c),
            VaultError::VaultStandby(c) => Some(c),
            VaultError::VaultActiveDRsecondaryNode(c) => Some(c),
            VaultError::VaultStandbyPerformanceNode(c) => Some(c),
            VaultError::VaultInvalidPath(c) => Some(c),
            VaultError::Unknown(c) => Some(c),
            _ => None,
        }
    }

    /// Whether the error comes from resolving the settings.
    pub open spec fn is_config_error(self) -> bool {
        match self {
            VaultError::MissingSecretPath => true,
            VaultError::MissingToken => true,
            VaultError::InvalidPort(_) => true,
            _ => false,
        }
    }

    /// The HTTP status code this error carries, if it came from a response.
    pub fn status_code(&self) -> (r: Option<u16>)
        ensures
            r == self.status_of(),
    {
        match self {
            VaultError::VaultSealed(c) => Some(*c),
            VaultError::VaultNotInitialized(c) => Some(*c),
            VaultError::VaultStandby(c) => Some(*c),
            VaultError::VaultActiveDRsecondaryNode(c) => Some(*c),
            VaultError::VaultStandbyPerformanceNode(c) => Some(*c),
            VaultError::VaultInvalidPath(c) => Some(*c),
            VaultError::Unknown(c) => Some(*c),
            _ => None,
        }
    }
}

/// Maps a Vault response status to success or to the error it signals.
pub fn check_vault_error(status_code: u16) -> (r: Result<(), VaultError>)
    ensures
        r.is_ok() <==> status_code == STATUS_OK,
        r.is_err() ==> status_error(status_code) == Some(r->Err_0),
        r.is_err() ==> r->Err_0.status_of() == Some(status_code),
{
    match status_code {
        200 => Ok(()),
        503 => Err(VaultError::VaultSealed(status_code)),
        429 => Err(VaultError::VaultSealed(status_code)),
        472 => Err(VaultError::VaultActiveDRsecondaryNode(status_code)),
        473 => Err(VaultError::VaultStandbyPerformanceNode(status_code)),
        404 => Err(VaultError::VaultInvalidPath(status_code)),
        501 => Err(VaultError::VaultNotInitialized(status_code)),
        _ => Err(VaultError::Unknown(status_code)),
    }
}

/// Every status other than success maps to an error, and that error carries
/// the status it came from.
pub proof fn status_error_keeps_code(code: u16)
    ensures
        status_error(code).is_none() <==> code == STATUS_OK,
        status_error(code).is_some() ==> status_error(code).unwrap().status_of() == Some(code),
        status_error(code).is_some() ==> !status_error(code).unwrap().is_config_error(),
{
}

} // verus!
