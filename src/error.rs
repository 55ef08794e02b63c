use vstd::prelude::*;

verus! {

/// The reasons for which an operation on the registry is rejected.
#[derive(Clone, Copy, Debug, PartialEq, Eq, Structural)]
pub enum ShareError {
    /// A share was to be created with no recipient at all.
    EmptyRecipients,
    /// A share was to be revoked by someone other than its owner.
    NotOwner,
    /// No share is stored under the given identifier.
    ShareNotFound,
    /// The share was revoked, or its expiry time has passed.
    RevokedOrExpired,
    /// The caller is neither the owner nor a recipient of the share.
    NoAccess,
    /// Every share identifier has been handed out.
    IdsExhausted,
}

impl ShareError {
    /// The numeric code under which the error is reported to the host.
    pub open spec fn spec_code(self) -> u16 {
        match self {
            ShareError::EmptyRecipients => 100,
            ShareError::NotOwner => 101,
            ShareError::ShareNotFound => 102,
            ShareError::RevokedOrExpired => 103,
            ShareError::NoAccess => 104,
            ShareError::IdsExhausted => 105,
        }
    }

    /// The numeric code under which the error is reported to the host;
    /// distinct errors have distinct codes.
    pub fn code(&self) -> (r: u16)
        ensures
            r == self.spec_code(),
    {
        match self {
            ShareError::EmptyRecipients => 100,
            ShareError::NotOwner => 101,
            ShareError::ShareNotFound => 102,
            ShareError::RevokedOrExpired => 103,
            ShareError::NoAccess => 104,
            ShareError::IdsExhausted => 105,
        }
    }
}

} // verus!
