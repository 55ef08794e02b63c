use vstd::prelude::*;

use crate::allocator::ShareIdAllocator;
use crate::error::ShareError;
use crate::identity::Identity;

verus! {

/// What is stored for one share beside its recipients.
pub struct ShareMetadata {
    pub cid: String,
    pub owner: Identity,
    pub expiry: u64,
    pub revoked: bool,
}

/// The mathematical model of one share: its metadata together with its
/// recipient set, which are always stored as a pair.
pub struct ShareView {
    pub cid: Seq<char>,
    pub owner: Seq<u8>,
    pub expiry: u64,
    pub revoked: bool,
    pub recipients: Seq<Seq<u8>>,
}

/// The identities of a list, as byte sequences.
pub open spec fn identities_view(v: Seq<Identity>) -> Seq<Seq<u8>> {
    v.map_values(|i: Identity| i@)
}

/// The model of a stored metadata record and its recipient list.
pub open spec fn share_view(meta: ShareMetadata, recipients: Seq<Identity>) -> ShareView {
    ShareView {
        cid: meta.cid@,
        owner: meta.owner@,
        expiry: meta.expiry,
        revoked: meta.revoked,
        recipients: identities_view(recipients),
    }
}

/// A share as it stands right after its creation.
pub open spec fn new_share(
    cid: Seq<char>,
    owner: Seq<u8>,
    expiry: u64,
    recipients: Seq<Seq<u8>>,
) -> ShareView {
    ShareView { cid, owner, expiry, revoked: false, recipients }
}

/// The access window of a share is open at time `now`: it is not revoked
/// and `now` is not past its expiry (the expiry instant itself still counts).
pub open spec fn is_open(s: ShareView, now: u64) -> bool {
    !s.revoked && now <= s.expiry
}

/// `caller` is the owner of the share or one of its recipients.
pub open spec fn may_read(s: ShareView, caller: Seq<u8>) -> bool {
    caller == s.owner || s.recipients.contains(caller)
}

/// The access decision for `caller` on an existing share at time `now`.
pub open spec fn share_permission(s: ShareView, caller: Seq<u8>, now: u64) -> Result<(), ShareError> {
    if !is_open(s, now) {
        Err(ShareError::RevokedOrExpired)
    } else if !may_read(s, caller) {
        Err(ShareError::NoAccess)
    } else {
        Ok(())
    }
}

/// The model of the result of `create_record`.
pub open spec fn record_view(r: Result<(u64, ShareMetadata, Vec<Identity>), ShareError>) -> Result<
    (u64, ShareView),
    ShareError,
> {
    match r {
        Ok((id, meta, recipients)) => Ok((id, share_view(meta, recipients@))),
        Err(e) => Err(e),
    }
}

/// Builds the stored form of a new share of `cid` for `recipients` until
/// `expiry`, owned by `caller`, under an identifier taken from `ids`. An
/// empty recipient list is rejected with `EmptyRecipients` before any
/// identifier is taken; when `ids` has none left, `IdsExhausted`.
pub fn create_record(
    ids: &mut ShareIdAllocator,
    cid: String,
    recipients: Vec<Identity>,
    expiry: u64,
    caller: Identity,
) -> (r: Result<(u64, ShareMetadata, Vec<Identity>), ShareError>)
    ensures
        recipients@.len() == 0 ==> record_view(r) == Err::<(u64, ShareView), ShareError>(
            ShareError::EmptyRecipients,
        ) && final(ids).spec_counter() == old(ids).spec_counter(),
        recipients@.len() > 0 && old(ids).spec_counter() == u64::MAX ==> record_view(r) == Err::<
            (u64, ShareView),
            ShareError,
        >(ShareError::IdsExhausted) && final(ids).spec_counter() == old(ids).spec_counter(),
        recipients@.len() > 0 && old(ids).spec_counter() < u64::MAX ==> record_view(r) == Ok::<
            (u64, ShareView),
            ShareError,
        >((old(ids).spec_counter(), new_share(cid@, caller@, expiry, identities_view(recipients@))))
            && final(ids).spec_counter() == old(ids).spec_counter() + 1,
{
    if recipients.len() == 0 {
        return Err(ShareError::EmptyRecipients);
    }
    match ids.next_id() {
        Ok(id) => Ok((id, ShareMetadata { cid, owner: caller, expiry, revoked: false }, recipients)),
        Err(e) => Err(e),
    }
}

/// Revokes the share whose metadata is `meta` on behalf of `caller`. Only
/// the owner may revoke (`NotOwner` otherwise, with nothing changed);
/// revoking a revoked share succeeds and changes nothing.
pub fn revoke_record(meta: &mut ShareMetadata, caller: &Identity) -> (r: Result<(), ShareError>)
    ensures
        caller@ != old(meta).owner@ ==> r == Err::<(), ShareError>(ShareError::NotOwner)
            && *final(meta) == *old(meta),
        caller@ == old(meta).owner@ ==> r == Ok::<(), ShareError>(()) && *final(meta)
            == (ShareMetadata { revoked: true, ..*old(meta) }),
{
    if !caller.same_as(&meta.owner) {
        return Err(ShareError::NotOwner);
    }
    if !meta.revoked {
        meta.revoked = true;
    }
    Ok(())
}

/// Decides whether `caller` may read the share stored as `meta` and
/// `recipients` at time `now`: the share must be neither revoked nor past its
/// expiry, and `caller` must be its owner or one of its recipients.
pub fn check_share(meta: &ShareMetadata, recipients: &Vec<Identity>, caller: &Identity, now: u64) -> (r:
    Result<(), ShareError>)
    ensures
        r == share_permission(share_view(*meta, recipients@), caller@, now),
{
    if meta.revoked || now > meta.expiry {
        return Err(ShareError::RevokedOrExpired);
    }
    if caller.same_as(&meta.owner) {
        return Ok(());
    }
    let ghost rv = identities_view(recipients@);
    let mut j: usize = 0;
    while j < recipients.len()
        invariant
            j <= recipients@.len(),
            rv == identities_view(recipients@),
            is_open(share_view(*meta, recipients@), now),
            caller@ != meta.owner@,
            forall|k: int| 0 <= k < j ==> rv[k] != caller@,
        decreases recipients@.len() - j,
    {
        if caller.same_as(&recipients[j]) {
            assert(rv[j as int] == caller@);
            assert(rv.contains(caller@));
            return Ok(());
        }
        j = j + 1;
    }
    assert(!rv.contains(caller@));
    Err(ShareError::NoAccess)
}

} // verus!
