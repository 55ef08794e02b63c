use vstd::prelude::*;

use crate::allocator::ShareIdAllocator;
use crate::error::ShareError;
use crate::identity::Identity;
use crate::share::{
    check_share, create_record, identities_view, new_share, revoke_record, share_permission,
    share_view, ShareMetadata, ShareView,
};

verus! {

/// The access decision for `caller` on share `id` at time `now`.
pub open spec fn permission(shares: Seq<ShareView>, id: u64, caller: Seq<u8>, now: u64) -> Result<
    (),
    ShareError,
> {
    if id >= shares.len() {
        Err(ShareError::ShareNotFound)
    } else {
        share_permission(shares[id as int], caller, now)
    }
}

/// What resolving share `id` for `caller` at time `now` yields: the CID when
/// access is granted, else the reason for refusal.
pub open spec fn access(shares: Seq<ShareView>, id: u64, caller: Seq<u8>, now: u64) -> Result<
    Seq<char>,
    ShareError,
> {
    match permission(shares, id, caller, now) {
        Ok(_) => Ok(shares[id as int].cid),
        Err(e) => Err(e),
    }
}

/// The shares after a create request, and its result.
pub open spec fn create_outcome(
    shares: Seq<ShareView>,
    cid: Seq<char>,
    recipients: Seq<Seq<u8>>,
    expiry: u64,
    caller: Seq<u8>,
) -> (Seq<ShareView>, Result<u64, ShareError>) {
    if recipients.len() == 0 {
        (shares, Err(ShareError::EmptyRecipients))
    } else if shares.len() >= u64::MAX {
        (shares, Err(ShareError::IdsExhausted))
    } else {
        (shares.push(new_share(cid, caller, expiry, recipients)), Ok(shares.len() as u64))
    }
}

/// The shares after a revoke request, and its result.
pub open spec fn revoke_outcome(shares: Seq<ShareView>, id: u64, caller: Seq<u8>) -> (
    Seq<ShareView>,
    Result<(), ShareError>,
) {
    if id >= shares.len() {
        (shares, Err(ShareError::ShareNotFound))
    } else if caller != shares[id as int].owner {
        (shares, Err(ShareError::NotOwner))
    } else {
        (shares.update(id as int, ShareView { revoked: true, ..shares[id as int] }), Ok(()))
    }
}

/// The model of a resolved CID.
pub open spec fn cid_result_view(r: Result<String, ShareError>) -> Result<Seq<char>, ShareError> {
    match r {
        Ok(c) => Ok(c@),
        Err(e) => Err(e),
    }
}

/// The registry of shares. Share `i` has its metadata at position `i` and its
/// recipients at position `i`, and the allocator's counter is the number of
/// shares, so identifiers are handed out once each, in increasing order.
pub struct Registry {
    ids: ShareIdAllocator,
    metadata: Vec<ShareMetadata>,
    recipients: Vec<Vec<Identity>>,
}

impl View for Registry {
    type V = Seq<ShareView>;

    closed spec fn view(&self) -> Seq<ShareView> {
        Seq::new(
            self.metadata@.len(),
            |i: int| share_view(self.metadata@[i], self.recipients@[i]@),
        )
    }
}

impl Registry {
    /// The stores are in step with each other and with the counter, and every
    /// share has at least one recipient.
    pub closed spec fn wf(&self) -> bool {
        &&& self.ids.spec_counter() == self.metadata@.len()
        &&& self.recipients@.len() == self.metadata@.len()
        &&& forall|i: int| 0 <= i < self.recipients@.len() ==> #[trigger] self.recipients@[i]@.len() > 0
    }

    /// Every share of a well-formed registry has at least one recipient.
    pub proof fn lemma_recipients_nonempty(&self)
        requires
            self.wf(),
        ensures
            forall|i: int| 0 <= i < self@.len() ==> #[trigger] self@[i].recipients.len() > 0,
    {
        assert forall|i: int| 0 <= i < self@.len() implies #[trigger] self@[i].recipients.len() > 0 by {
            assert(self.recipients@[i]@.len() > 0);
        }
    }

    /// An empty registry.
    pub fn new() -> (r: Registry)
        ensures
            r.wf(),
            r@ == Seq::<ShareView>::empty(),
    {
        let r = Registry { ids: ShareIdAllocator::new(), metadata: Vec::new(), recipients: Vec::new() };
        assert(r@ =~= Seq::<ShareView>::empty());
        r
    }

    /// The number of shares created so far, which is also the identifier
    /// that the next successful create hands out.
    pub fn share_count(&self) -> (r: u64)
        requires
            self.wf(),
        ensures
            r == self@.len(),
    {
        self.ids.counter()
    }

    /// The position of share `share_id` in the stores, if it exists.
    fn position(&self, share_id: u64) -> (r: Option<usize>)
        requires
            self.wf(),
        ensures
            share_id < self@.len() ==> r == Some(share_id as usize) && share_id as usize == share_id,
            share_id >= self@.len() ==> r is None,
    {
        let n = self.metadata.len();
        if share_id >= n as u64 {
            None
        } else {
            Some(share_id as usize)
        }
    }

    /// Creates a share of `cid` for `recipients` until `expiry`, owned by
    /// `caller`, and returns its identifier. An empty recipient list is
    /// rejected with `EmptyRecipients`, and when no identifier is left the
    /// request is rejected with `IdsExhausted`; a rejected request changes
    /// nothing and hands out no identifier.
    pub fn create_share(
        &mut self,
        cid: String,
        recipients: Vec<Identity>,
        expiry: u64,
        caller: Identity,
    ) -> (r: Result<u64, ShareError>)
        requires
            old(self).wf(),
        ensures
            final(self).wf(),
            (final(self)@, r) == create_outcome(
                old(self)@,
                cid@,
                identities_view(recipients@),
                expiry,
                caller@,
            ),
    {
        let ghost before = self@;
        let ghost n = recipients@.len();
        match create_record(&mut self.ids, cid, recipients, expiry, caller) {
            Ok((id, meta, rs)) => {
                // Recipients go in before the metadata that makes the share visible.
                self.recipients.push(rs);
                self.metadata.push(meta);
                proof {
                    assert(self@ =~= before.push(share_view(meta, rs@)));
                    assert(identities_view(rs@).len() == n);
                    assert(self.recipients@[self.recipients@.len() - 1]@.len() > 0);
                }
                Ok(id)
            },
            Err(e) => Err(e),
        }
    }

    /// Revokes share `share_id` on behalf of `caller`. Only the owner may
    /// revoke (`NotOwner` otherwise, with nothing changed); an unknown
    /// identifier gives `ShareNotFound`. Revoking a revoked share succeeds
    /// and changes nothing.
    pub fn revoke_share(&mut self, share_id: u64, caller: &Identity) -> (r: Result<(), ShareError>)
        requires
            old(self).wf(),
        ensures
            final(self).wf(),
            (final(self)@, r) == revoke_outcome(old(self)@, share_id, caller@),
            final(self)@.len() == old(self)@.len(),
    {
        let i = match self.position(share_id) {
            Some(i) => i,
            None => {
                return Err(ShareError::ShareNotFound);
            },
        };
        let ghost before = self@;
        let r = revoke_record(&mut self.metadata[i], caller);
        proof {
            if r is Ok {
                assert(self@ =~= before.update(i as int, ShareView { revoked: true, ..before[i as int] }));
            } else {
                assert(self@ =~= before);
            }
        }
        r
    }

    /// Decides whether `caller` may read share `share_id` at time `now`: the
    /// share must exist, be neither revoked nor past its expiry, and `caller`
    /// must be its owner or one of its recipients.
    pub fn check_permission(&self, share_id: u64, caller: &Identity, now: u64) -> (r: Result<
        (),
        ShareError,
    >)
        requires
            self.wf(),
        ensures
            r == permission(self@, share_id, caller@, now),
    {
        let i = match self.position(share_id) {
            Some(i) => i,
            None => {
                return Err(ShareError::ShareNotFound);
            },
        };
        if i >= self.recipients.len() {
            return Err(ShareError::ShareNotFound);
        }
        check_share(&self.metadata[i], &self.recipients[i], caller, now)
    }

    /// Resolves share `share_id` for `caller` at time `now`: the CID stored at
    /// creation when `check_permission` grants access, else its refusal.
    /// Nothing is changed.
    pub fn get_cid_if_allowed(&self, share_id: u64, caller: &Identity, now: u64) -> (r: Result<
        String,
        ShareError,
    >)
        requires
            self.wf(),
        ensures
            cid_result_view(r) == access(self@, share_id, caller@, now),
    {
        match self.check_permission(share_id, caller, now) {
            Ok(()) => match self.position(share_id) {
                Some(i) => Ok(self.metadata[i].cid.clone()),
                None => Err(ShareError::ShareNotFound),
            },
            Err(e) => Err(e),
        }
    }

    /// Whether share `share_id` has been revoked; `ShareNotFound` for an
    /// unknown identifier.
    pub fn is_revoked(&self, share_id: u64) -> (r: Result<bool, ShareError>)
        requires
            self.wf(),
        ensures
            share_id < self@.len() ==> r == Ok::<bool, ShareError>(self@[share_id as int].revoked),
            share_id >= self@.len() ==> r == Err::<bool, ShareError>(ShareError::ShareNotFound),
    {
        match self.position(share_id) {
            Some(i) => Ok(self.metadata[i].revoked),
            None => Err(ShareError::ShareNotFound),
        }
    }
}

} // verus!
