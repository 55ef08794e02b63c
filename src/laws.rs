//! Laws of the share lifecycle, stated over the model that the operations of
//! `Registry` are specified by.
use vstd::prelude::*;

use crate::error::ShareError;
use crate::registry::{access, create_outcome, revoke_outcome};
use crate::share::{may_read, ShareView};

verus! {

/// A state-changing request to the registry, in model form.
pub enum Request {
    Create { cid: Seq<char>, recipients: Seq<Seq<u8>>, expiry: u64, caller: Seq<u8> },
    Revoke { id: u64, caller: Seq<u8> },
}

/// The shares after one request.
pub open spec fn apply(shares: Seq<ShareView>, req: Request) -> Seq<ShareView> {
    match req {
        Request::Create { cid, recipients, expiry, caller } => create_outcome(
            shares,
            cid,
            recipients,
            expiry,
            caller,
        ).0,
        Request::Revoke { id, caller } => revoke_outcome(shares, id, caller).0,
    }
}

/// The identifier that one request hands out, if any.
pub open spec fn issued(shares: Seq<ShareView>, req: Request) -> Option<u64> {
    match req {
        Request::Create { cid, recipients, expiry, caller } => match create_outcome(
            shares,
            cid,
            recipients,
            expiry,
            caller,
        ).1 {
            Ok(id) => Some(id),
            Err(_) => None,
        },
        Request::Revoke { .. } => None,
    }
}

/// The shares after a sequence of requests, applied in order.
pub open spec fn run(shares: Seq<ShareView>, reqs: Seq<Request>) -> Seq<ShareView>
    decreases reqs.len(),
{
    if reqs.len() == 0 {
        shares
    } else {
        apply(run(shares, reqs.drop_last()), reqs.last())
    }
}

/// What a request may do to an existing share: its CID, owner, expiry and
/// recipients stay as they are, and `revoked` only goes from false to true.
pub open spec fn evolves(before: ShareView, after: ShareView) -> bool {
    &&& after.cid == before.cid
    &&& after.owner == before.owner
    &&& after.expiry == before.expiry
    &&& after.recipients == before.recipients
    &&& before.revoked ==> after.revoked
}

/// A create request with no recipients fails with `EmptyRecipients` and
/// changes nothing, so no identifier is used up.
pub proof fn lemma_empty_recipients_rejected(
    shares: Seq<ShareView>,
    cid: Seq<char>,
    expiry: u64,
    caller: Seq<u8>,
)
    ensures
        create_outcome(shares, cid, Seq::empty(), expiry, caller) == (
            shares,
            Err::<u64, ShareError>(ShareError::EmptyRecipients),
        ),
{
}

/// One request keeps every existing share (in the sense of `evolves`) and
/// never removes one.
pub proof fn lemma_request_keeps_shares(shares: Seq<ShareView>, req: Request)
    ensures
        apply(shares, req).len() >= shares.len(),
        forall|id: int| 0 <= id < shares.len() ==> evolves(shares[id], #[trigger] apply(shares, req)[id]),
        issued(shares, req) matches Some(n) ==> n == shares.len() && apply(shares, req).len() == n + 1,
{
}

/// Any sequence of requests keeps every existing share (in the sense of
/// `evolves`) and never removes one.
pub proof fn lemma_run_keeps_shares(shares: Seq<ShareView>, reqs: Seq<Request>)
    ensures
        run(shares, reqs).len() >= shares.len(),
        forall|id: int| 0 <= id < shares.len() ==> evolves(shares[id], #[trigger] run(shares, reqs)[id]),
    decreases reqs.len(),
{
    if reqs.len() > 0 {
        let mid = run(shares, reqs.drop_last());
        lemma_run_keeps_shares(shares, reqs.drop_last());
        lemma_request_keeps_shares(mid, reqs.last());
        assert forall|id: int| 0 <= id < shares.len() implies evolves(
            shares[id],
            #[trigger] run(shares, reqs)[id],
        ) by {
            assert(evolves(shares[id], mid[id]));
            assert(evolves(mid[id], apply(mid, reqs.last())[id]));
        }
    }
}

/// The number of shares never goes down along a sequence of requests.
pub proof fn lemma_run_count_grows(shares: Seq<ShareView>, reqs: Seq<Request>, i: int, j: int)
    requires
        0 <= i <= j <= reqs.len(),
    ensures
        run(shares, reqs.take(i)).len() <= run(shares, reqs.take(j)).len(),
    decreases j - i,
{
    if i < j {
        lemma_run_count_grows(shares, reqs, i, j - 1);
        assert(reqs.take(j).drop_last() =~= reqs.take(j - 1));
        lemma_request_keeps_shares(run(shares, reqs.take(j - 1)), reqs.take(j).last());
    }
}

/// Along any sequence of requests, the identifiers that successful creates
/// hand out are strictly increasing, so none is handed out twice.
pub proof fn lemma_ids_strictly_increase(
    shares: Seq<ShareView>,
    reqs: Seq<Request>,
    i: int,
    j: int,
    a: u64,
    b: u64,
)
    requires
        0 <= i < j < reqs.len(),
        issued(run(shares, reqs.take(i)), reqs[i]) == Some(a),
        issued(run(shares, reqs.take(j)), reqs[j]) == Some(b),
    ensures
        a < b,
{
    let before_i = run(shares, reqs.take(i));
    lemma_request_keeps_shares(before_i, reqs[i]);
    assert(reqs.take(i + 1).drop_last() =~= reqs.take(i));
    assert(reqs.take(i + 1).last() == reqs[i]);
    assert(run(shares, reqs.take(i + 1)) == apply(before_i, reqs[i]));
    lemma_run_count_grows(shares, reqs, i + 1, j);
    lemma_request_keeps_shares(run(shares, reqs.take(j)), reqs[j]);
}

/// A share just created can be read by its owner and by each listed
/// recipient, and yields exactly the CID given at creation, for as long as
/// it is not revoked and its expiry is not past, whatever requests come in
/// between; anyone else is refused with `NoAccess`.
pub proof fn lemma_created_share_readable(
    shares: Seq<ShareView>,
    cid: Seq<char>,
    recipients: Seq<Seq<u8>>,
    expiry: u64,
    owner: Seq<u8>,
    later: Seq<Request>,
    caller: Seq<u8>,
    now: u64,
)
    requires
        recipients.len() > 0,
        shares.len() < u64::MAX,
        now <= expiry,
        !run(create_outcome(shares, cid, recipients, expiry, owner).0, later)[shares.len() as int].revoked,
    ensures
        create_outcome(shares, cid, recipients, expiry, owner).1 == Ok::<u64, ShareError>(
            shares.len() as u64,
        ),
        (caller == owner || recipients.contains(caller)) ==> access(
            run(create_outcome(shares, cid, recipients, expiry, owner).0, later),
            shares.len() as u64,
            caller,
            now,
        ) == Ok::<Seq<char>, ShareError>(cid),
        !(caller == owner || recipients.contains(caller)) ==> access(
            run(create_outcome(shares, cid, recipients, expiry, owner).0, later),
            shares.len() as u64,
            caller,
            now,
        ) == Err::<Seq<char>, ShareError>(ShareError::NoAccess),
{
    let created = create_outcome(shares, cid, recipients, expiry, owner).0;
    lemma_run_keeps_shares(created, later);
    assert(evolves(created[shares.len() as int], run(created, later)[shares.len() as int]));
}

/// Once the owner has revoked a share, every later read of it, by anyone and
/// at any time, fails with `RevokedOrExpired`, whatever requests come in
/// between; revoking it again succeeds and changes nothing.
pub proof fn lemma_revoke_closes(
    shares: Seq<ShareView>,
    id: u64,
    owner: Seq<u8>,
    later: Seq<Request>,
    caller: Seq<u8>,
    now: u64,
)
    requires
        id < shares.len(),
        owner == shares[id as int].owner,
    ensures
        revoke_outcome(shares, id, owner).1 == Ok::<(), ShareError>(()),
        access(run(revoke_outcome(shares, id, owner).0, later), id, caller, now) == Err::<
            Seq<char>,
            ShareError,
        >(ShareError::RevokedOrExpired),
        revoke_outcome(revoke_outcome(shares, id, owner).0, id, owner) == (
            revoke_outcome(shares, id, owner).0,
            Ok::<(), ShareError>(()),
        ),
{
    let revoked = revoke_outcome(shares, id, owner).0;
    lemma_run_keeps_shares(revoked, later);
    assert(evolves(revoked[id as int], run(revoked, later)[id as int]));
    assert(revoked.update(id as int, ShareView { revoked: true, ..revoked[id as int] }) =~= revoked);
}

/// A revoke request by anyone but the owner fails with `NotOwner` and
/// changes nothing.
pub proof fn lemma_non_owner_cannot_revoke(shares: Seq<ShareView>, id: u64, caller: Seq<u8>)
    requires
        id < shares.len(),
        caller != shares[id as int].owner,
    ensures
        revoke_outcome(shares, id, caller) == (shares, Err::<(), ShareError>(ShareError::NotOwner)),
{
}

/// At the expiry instant a share that is not revoked can still be read by
/// those it grants access to; at any later time it is refused to everyone
/// with `RevokedOrExpired`.
pub proof fn lemma_expiry_boundary(shares: Seq<ShareView>, id: u64, caller: Seq<u8>, now: u64)
    requires
        id < shares.len(),
    ensures
        !shares[id as int].revoked && may_read(shares[id as int], caller) ==> access(
            shares,
            id,
            caller,
            shares[id as int].expiry,
        ) == Ok::<Seq<char>, ShareError>(shares[id as int].cid),
        now > shares[id as int].expiry ==> access(shares, id, caller, now) == Err::<
            Seq<char>,
            ShareError,
        >(ShareError::RevokedOrExpired),
{
}

} // verus!
