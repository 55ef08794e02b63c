use solcipher::{
    check_share, create_record, revoke_record, Identity, Registry, ShareError, ShareIdAllocator,
    ShareMetadata,
};

fn id(b: u8) -> Identity {
    Identity::new(vec![b, b, b])
}

fn cid(s: &str) -> String {
    s.to_string()
}

#[test]
fn empty_recipients_rejected_without_allocating() {
    let mut reg = Registry::new();
    assert_eq!(reg.create_share(cid("bafy123"), vec![], 100, id(1)), Err(ShareError::EmptyRecipients));
    assert_eq!(reg.share_count(), 0);
    assert_eq!(reg.create_share(cid("bafy123"), vec![id(2)], 100, id(1)), Ok(0));
    assert_eq!(reg.create_share(cid("x"), vec![], 100, id(1)), Err(ShareError::EmptyRecipients));
    assert_eq!(reg.share_count(), 1);
    assert_eq!(reg.create_share(cid("y"), vec![id(2)], 100, id(1)), Ok(1));
}

#[test]
fn ids_strictly_increase_and_never_repeat() {
    let mut reg = Registry::new();
    let mut prev: Option<u64> = None;
    for k in 0..50u64 {
        if k % 3 == 0 {
            assert_eq!(reg.create_share(cid("c"), vec![], 10, id(1)), Err(ShareError::EmptyRecipients));
        }
        if k % 5 == 0 && k > 0 {
            assert_eq!(reg.revoke_share(k / 2, &id(1)), Ok(()));
        }
        let got = reg.create_share(cid("c"), vec![id(2)], 10, id(1)).unwrap();
        if let Some(p) = prev {
            assert!(got > p);
        }
        prev = Some(got);
    }
    assert_eq!(reg.share_count(), 50);
}

#[test]
fn owner_reads_exact_cid_until_expiry() {
    let mut reg = Registry::new();
    let s = reg.create_share(cid("bafy-owner"), vec![id(2)], 1000, id(1)).unwrap();
    for now in [0u64, 1, 500, 999, 1000] {
        assert_eq!(reg.get_cid_if_allowed(s, &id(1), now), Ok(cid("bafy-owner")));
    }
}

#[test]
fn recipient_reads_and_stranger_is_refused() {
    let mut reg = Registry::new();
    let s = reg.create_share(cid("bafy-r"), vec![id(2), id(3)], 10, id(1)).unwrap();
    assert_eq!(reg.get_cid_if_allowed(s, &id(2), 5), Ok(cid("bafy-r")));
    assert_eq!(reg.get_cid_if_allowed(s, &id(3), 5), Ok(cid("bafy-r")));
    assert_eq!(reg.get_cid_if_allowed(s, &id(4), 5), Err(ShareError::NoAccess));
    assert_eq!(reg.check_permission(s, &id(4), 5), Err(ShareError::NoAccess));
    assert_eq!(reg.check_permission(s, &id(2), 5), Ok(()));
    // A prefix of a recipient's bytes is another identity.
    assert_eq!(reg.get_cid_if_allowed(s, &Identity::new(vec![2, 2]), 5), Err(ShareError::NoAccess));
}

#[test]
fn revoke_closes_for_everyone_and_is_idempotent() {
    let mut reg = Registry::new();
    let s = reg.create_share(cid("bafy-v"), vec![id(2)], 100, id(1)).unwrap();
    assert_eq!(reg.revoke_share(s, &id(1)), Ok(()));
    assert_eq!(reg.is_revoked(s), Ok(true));
    for who in [id(1), id(2), id(3)] {
        assert_eq!(reg.get_cid_if_allowed(s, &who, 10), Err(ShareError::RevokedOrExpired));
    }
    assert_eq!(reg.revoke_share(s, &id(1)), Ok(()));
    assert_eq!(reg.is_revoked(s), Ok(true));
    assert_eq!(reg.get_cid_if_allowed(s, &id(1), 10), Err(ShareError::RevokedOrExpired));
}

#[test]
fn non_owner_cannot_revoke() {
    let mut reg = Registry::new();
    let s = reg.create_share(cid("bafy-n"), vec![id(2)], 100, id(1)).unwrap();
    assert_eq!(reg.revoke_share(s, &id(2)), Err(ShareError::NotOwner));
    assert_eq!(reg.is_revoked(s), Ok(false));
    assert_eq!(reg.get_cid_if_allowed(s, &id(2), 50), Ok(cid("bafy-n")));
}

#[test]
fn expiry_instant_still_open() {
    let mut reg = Registry::new();
    let s = reg.create_share(cid("bafy-e"), vec![id(2)], 100, id(1)).unwrap();
    assert_eq!(reg.get_cid_if_allowed(s, &id(2), 100), Ok(cid("bafy-e")));
    assert_eq!(reg.get_cid_if_allowed(s, &id(2), 101), Err(ShareError::RevokedOrExpired));
    assert_eq!(reg.get_cid_if_allowed(s, &id(1), 101), Err(ShareError::RevokedOrExpired));
    assert_eq!(reg.get_cid_if_allowed(s, &id(1), u64::MAX), Err(ShareError::RevokedOrExpired));
    // A closed window is reported before the membership check.
    assert_eq!(reg.get_cid_if_allowed(s, &id(9), 101), Err(ShareError::RevokedOrExpired));
}

#[test]
fn example_lifecycle() {
    let (o, a, b, c) = (id(10), id(11), id(12), id(13));
    let mut reg = Registry::new();
    let s = reg
        .create_share(cid("bafy123"), vec![id(11), id(12)], 100, id(10))
        .unwrap();
    for who in [&a, &b, &o] {
        assert_eq!(reg.get_cid_if_allowed(s, who, 50), Ok(cid("bafy123")));
        assert_eq!(reg.get_cid_if_allowed(s, who, 100), Ok(cid("bafy123")));
        assert_eq!(reg.get_cid_if_allowed(s, who, 101), Err(ShareError::RevokedOrExpired));
    }
    assert_eq!(reg.get_cid_if_allowed(s, &c, 50), Err(ShareError::NoAccess));

    let mut reg = Registry::new();
    let s = reg
        .create_share(cid("bafy123"), vec![id(11), id(12)], 100, id(10))
        .unwrap();
    assert_eq!(reg.revoke_share(s, &o), Ok(()));
    for now in [40u64, 50, 100] {
        for who in [&a, &b, &o, &c] {
            assert_eq!(reg.get_cid_if_allowed(s, who, now), Err(ShareError::RevokedOrExpired));
        }
    }
}

#[test]
fn unknown_share_not_found() {
    let mut reg = Registry::new();
    assert_eq!(reg.get_cid_if_allowed(0, &id(1), 0), Err(ShareError::ShareNotFound));
    assert_eq!(reg.revoke_share(0, &id(1)), Err(ShareError::ShareNotFound));
    assert_eq!(reg.is_revoked(0), Err(ShareError::ShareNotFound));
    let s = reg.create_share(cid("z"), vec![id(2)], 5, id(1)).unwrap();
    assert_eq!(reg.get_cid_if_allowed(s + 1, &id(1), 0), Err(ShareError::ShareNotFound));
    assert_eq!(reg.check_permission(s + 1, &id(1), 0), Err(ShareError::ShareNotFound));
}

#[test]
fn single_recipient_share() {
    let mut reg = Registry::new();
    let s = reg.create_share(cid("one"), vec![id(2)], 7, id(1)).unwrap();
    assert_eq!(reg.get_cid_if_allowed(s, &id(2), 7), Ok(cid("one")));
    assert_eq!(reg.get_cid_if_allowed(s, &id(3), 7), Err(ShareError::NoAccess));
}

#[test]
fn allocator_counts_and_stops_at_the_top() {
    let mut ids = ShareIdAllocator::new();
    assert_eq!(ids.next_id(), Ok(0));
    assert_eq!(ids.next_id(), Ok(1));
    assert_eq!(ids.counter(), 2);
    let mut top = ShareIdAllocator::with_counter(u64::MAX - 1);
    assert_eq!(top.next_id(), Ok(u64::MAX - 1));
    assert_eq!(top.next_id(), Err(ShareError::IdsExhausted));
    assert_eq!(top.counter(), u64::MAX);
}

#[test]
fn create_record_builds_fresh_share() {
    let mut ids = ShareIdAllocator::with_counter(7);
    assert!(matches!(
        create_record(&mut ids, cid("r"), vec![], 3, id(1)),
        Err(ShareError::EmptyRecipients)
    ));
    assert_eq!(ids.counter(), 7);
    let (n, meta, rs) = create_record(&mut ids, cid("r"), vec![id(2)], 3, id(1)).unwrap();
    assert_eq!(n, 7);
    assert_eq!(ids.counter(), 8);
    assert_eq!(meta.cid, "r");
    assert!(meta.owner.same_as(&id(1)));
    assert_eq!(meta.expiry, 3);
    assert!(!meta.revoked);
    assert_eq!(rs.len(), 1);
    assert_eq!(check_share(&meta, &rs, &id(2), 3), Ok(()));
    assert_eq!(check_share(&meta, &rs, &id(2), 4), Err(ShareError::RevokedOrExpired));
}

#[test]
fn revoke_record_checks_owner() {
    let mut meta = ShareMetadata { cid: cid("m"), owner: id(1), expiry: 9, revoked: false };
    assert_eq!(revoke_record(&mut meta, &id(2)), Err(ShareError::NotOwner));
    assert!(!meta.revoked);
    assert_eq!(revoke_record(&mut meta, &id(1)), Ok(()));
    assert!(meta.revoked);
    assert_eq!(revoke_record(&mut meta, &id(1)), Ok(()));
    assert!(meta.revoked);
    assert_eq!(meta.cid, "m");
}

#[test]
fn identity_comparison_is_bytewise() {
    assert!(id(1).same_as(&id(1)));
    assert!(!id(1).same_as(&id(2)));
    assert!(!Identity::new(vec![1, 1]).same_as(&id(1)));
    assert!(Identity::new(vec![]).same_as(&Identity::new(vec![])));
    assert_eq!(id(4).as_bytes(), &vec![4u8, 4, 4]);
}

#[test]
fn error_codes_are_distinct() {
    let all = [
        ShareError::EmptyRecipients,
        ShareError::NotOwner,
        ShareError::ShareNotFound,
        ShareError::RevokedOrExpired,
        ShareError::NoAccess,
        ShareError::IdsExhausted,
    ];
    let codes: Vec<u16> = all.iter().map(|e| e.code()).collect();
    assert_eq!(codes, vec![100, 101, 102, 103, 104, 105]);
}
