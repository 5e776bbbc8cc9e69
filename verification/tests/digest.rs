use node_runtime::block::{Header, HeaderField};
use node_runtime::digest::{
    digest_clone, digest_eq, find_log, forced_change, pending_change, DigestItem, LogKind,
    LogPayload, ScheduledChange,
};

const GRANDPA: u8 = 12;
const AURA: u8 = 1;

fn change(delay: u64, voter: u8) -> ScheduledChange {
    ScheduledChange { delay, next_authorities: vec![([voter; 32], 1), ([voter + 1; 32], 2)] }
}

fn digest() -> Vec<DigestItem> {
    vec![
        DigestItem { module: AURA, payload: LogPayload::PreRuntime(vec![9]) },
        DigestItem { module: AURA, payload: LogPayload::AuthoritiesChange(change(1, 50)) },
        DigestItem { module: GRANDPA, payload: LogPayload::Other(vec![1]) },
        DigestItem { module: GRANDPA, payload: LogPayload::ForcedAuthoritiesChange(40, change(2, 60)) },
        DigestItem { module: GRANDPA, payload: LogPayload::AuthoritiesChange(change(3, 70)) },
        DigestItem { module: GRANDPA, payload: LogPayload::AuthoritiesChange(change(4, 80)) },
        DigestItem { module: GRANDPA, payload: LogPayload::ForcedAuthoritiesChange(41, change(5, 90)) },
        DigestItem { module: 0, payload: LogPayload::ChangesTrieRoot([3; 32]) },
    ]
}

#[test]
fn the_first_scheduled_change_of_the_module_is_found() {
    let digest = digest();
    assert_eq!(pending_change(&digest, GRANDPA), Some(&change(3, 70)));
    assert_eq!(pending_change(&digest, AURA), Some(&change(1, 50)));
    assert_eq!(pending_change(&digest, 0), None);
    assert_eq!(pending_change(&vec![], GRANDPA), None);
}

#[test]
fn the_first_forced_change_of_the_module_is_found() {
    let digest = digest();
    assert_eq!(forced_change(&digest, GRANDPA), Some((40, &change(2, 60))));
    assert_eq!(forced_change(&digest, AURA), None);
    assert_eq!(forced_change(&digest[4..].to_vec(), GRANDPA), Some((41, &change(5, 90))));
}

#[test]
fn logs_are_found_by_module_and_kind() {
    let digest = digest();
    assert_eq!(find_log(&digest, AURA, LogKind::PreRuntime), Some(0));
    assert_eq!(find_log(&digest, GRANDPA, LogKind::Other), Some(2));
    assert_eq!(find_log(&digest, GRANDPA, LogKind::AuthoritiesChange), Some(4));
    assert_eq!(find_log(&digest, GRANDPA, LogKind::ForcedAuthoritiesChange), Some(3));
    assert_eq!(find_log(&digest, 0, LogKind::ChangesTrieRoot), Some(7));
    assert_eq!(find_log(&digest, GRANDPA, LogKind::PreRuntime), None);
    assert_eq!(find_log(&digest, 99, LogKind::Other), None);
}

#[test]
fn payloads_know_their_kind() {
    assert_eq!(LogPayload::ChangesTrieRoot([0; 32]).kind(), LogKind::ChangesTrieRoot);
    assert_eq!(LogPayload::PreRuntime(vec![]).kind(), LogKind::PreRuntime);
    assert_eq!(LogPayload::AuthoritiesChange(change(0, 0)).kind(), LogKind::AuthoritiesChange);
    assert_eq!(
        LogPayload::ForcedAuthoritiesChange(0, change(0, 0)).kind(),
        LogKind::ForcedAuthoritiesChange
    );
    assert_eq!(LogPayload::Other(vec![]).kind(), LogKind::Other);
}

#[test]
fn digests_are_compared_item_by_item() {
    let a = digest();
    let mut b = digest_clone(&a);
    assert_eq!(a, b);
    assert!(digest_eq(&a, &b));
    b[3] = DigestItem { module: GRANDPA, payload: LogPayload::ForcedAuthoritiesChange(40, change(2, 61)) };
    assert!(!digest_eq(&a, &b));
    let mut c = digest_clone(&a);
    c.pop();
    assert!(!digest_eq(&a, &c));
    assert!(!digest_eq(&c, &a));
    let mut d = digest_clone(&a);
    d[0].module = AURA + 1;
    assert!(!digest_eq(&a, &d));
    assert!(digest_eq(&vec![], &vec![]));
}

#[test]
fn payloads_of_different_kinds_differ() {
    let other = LogPayload::Other(vec![9]);
    let claim = LogPayload::PreRuntime(vec![9]);
    assert!(!other.same_as(&claim));
    assert!(other.same_as(&other.clone()));
    assert!(claim.same_as(&LogPayload::PreRuntime(vec![9])));
    assert!(!claim.same_as(&LogPayload::PreRuntime(vec![9, 9])));
    let scheduled = LogPayload::AuthoritiesChange(change(1, 1));
    let forced = LogPayload::ForcedAuthoritiesChange(1, change(1, 1));
    assert!(!scheduled.same_as(&forced));
    assert!(!forced.same_as(&LogPayload::ForcedAuthoritiesChange(2, change(1, 1))));
    assert!(!change(1, 1).same_as(&change(2, 1)));
    let mut reweighted = change(1, 1);
    reweighted.next_authorities[1].1 = 3;
    assert!(!change(1, 1).same_as(&reweighted));
    assert!(change(1, 1).same_as(&change(1, 1).clone()));
}

fn header() -> Header {
    Header {
        parent_hash: [1; 32],
        number: 2,
        state_root: [3; 32],
        extrinsics_root: [4; 32],
        digest: digest(),
    }
}

#[test]
fn equal_headers_have_no_mismatch() {
    assert_eq!(header().mismatch(&header()), None);
    assert_eq!(header().mismatch(&header().clone()), None);
}

#[test]
fn headers_are_compared_in_field_order() {
    let mut other = header();
    other.digest.pop();
    assert_eq!(header().mismatch(&other), Some(HeaderField::Digest));
    other.extrinsics_root[31] = 0;
    assert_eq!(header().mismatch(&other), Some(HeaderField::ExtrinsicsRoot));
    other.state_root[0] = 0;
    assert_eq!(header().mismatch(&other), Some(HeaderField::StateRoot));
    other.number = 3;
    assert_eq!(header().mismatch(&other), Some(HeaderField::Number));
    other.parent_hash[5] = 0;
    assert_eq!(header().mismatch(&other), Some(HeaderField::ParentHash));
}
