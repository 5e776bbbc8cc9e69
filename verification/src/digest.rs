//! The digest items that modules leave in a header.
//!
//! A digest item carries the position of the module that produced it, so
//! that a consumer finds what it looks for by the module's tag and the kind
//! of payload.

use crate::primitives::{array_eq, bytes_eq, AuthorityId, BlockNumber, H256};
use vstd::prelude::*;

verus! {

/// A change of the authority set that takes effect after a delay.
#[derive(Debug, PartialEq, Eq)]
pub struct ScheduledChange {
    /// How many blocks after the signalling block the change takes effect.
    pub delay: BlockNumber,
    /// The authorities after the change, each with its voting weight.
    pub next_authorities: Vec<(AuthorityId, u64)>,
}

/// What a [`ScheduledChange`] stands for.
pub struct ScheduledChangeView {
    pub delay: BlockNumber,
    pub next_authorities: Seq<(AuthorityId, u64)>,
}

impl View for ScheduledChange {
    type V = ScheduledChangeView;

    open spec fn view(&self) -> ScheduledChangeView {
        ScheduledChangeView { delay: self.delay, next_authorities: self.next_authorities@ }
    }
}

impl Clone for ScheduledChange {
    fn clone(&self) -> (copy: Self)
        ensures
            copy@ == self@,
    {
        let mut next_authorities: Vec<(AuthorityId, u64)> = Vec::new();
        let mut i: usize = 0;
        while i < self.next_authorities.len()
            invariant
                i <= self.next_authorities.len(),
                next_authorities@ == self.next_authorities@.take(i as int),
            decreases self.next_authorities.len() - i,
        {
            next_authorities.push(self.next_authorities[i]);
            assert(self.next_authorities@.take(i + 1) == self.next_authorities@.take(
                i as int,
            ).push(self.next_authorities@[i as int]));
            i += 1;
        }
        assert(self.next_authorities@.take(self.next_authorities.len() as int)
            == self.next_authorities@);
        ScheduledChange { delay: self.delay, next_authorities }
    }
}

impl ScheduledChange {
    /// Whether two changes have the same delay and the same authorities.
    pub fn same_as(&self, other: &ScheduledChange) -> (same: bool)
        ensures
            same == (self@ == other@),
    {
        if self.delay != other.delay || self.next_authorities.len()
            != other.next_authorities.len() {
            return false;
        }
        let mut i: usize = 0;
        while i < self.next_authorities.len()
            invariant
                i <= self.next_authorities.len(),
                self.next_authorities.len() == other.next_authorities.len(),
                forall|k: int|
                    0 <= k < i ==> self.next_authorities@[k] == other.next_authorities@[k],
            decreases self.next_authorities.len() - i,
        {
            let a = &self.next_authorities[i];
            let b = &other.next_authorities[i];
            if !array_eq(&a.0, &b.0) || a.1 != b.1 {
                return false;
            }
            i += 1;
        }
        assert(self.next_authorities@ =~= other.next_authorities@);
        true
    }
}

/// The kinds of payload a digest item can carry.
#[derive(Clone, Copy, Debug, PartialEq, Eq, Structural)]
pub enum LogKind {
    ChangesTrieRoot,
    PreRuntime,
    AuthoritiesChange,
    ForcedAuthoritiesChange,
    Other,
}

/// What a module leaves in the header digest.
#[derive(Debug, PartialEq, Eq)]
pub enum LogPayload {
    /// The root of the trie of storage changes made by the block.
    ChangesTrieRoot(H256),
    /// A claim made by the block's author before the block ran, such as the
    /// slot it was authored in.
    PreRuntime(Vec<u8>),
    /// The authority set changes after a delay.
    AuthoritiesChange(ScheduledChange),
    /// The authority set changes after a delay, forced on a stalled chain;
    /// the number is the median last block that the authorities finalised.
    ForcedAuthoritiesChange(BlockNumber, ScheduledChange),
    /// Anything else, as the module encodes it.
    Other(Vec<u8>),
}

/// What a [`LogPayload`] stands for.
pub enum LogPayloadView {
    ChangesTrieRoot(H256),
    PreRuntime(Seq<u8>),
    AuthoritiesChange(ScheduledChangeView),
    ForcedAuthoritiesChange(BlockNumber, ScheduledChangeView),
    Other(Seq<u8>),
}

impl LogPayloadView {
    /// The kind of the payload.
    pub open spec fn kind(self) -> LogKind {
        match self {
            LogPayloadView::ChangesTrieRoot(_) => LogKind::ChangesTrieRoot,
            LogPayloadView::PreRuntime(_) => LogKind::PreRuntime,
            LogPayloadView::AuthoritiesChange(_) => LogKind::AuthoritiesChange,
            LogPayloadView::ForcedAuthoritiesChange(_, _) => LogKind::ForcedAuthoritiesChange,
            LogPayloadView::Other(_) => LogKind::Other,
        }
    }
}

impl View for LogPayload {
    type V = LogPayloadView;

    open spec fn view(&self) -> LogPayloadView {
        match self {
            LogPayload::ChangesTrieRoot(root) => LogPayloadView::ChangesTrieRoot(*root),
            LogPayload::PreRuntime(claim) => LogPayloadView::PreRuntime(claim@),
            LogPayload::AuthoritiesChange(change) => LogPayloadView::AuthoritiesChange(change@),
            LogPayload::ForcedAuthoritiesChange(median, change) => {
                LogPayloadView::ForcedAuthoritiesChange(*median, change@)
            },
            LogPayload::Other(data) => LogPayloadView::Other(data@),
        }
    }
}

impl Clone for LogPayload {
    fn clone(&self) -> (copy: Self)
        ensures
            copy@ == self@,
    {
        match self {
            LogPayload::ChangesTrieRoot(root) => LogPayload::ChangesTrieRoot(*root),
            LogPayload::PreRuntime(claim) => LogPayload::PreRuntime(claim.clone()),
            LogPayload::AuthoritiesChange(change) => LogPayload::AuthoritiesChange(change.clone()),
            LogPayload::ForcedAuthoritiesChange(median, change) => {
                LogPayload::ForcedAuthoritiesChange(*median, change.clone())
            },
            LogPayload::Other(data) => LogPayload::Other(data.clone()),
        }
    }
}

impl LogPayload {
    /// The kind of the payload.
    pub fn kind(&self) -> (kind: LogKind)
        ensures
            kind == self@.kind(),
    {
        match self {
            LogPayload::ChangesTrieRoot(_) => LogKind::ChangesTrieRoot,
            LogPayload::PreRuntime(_) => LogKind::PreRuntime,
            LogPayload::AuthoritiesChange(_) => LogKind::AuthoritiesChange,
            LogPayload::ForcedAuthoritiesChange(_, _) => LogKind::ForcedAuthoritiesChange,
            LogPayload::Other(_) => LogKind::Other,
        }
    }

    /// Whether two payloads are of the same kind and hold the same data.
    pub fn same_as(&self, other: &LogPayload) -> (same: bool)
        ensures
            same == (self@ == other@),
    {
        match (self, other) {
            (LogPayload::ChangesTrieRoot(a), LogPayload::ChangesTrieRoot(b)) => array_eq(a, b),
            (LogPayload::PreRuntime(a), LogPayload::PreRuntime(b)) => bytes_eq(a, b),
            (LogPayload::AuthoritiesChange(a), LogPayload::AuthoritiesChange(b)) => a.same_as(b),
            (
                LogPayload::ForcedAuthoritiesChange(m, a),
                LogPayload::ForcedAuthoritiesChange(n, b),
            ) => *m == *n && a.same_as(b),
            (LogPayload::Other(a), LogPayload::Other(b)) => bytes_eq(a, b),
            _ => false,
        }
    }
}

/// One item of a header's digest.
#[derive(Debug, PartialEq, Eq)]
pub struct DigestItem {
    /// The position of the module that produced the item.
    pub module: u8,
    /// What the module left.
    pub payload: LogPayload,
}

/// What a [`DigestItem`] stands for.
pub struct DigestItemView {
    pub module: u8,
    pub payload: LogPayloadView,
}

impl View for DigestItem {
    type V = DigestItemView;

    open spec fn view(&self) -> DigestItemView {
        DigestItemView { module: self.module, payload: self.payload@ }
    }
}

impl Clone for DigestItem {
    fn clone(&self) -> (copy: Self)
        ensures
            copy@ == self@,
    {
        DigestItem { module: self.module, payload: self.payload.clone() }
    }
}

impl DigestItem {
    /// Whether two items come from the same module with the same payload.
    pub fn same_as(&self, other: &DigestItem) -> (same: bool)
        ensures
            same == (self@ == other@),
    {
        self.module == other.module && self.payload.same_as(&other.payload)
    }
}

/// The payloads a list holds, in order.
pub open spec fn payloads_view(payloads: Seq<LogPayload>) -> Seq<LogPayloadView> {
    Seq::new(payloads.len(), |i: int| payloads[i]@)
}

/// The items a digest holds, in order.
pub open spec fn digest_view(items: Seq<DigestItem>) -> Seq<DigestItemView> {
    Seq::new(items.len(), |i: int| items[i]@)
}

/// Whether two digests hold the same items in the same order.
pub fn digest_eq(a: &Vec<DigestItem>, b: &Vec<DigestItem>) -> (same: bool)
    ensures
        same == (digest_view(a@) == digest_view(b@)),
{
    if a.len() != b.len() {
        assert(digest_view(a@).len() != digest_view(b@).len());
        return false;
    }
    let mut i: usize = 0;
    while i < a.len()
        invariant
            i <= a.len(),
            a.len() == b.len(),
            forall|k: int| 0 <= k < i ==> a@[k]@ == b@[k]@,
        decreases a.len() - i,
    {
        if !a[i].same_as(&b[i]) {
            assert(digest_view(a@)[i as int] != digest_view(b@)[i as int]);
            return false;
        }
        i += 1;
    }
    assert(digest_view(a@) =~= digest_view(b@));
    true
}

/// A copy of a digest.
pub fn digest_clone(items: &Vec<DigestItem>) -> (copy: Vec<DigestItem>)
    ensures
        digest_view(copy@) == digest_view(items@),
{
    let mut copy: Vec<DigestItem> = Vec::new();
    let mut i: usize = 0;
    while i < items.len()
        invariant
            i <= items.len(),
            copy.len() == i,
            forall|k: int| 0 <= k < i ==> copy@[k]@ == items@[k]@,
        decreases items.len() - i,
    {
        copy.push(items[i].clone());
        i += 1;
    }
    assert(digest_view(copy@) =~= digest_view(items@));
    copy
}

/// The item comes from `module` and carries a payload of `kind`.
pub open spec fn log_matches(item: DigestItemView, module: u8, kind: LogKind) -> bool {
    item.module == module && item.payload.kind() == kind
}

/// The item at `i` is the first that comes from `module` with a payload of
/// `kind`.
pub open spec fn is_first_log(
    digest: Seq<DigestItemView>,
    module: u8,
    kind: LogKind,
    i: int,
) -> bool {
    &&& 0 <= i < digest.len()
    &&& log_matches(digest[i], module, kind)
    &&& forall|k: int| 0 <= k < i ==> !log_matches(#[trigger] digest[k], module, kind)
}

/// No item comes from `module` with a payload of `kind`.
pub open spec fn no_log(digest: Seq<DigestItemView>, module: u8, kind: LogKind) -> bool {
    forall|k: int| 0 <= k < digest.len() ==> !log_matches(#[trigger] digest[k], module, kind)
}

/// Where the first item stands that the module at position `module` left
/// with a payload of `kind`.
pub fn find_log(digest: &Vec<DigestItem>, module: u8, kind: LogKind) -> (found: Option<usize>)
    ensures
        match found {
            Some(i) => is_first_log(digest_view(digest@), module, kind, i as int),
            None => no_log(digest_view(digest@), module, kind),
        },
{
    let mut i: usize = 0;
    while i < digest.len()
        invariant
            i <= digest.len(),
            forall|k: int|
                0 <= k < i ==> !log_matches(#[trigger] digest_view(digest@)[k], module, kind),
        decreases digest.len() - i,
    {
        assert(digest_view(digest@)[i as int] == digest@[i as int]@);
        if digest[i].module == module && digest[i].payload.kind() == kind {
            return Some(i);
        }
        i += 1;
    }
    None
}

/// The first change of the authority set that the module at position
/// `module` scheduled in this digest.
pub fn pending_change<'a>(digest: &'a Vec<DigestItem>, module: u8) -> (found: Option<
    &'a ScheduledChange,
>)
    ensures
        match found {
            Some(change) => exists|i: int|
                {
                    &&& is_first_log(digest_view(digest@), module, LogKind::AuthoritiesChange, i)
                    &&& (#[trigger] digest_view(digest@)[i]).payload
                        == LogPayloadView::AuthoritiesChange(change@)
                },
            None => no_log(digest_view(digest@), module, LogKind::AuthoritiesChange),
        },
{
    match find_log(digest, module, LogKind::AuthoritiesChange) {
        Some(i) => {
            assert(digest_view(digest@)[i as int] == digest@[i as int]@);
            match &digest[i].payload {
                LogPayload::AuthoritiesChange(change) => Some(change),
                _ => None,
            }
        },
        None => None,
    }
}

/// The first forced change of the authority set that the module at position
/// `module` left in this digest, with the median it was signalled for.
pub fn forced_change<'a>(digest: &'a Vec<DigestItem>, module: u8) -> (found: Option<
    (BlockNumber, &'a ScheduledChange),
>)
    ensures
        match found {
            Some((median, change)) => exists|i: int|
                {
                    &&& is_first_log(
                        digest_view(digest@),
                        module,
                        LogKind::ForcedAuthoritiesChange,
                        i,
                    )
                    &&& (#[trigger] digest_view(digest@)[i]).payload
                        == LogPayloadView::ForcedAuthoritiesChange(median, change@)
                },
            None => no_log(digest_view(digest@), module, LogKind::ForcedAuthoritiesChange),
        },
{
    match find_log(digest, module, LogKind::ForcedAuthoritiesChange) {
        Some(i) => {
            assert(digest_view(digest@)[i as int] == digest@[i as int]@);
            match &digest[i].payload {
                LogPayload::ForcedAuthoritiesChange(median, change) => Some((*median, change)),
                _ => None,
            }
        },
        None => None,
    }
}

} // verus!
