//! Extrinsics: the units of work that a block carries.

use crate::codec::{
    put_array, put_bytes, put_u32, put_u64, take_array32, take_array64, take_bytes, take_u32,
    take_u64,
};
use crate::primitives::{AccountId, AccountIndex, BlockNumber, Nonce, Signature};
use crate::registry::{call_encoding, Call, CallView};
use vstd::bytes::{
    lemma_auto_spec_u32_to_from_le_bytes, lemma_auto_spec_u64_to_from_le_bytes,
    spec_u32_from_le_bytes, spec_u32_to_le_bytes, spec_u64_from_le_bytes, spec_u64_to_le_bytes,
};
use vstd::prelude::*;

verus! {

/// Who sent a signed extrinsic: an account, or a short alias that the chain
/// resolves to one.
#[derive(Clone, Copy, Debug, PartialEq, Eq)]
pub enum Address {
    Id(AccountId),
    Index(AccountIndex),
}

/// The span of blocks in which a signed extrinsic may be included.
#[derive(Clone, Copy, Debug, PartialEq, Eq, Structural)]
pub enum Era {
    /// The extrinsic never expires.
    Immortal,
    /// The extrinsic may be included in the `period` blocks that start at
    /// `birth`.
    Mortal { birth: BlockNumber, period: BlockNumber },
}

/// What the sender of a signed extrinsic adds to the call.
#[derive(Clone, Copy, Debug, PartialEq, Eq)]
pub struct SignedPart {
    pub address: Address,
    pub signature: Signature,
    pub nonce: Nonce,
    pub era: Era,
}

/// An extrinsic as it arrives from outside: nothing about it has been
/// checked. One without a signed part is an inherent.
#[derive(Debug, PartialEq, Eq)]
pub struct UncheckedExtrinsic {
    pub signed: Option<SignedPart>,
    pub call: Call,
}

/// What an [`UncheckedExtrinsic`] stands for.
pub struct UncheckedExtrinsicView {
    pub signed: Option<SignedPart>,
    pub call: CallView,
}

impl View for UncheckedExtrinsic {
    type V = UncheckedExtrinsicView;

    open spec fn view(&self) -> UncheckedExtrinsicView {
        UncheckedExtrinsicView { signed: self.signed, call: self.call@ }
    }
}

/// The extrinsics a list holds, in order.
pub open spec fn extrinsics_view(items: Seq<UncheckedExtrinsic>) -> Seq<UncheckedExtrinsicView> {
    Seq::new(items.len(), |i: int| items[i]@)
}

impl Era {
    /// Whether an extrinsic of this era may be included in block `now`.
    pub open spec fn live_at(self, now: BlockNumber) -> bool {
        match self {
            Era::Immortal => true,
            Era::Mortal { birth, period } => birth <= now < birth + period,
        }
    }

    /// For how many blocks, counting block `now`, an extrinsic of this era
    /// may still be included; the largest number where it never expires.
    pub open spec fn blocks_left(self, now: BlockNumber) -> int {
        match self {
            Era::Immortal => u64::MAX as int,
            Era::Mortal { birth, period } => if self.live_at(now) {
                if birth + period - now > u64::MAX {
                    u64::MAX as int
                } else {
                    birth + period - now
                }
            } else {
                0
            },
        }
    }

    /// Whether an extrinsic of this era may be included in block `now`.
    pub fn is_live(&self, now: BlockNumber) -> (live: bool)
        ensures
            live == self.live_at(now),
    {
        match self {
            Era::Immortal => true,
            Era::Mortal { birth, period } => *birth <= now && now - *birth < *period,
        }
    }

    /// For how many blocks, counting block `now`, an extrinsic of this era
    /// may still be included.
    pub fn longevity(&self, now: BlockNumber) -> (blocks: u64)
        ensures
            blocks == self.blocks_left(now),
    {
        match self {
            Era::Immortal => u64::MAX,
            Era::Mortal { birth, period } => {
                if *birth <= now && now - *birth < *period {
                    *period - (now - *birth)
                } else {
                    0
                }
            },
        }
    }
}

/// The bytes that stand for an address: a tag, then the account or, least
/// significant byte first, the alias.
pub open spec fn address_encoding(address: Address) -> Seq<u8> {
    match address {
        Address::Id(account) => seq![0u8] + account@,
        Address::Index(index) => seq![1u8] + spec_u32_to_le_bytes(index),
    }
}

/// The bytes that stand for an era: a tag, then for a mortal era its birth
/// and its period, least significant byte first.
pub open spec fn era_encoding(era: Era) -> Seq<u8> {
    match era {
        Era::Immortal => seq![0u8],
        Era::Mortal { birth, period } => seq![1u8] + spec_u64_to_le_bytes(birth)
            + spec_u64_to_le_bytes(period),
    }
}

/// The bytes that stand for the signed part of an extrinsic: address,
/// signature, nonce and era, in that order.
pub open spec fn signed_encoding(signed: SignedPart) -> Seq<u8> {
    address_encoding(signed.address) + signed.signature@ + spec_u64_to_le_bytes(signed.nonce)
        + era_encoding(signed.era)
}

/// The bytes that stand for an extrinsic: a tag that says whether it is
/// signed, the signed part if it is, then the call.
pub open spec fn extrinsic_encoding(xt: UncheckedExtrinsicView) -> Seq<u8> {
    match xt.signed {
        None => seq![0u8] + call_encoding(xt.call),
        Some(signed) => seq![1u8] + signed_encoding(signed) + call_encoding(xt.call),
    }
}

/// The bytes that the sender of an extrinsic signs: nonce, era and call.
pub open spec fn signing_payload(nonce: Nonce, era: Era, call: CallView) -> Seq<u8> {
    spec_u64_to_le_bytes(nonce) + era_encoding(era) + call_encoding(call)
}

/// Appends the bytes that stand for a call.
pub fn put_call(out: &mut Vec<u8>, call: &Call)
    ensures
        final(out)@ == old(out)@ + call_encoding(call@),
{
    let ghost before = out@;
    out.push(call.module);
    out.push(call.variant);
    put_bytes(out, &call.args);
    assert(out@ =~= before + call_encoding(call@));
}

/// Appends the bytes that stand for an era.
pub fn put_era(out: &mut Vec<u8>, era: &Era)
    ensures
        final(out)@ == old(out)@ + era_encoding(*era),
{
    let ghost before = out@;
    match era {
        Era::Immortal => {
            out.push(0);
            assert(out@ =~= before + era_encoding(*era));
        },
        Era::Mortal { birth, period } => {
            out.push(1);
            put_u64(out, *birth);
            put_u64(out, *period);
            assert(out@ =~= before + era_encoding(*era));
        },
    }
}

/// Appends the bytes that stand for an address.
pub fn put_address(out: &mut Vec<u8>, address: &Address)
    ensures
        final(out)@ == old(out)@ + address_encoding(*address),
{
    let ghost before = out@;
    match address {
        Address::Id(account) => {
            out.push(0);
            put_array(out, account);
            assert(out@ =~= before + address_encoding(*address));
        },
        Address::Index(index) => {
            out.push(1);
            put_u32(out, *index);
            assert(out@ =~= before + address_encoding(*address));
        },
    }
}

impl UncheckedExtrinsic {
    /// The bytes that stand for the extrinsic.
    pub fn encode(&self) -> (bytes: Vec<u8>)
        ensures
            bytes@ == extrinsic_encoding(self@),
    {
        let mut bytes: Vec<u8> = Vec::new();
        match &self.signed {
            None => {
                bytes.push(0);
                put_call(&mut bytes, &self.call);
                assert(bytes@ =~= extrinsic_encoding(self@));
            },
            Some(signed) => {
                bytes.push(1);
                put_address(&mut bytes, &signed.address);
                put_array(&mut bytes, &signed.signature);
                put_u64(&mut bytes, signed.nonce);
                put_era(&mut bytes, &signed.era);
                put_call(&mut bytes, &self.call);
                assert(bytes@ =~= extrinsic_encoding(self@));
            },
        }
        bytes
    }

    /// The bytes that the sender signs, for a signed extrinsic.
    pub fn signing_payload(&self) -> (payload: Option<Vec<u8>>)
        ensures
            match payload {
                Some(bytes) => self.signed is Some && bytes@ == signing_payload(
                    self.signed->0.nonce,
                    self.signed->0.era,
                    self.call@,
                ),
                None => self.signed is None,
            },
    {
        match &self.signed {
            None => None,
            Some(signed) => {
                let mut bytes: Vec<u8> = Vec::new();
                put_u64(&mut bytes, signed.nonce);
                put_era(&mut bytes, &signed.era);
                put_call(&mut bytes, &self.call);
                assert(bytes@ =~= signing_payload(signed.nonce, signed.era, self.call@));
                Some(bytes)
            },
        }
    }
}

/// How many bytes stand for an address.
pub open spec fn address_len(address: Address) -> int {
    match address {
        Address::Id(_) => 33,
        Address::Index(_) => 5,
    }
}

/// How many bytes stand for an era.
pub open spec fn era_len(era: Era) -> int {
    match era {
        Era::Immortal => 1,
        Era::Mortal { .. } => 17,
    }
}

/// The byte string has the layout of an encoded extrinsic: its tags are
/// known, and it is long enough for the fields that its tags announce and
/// for the two positions of the call.
pub open spec fn well_laid_out(bytes: Seq<u8>) -> bool {
    if bytes.len() < 1 {
        false
    } else if bytes[0] == 0 {
        bytes.len() >= 3
    } else if bytes[0] == 1 {
        &&& bytes.len() >= 2
        &&& bytes[1] <= 1
        &&& {
            let a: int = if bytes[1] == 0 {
                34
            } else {
                6
            };
            &&& bytes.len() >= a + 73
            &&& bytes[a + 72] <= 1
            &&& {
                let c: int = if bytes[a + 72] == 0 {
                    a + 73
                } else {
                    a + 89
                };
                bytes.len() >= c + 2
            }
        }
    } else {
        false
    }
}

/// Where the fields of a signed extrinsic stand in its encoding.
pub proof fn lemma_signed_layout(xt: UncheckedExtrinsicView)
    requires
        xt.signed is Some,
    ensures
        ({
            let signed = xt.signed->0;
            let bytes = extrinsic_encoding(xt);
            let a = 1 + address_len(signed.address);
            let c = a + 72 + era_len(signed.era);
            &&& bytes.len() == c + 2 + xt.call.args.len()
            &&& bytes[0] == 1
            &&& bytes.subrange(1, a) == address_encoding(signed.address)
            &&& bytes.subrange(a, a + 64) == signed.signature@
            &&& bytes.subrange(a + 64, a + 72) == spec_u64_to_le_bytes(signed.nonce)
            &&& bytes.subrange(a + 72, c) == era_encoding(signed.era)
            &&& bytes.skip(c) == call_encoding(xt.call)
            &&& bytes[1] == address_encoding(signed.address)[0]
            &&& bytes[a + 72] == era_encoding(signed.era)[0]
        }),
{
    lemma_auto_spec_u32_to_from_le_bytes();
    lemma_auto_spec_u64_to_from_le_bytes();
    let signed = xt.signed->0;
    let bytes = extrinsic_encoding(xt);
    let a = 1 + address_len(signed.address);
    let c = a + 72 + era_len(signed.era);
    let address = address_encoding(signed.address);
    let nonce = spec_u64_to_le_bytes(signed.nonce);
    let era = era_encoding(signed.era);
    let call = call_encoding(xt.call);
    assert(address.len() == address_len(signed.address));
    assert(signed.signature@.len() == 64);
    assert(era.len() == era_len(signed.era));
    assert(bytes =~= seq![1u8] + address + signed.signature@ + nonce + era + call);
    assert(bytes.subrange(1, a) =~= address);
    assert(bytes.subrange(a, a + 64) =~= signed.signature@);
    assert(bytes.subrange(a + 64, a + 72) =~= nonce);
    assert(bytes.subrange(a + 72, c) =~= era);
    assert(bytes.skip(c) =~= call);
    assert(bytes[1] == bytes.subrange(1, a)[0]);
    assert(bytes[a + 72] == bytes.subrange(a + 72, c)[0]);
}

/// Every encoded extrinsic has the layout of one.
pub proof fn lemma_encoding_is_well_laid_out(xt: UncheckedExtrinsicView)
    ensures
        well_laid_out(extrinsic_encoding(xt)),
{
    let bytes = extrinsic_encoding(xt);
    match xt.signed {
        None => {
            assert(bytes[0] == 0);
        },
        Some(signed) => {
            lemma_signed_layout(xt);
            let address = address_encoding(signed.address);
            let era = era_encoding(signed.era);
            assert(address[0] == (if signed.address is Id {
                0u8
            } else {
                1u8
            }));
            assert(era[0] == (if signed.era is Immortal {
                0u8
            } else {
                1u8
            }));
        },
    }
}

/// Two extrinsics with the same bytes are the same extrinsic: there is one
/// encoding for every value and one value for every encoding.
pub proof fn lemma_extrinsic_encoding_injective(
    x: UncheckedExtrinsicView,
    y: UncheckedExtrinsicView,
)
    requires
        extrinsic_encoding(x) == extrinsic_encoding(y),
    ensures
        x == y,
{
    lemma_auto_spec_u32_to_from_le_bytes();
    lemma_auto_spec_u64_to_from_le_bytes();
    let bytes = extrinsic_encoding(x);
    match (x.signed, y.signed) {
        (None, None) => {
            assert(bytes.skip(1) =~= call_encoding(x.call));
            assert(bytes.skip(1) =~= call_encoding(y.call));
            crate::registry::lemma_encoding_injective(x.call, y.call);
        },
        (Some(s), Some(t)) => {
            lemma_signed_layout(x);
            lemma_signed_layout(y);
            let p = address_encoding(s.address);
            let q = address_encoding(t.address);
            assert(p[0] == q[0]);
            assert(address_len(s.address) == address_len(t.address));
            assert(p == q);
            match (s.address, t.address) {
                (Address::Id(m), Address::Id(n)) => {
                    assert(p.skip(1) =~= m@);
                    assert(q.skip(1) =~= n@);
                    assert(m =~= n);
                },
                (Address::Index(m), Address::Index(n)) => {
                    assert(p.skip(1) =~= spec_u32_to_le_bytes(m));
                    assert(q.skip(1) =~= spec_u32_to_le_bytes(n));
                    assert(spec_u32_from_le_bytes(spec_u32_to_le_bytes(m)) == m);
                    assert(spec_u32_from_le_bytes(spec_u32_to_le_bytes(n)) == n);
                },
                _ => {},
            }
            assert(s.address == t.address);
            assert(s.signature =~= t.signature);
            assert(spec_u64_from_le_bytes(spec_u64_to_le_bytes(s.nonce)) == s.nonce);
            assert(spec_u64_from_le_bytes(spec_u64_to_le_bytes(t.nonce)) == t.nonce);
            assert(s.nonce == t.nonce);
            let e = era_encoding(s.era);
            let f = era_encoding(t.era);
            assert(e[0] == f[0]);
            assert(era_len(s.era) == era_len(t.era));
            assert(e == f);
            match (s.era, t.era) {
                (
                    Era::Mortal { birth: born_x, period: span_x },
                    Era::Mortal { birth: born_y, period: span_y },
                ) => {
                    assert(e.subrange(1, 9) =~= spec_u64_to_le_bytes(born_x));
                    assert(f.subrange(1, 9) =~= spec_u64_to_le_bytes(born_y));
                    assert(e.subrange(9, 17) =~= spec_u64_to_le_bytes(span_x));
                    assert(f.subrange(9, 17) =~= spec_u64_to_le_bytes(span_y));
                    assert(spec_u64_from_le_bytes(spec_u64_to_le_bytes(born_x)) == born_x);
                    assert(spec_u64_from_le_bytes(spec_u64_to_le_bytes(born_y)) == born_y);
                    assert(spec_u64_from_le_bytes(spec_u64_to_le_bytes(span_x)) == span_x);
                    assert(spec_u64_from_le_bytes(spec_u64_to_le_bytes(span_y)) == span_y);
                },
                _ => {},
            }
            assert(s.era == t.era);
            crate::registry::lemma_encoding_injective(x.call, y.call);
        },
        (None, Some(_)) => {
            lemma_signed_layout(y);
            assert(bytes[0] == 0);
        },
        (Some(_), None) => {
            lemma_signed_layout(x);
            assert(extrinsic_encoding(y)[0] == 0);
        },
    }
}

impl UncheckedExtrinsic {
    /// The extrinsic that `bytes` stand for, if they stand for one. The
    /// call is read as it stands: whether it names a function of a runtime
    /// is for that runtime's registry to say.
    pub fn decode(bytes: &Vec<u8>) -> (r: Option<UncheckedExtrinsic>)
        ensures
            match r {
                Some(xt) => extrinsic_encoding(xt@) == bytes@,
                None => forall|xt: UncheckedExtrinsicView| extrinsic_encoding(xt) != bytes@,
            },
            r is Some <==> well_laid_out(bytes@),
    {
        proof {
            lemma_auto_spec_u32_to_from_le_bytes();
            lemma_auto_spec_u64_to_from_le_bytes();
            assert forall|xt: UncheckedExtrinsicView|
                !well_laid_out(bytes@) implies extrinsic_encoding(xt) != bytes@ by {
                lemma_encoding_is_well_laid_out(xt);
            }
        }
        let n: usize = bytes.len();
        if n < 1 {
            return None;
        }
        if bytes[0] == 0 {
            if n < 3 {
                return None;
            }
            let call = Call { module: bytes[1], variant: bytes[2], args: take_bytes(bytes, 3, n) };
            let xt = UncheckedExtrinsic { signed: None, call };
            assert(extrinsic_encoding(xt@) =~= bytes@);
            return Some(xt);
        }
        if bytes[0] != 1 || n < 2 {
            return None;
        }
        let a: usize = if bytes[1] == 0 {
            34
        } else {
            6
        };
        if bytes[1] > 1 || n < a + 73 {
            return None;
        }
        let address = if bytes[1] == 0 {
            Address::Id(take_array32(bytes, 2))
        } else {
            Address::Index(take_u32(bytes, 2))
        };
        let signature = take_array64(bytes, a);
        let nonce = take_u64(bytes, a + 64);
        if bytes[a + 72] > 1 {
            return None;
        }
        let c: usize = if bytes[a + 72] == 0 {
            a + 73
        } else {
            a + 89
        };
        if n < c + 2 {
            return None;
        }
        let era = if bytes[a + 72] == 0 {
            Era::Immortal
        } else {
            Era::Mortal { birth: take_u64(bytes, a + 73), period: take_u64(bytes, a + 81) }
        };
        let call = Call { module: bytes[c], variant: bytes[c + 1], args: take_bytes(bytes, c + 2, n) };
        let xt = UncheckedExtrinsic {
            signed: Some(SignedPart { address, signature, nonce, era }),
            call,
        };
        proof {
            let whole = bytes@;
            assert(address_encoding(address) =~= whole.subrange(1, a as int));
            assert(signature@ =~= whole.subrange(a as int, a + 64));
            assert(spec_u64_to_le_bytes(nonce) =~= whole.subrange(a + 64, a + 72));
            assert(era_encoding(era) =~= whole.subrange(a + 72, c as int)) by {
                if bytes[a + 72] != 0 {
                    assert(whole.subrange(a + 72, c as int) =~= seq![1u8] + whole.subrange(
                        a + 73,
                        a + 81,
                    ) + whole.subrange(a + 81, a + 89));
                }
            }
            assert(call_encoding(call@) =~= whole.skip(c as int));
            assert(extrinsic_encoding(xt@) =~= whole);
        }
        Some(xt)
    }
}

} // verus!
