//! Headers and blocks.

use crate::digest::{digest_clone, digest_eq, digest_view, DigestItem, DigestItemView};
use crate::extrinsic::{extrinsics_view, UncheckedExtrinsic, UncheckedExtrinsicView};
use crate::primitives::{array_eq, BlockNumber, H256};
use vstd::prelude::*;

verus! {

/// The header of a block.
#[derive(Debug, PartialEq, Eq)]
pub struct Header {
    /// The hash of the parent block's header.
    pub parent_hash: H256,
    /// The height of the block.
    pub number: BlockNumber,
    /// The root of the state after the block has run.
    pub state_root: H256,
    /// The root of the block's extrinsics.
    pub extrinsics_root: H256,
    /// What the modules left for consumers outside the runtime.
    pub digest: Vec<DigestItem>,
}

/// What a [`Header`] stands for.
pub struct HeaderView {
    pub parent_hash: H256,
    pub number: BlockNumber,
    pub state_root: H256,
    pub extrinsics_root: H256,
    pub digest: Seq<DigestItemView>,
}

impl View for Header {
    type V = HeaderView;

    open spec fn view(&self) -> HeaderView {
        HeaderView {
            parent_hash: self.parent_hash,
            number: self.number,
            state_root: self.state_root,
            extrinsics_root: self.extrinsics_root,
            digest: digest_view(self.digest@),
        }
    }
}

/// The fields of a header, in the order in which two headers are compared.
#[derive(Clone, Copy, Debug, PartialEq, Eq, Structural)]
pub enum HeaderField {
    ParentHash,
    Number,
    StateRoot,
    ExtrinsicsRoot,
    Digest,
}

impl HeaderView {
    /// The first field in which this header differs from `other`.
    pub open spec fn mismatch(self, other: HeaderView) -> Option<HeaderField> {
        if self.parent_hash != other.parent_hash {
            Some(HeaderField::ParentHash)
        } else if self.number != other.number {
            Some(HeaderField::Number)
        } else if self.state_root != other.state_root {
            Some(HeaderField::StateRoot)
        } else if self.extrinsics_root != other.extrinsics_root {
            Some(HeaderField::ExtrinsicsRoot)
        } else if self.digest != other.digest {
            Some(HeaderField::Digest)
        } else {
            None
        }
    }
}

impl Clone for Header {
    fn clone(&self) -> (copy: Self)
        ensures
            copy@ == self@,
    {
        Header {
            parent_hash: self.parent_hash,
            number: self.number,
            state_root: self.state_root,
            extrinsics_root: self.extrinsics_root,
            digest: digest_clone(&self.digest),
        }
    }
}

impl Header {
    /// Compares two headers field for field and names the first field in
    /// which they differ.
    pub fn mismatch(&self, other: &Header) -> (field: Option<HeaderField>)
        ensures
            field == self@.mismatch(other@),
            field is None <==> self@ == other@,
    {
        if !array_eq(&self.parent_hash, &other.parent_hash) {
            Some(HeaderField::ParentHash)
        } else if self.number != other.number {
            Some(HeaderField::Number)
        } else if !array_eq(&self.state_root, &other.state_root) {
            Some(HeaderField::StateRoot)
        } else if !array_eq(&self.extrinsics_root, &other.extrinsics_root) {
            Some(HeaderField::ExtrinsicsRoot)
        } else if !digest_eq(&self.digest, &other.digest) {
            Some(HeaderField::Digest)
        } else {
            None
        }
    }
}

/// A block: a header and the extrinsics it declares, in the order in which
/// the producer applied them.
#[derive(Debug, PartialEq, Eq)]
pub struct Block {
    pub header: Header,
    pub extrinsics: Vec<UncheckedExtrinsic>,
}

/// What a [`Block`] stands for.
pub struct BlockView {
    pub header: HeaderView,
    pub extrinsics: Seq<UncheckedExtrinsicView>,
}

impl View for Block {
    type V = BlockView;

    open spec fn view(&self) -> BlockView {
        BlockView { header: self.header@, extrinsics: extrinsics_view(self.extrinsics@) }
    }
}

} // verus!
