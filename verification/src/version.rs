//! The identity of a runtime and the catalogue of entry points it offers.
//!
//! A host tells runtimes apart by name and specification version, and finds
//! out which entry points a runtime offers from the versions of the
//! interfaces it implements, each of which is numbered on its own.

use vstd::prelude::*;

verus! {

/// An interface that groups entry points of the runtime.
#[derive(Clone, Copy, Debug, PartialEq, Eq, Structural)]
pub enum Api {
    Core,
    Metadata,
    BlockBuilder,
    TaggedTransactionQueue,
    OffchainWorker,
    Grandpa,
    Aura,
}

/// An entry point through which a host drives the runtime.
#[derive(Clone, Copy, Debug, PartialEq, Eq, Structural)]
pub enum EntryPoint {
    Version,
    ExecuteBlock,
    InitializeBlock,
    Metadata,
    ApplyExtrinsic,
    FinalizeBlock,
    InherentExtrinsics,
    CheckInherents,
    RandomSeed,
    ValidateTransaction,
    OffchainWorker,
    GrandpaPendingChange,
    GrandpaForcedChange,
    GrandpaAuthorities,
    SlotDuration,
    Authorities,
}

impl EntryPoint {
    /// The interface that the entry point belongs to.
    pub open spec fn api_of(self) -> Api {
        match self {
            EntryPoint::Version | EntryPoint::ExecuteBlock | EntryPoint::InitializeBlock => {
                Api::Core
            },
            EntryPoint::Metadata => Api::Metadata,
            EntryPoint::ApplyExtrinsic
            | EntryPoint::FinalizeBlock
            | EntryPoint::InherentExtrinsics
            | EntryPoint::CheckInherents
            | EntryPoint::RandomSeed => Api::BlockBuilder,
            EntryPoint::ValidateTransaction => Api::TaggedTransactionQueue,
            EntryPoint::OffchainWorker => Api::OffchainWorker,
            EntryPoint::GrandpaPendingChange
            | EntryPoint::GrandpaForcedChange
            | EntryPoint::GrandpaAuthorities => Api::Grandpa,
            EntryPoint::SlotDuration | EntryPoint::Authorities => Api::Aura,
        }
    }

    /// The interface that the entry point belongs to.
    pub fn api(&self) -> (api: Api)
        ensures
            api == self.api_of(),
    {
        match self {
            EntryPoint::Version | EntryPoint::ExecuteBlock | EntryPoint::InitializeBlock => {
                Api::Core
            },
            EntryPoint::Metadata => Api::Metadata,
            EntryPoint::ApplyExtrinsic
            | EntryPoint::FinalizeBlock
            | EntryPoint::InherentExtrinsics
            | EntryPoint::CheckInherents
            | EntryPoint::RandomSeed => Api::BlockBuilder,
            EntryPoint::ValidateTransaction => Api::TaggedTransactionQueue,
            EntryPoint::OffchainWorker => Api::OffchainWorker,
            EntryPoint::GrandpaPendingChange
            | EntryPoint::GrandpaForcedChange
            | EntryPoint::GrandpaAuthorities => Api::Grandpa,
            EntryPoint::SlotDuration | EntryPoint::Authorities => Api::Aura,
        }
    }
}

/// An interface together with the version of it that a runtime implements.
#[derive(Clone, Copy, Debug, PartialEq, Eq, Structural)]
pub struct ApiVersion {
    pub api: Api,
    pub version: u32,
}

/// The identity of a runtime.
#[derive(Debug, PartialEq, Eq)]
pub struct RuntimeVersion {
    /// The name of the specification the runtime implements.
    pub spec_name: String,
    /// The name of the implementation.
    pub impl_name: String,
    /// The version of the authoring interface.
    pub authoring_version: u32,
    /// The version of the specification. It grows with every change that
    /// earlier versions under the same name cannot follow.
    pub spec_version: u32,
    /// The version of the implementation.
    pub impl_version: u32,
    /// The interfaces the runtime implements, each with its version.
    pub apis: Vec<ApiVersion>,
}

/// What a [`RuntimeVersion`] stands for.
pub struct RuntimeVersionView {
    pub spec_name: Seq<char>,
    pub impl_name: Seq<char>,
    pub authoring_version: u32,
    pub spec_version: u32,
    pub impl_version: u32,
    pub apis: Seq<ApiVersion>,
}

impl View for RuntimeVersion {
    type V = RuntimeVersionView;

    open spec fn view(&self) -> RuntimeVersionView {
        RuntimeVersionView {
            spec_name: self.spec_name@,
            impl_name: self.impl_name@,
            authoring_version: self.authoring_version,
            spec_version: self.spec_version,
            impl_version: self.impl_version,
            apis: self.apis@,
        }
    }
}

impl RuntimeVersionView {
    /// The runtime implements this version of this interface.
    pub open spec fn has_api(self, api: Api, version: u32) -> bool {
        exists|i: int|
            0 <= i < self.apis.len() && #[trigger] self.apis[i] == (ApiVersion { api, version })
    }

    /// The runtime implements some version of the interface that the entry
    /// point belongs to.
    pub open spec fn supports(self, entry: EntryPoint) -> bool {
        exists|i: int| 0 <= i < self.apis.len() && (#[trigger] self.apis[i]).api == entry.api_of()
    }

    /// A node built for this runtime can author blocks for `other`: both
    /// implement the same specification with the same authoring interface.
    pub open spec fn can_author_with(self, other: RuntimeVersionView) -> bool {
        self.authoring_version == other.authoring_version && self.spec_name == other.spec_name
    }

    /// This runtime is a later version of the specification that `older`
    /// implements, so a host must drop what it has compiled of `older`.
    pub open spec fn upgrades(self, older: RuntimeVersionView) -> bool {
        self.spec_name == older.spec_name && self.spec_version > older.spec_version
    }
}

impl Clone for RuntimeVersion {
    fn clone(&self) -> (copy: Self)
        ensures
            copy@ == self@,
    {
        let mut apis: Vec<ApiVersion> = Vec::new();
        let mut i: usize = 0;
        while i < self.apis.len()
            invariant
                i <= self.apis.len(),
                apis@ == self.apis@.take(i as int),
            decreases self.apis.len() - i,
        {
            apis.push(self.apis[i]);
            assert(self.apis@.take(i + 1) == self.apis@.take(i as int).push(self.apis@[i as int]));
            i += 1;
        }
        assert(self.apis@.take(self.apis.len() as int) == self.apis@);
        RuntimeVersion {
            spec_name: self.spec_name.clone(),
            impl_name: self.impl_name.clone(),
            authoring_version: self.authoring_version,
            spec_version: self.spec_version,
            impl_version: self.impl_version,
            apis,
        }
    }
}

impl RuntimeVersion {
    /// Whether the runtime implements this version of this interface.
    pub fn has_api(&self, api: Api, version: u32) -> (has: bool)
        ensures
            has == self@.has_api(api, version),
    {
        let mut i: usize = 0;
        while i < self.apis.len()
            invariant
                i <= self.apis.len(),
                forall|k: int|
                    0 <= k < i ==> #[trigger] self.apis@[k] != (ApiVersion { api, version }),
            decreases self.apis.len() - i,
        {
            if self.apis[i].api == api && self.apis[i].version == version {
                return true;
            }
            i += 1;
        }
        false
    }

    /// Whether the runtime offers the entry point.
    pub fn supports(&self, entry: EntryPoint) -> (supported: bool)
        ensures
            supported == self@.supports(entry),
    {
        let api = entry.api();
        let mut i: usize = 0;
        while i < self.apis.len()
            invariant
                i <= self.apis.len(),
                api == entry.api_of(),
                forall|k: int| 0 <= k < i ==> (#[trigger] self.apis@[k]).api != api,
            decreases self.apis.len() - i,
        {
            if self.apis[i].api == api {
                return true;
            }
            i += 1;
        }
        false
    }

    /// Whether a node built for this runtime can author blocks for `other`.
    pub fn can_author_with(&self, other: &RuntimeVersion) -> (can: bool)
        ensures
            can == self@.can_author_with(other@),
    {
        self.authoring_version == other.authoring_version && self.spec_name == other.spec_name
    }

    /// Whether this runtime is a later version of the specification that
    /// `older` implements.
    pub fn upgrades(&self, older: &RuntimeVersion) -> (upgrade: bool)
        ensures
            upgrade == self@.upgrades(older@),
    {
        self.spec_name == older.spec_name && self.spec_version > older.spec_version
    }
}

/// The interfaces this runtime implements, each with its version.
pub open spec fn node_apis() -> Seq<ApiVersion> {
    seq![
        ApiVersion { api: Api::Core, version: 2 },
        ApiVersion { api: Api::Metadata, version: 1 },
        ApiVersion { api: Api::BlockBuilder, version: 2 },
        ApiVersion { api: Api::TaggedTransactionQueue, version: 1 },
        ApiVersion { api: Api::OffchainWorker, version: 1 },
        ApiVersion { api: Api::Grandpa, version: 1 },
        ApiVersion { api: Api::Aura, version: 1 },
    ]
}

/// The identity of this runtime.
pub open spec fn node_version() -> RuntimeVersionView {
    RuntimeVersionView {
        spec_name: "node"@,
        impl_name: "substrate-node"@,
        authoring_version: 10,
        spec_version: 92,
        impl_version: 92,
        apis: node_apis(),
    }
}

/// The identity of this runtime.
pub fn version() -> (version: RuntimeVersion)
    ensures
        version@ == node_version(),
{
    let mut apis: Vec<ApiVersion> = Vec::new();
    apis.push(ApiVersion { api: Api::Core, version: 2 });
    apis.push(ApiVersion { api: Api::Metadata, version: 1 });
    apis.push(ApiVersion { api: Api::BlockBuilder, version: 2 });
    apis.push(ApiVersion { api: Api::TaggedTransactionQueue, version: 1 });
    apis.push(ApiVersion { api: Api::OffchainWorker, version: 1 });
    apis.push(ApiVersion { api: Api::Grandpa, version: 1 });
    apis.push(ApiVersion { api: Api::Aura, version: 1 });
    assert(apis@ =~= node_apis());
    RuntimeVersion {
        spec_name: "node".to_owned(),
        impl_name: "substrate-node".to_owned(),
        authoring_version: 10,
        spec_version: 92,
        impl_version: 92,
        apis,
    }
}

/// The runtime a node was built with, and the other authoring versions it
/// can author blocks for.
#[derive(Debug, PartialEq, Eq)]
pub struct NativeVersion {
    pub runtime_version: RuntimeVersion,
    pub can_author_with: Vec<u32>,
}

impl NativeVersion {
    /// A node built with this runtime can author blocks for `other`: both
    /// implement the same specification, and `other` has this runtime's
    /// authoring version or one of those it is listed to author for.
    pub open spec fn authors_for(&self, other: RuntimeVersionView) -> bool {
        &&& self.runtime_version@.spec_name == other.spec_name
        &&& (self.runtime_version.authoring_version == other.authoring_version
            || self.can_author_with@.contains(other.authoring_version))
    }

    /// Whether a node built with this runtime can author blocks for
    /// `other`.
    pub fn can_author_with(&self, other: &RuntimeVersion) -> (can: bool)
        ensures
            can == self.authors_for(other@),
    {
        if !(self.runtime_version.spec_name == other.spec_name) {
            return false;
        }
        if self.runtime_version.authoring_version == other.authoring_version {
            return true;
        }
        let mut i: usize = 0;
        while i < self.can_author_with.len()
            invariant
                i <= self.can_author_with.len(),
                self.runtime_version@.spec_name == other@.spec_name,
                self.runtime_version.authoring_version != other.authoring_version,
                forall|k: int| 0 <= k < i ==> self.can_author_with@[k] != other.authoring_version,
            decreases self.can_author_with.len() - i,
        {
            if self.can_author_with[i] == other.authoring_version {
                assert(self.can_author_with@[i as int] == other.authoring_version);
                return true;
            }
            i += 1;
        }
        false
    }
}

/// The version of the runtime that a node is built with. It authors for no
/// authoring version but its own.
pub fn native_version() -> (native: NativeVersion)
    ensures
        native.runtime_version@ == node_version(),
        native.can_author_with@ == Seq::<u32>::empty(),
{
    NativeVersion { runtime_version: version(), can_author_with: Vec::new() }
}

/// The runtime offers every entry point of the catalogue.
pub proof fn lemma_node_supports_all(entry: EntryPoint)
    ensures
        node_version().supports(entry),
{
    let apis = node_version().apis;
    match entry.api_of() {
        Api::Core => assert(apis[0].api == Api::Core),
        Api::Metadata => assert(apis[1].api == Api::Metadata),
        Api::BlockBuilder => assert(apis[2].api == Api::BlockBuilder),
        Api::TaggedTransactionQueue => assert(apis[3].api == Api::TaggedTransactionQueue),
        Api::OffchainWorker => assert(apis[4].api == Api::OffchainWorker),
        Api::Grandpa => assert(apis[5].api == Api::Grandpa),
        Api::Aura => assert(apis[6].api == Api::Aura),
    }
}

} // verus!
