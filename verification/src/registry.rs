//! The module registry: an ordered list of module descriptors composed into
//! one flat dispatchable surface.
//!
//! A module's position in the list is its discriminant. Positions never
//! change for a composed runtime, so the encoding of a call is stable for as
//! long as the module order is.

use crate::host::Host;
use crate::primitives::{DispatchError, KeyTypeId, Origin};
use crate::weights::{TransactionWeight, WeighableCall, WeighableTransaction, Weight};
use vstd::prelude::*;

verus! {

/// The most modules a runtime can hold: a module's position is one byte on
/// the wire.
pub const MAX_MODULES: usize = 256;

/// The most dispatchable functions a module can declare: a function's
/// position is one byte on the wire.
pub const MAX_CALLS: usize = 256;

/// One dispatchable function of a module.
pub struct CallDescriptor {
    /// The function's name.
    pub name: String,
    /// The weighting policy declared for the function.
    pub weight: TransactionWeight,
}

/// What a [`CallDescriptor`] stands for.
pub struct CallDescriptorView {
    pub name: Seq<char>,
    pub weight: TransactionWeight,
}

impl View for CallDescriptor {
    type V = CallDescriptorView;

    open spec fn view(&self) -> CallDescriptorView {
        CallDescriptorView { name: self.name@, weight: self.weight }
    }
}

impl WeighableCall for CallDescriptor {
    /// The weight of a transaction of `len` encoded bytes that calls this
    /// function, under the policy the function declares.
    fn weight(&self, len: usize) -> (w: Weight)
        ensures
            w == self.weight.weight_for(len as int),
    {
        self.weight.calculate_weight(len)
    }
}

/// What one module contributes to the composed runtime.
pub struct ModuleDescriptor {
    /// The module's name, unique within a runtime.
    pub name: String,
    /// The module's dispatchable functions; a function's position is its
    /// discriminant.
    pub calls: Vec<CallDescriptor>,
    /// The names of the events the module can emit.
    pub events: Vec<String>,
    /// The names of the module's storage items.
    pub storage: Vec<String>,
    /// Whether the module declares an origin of its own.
    pub has_origin: bool,
    /// Whether the module puts items into the header digest.
    pub has_log: bool,
    /// Whether the module takes part in the genesis configuration.
    pub has_config: bool,
    /// Whether the module creates and checks inherent extrinsics.
    pub has_inherent: bool,
    /// The kind of session key the module handles, if it handles one.
    pub session_key: Option<KeyTypeId>,
}

/// What a [`ModuleDescriptor`] stands for.
pub struct ModuleView {
    pub name: Seq<char>,
    pub calls: Seq<CallDescriptorView>,
    pub events: Seq<Seq<char>>,
    pub storage: Seq<Seq<char>>,
    pub has_origin: bool,
    pub has_log: bool,
    pub has_config: bool,
    pub has_inherent: bool,
    pub session_key: Option<KeyTypeId>,
}

/// The names a list of strings holds.
pub open spec fn names_view(names: Seq<String>) -> Seq<Seq<char>> {
    Seq::new(names.len(), |i: int| names[i]@)
}

/// The functions a list of call descriptors declares.
pub open spec fn calls_view(calls: Seq<CallDescriptor>) -> Seq<CallDescriptorView> {
    Seq::new(calls.len(), |i: int| calls[i]@)
}

/// The modules a list of module descriptors describes.
pub open spec fn modules_view(modules: Seq<ModuleDescriptor>) -> Seq<ModuleView> {
    Seq::new(modules.len(), |i: int| modules[i]@)
}

impl View for ModuleDescriptor {
    type V = ModuleView;

    open spec fn view(&self) -> ModuleView {
        ModuleView {
            name: self.name@,
            calls: calls_view(self.calls@),
            events: names_view(self.events@),
            storage: names_view(self.storage@),
            has_origin: self.has_origin,
            has_log: self.has_log,
            has_config: self.has_config,
            has_inherent: self.has_inherent,
            session_key: self.session_key,
        }
    }
}

/// Why a list of modules cannot be composed into a runtime.
#[derive(Clone, Copy, Debug, PartialEq, Eq, Structural)]
pub enum RegistryError {
    /// There are more modules than positions.
    TooManyModules,
    /// The module at this position declares more functions than positions.
    TooManyCalls { module: usize },
    /// The modules at these two positions have the same name.
    DuplicateName { first: usize, second: usize },
    /// There are not as many session handlers as session keys.
    SessionLengthMismatch,
    /// The handler in this slot names a position that holds no module.
    UnknownSessionHandler { slot: usize },
    /// The handler in this slot does not handle the key kind in this slot.
    SessionKeyMismatch { slot: usize },
}

/// Every module declares at most [`MAX_CALLS`] functions.
pub open spec fn no_oversized(modules: Seq<ModuleView>) -> bool {
    forall|k: int| 0 <= k < modules.len() ==> (#[trigger] modules[k]).calls.len() <= MAX_CALLS
}

/// `i` is the first position whose module declares too many functions.
pub open spec fn first_oversized(modules: Seq<ModuleView>, i: int) -> bool {
    &&& 0 <= i < modules.len()
    &&& modules[i].calls.len() > MAX_CALLS
    &&& forall|k: int| 0 <= k < i ==> (#[trigger] modules[k]).calls.len() <= MAX_CALLS
}

/// No two modules share a name.
pub open spec fn names_distinct(modules: Seq<ModuleView>) -> bool {
    forall|a: int, b: int|
        0 <= a < b < modules.len() ==> (#[trigger] modules[a]).name != (#[trigger] modules[b]).name
}

/// `second` is the first position whose name was already taken, and `first`
/// is the first position that took it.
pub open spec fn first_duplicate(modules: Seq<ModuleView>, first: int, second: int) -> bool {
    &&& 0 <= first < second < modules.len()
    &&& modules[first].name == modules[second].name
    &&& forall|a: int| 0 <= a < first ==> (#[trigger] modules[a]).name != modules[second].name
    &&& forall|a: int, b: int|
        0 <= a < b < second ==> (#[trigger] modules[a]).name != (#[trigger] modules[b]).name
}

/// The handler in slot `k` is a module that handles the key kind in slot `k`.
pub open spec fn slot_paired(
    modules: Seq<ModuleView>,
    keys: Seq<KeyTypeId>,
    handlers: Seq<usize>,
    k: int,
) -> bool {
    &&& handlers[k] < modules.len()
    &&& modules[handlers[k] as int].session_key == Some(keys[k])
}

/// Every slot before `upto` is paired.
pub open spec fn slots_paired(
    modules: Seq<ModuleView>,
    keys: Seq<KeyTypeId>,
    handlers: Seq<usize>,
    upto: int,
) -> bool {
    forall|k: int| 0 <= k < upto ==> #[trigger] slot_paired(modules, keys, handlers, k)
}

/// Session keys and session handlers are two parallel lists: as many
/// handlers as keys, each handler handling the key in its own slot.
pub open spec fn session_paired(
    modules: Seq<ModuleView>,
    keys: Seq<KeyTypeId>,
    handlers: Seq<usize>,
) -> bool {
    &&& keys.len() == handlers.len()
    &&& slots_paired(modules, keys, handlers, keys.len() as int)
}

/// The modules, with the session keys and handlers, make up a runtime.
pub open spec fn composable(
    modules: Seq<ModuleView>,
    keys: Seq<KeyTypeId>,
    handlers: Seq<usize>,
) -> bool {
    &&& modules.len() <= MAX_MODULES
    &&& no_oversized(modules)
    &&& names_distinct(modules)
    &&& session_paired(modules, keys, handlers)
}

/// A call to one function of one module.
#[derive(Debug, PartialEq, Eq)]
pub struct Call {
    /// The position of the owning module in the registry.
    pub module: u8,
    /// The position of the function among the module's functions.
    pub variant: u8,
    /// The function's arguments, as the owning module encodes them.
    pub args: Vec<u8>,
}

/// What a [`Call`] stands for.
pub struct CallView {
    pub module: u8,
    pub variant: u8,
    pub args: Seq<u8>,
}

impl View for Call {
    type V = CallView;

    open spec fn view(&self) -> CallView {
        CallView { module: self.module, variant: self.variant, args: self.args@ }
    }
}

impl Clone for Call {
    fn clone(&self) -> (copy: Self)
        ensures
            copy@ == self@,
    {
        Call { module: self.module, variant: self.variant, args: self.args.clone() }
    }
}

/// The bytes that stand for a call: the module's position, the function's
/// position, then the arguments.
pub open spec fn call_encoding(call: CallView) -> Seq<u8> {
    seq![call.module, call.variant] + call.args
}

/// Why a byte string is not the encoding of a call of this runtime.
#[derive(Clone, Copy, Debug, PartialEq, Eq, Structural)]
pub enum DecodeError {
    /// The bytes end before both positions were read.
    Truncated,
    /// No module stands at this position.
    UnknownModule { module: u8 },
    /// The module at this position has no function at this position.
    UnknownFunction { module: u8, variant: u8 },
}

/// The description of one module, for tools outside the runtime.
pub struct ModuleMetadata {
    /// The module's name.
    pub name: String,
    /// The module's position, which is also its discriminant.
    pub position: u8,
    /// The names of the module's storage items.
    pub storage: Vec<String>,
    /// The names of the module's functions, in discriminant order.
    pub calls: Vec<String>,
    /// The names of the module's events.
    pub events: Vec<String>,
}

/// What a [`ModuleMetadata`] stands for.
pub struct ModuleMetadataView {
    pub name: Seq<char>,
    pub position: u8,
    pub storage: Seq<Seq<char>>,
    pub calls: Seq<Seq<char>>,
    pub events: Seq<Seq<char>>,
}

impl View for ModuleMetadata {
    type V = ModuleMetadataView;

    open spec fn view(&self) -> ModuleMetadataView {
        ModuleMetadataView {
            name: self.name@,
            position: self.position,
            storage: names_view(self.storage@),
            calls: names_view(self.calls@),
            events: names_view(self.events@),
        }
    }
}

/// The description of a whole runtime: one entry per module, in registry
/// order.
pub struct RuntimeMetadata {
    pub modules: Vec<ModuleMetadata>,
}

impl View for RuntimeMetadata {
    type V = Seq<ModuleMetadataView>;

    open spec fn view(&self) -> Seq<ModuleMetadataView> {
        Seq::new(self.modules@.len(), |i: int| self.modules@[i]@)
    }
}

impl ModuleView {
    /// The names of the module's functions, in discriminant order.
    pub open spec fn call_names(self) -> Seq<Seq<char>> {
        Seq::new(self.calls.len(), |i: int| self.calls[i].name)
    }

    /// The description of the module when it stands at `position`.
    pub open spec fn metadata(self, position: int) -> ModuleMetadataView {
        ModuleMetadataView {
            name: self.name,
            position: position as u8,
            storage: self.storage,
            calls: self.call_names(),
            events: self.events,
        }
    }
}

/// The positions are those of the modules before `upto` that take part in
/// the genesis configuration: each of them once, in registry order, and no
/// other.
pub open spec fn config_positions(modules: Seq<ModuleView>, positions: Seq<u8>, upto: int) -> bool {
    &&& forall|k: int|
        0 <= k < positions.len() ==> (#[trigger] positions[k]) < upto && positions[k]
            < modules.len() && modules[positions[k] as int].has_config
    &&& forall|j: int, k: int|
        0 <= j < k < positions.len() ==> (#[trigger] positions[j]) < (#[trigger] positions[k])
    &&& forall|i: int|
        0 <= i < upto && i < modules.len() && (#[trigger] modules[i]).has_config ==> exists|k: int|
            0 <= k < positions.len() && #[trigger] positions[k] == i
}

/// What a [`Registry`] stands for.
pub struct RegistryView {
    pub modules: Seq<ModuleView>,
    pub session_keys: Seq<KeyTypeId>,
    pub session_handlers: Seq<usize>,
}

/// An ordered set of modules composed into one runtime.
pub struct Registry {
    modules: Vec<ModuleDescriptor>,
    session_keys: Vec<KeyTypeId>,
    session_handlers: Vec<usize>,
}

impl View for Registry {
    type V = RegistryView;

    closed spec fn view(&self) -> RegistryView {
        RegistryView {
            modules: modules_view(self.modules@),
            session_keys: self.session_keys@,
            session_handlers: self.session_handlers@,
        }
    }
}

impl RegistryView {
    /// The registry's parts make up a runtime.
    pub open spec fn composed(self) -> bool {
        composable(self.modules, self.session_keys, self.session_handlers)
    }

    /// The call names a function that a module of this runtime declares.
    pub open spec fn admits(self, call: CallView) -> bool {
        &&& call.module < self.modules.len()
        &&& call.variant < self.modules[call.module as int].calls.len()
    }

    /// The call that a byte string stands for in this runtime.
    pub open spec fn decoding(self, bytes: Seq<u8>) -> Result<CallView, DecodeError> {
        if bytes.len() < 2 {
            Err(DecodeError::Truncated)
        } else if bytes[0] >= self.modules.len() {
            Err(DecodeError::UnknownModule { module: bytes[0] })
        } else if bytes[1] >= self.modules[bytes[0] as int].calls.len() {
            Err(DecodeError::UnknownFunction { module: bytes[0], variant: bytes[1] })
        } else {
            Ok(CallView { module: bytes[0], variant: bytes[1], args: bytes.skip(2) })
        }
    }

    /// The weighting policy of a call: the one its function declares, or the
    /// default policy where the call names no function of this runtime.
    pub open spec fn policy(self, call: CallView) -> TransactionWeight {
        if self.admits(call) {
            self.modules[call.module as int].calls[call.variant as int].weight
        } else {
            TransactionWeight::Basic(0, 1)
        }
    }

    /// The description of the runtime: every module, in registry order.
    pub open spec fn metadata(self) -> Seq<ModuleMetadataView> {
        Seq::new(self.modules.len(), |i: int| self.modules[i].metadata(i))
    }

    /// The position of the module called `name`, if there is one.
    pub open spec fn position_of(self, name: Seq<char>) -> Option<u8> {
        if exists|i: int| 0 <= i < self.modules.len() && (#[trigger] self.modules[i]).name == name {
            let i = choose|i: int|
                0 <= i < self.modules.len() && (#[trigger] self.modules[i]).name == name;
            Some(i as u8)
        } else {
            None
        }
    }
}

impl Registry {
    #[verifier::type_invariant]
    pub closed spec fn composed(&self) -> bool {
        self@.composed()
    }

    /// Composes `modules`, in the order given, into a runtime in which the
    /// handler in each slot of `session_handlers` (a module position) handles
    /// the key kind in the same slot of `session_keys`.
    ///
    /// Composition fails on the first of these that holds: too many modules;
    /// a module with too many functions; a name used twice; key and handler
    /// lists of different lengths; a slot whose handler is no module or
    /// handles another kind of key.
    pub fn register(
        modules: Vec<ModuleDescriptor>,
        session_keys: Vec<KeyTypeId>,
        session_handlers: Vec<usize>,
    ) -> (r: Result<Registry, RegistryError>)
        ensures
            r is Ok <==> composable(modules_view(modules@), session_keys@, session_handlers@),
            match r {
                Ok(registry) => {
                    &&& registry@.modules == modules_view(modules@)
                    &&& registry@.session_keys == session_keys@
                    &&& registry@.session_handlers == session_handlers@
                },
                Err(RegistryError::TooManyModules) => modules.len() > MAX_MODULES,
                Err(RegistryError::TooManyCalls { module }) => {
                    &&& modules.len() <= MAX_MODULES
                    &&& first_oversized(modules_view(modules@), module as int)
                },
                Err(RegistryError::DuplicateName { first, second }) => {
                    &&& modules.len() <= MAX_MODULES
                    &&& no_oversized(modules_view(modules@))
                    &&& first_duplicate(modules_view(modules@), first as int, second as int)
                },
                Err(RegistryError::SessionLengthMismatch) => {
                    &&& modules.len() <= MAX_MODULES
                    &&& no_oversized(modules_view(modules@))
                    &&& names_distinct(modules_view(modules@))
                    &&& session_keys.len() != session_handlers.len()
                },
                Err(RegistryError::UnknownSessionHandler { slot }) => {
                    &&& modules.len() <= MAX_MODULES
                    &&& no_oversized(modules_view(modules@))
                    &&& names_distinct(modules_view(modules@))
                    &&& session_keys.len() == session_handlers.len()
                    &&& slot < session_keys.len()
                    &&& slots_paired(
                        modules_view(modules@),
                        session_keys@,
                        session_handlers@,
                        slot as int,
                    )
                    &&& session_handlers[slot as int] >= modules.len()
                },
                Err(RegistryError::SessionKeyMismatch { slot }) => {
                    &&& modules.len() <= MAX_MODULES
                    &&& no_oversized(modules_view(modules@))
                    &&& names_distinct(modules_view(modules@))
                    &&& session_keys.len() == session_handlers.len()
                    &&& slot < session_keys.len()
                    &&& slots_paired(
                        modules_view(modules@),
                        session_keys@,
                        session_handlers@,
                        slot as int,
                    )
                    &&& session_handlers[slot as int] < modules.len()
                    &&& modules_view(modules@)[session_handlers[slot as int] as int].session_key
                        != Some(session_keys[slot as int])
                },
            },
    {
        let ghost mv = modules_view(modules@);
        let n: usize = modules.len();
        if n > MAX_MODULES {
            return Err(RegistryError::TooManyModules);
        }
        let mut i: usize = 0;
        while i < n
            invariant
                i <= n,
                n == modules.len(),
                n <= MAX_MODULES,
                mv == modules_view(modules@),
                forall|k: int| 0 <= k < i ==> (#[trigger] mv[k]).calls.len() <= MAX_CALLS,
            decreases n - i,
        {
            assert(mv[i as int] == modules@[i as int]@);
            if modules[i].calls.len() > MAX_CALLS {
                return Err(RegistryError::TooManyCalls { module: i });
            }
            i += 1;
        }
        assert(no_oversized(mv));
        let mut second: usize = 0;
        while second < n
            invariant
                second <= n,
                n == modules.len(),
                n <= MAX_MODULES,
                mv == modules_view(modules@),
                no_oversized(mv),
                forall|a: int, b: int|
                    0 <= a < b < second ==> (#[trigger] mv[a]).name != (#[trigger] mv[b]).name,
            decreases n - second,
        {
            let mut first: usize = 0;
            while first < second
                invariant
                    first <= second < n,
                    n == modules.len(),
                    n <= MAX_MODULES,
                    mv == modules_view(modules@),
                    no_oversized(mv),
                    forall|a: int, b: int|
                        0 <= a < b < second ==> (#[trigger] mv[a]).name != (#[trigger] mv[b]).name,
                    forall|a: int| 0 <= a < first ==> (#[trigger] mv[a]).name != mv[second as int].name,
                decreases second - first,
            {
                assert(mv[first as int] == modules@[first as int]@);
                assert(mv[second as int] == modules@[second as int]@);
                if modules[first].name == modules[second].name {
                    return Err(RegistryError::DuplicateName { first, second });
                }
                first += 1;
            }
            second += 1;
        }
        assert(names_distinct(mv));
        if session_keys.len() != session_handlers.len() {
            return Err(RegistryError::SessionLengthMismatch);
        }
        let mut slot: usize = 0;
        while slot < session_keys.len()
            invariant
                slot <= session_keys.len(),
                session_keys.len() == session_handlers.len(),
                n == modules.len(),
                mv == modules_view(modules@),
                n <= MAX_MODULES,
                no_oversized(mv),
                names_distinct(mv),
                slots_paired(mv, session_keys@, session_handlers@, slot as int),
            decreases session_keys.len() - slot,
        {
            let handler: usize = session_handlers[slot];
            if handler >= n {
                assert(!slot_paired(mv, session_keys@, session_handlers@, slot as int));
                return Err(RegistryError::UnknownSessionHandler { slot });
            }
            assert(mv[handler as int] == modules@[handler as int]@);
            let paired: bool = match modules[handler].session_key {
                Some(key) => key == session_keys[slot],
                None => false,
            };
            if !paired {
                assert(!slot_paired(mv, session_keys@, session_handlers@, slot as int));
                return Err(RegistryError::SessionKeyMismatch { slot });
            }
            assert(slot_paired(mv, session_keys@, session_handlers@, slot as int));
            slot += 1;
        }
        Ok(Registry { modules, session_keys, session_handlers })
    }
}

impl Registry {
    /// How many modules the runtime holds.
    pub fn module_count(&self) -> (n: usize)
        ensures
            n == self@.modules.len(),
            n <= MAX_MODULES,
            self@.composed(),
    {
        proof {
            use_type_invariant(self);
        }
        self.modules.len()
    }

    /// The module at `position`.
    pub fn module(&self, position: u8) -> (found: Option<&ModuleDescriptor>)
        ensures
            match found {
                Some(module) => position < self@.modules.len() && module@
                    == self@.modules[position as int],
                None => position >= self@.modules.len(),
            },
    {
        if (position as usize) < self.modules.len() {
            Some(&self.modules[position as usize])
        } else {
            None
        }
    }

    /// The session key and its handler in slot `slot`: the handler is the
    /// position of a module that handles this kind of key.
    pub fn session_slot(&self, slot: usize) -> (found: Option<(KeyTypeId, usize)>)
        ensures
            match found {
                Some((key, handler)) => {
                    &&& slot < self@.session_keys.len()
                    &&& key == self@.session_keys[slot as int]
                    &&& handler == self@.session_handlers[slot as int]
                    &&& handler < self@.modules.len()
                    &&& self@.modules[handler as int].session_key == Some(key)
                },
                None => slot >= self@.session_keys.len(),
            },
    {
        proof {
            use_type_invariant(self);
        }
        if slot < self.session_keys.len() {
            assert(slot_paired(
                self@.modules,
                self@.session_keys,
                self@.session_handlers,
                slot as int,
            ));
            Some((self.session_keys[slot], self.session_handlers[slot]))
        } else {
            None
        }
    }

    /// The positions of the modules that take part in the genesis
    /// configuration, in registry order.
    pub fn config_modules(&self) -> (positions: Vec<u8>)
        ensures
            config_positions(self@.modules, positions@, self@.modules.len() as int),
    {
        proof {
            use_type_invariant(self);
        }
        let mut positions: Vec<u8> = Vec::new();
        let mut i: usize = 0;
        while i < self.modules.len()
            invariant
                i <= self.modules.len() <= MAX_MODULES,
                config_positions(self@.modules, positions@, i as int),
            decreases self.modules.len() - i,
        {
            assert(self@.modules[i as int] == self.modules@[i as int]@);
            if self.modules[i].has_config {
                let ghost before = positions@;
                positions.push(i as u8);
                assert(forall|k: int| 0 <= k < before.len() ==> positions@[k] == before[k]);
                assert(positions@[positions.len() - 1] == i);
            }
            i += 1;
        }
        positions
    }

    /// The position of the module called `name`.
    pub fn position_of(&self, name: &String) -> (found: Option<u8>)
        ensures
            found == self@.position_of(name@),
            match found {
                Some(position) => position < self@.modules.len() && self@.modules[position as int].name
                    == name@,
                None => forall|i: int|
                    0 <= i < self@.modules.len() ==> (#[trigger] self@.modules[i]).name != name@,
            },
    {
        proof {
            use_type_invariant(self);
        }
        let mut i: usize = 0;
        while i < self.modules.len()
            invariant
                i <= self.modules.len(),
                self@.composed(),
                forall|k: int| 0 <= k < i ==> (#[trigger] self@.modules[k]).name != name@,
            decreases self.modules.len() - i,
        {
            assert(self@.modules[i as int] == self.modules@[i as int]@);
            if self.modules[i].name == *name {
                assert(i < MAX_MODULES);
                return Some(i as u8);
            }
            i += 1;
        }
        None
    }

    /// Whether the call names a function that a module of this runtime
    /// declares.
    pub fn admits(&self, call: &Call) -> (known: bool)
        ensures
            known == self@.admits(call@),
    {
        let module: usize = call.module as usize;
        if module >= self.modules.len() {
            return false;
        }
        assert(self@.modules[module as int] == self.modules@[module as int]@);
        (call.variant as usize) < self.modules[module].calls.len()
    }

    /// The descriptor of the function that the call names.
    pub fn descriptor(&self, call: &Call) -> (found: Option<&CallDescriptor>)
        ensures
            match found {
                Some(function) => self@.admits(call@) && function@
                    == self@.modules[call.module as int].calls[call.variant as int],
                None => !self@.admits(call@),
            },
    {
        let module: usize = call.module as usize;
        if module >= self.modules.len() {
            return None;
        }
        assert(self@.modules[module as int] == self.modules@[module as int]@);
        let variant: usize = call.variant as usize;
        if variant >= self.modules[module].calls.len() {
            return None;
        }
        Some(&self.modules[module].calls[variant])
    }

    /// The weighting policy of a call.
    pub fn policy(&self, call: &Call) -> (policy: TransactionWeight)
        ensures
            policy == self@.policy(call@),
    {
        match self.descriptor(call) {
            Some(function) => function.weight,
            None => TransactionWeight::default(),
        }
    }

    /// Routes a call to the module that owns it, under the origin given,
    /// and returns what the module answers. A call that names no function
    /// of the runtime reaches no module.
    pub fn dispatch<H: Host>(&self, host: &mut H, call: &Call, origin: &Origin) -> (r: Result<
        (),
        DispatchError,
    >)
        ensures
            !self@.admits(call@) ==> r == Err::<(), DispatchError>(DispatchError::UnknownCall)
                && *final(host) == *old(host),
    {
        if !self.admits(call) {
            return Err(DispatchError::UnknownCall);
        }
        host.dispatch(call, origin)
    }

    /// The bytes that stand for `call`.
    pub fn encode(&self, call: &Call) -> (bytes: Vec<u8>)
        ensures
            bytes@ == call_encoding(call@),
    {
        let mut bytes: Vec<u8> = Vec::new();
        bytes.push(call.module);
        bytes.push(call.variant);
        let mut i: usize = 0;
        while i < call.args.len()
            invariant
                i <= call.args.len(),
                bytes@ == seq![call.module, call.variant] + call.args@.take(i as int),
            decreases call.args.len() - i,
        {
            bytes.push(call.args[i]);
            assert(call.args@.take(i + 1) == call.args@.take(i as int).push(call.args@[i as int]));
            i += 1;
        }
        assert(call.args@.take(call.args.len() as int) == call.args@);
        bytes
    }

    /// The call that `bytes` stand for, if they stand for one.
    pub fn decode(&self, bytes: &Vec<u8>) -> (r: Result<Call, DecodeError>)
        ensures
            match r {
                Ok(call) => self@.decoding(bytes@) == Ok::<CallView, DecodeError>(call@),
                Err(e) => self@.decoding(bytes@) == Err::<CallView, DecodeError>(e),
            },
    {
        if bytes.len() < 2 {
            return Err(DecodeError::Truncated);
        }
        let module: u8 = bytes[0];
        let variant: u8 = bytes[1];
        if module as usize >= self.modules.len() {
            return Err(DecodeError::UnknownModule { module });
        }
        assert(self@.modules[module as int] == self.modules@[module as int]@);
        if variant as usize >= self.modules[module as usize].calls.len() {
            return Err(DecodeError::UnknownFunction { module, variant });
        }
        let mut args: Vec<u8> = Vec::new();
        let mut i: usize = 2;
        while i < bytes.len()
            invariant
                2 <= i <= bytes.len(),
                args@ == bytes@.subrange(2, i as int),
            decreases bytes.len() - i,
        {
            args.push(bytes[i]);
            assert(bytes@.subrange(2, i + 1) == bytes@.subrange(2, i as int).push(bytes@[i as int]));
            i += 1;
        }
        assert(bytes@.subrange(2, bytes.len() as int) == bytes@.skip(2));
        Ok(Call { module, variant, args })
    }
}

/// A copy of a list of names.
fn clone_names(names: &Vec<String>) -> (copy: Vec<String>)
    ensures
        names_view(copy@) == names_view(names@),
{
    let mut copy: Vec<String> = Vec::new();
    let mut i: usize = 0;
    while i < names.len()
        invariant
            i <= names.len(),
            copy.len() == i,
            forall|k: int| 0 <= k < i ==> copy@[k]@ == names@[k]@,
        decreases names.len() - i,
    {
        copy.push(names[i].clone());
        i += 1;
    }
    assert(names_view(copy@) =~= names_view(names@));
    copy
}

/// The names of a list of functions, in order.
fn call_names(calls: &Vec<CallDescriptor>) -> (names: Vec<String>)
    ensures
        names_view(names@) == Seq::new(calls@.len(), |i: int| calls@[i].name@),
{
    let mut names: Vec<String> = Vec::new();
    let mut i: usize = 0;
    while i < calls.len()
        invariant
            i <= calls.len(),
            names.len() == i,
            forall|k: int| 0 <= k < i ==> names@[k]@ == calls@[k].name@,
        decreases calls.len() - i,
    {
        names.push(calls[i].name.clone());
        i += 1;
    }
    assert(names_view(names@) =~= Seq::new(calls@.len(), |i: int| calls@[i].name@));
    names
}

impl Registry {
    /// A description of every module of the runtime, in registry order. It
    /// is derived from the registry alone.
    pub fn metadata(&self) -> (description: RuntimeMetadata)
        ensures
            description@ == self@.metadata(),
    {
        proof {
            use_type_invariant(self);
        }
        let mut modules: Vec<ModuleMetadata> = Vec::new();
        let mut i: usize = 0;
        while i < self.modules.len()
            invariant
                i <= self.modules.len(),
                self.modules.len() <= MAX_MODULES,
                modules.len() == i,
                forall|k: int|
                    0 <= k < i ==> (#[trigger] modules@[k])@ == self@.modules[k].metadata(k),
            decreases self.modules.len() - i,
        {
            let module = &self.modules[i];
            assert(self@.modules[i as int] == module@);
            let entry = ModuleMetadata {
                name: module.name.clone(),
                position: i as u8,
                storage: clone_names(&module.storage),
                calls: call_names(&module.calls),
                events: clone_names(&module.events),
            };
            assert(entry@.calls =~= module@.call_names());
            modules.push(entry);
            i += 1;
        }
        let description = RuntimeMetadata { modules };
        assert(description@ =~= self@.metadata());
        description
    }
}

/// The description of a runtime depends on the registry alone: registries
/// that hold the same modules in the same order are described alike, so
/// asking twice gives the same answer.
pub proof fn lemma_metadata_deterministic(a: RegistryView, b: RegistryView)
    requires
        a.modules == b.modules,
    ensures
        a.metadata() == b.metadata(),
        a.metadata().len() == a.modules.len(),
        forall|i: int|
            0 <= i < a.modules.len() ==> (#[trigger] a.metadata()[i]).name == a.modules[i].name,
{
}

/// Decoding undoes encoding: every call that names a function of the runtime
/// comes back from its bytes as the same module, function and arguments.
pub proof fn lemma_decode_encode(registry: RegistryView, call: CallView)
    requires
        registry.admits(call),
    ensures
        registry.decoding(call_encoding(call)) == Ok::<CallView, DecodeError>(call),
{
    let bytes = call_encoding(call);
    assert(bytes[0] == call.module);
    assert(bytes[1] == call.variant);
    assert(bytes.skip(2) == call.args);
}

/// Encoding is canonical: a byte string that decodes to a call is the one
/// encoding of that call.
pub proof fn lemma_encode_decode(registry: RegistryView, bytes: Seq<u8>)
    requires
        registry.decoding(bytes) is Ok,
    ensures
        call_encoding(registry.decoding(bytes)->Ok_0) == bytes,
        registry.admits(registry.decoding(bytes)->Ok_0),
{
    let call = registry.decoding(bytes)->Ok_0;
    assert(call_encoding(call) =~= bytes);
}

/// Two calls with the same bytes are the same call, so the first byte of an
/// encoding names the owning module and the second its function.
pub proof fn lemma_encoding_injective(a: CallView, b: CallView)
    requires
        call_encoding(a) == call_encoding(b),
    ensures
        a == b,
        call_encoding(a)[0] == a.module,
        call_encoding(a)[1] == a.variant,
{
    let x = call_encoding(a);
    let y = call_encoding(b);
    assert(x[0] == a.module && y[0] == b.module);
    assert(x[1] == a.variant && y[1] == b.variant);
    assert(x.skip(2) == a.args);
    assert(y.skip(2) == b.args);
}

} // verus!
