use node_runtime::block::{Block, Header};
use node_runtime::digest::{DigestItem, LogPayload, ScheduledChange};
use node_runtime::executive::{ApplyError, ApplyOutcome, BlockError, Phase, TransactionValidity};
use node_runtime::extrinsic::UncheckedExtrinsic;
use node_runtime::host::Host;
use node_runtime::inherent::{
    accept_inherent, check_inherents, inherent_extrinsics, judge_inherent, InherentData,
    InherentEntry, InherentFault, InherentObjection, InherentReport,
};
use node_runtime::primitives::{DispatchError, Origin};
use node_runtime::registry::{Call, CallDescriptor, ModuleDescriptor, Registry};
use node_runtime::runtime::Runtime;
use node_runtime::version::version;
use node_runtime::weights::TransactionWeight;

const SYSTEM: u8 = 0;
const TIMESTAMP: u8 = 1;
const FINALITY: u8 = 2;
const UNCLES: u8 = 3;

// A chain whose timestamp module wants the time of the inherent data, give
// or take one, and whose uncles module wants no more than three uncles.
struct Chain {
    dispatched: Vec<Call>,
    asked: std::cell::RefCell<Vec<u8>>,
}

impl Chain {
    fn new() -> Chain {
        Chain { dispatched: vec![], asked: std::cell::RefCell::new(vec![]) }
    }
}

fn time(data: &InherentData) -> Option<u8> {
    data.entries.iter().find(|e| e.identifier == *b"timstap0").map(|e| e.data[0])
}

impl Host for Chain {
    fn lookup(&self, _index: u32) -> Option<[u8; 32]> {
        None
    }

    fn verify(&self, _signer: &[u8; 32], _signature: &[u8; 64], _payload: &Vec<u8>) -> bool {
        true
    }

    fn account_nonce(&self, _who: &[u8; 32]) -> u64 {
        0
    }

    fn can_pay(&self, _who: &[u8; 32], _len: usize) -> bool {
        true
    }

    fn charge(&mut self, _who: &[u8; 32], _len: usize) {}

    fn dispatch(&mut self, call: &Call, _origin: &Origin) -> Result<(), DispatchError> {
        self.dispatched.push(call.clone());
        Ok(())
    }

    fn on_finalize(&mut self, _module: u8, _number: u64) -> Vec<LogPayload> {
        vec![]
    }

    fn state_root(&self) -> [u8; 32] {
        [self.dispatched.len() as u8; 32]
    }

    fn extrinsics_root(&self, extrinsics: &Vec<Vec<u8>>) -> [u8; 32] {
        [extrinsics.len() as u8; 32]
    }

    fn create_inherent(&self, module: u8, data: &InherentData) -> Option<Call> {
        self.asked.borrow_mut().push(module);
        match module {
            TIMESTAMP => time(data).map(|now| Call { module, variant: 0, args: vec![now] }),
            UNCLES => Some(Call { module: SYSTEM, variant: 0, args: vec![] }),
            _ => Some(Call { module, variant: 0, args: vec![] }),
        }
    }

    fn check_inherent(
        &self,
        module: u8,
        call: &Call,
        data: &InherentData,
    ) -> Option<InherentObjection> {
        self.asked.borrow_mut().push(module);
        match module {
            TIMESTAMP => match (call.args.first(), time(data)) {
                (Some(&claimed), Some(now)) if claimed.abs_diff(now) <= 1 => None,
                (Some(&claimed), Some(now)) if claimed > now => {
                    Some(InherentObjection { code: 1, fatal: false })
                },
                _ => Some(InherentObjection { code: 2, fatal: true }),
            },
            _ => {
                if call.args.len() > 3 {
                    Some(InherentObjection { code: 3, fatal: false })
                } else {
                    None
                }
            },
        }
    }

    fn offchain_worker(&self, _module: u8, _number: u64) {}
}

fn module(name: &str, calls: usize, has_inherent: bool) -> ModuleDescriptor {
    ModuleDescriptor {
        name: name.to_string(),
        calls: (0..calls)
            .map(|i| CallDescriptor { name: format!("f{}", i), weight: TransactionWeight::default() })
            .collect(),
        events: vec![],
        storage: vec![],
        has_origin: false,
        has_log: true,
        has_config: false,
        has_inherent,
        session_key: None,
    }
}

fn registry() -> Registry {
    Registry::register(
        vec![
            module("System", 1, false),
            module("Timestamp", 1, true),
            module("Grandpa", 0, true),
            module("Uncles", 2, true),
        ],
        vec![],
        vec![],
    )
    .unwrap()
}

fn at(now: u8) -> InherentData {
    InherentData {
        entries: vec![
            InherentEntry { identifier: *b"uncles00", data: vec![] },
            InherentEntry { identifier: *b"timstap0", data: vec![now] },
        ],
    }
}

fn unsigned(module: u8, variant: u8, args: Vec<u8>) -> UncheckedExtrinsic {
    UncheckedExtrinsic { signed: None, call: Call { module, variant, args } }
}

fn signed(module: u8, variant: u8) -> UncheckedExtrinsic {
    let mut xt = unsigned(module, variant, vec![]);
    xt.signed = Some(node_runtime::extrinsic::SignedPart {
        address: node_runtime::extrinsic::Address::Id([1; 32]),
        signature: [0; 64],
        nonce: 0,
        era: node_runtime::extrinsic::Era::Immortal,
    });
    xt
}

fn block(extrinsics: Vec<UncheckedExtrinsic>) -> Block {
    Block {
        header: Header {
            parent_hash: [0; 32],
            number: 1,
            state_root: [0; 32],
            extrinsics_root: [0; 32],
            digest: vec![],
        },
        extrinsics,
    }
}

#[test]
fn inherents_are_made_in_registry_order() {
    let chain = Chain::new();
    let made = inherent_extrinsics(&registry(), &chain, &at(50));
    assert_eq!(*chain.asked.borrow(), vec![TIMESTAMP, FINALITY, UNCLES]);
    assert_eq!(made, vec![unsigned(TIMESTAMP, 0, vec![50])]);
}

#[test]
fn no_inherent_is_made_without_its_data() {
    let chain = Chain::new();
    let made = inherent_extrinsics(&registry(), &chain, &InherentData { entries: vec![] });
    assert!(made.is_empty());
}

#[test]
fn inherents_that_agree_with_the_data_pass() {
    let chain = Chain::new();
    let block = block(vec![
        unsigned(TIMESTAMP, 0, vec![51]),
        signed(SYSTEM, 0),
        unsigned(UNCLES, 1, vec![1, 2, 3]),
    ]);
    let result = check_inherents(&registry(), &chain, &block, &at(50));
    assert!(result.ok());
    assert!(!result.fatal_error());
    assert!(result.reports.is_empty());
    assert_eq!(*chain.asked.borrow(), vec![TIMESTAMP, UNCLES]);
}

#[test]
fn objections_are_reported_in_block_order() {
    let chain = Chain::new();
    let block = block(vec![
        unsigned(UNCLES, 0, vec![1, 2, 3, 4]),
        signed(TIMESTAMP, 0),
        unsigned(TIMESTAMP, 0, vec![60]),
        unsigned(UNCLES, 1, vec![]),
    ]);
    let result = check_inherents(&registry(), &chain, &block, &at(50));
    assert!(!result.ok());
    assert!(!result.fatal_error());
    assert_eq!(
        result.reports,
        vec![
            InherentReport {
                extrinsic: 0,
                fault: InherentFault::Refused(InherentObjection { code: 3, fatal: false })
            },
            InherentReport {
                extrinsic: 2,
                fault: InherentFault::Refused(InherentObjection { code: 1, fatal: false })
            },
        ]
    );
}

#[test]
fn the_check_stops_at_a_fatal_objection() {
    let chain = Chain::new();
    let block = block(vec![
        unsigned(UNCLES, 0, vec![1, 2, 3, 4]),
        unsigned(TIMESTAMP, 0, vec![40]),
        unsigned(UNCLES, 0, vec![1, 2, 3, 4, 5]),
    ]);
    let result = check_inherents(&registry(), &chain, &block, &at(50));
    assert!(result.fatal_error());
    assert_eq!(result.reports.len(), 2);
    assert_eq!(
        result.reports[1],
        InherentReport {
            extrinsic: 1,
            fault: InherentFault::Refused(InherentObjection { code: 2, fatal: true })
        }
    );
    assert_eq!(*chain.asked.borrow(), vec![UNCLES, TIMESTAMP]);
}

#[test]
fn an_unsigned_extrinsic_that_is_no_inherent_is_fatal() {
    let chain = Chain::new();
    let block = block(vec![unsigned(TIMESTAMP, 0, vec![50]), unsigned(SYSTEM, 0, vec![])]);
    let result = check_inherents(&registry(), &chain, &block, &at(50));
    assert!(result.fatal_error());
    assert_eq!(
        result.reports,
        vec![InherentReport { extrinsic: 1, fault: InherentFault::NotAnInherent }]
    );
    let block = block_of_unknown_call();
    let result = check_inherents(&registry(), &chain, &block, &at(50));
    assert_eq!(
        result.reports,
        vec![InherentReport { extrinsic: 0, fault: InherentFault::NotAnInherent }]
    );
}

fn block_of_unknown_call() -> Block {
    block(vec![unsigned(FINALITY, 0, vec![]), unsigned(TIMESTAMP, 0, vec![50])])
}

#[test]
fn faults_are_judged_from_the_registry_and_the_objection() {
    let registry = registry();
    let objection = InherentObjection { code: 9, fatal: false };
    assert_eq!(judge_inherent(&registry, &signed(SYSTEM, 0), Some(objection)), None);
    assert_eq!(
        judge_inherent(&registry, &unsigned(SYSTEM, 0, vec![]), None),
        Some(InherentFault::NotAnInherent)
    );
    assert_eq!(
        judge_inherent(&registry, &unsigned(UNCLES, 2, vec![]), None),
        Some(InherentFault::NotAnInherent)
    );
    assert_eq!(judge_inherent(&registry, &unsigned(UNCLES, 1, vec![]), None), None);
    assert_eq!(
        judge_inherent(&registry, &unsigned(UNCLES, 1, vec![]), Some(objection)),
        Some(InherentFault::Refused(objection))
    );
    assert!(InherentFault::NotAnInherent.fatal());
    assert!(!InherentFault::Refused(objection).fatal());
    assert!(InherentFault::Refused(InherentObjection { code: 0, fatal: true }).fatal());
}

#[test]
fn the_runtime_offers_the_entry_points() {
    let mut chain = Chain::new();
    let mut runtime = Runtime::new(registry(), 10_000, Some(FINALITY));
    assert_eq!(runtime.version(), version());
    assert_eq!(runtime.metadata().modules.len(), 4);
    assert_eq!(runtime.metadata().modules[2].name, "Grandpa");
    let inherents = runtime.inherent_extrinsics(&chain, &at(9));
    assert_eq!(inherents, vec![unsigned(TIMESTAMP, 0, vec![9])]);

    let mut declared = block(vec![]).header;
    assert_eq!(runtime.initialize_block(&declared), Ok(()));
    assert_eq!(runtime.initialize_block(&declared), Err(BlockError::AlreadyInitialized));
    assert_eq!(runtime.apply_extrinsic(&mut chain, &inherents[0]), Ok(ApplyOutcome::Success));
    assert_eq!(
        runtime.apply_extrinsic(&mut chain, &unsigned(FINALITY, 0, vec![])),
        Err(ApplyError::UnknownCall)
    );
    let sealed = runtime.finalize_block(&mut chain).unwrap();
    assert_eq!(runtime.executive.phase(), Phase::Finalized);
    assert_eq!(runtime.finality_module, Some(FINALITY));

    declared.state_root = sealed.state_root;
    declared.extrinsics_root = sealed.extrinsics_root;
    let built = Block { header: declared, extrinsics: inherents };
    assert!(runtime.check_inherents(&chain, &built, &at(10)).ok());
    assert!(runtime.check_inherents(&chain, &built, &at(30)).fatal_error());
    let mut replay = Runtime::new(registry(), 10_000, Some(FINALITY));
    assert_eq!(replay.execute_block(&mut Chain::new(), &built), Ok(vec![ApplyOutcome::Success]));
    assert_eq!(replay.executive.events(), runtime.executive.events());

    match runtime.validate_transaction(&chain, &signed(SYSTEM, 0)) {
        TransactionValidity::Valid(hints) => {
            assert_eq!(hints.provides, ([1; 32], 0));
            assert_eq!(hints.priority, 1 + 33 + 64 + 8 + 1 + 2);
        },
        other => panic!("not valid: {:?}", other),
    }
    runtime.offchain_worker(&chain, 2);
}

#[test]
fn authority_changes_are_read_from_the_finality_module() {
    let change = |delay| ScheduledChange { delay, next_authorities: vec![([delay as u8; 32], 1)] };
    let digest = vec![
        DigestItem { module: UNCLES, payload: LogPayload::AuthoritiesChange(change(1)) },
        DigestItem { module: FINALITY, payload: LogPayload::ForcedAuthoritiesChange(5, change(2)) },
        DigestItem { module: FINALITY, payload: LogPayload::AuthoritiesChange(change(3)) },
    ];
    let runtime = Runtime::new(registry(), 10_000, Some(FINALITY));
    assert_eq!(runtime.grandpa_pending_change(&digest), Some(&change(3)));
    assert_eq!(runtime.grandpa_forced_change(&digest), Some((5, &change(2))));
    assert_eq!(runtime.grandpa_pending_change(&vec![]), None);
    let other = Runtime::new(registry(), 10_000, Some(UNCLES));
    assert_eq!(other.grandpa_pending_change(&digest), Some(&change(1)));
    assert_eq!(other.grandpa_forced_change(&digest), None);
    let none = Runtime::new(registry(), 10_000, None);
    assert_eq!(none.grandpa_pending_change(&digest), None);
    assert_eq!(none.grandpa_forced_change(&digest), None);
}

#[test]
fn an_answer_becomes_an_inherent_if_it_is_the_modules_own_call() {
    let registry = registry();
    let call = |module, variant| Call { module, variant, args: vec![4] };
    assert_eq!(
        accept_inherent(&registry, TIMESTAMP, Some(call(TIMESTAMP, 0))),
        Some(unsigned(TIMESTAMP, 0, vec![4]))
    );
    assert_eq!(
        accept_inherent(&registry, UNCLES, Some(call(UNCLES, 1))),
        Some(unsigned(UNCLES, 1, vec![4]))
    );
    assert_eq!(accept_inherent(&registry, TIMESTAMP, None), None);
    assert_eq!(accept_inherent(&registry, TIMESTAMP, Some(call(UNCLES, 0))), None);
    assert_eq!(accept_inherent(&registry, TIMESTAMP, Some(call(TIMESTAMP, 1))), None);
    assert_eq!(accept_inherent(&registry, FINALITY, Some(call(FINALITY, 0))), None);
    assert_eq!(accept_inherent(&registry, SYSTEM, Some(call(SYSTEM, 0))), None);
    assert_eq!(accept_inherent(&registry, 9, Some(call(9, 0))), None);
}

#[test]
fn every_module_that_deals_in_inherents_can_add_one() {
    struct Eager;
    impl Host for Eager {
        fn lookup(&self, _index: u32) -> Option<[u8; 32]> {
            None
        }
        fn verify(&self, _signer: &[u8; 32], _signature: &[u8; 64], _payload: &Vec<u8>) -> bool {
            false
        }
        fn account_nonce(&self, _who: &[u8; 32]) -> u64 {
            0
        }
        fn can_pay(&self, _who: &[u8; 32], _len: usize) -> bool {
            false
        }
        fn charge(&mut self, _who: &[u8; 32], _len: usize) {}
        fn dispatch(&mut self, _call: &Call, _origin: &Origin) -> Result<(), DispatchError> {
            Ok(())
        }
        fn on_finalize(&mut self, _module: u8, _number: u64) -> Vec<LogPayload> {
            vec![]
        }
        fn state_root(&self) -> [u8; 32] {
            [0; 32]
        }
        fn extrinsics_root(&self, _extrinsics: &Vec<Vec<u8>>) -> [u8; 32] {
            [0; 32]
        }
        fn create_inherent(&self, module: u8, _data: &InherentData) -> Option<Call> {
            Some(Call { module, variant: 0, args: vec![module] })
        }
        fn check_inherent(
            &self,
            _module: u8,
            _call: &Call,
            _data: &InherentData,
        ) -> Option<InherentObjection> {
            None
        }
        fn offchain_worker(&self, _module: u8, _number: u64) {}
    }
    let made = inherent_extrinsics(&registry(), &Eager, &at(1));
    assert_eq!(
        made,
        vec![unsigned(TIMESTAMP, 0, vec![TIMESTAMP]), unsigned(UNCLES, 0, vec![UNCLES])]
    );
}
