//! Inherents: extrinsics that no account signs. A block's author derives
//! them from data that comes from outside the chain, such as the time.

use crate::block::Block;
use crate::extrinsic::{extrinsics_view, UncheckedExtrinsic, UncheckedExtrinsicView};
use crate::host::Host;
use crate::registry::{Call, CallView, Registry, RegistryView, MAX_MODULES};
use vstd::prelude::*;

verus! {

/// Names one kind of inherent data.
pub type InherentIdentifier = [u8; 8];

/// One piece of inherent data, as the module that reads it encodes it.
#[derive(Debug, PartialEq, Eq)]
pub struct InherentEntry {
    pub identifier: InherentIdentifier,
    pub data: Vec<u8>,
}

/// The data from outside the chain that a block's inherents are made from
/// and checked against.
#[derive(Debug, PartialEq, Eq)]
pub struct InherentData {
    pub entries: Vec<InherentEntry>,
}

/// What a module objects to in an inherent of its own.
#[derive(Clone, Copy, Debug, PartialEq, Eq, Structural)]
pub struct InherentObjection {
    /// The module's own code for the objection.
    pub code: u8,
    /// Whether the block must be rejected for it.
    pub fatal: bool,
}

/// Why an inherent of a block does not stand.
#[derive(Clone, Copy, Debug, PartialEq, Eq, Structural)]
pub enum InherentFault {
    /// The extrinsic is unsigned, but its call belongs to no module that
    /// deals in inherents.
    NotAnInherent,
    /// The owning module objects to the inherent.
    Refused(InherentObjection),
}

impl InherentFault {
    /// Whether the block must be rejected for this fault.
    pub open spec fn is_fatal(self) -> bool {
        match self {
            InherentFault::NotAnInherent => true,
            InherentFault::Refused(objection) => objection.fatal,
        }
    }

    /// Whether the block must be rejected for this fault.
    pub fn fatal(&self) -> (fatal: bool)
        ensures
            fatal == self.is_fatal(),
    {
        match self {
            InherentFault::NotAnInherent => true,
            InherentFault::Refused(objection) => objection.fatal,
        }
    }
}

/// A fault, with the position in the block of the extrinsic it is about.
#[derive(Clone, Copy, Debug, PartialEq, Eq, Structural)]
pub struct InherentReport {
    pub extrinsic: usize,
    pub fault: InherentFault,
}

/// The call belongs to a module of the runtime that deals in inherents.
pub open spec fn provides_inherent(registry: RegistryView, call: CallView) -> bool {
    registry.admits(call) && registry.modules[call.module as int].has_inherent
}

/// What is wrong with an extrinsic as an inherent, given what the owning
/// module objects to. A signed extrinsic is no inherent and has no fault.
pub open spec fn inherent_fault(
    registry: RegistryView,
    xt: UncheckedExtrinsicView,
    objection: Option<InherentObjection>,
) -> Option<InherentFault> {
    if xt.signed is Some {
        None
    } else if !provides_inherent(registry, xt.call) {
        Some(InherentFault::NotAnInherent)
    } else {
        match objection {
            Some(objection) => Some(InherentFault::Refused(objection)),
            None => None,
        }
    }
}

/// The report is about an unsigned extrinsic of the block, and it says
/// that the extrinsic is no inherent exactly when its call belongs to no
/// module that deals in inherents.
pub open spec fn report_fits(
    registry: RegistryView,
    xts: Seq<UncheckedExtrinsicView>,
    report: InherentReport,
) -> bool {
    &&& report.extrinsic < xts.len()
    &&& xts[report.extrinsic as int].signed is None
    &&& report.fault is NotAnInherent <==> !provides_inherent(
        registry,
        xts[report.extrinsic as int].call,
    )
}

/// How far into the block the check went: up to the first fatal report, or
/// through all of it.
pub open spec fn scanned(xts: Seq<UncheckedExtrinsicView>, reports: Seq<InherentReport>) -> int {
    if reports.len() > 0 && reports.last().fault.is_fatal() {
        reports.last().extrinsic + 1
    } else {
        xts.len() as int
    }
}

/// The reports are what a check of the block's inherents gives: every
/// report fits the block, the reports follow the order of the block, only
/// the last can be fatal, and no unsigned extrinsic that is no inherent
/// goes unreported as far as the check went.
pub open spec fn inherents_checked(
    registry: RegistryView,
    xts: Seq<UncheckedExtrinsicView>,
    reports: Seq<InherentReport>,
) -> bool {
    &&& forall|k: int| 0 <= k < reports.len() ==> report_fits(registry, xts, #[trigger] reports[k])
    &&& forall|j: int, k: int|
        0 <= j < k < reports.len() ==> (#[trigger] reports[j]).extrinsic
            < (#[trigger] reports[k]).extrinsic
    &&& forall|k: int| 0 <= k < reports.len() - 1 ==> !(#[trigger] reports[k]).fault.is_fatal()
    &&& forall|e: int|
        0 <= e < scanned(xts, reports) && (#[trigger] xts[e]).signed is None && !provides_inherent(
            registry,
            xts[e].call,
        ) ==> reports.len() > 0 && reports.last().extrinsic == e
}

/// The extrinsics are inherents made for the runtime: none is signed, each
/// calls a module that deals in inherents, and they follow the order of the
/// registry, at most one for a module.
pub open spec fn inherents_made(registry: RegistryView, xts: Seq<UncheckedExtrinsicView>) -> bool {
    &&& forall|k: int|
        0 <= k < xts.len() ==> (#[trigger] xts[k]).signed is None && provides_inherent(
            registry,
            xts[k].call,
        )
    &&& forall|j: int, k: int|
        0 <= j < k < xts.len() ==> (#[trigger] xts[j]).call.module < (#[trigger] xts[k]).call.module
}

/// What a module's answer to the question for an inherent call stands for.
pub open spec fn answer_view(answer: Option<Call>) -> Option<CallView> {
    match answer {
        Some(call) => Some(call@),
        None => None,
    }
}

/// The inherent that the answer of the module at `position` becomes. A
/// call becomes an unsigned extrinsic if the module deals in inherents and
/// the call is a known call of that module's own; any other answer becomes
/// nothing.
pub open spec fn accepted_inherent(
    registry: RegistryView,
    position: int,
    answer: Option<CallView>,
) -> Option<UncheckedExtrinsicView> {
    match answer {
        Some(call) => if 0 <= position < registry.modules.len()
            && registry.modules[position].has_inherent && call.module == position
            && registry.admits(call) {
            Some(UncheckedExtrinsicView { signed: None, call })
        } else {
            None
        },
        None => None,
    }
}

/// The inherents that the modules' answers become: the answers are taken
/// in registry order, one for each module, and each answer that is
/// accepted adds one extrinsic.
pub open spec fn inherents_from(
    registry: RegistryView,
    answers: Seq<Option<CallView>>,
) -> Seq<UncheckedExtrinsicView>
    decreases answers.len(),
{
    if answers.len() == 0 {
        Seq::empty()
    } else {
        let earlier = inherents_from(registry, answers.drop_last());
        match accepted_inherent(registry, answers.len() - 1, answers.last()) {
            Some(xt) => earlier.push(xt),
            None => earlier,
        }
    }
}

/// The outcome of checking a block's inherents.
#[derive(Debug, PartialEq, Eq)]
pub struct CheckInherentsResult {
    /// What was found, in the order of the block.
    pub reports: Vec<InherentReport>,
}

impl CheckInherentsResult {
    /// Whether nothing was found.
    pub fn ok(&self) -> (ok: bool)
        ensures
            ok == (self.reports@.len() == 0),
    {
        self.reports.len() == 0
    }

    /// Whether the block must be rejected for what was found.
    pub fn fatal_error(&self) -> (fatal: bool)
        ensures
            fatal == (self.reports@.len() > 0 && self.reports@.last().fault.is_fatal()),
    {
        let n: usize = self.reports.len();
        n > 0 && self.reports[n - 1].fault.fatal()
    }
}

/// Decides what is wrong with an extrinsic as an inherent, given what the
/// owning module objects to.
pub fn judge_inherent(
    registry: &Registry,
    xt: &UncheckedExtrinsic,
    objection: Option<InherentObjection>,
) -> (fault: Option<InherentFault>)
    ensures
        fault == inherent_fault(registry@, xt@, objection),
{
    if xt.signed.is_some() {
        return None;
    }
    let provides: bool = match registry.descriptor(&xt.call) {
        Some(_) => match registry.module(xt.call.module) {
            Some(module) => module.has_inherent,
            None => false,
        },
        None => false,
    };
    if !provides {
        return Some(InherentFault::NotAnInherent);
    }
    match objection {
        Some(objection) => Some(InherentFault::Refused(objection)),
        None => None,
    }
}

/// Checks the unsigned extrinsics of a block against the inherent data:
/// each must call a module that deals in inherents, and that module is
/// asked what it objects to. The check stops at the first fatal fault.
pub fn check_inherents<H: Host>(
    registry: &Registry,
    host: &H,
    block: &Block,
    data: &InherentData,
) -> (result: CheckInherentsResult)
    ensures
        inherents_checked(registry@, block@.extrinsics, result.reports@),
{
    let ghost xts = extrinsics_view(block.extrinsics@);
    let mut reports: Vec<InherentReport> = Vec::new();
    let mut i: usize = 0;
    while i < block.extrinsics.len()
        invariant
            i <= block.extrinsics.len(),
            xts == extrinsics_view(block.extrinsics@),
            forall|k: int|
                0 <= k < reports.len() ==> report_fits(registry@, xts, #[trigger] reports@[k])
                    && reports@[k].extrinsic < i && !reports@[k].fault.is_fatal(),
            forall|j: int, k: int|
                0 <= j < k < reports.len() ==> (#[trigger] reports@[j]).extrinsic
                    < (#[trigger] reports@[k]).extrinsic,
            forall|e: int|
                0 <= e < i && (#[trigger] xts[e]).signed is None ==> provides_inherent(
                    registry@,
                    xts[e].call,
                ),
        decreases block.extrinsics.len() - i,
    {
        let xt = &block.extrinsics[i];
        assert(xts[i as int] == xt@);
        let objection: Option<InherentObjection> = if xt.signed.is_none() {
            host.check_inherent(xt.call.module, &xt.call, data)
        } else {
            None
        };
        match judge_inherent(registry, xt, objection) {
            Some(fault) => {
                reports.push(InherentReport { extrinsic: i, fault });
                if fault.fatal() {
                    assert(reports@.last().extrinsic == i);
                    assert(scanned(xts, reports@) == i + 1);
                    return CheckInherentsResult { reports };
                }
            },
            None => {},
        }
        i += 1;
    }
    CheckInherentsResult { reports }
}

/// Turns the answer of the module at `position` into an inherent: a known
/// call of that module's own becomes an unsigned extrinsic, if the module
/// deals in inherents.
pub fn accept_inherent(registry: &Registry, position: u8, answer: Option<Call>) -> (made: Option<
    UncheckedExtrinsic,
>)
    ensures
        match made {
            Some(xt) => accepted_inherent(registry@, position as int, answer_view(answer)) == Some(
                xt@,
            ),
            None => accepted_inherent(registry@, position as int, answer_view(answer)) is None,
        },
{
    let deals: bool = match registry.module(position) {
        Some(module) => module.has_inherent,
        None => false,
    };
    match answer {
        Some(call) => {
            if deals && call.module == position && registry.admits(&call) {
                Some(UncheckedExtrinsic { signed: None, call })
            } else {
                None
            }
        },
        None => None,
    }
}

/// Makes the inherents of a new block from the inherent data: every module
/// that deals in inherents is asked for a call, in registry order, and
/// each call of the asked module's own becomes an unsigned extrinsic.
///
/// The result is what the modules' answers become, one answer for each
/// module. So the inherents follow the order of the registry, at most one
/// for a module, and each calls a module that deals in inherents.
pub fn inherent_extrinsics<H: Host>(registry: &Registry, host: &H, data: &InherentData) -> (made:
    Vec<UncheckedExtrinsic>)
    ensures
        exists|answers: Seq<Option<CallView>>|
            answers.len() == registry@.modules.len() && #[trigger] inherents_from(
                registry@,
                answers,
            ) == extrinsics_view(made@),
        inherents_made(registry@, extrinsics_view(made@)),
{
    let n: usize = registry.module_count();
    let mut made: Vec<UncheckedExtrinsic> = Vec::new();
    let ghost mut answers: Seq<Option<CallView>> = Seq::empty();
    let mut position: usize = 0;
    assert(extrinsics_view(made@) =~= inherents_from(registry@, answers));
    while position < n
        invariant
            position <= n <= MAX_MODULES,
            n == registry@.modules.len(),
            answers.len() == position,
            extrinsics_view(made@) == inherents_from(registry@, answers),
            inherents_made(registry@, extrinsics_view(made@)),
            forall|k: int|
                0 <= k < made.len() ==> (#[trigger] extrinsics_view(made@)[k]).call.module
                    < position,
        decreases n - position,
    {
        let deals: bool = match registry.module(position as u8) {
            Some(module) => module.has_inherent,
            None => false,
        };
        let answer: Option<Call> = if deals {
            host.create_inherent(position as u8, data)
        } else {
            None
        };
        let ghost before = extrinsics_view(made@);
        let ghost earlier = answers;
        proof {
            answers = earlier.push(answer_view(answer));
            assert(answers.drop_last() =~= earlier);
        }
        match accept_inherent(registry, position as u8, answer) {
            Some(xt) => {
                made.push(xt);
                assert(extrinsics_view(made@) =~= before.push(made@[made.len() - 1]@));
            },
            None => {},
        }
        position += 1;
    }
    made
}

} // verus!
