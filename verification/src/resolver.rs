//! From a submitted sequence to steps that each have a device: the function
//! must be exported by the module, and the device must offer what the module
//! requires.

use vstd::prelude::*;
use crate::device::{DeviceDoc, DeviceDocView};
use crate::ids::{is_object_id_text, ObjectId};
use crate::module::ModuleDoc;
use crate::text::{str_eq, str_trim, trimmed};

verus! {

/// One step as submitted: references by identifier or name.
#[derive(Clone, Debug, PartialEq, Eq)]
pub struct ApiSequenceStep {
    /// Identifier or name of a device; empty to have a device chosen.
    pub device: String,
    /// Identifier or name of a module.
    pub module: String,
    /// Name of the function to call.
    pub func: String,
}

/// A submitted sequence with the name of its deployment.
#[derive(Clone, Debug, PartialEq, Eq)]
pub struct Sequence {
    /// Identifier of an existing deployment, when one is solved again.
    pub id: Option<String>,
    pub name: String,
    pub sequence: Vec<ApiSequenceStep>,
}

/// A step whose references have been replaced by the stored documents.
#[derive(Clone, Debug, PartialEq, Eq)]
pub struct SequenceItemHydrated {
    /// Absent where a device is to be chosen.
    pub device: Option<DeviceDoc>,
    pub module: ModuleDoc,
    pub func: String,
}

/// A step with its device.
#[derive(Clone, Debug, PartialEq, Eq)]
pub struct AssignedStep {
    pub device: DeviceDoc,
    pub module: ModuleDoc,
    pub func: String,
}

/// What is wrong with a submitted sequence.
#[derive(Clone, Copy, Debug, PartialEq, Eq, Structural)]
pub enum SequenceError {
    /// The deployment has no name.
    NameMissing,
    /// The sequence has no steps.
    StepsMissing,
    /// The step at this position names no module.
    ModuleMissing { step: usize },
    /// The step at this position names no function.
    FunctionMissing { step: usize },
}

/// Whether a submitted step names a module and a function.
pub open spec fn step_error(step: ApiSequenceStep, at: usize) -> Option<SequenceError> {
    if step.module@.len() == 0 {
        Some(SequenceError::ModuleMissing { step: at })
    } else if trimmed(step.func@).len() == 0 {
        Some(SequenceError::FunctionMissing { step: at })
    } else {
        None
    }
}

/// What is wrong with a submitted sequence, if anything: the first fault in
/// the order name, steps, and then step by step.
pub open spec fn sequence_error(submitted: Sequence) -> Option<SequenceError> {
    if submitted.name@.len() == 0 {
        Some(SequenceError::NameMissing)
    } else if submitted.sequence@.len() == 0 {
        Some(SequenceError::StepsMissing)
    } else if exists|i: int|
        0 <= i < submitted.sequence@.len() && step_error(
            #[trigger] submitted.sequence@[i],
            i as usize,
        ) is Some {
        let first = choose|i: int|
            0 <= i < submitted.sequence@.len() && step_error(
                #[trigger] submitted.sequence@[i],
                i as usize,
            ) is Some && forall|j: int|
                0 <= j < i ==> step_error(#[trigger] submitted.sequence@[j], j as usize) is None;
        step_error(submitted.sequence@[first], first as usize)
    } else {
        None
    }
}

/// Checks that a submitted sequence has a name and steps, and that every
/// step names a module and a function. The device of a step may be left open.
pub fn validate_sequence(submitted: &Sequence) -> (out: Result<(), SequenceError>)
    ensures
        match out {
            Ok(_) => sequence_error(*submitted) is None,
            Err(error) => sequence_error(*submitted) == Some(error),
        },
{
    if submitted.name.as_str().is_empty() {
        return Err(SequenceError::NameMissing);
    }
    if submitted.sequence.len() == 0 {
        return Err(SequenceError::StepsMissing);
    }
    let mut i: usize = 0;
    while i < submitted.sequence.len()
        invariant
            i <= submitted.sequence@.len(),
            submitted.name@.len() != 0,
            submitted.sequence@.len() != 0,
            forall|j: int|
                0 <= j < i ==> step_error(#[trigger] submitted.sequence@[j], j as usize) is None,
        decreases submitted.sequence@.len() - i,
    {
        let step = &submitted.sequence[i];
        let fault = if step.module.as_str().is_empty() {
            Some(SequenceError::ModuleMissing { step: i })
        } else if str_trim(step.func.as_str()).as_str().is_empty() {
            Some(SequenceError::FunctionMissing { step: i })
        } else {
            None
        };
        assert(fault == step_error(submitted.sequence@[i as int], i));
        if let Some(error) = fault {
            proof {
                let first = choose|k: int|
                    0 <= k < submitted.sequence@.len() && step_error(
                        #[trigger] submitted.sequence@[k],
                        k as usize,
                    ) is Some && forall|j: int|
                        0 <= j < k ==> step_error(
                            #[trigger] submitted.sequence@[j],
                            j as usize,
                        ) is None;
                assert(step_error(submitted.sequence@[i as int], i as usize) is Some);
                assert(first == i);
            }
            return Err(error);
        }
        i += 1;
    }
    Ok(())
}

/// How a reference of a submitted step is looked up in the store.
#[derive(Debug, PartialEq, Eq)]
pub enum Reference {
    /// By identifier.
    Id(ObjectId),
    /// By name.
    Name(String),
}

/// Reads a reference of a submitted step: the text of an identifier refers
/// by identifier, any other text is a name.
pub fn reference_of(text: &str) -> (reference: Reference)
    ensures
        match reference {
            Reference::Id(id) => is_object_id_text(text@) && id.bytes@ == crate::ids::hex_bytes(
                text@,
            ),
            Reference::Name(name) => !is_object_id_text(text@) && name@ == text@,
        },
{
    match ObjectId::parse_str(text) {
        Some(id) => Reference::Id(id),
        None => Reference::Name(text.to_string()),
    }
}

/// Why a submitted sequence names no deployment to solve again.
#[derive(Clone, Copy, Debug, PartialEq, Eq, Structural)]
pub enum UpdateError {
    /// The sequence carries no identifier of a deployment.
    IdMissing,
    /// The identifier that the sequence carries is not the text of one.
    IdInvalid,
}

/// The deployment that a sequence is to be solved for again: the one whose
/// identifier the sequence carries.
pub fn deployment_to_update(submitted: &Sequence) -> (out: Result<ObjectId, UpdateError>)
    ensures
        match out {
            Ok(id) => submitted.id is Some && is_object_id_text(submitted.id->Some_0@)
                && id.bytes@ == crate::ids::hex_bytes(submitted.id->Some_0@),
            Err(UpdateError::IdMissing) => submitted.id is None,
            Err(UpdateError::IdInvalid) => submitted.id is Some && !is_object_id_text(
                submitted.id->Some_0@,
            ),
        },
{
    match &submitted.id {
        None => Err(UpdateError::IdMissing),
        Some(text) => match ObjectId::parse_str(text.as_str()) {
            Some(id) => Ok(id),
            None => Err(UpdateError::IdInvalid),
        },
    }
}

/// Whether a submitted step names its device, rather than leaving the choice open.
pub fn names_device(step: &ApiSequenceStep) -> (named: bool)
    ensures
        named == (step.device@.len() > 0),
{
    !step.device.as_str().is_empty()
}

/// Why a sequence cannot be given its devices.
#[derive(Clone, Debug, PartialEq, Eq)]
pub enum ResolveError {
    /// The module does not export the function of a step.
    FunctionNotExported { func: String, module: String },
    /// The device of a step lacks an interface that the module requires.
    DeviceUnsuitable { device: String, module: String },
    /// No known device offers every interface that the module requires;
    /// `requirements` names them.
    NoMatchingDevice { requirements: Vec<String> },
    /// There is no step to assign.
    NoSteps,
}

/// What a [`ResolveError`] holds, as mathematical values.
pub enum ResolveErrorView {
    FunctionNotExported { func: Seq<char>, module: Seq<char> },
    DeviceUnsuitable { device: Seq<char>, module: Seq<char> },
    NoMatchingDevice { requirements: Seq<Seq<char>> },
    NoSteps,
}

impl DeepView for ResolveError {
    type V = ResolveErrorView;

    open spec fn deep_view(&self) -> ResolveErrorView {
        match self {
            ResolveError::FunctionNotExported { func, module } => {
                ResolveErrorView::FunctionNotExported { func: func@, module: module@ }
            },
            ResolveError::DeviceUnsuitable { device, module } => {
                ResolveErrorView::DeviceUnsuitable { device: device@, module: module@ }
            },
            ResolveError::NoMatchingDevice { requirements } => {
                ResolveErrorView::NoMatchingDevice { requirements: requirements.deep_view() }
            },
            ResolveError::NoSteps => ResolveErrorView::NoSteps,
        }
    }
}

/// The names of the interfaces that a module requires, in order.
pub open spec fn requirement_names(module: ModuleDoc) -> Seq<Seq<char>> {
    Seq::new(module.requirements@.len(), |i: int| module.requirements@[i].name@)
}

/// The name of the orchestrator's own device entry, which runs no module.
pub open spec fn orchestrator_name() -> Seq<char> {
    "orchestrator"@
}

/// Whether a module exports a function of this name.
pub open spec fn exports(module: ModuleDoc, func: Seq<char>) -> bool {
    exists|i: int| 0 <= i < module.exports@.len() && (#[trigger] module.exports@[i]).name@ == func
}

/// Whether a device offers every interface that a module requires.
pub open spec fn satisfies(device: DeviceDocView, module: ModuleDoc) -> bool {
    forall|i: int|
        0 <= i < module.requirements@.len()
            ==> device.description.supervisor_interfaces.contains(
            (#[trigger] module.requirements@[i]).name@,
        )
}

/// Whether a device may be chosen for a module: the orchestrator never is.
pub open spec fn eligible(device: DeviceDocView, module: ModuleDoc) -> bool {
    device.name != orchestrator_name() && satisfies(device, module)
}

/// Position of the first eligible device among the first `n`.
pub open spec fn first_eligible(devices: Seq<DeviceDocView>, module: ModuleDoc, n: nat) -> Option<
    int,
>
    decreases n,
{
    if n == 0 || n > devices.len() {
        None
    } else {
        match first_eligible(devices, module, (n - 1) as nat) {
            Some(found) => Some(found),
            None => if eligible(devices[n - 1], module) {
                Some(n - 1)
            } else {
                None
            },
        }
    }
}

/// The device of a step: the one that the step names, if it suits the
/// module, or else the first known device that does. An error names what
/// does not fit.
pub open spec fn assignment_of(step: SequenceItemHydrated, devices: Seq<DeviceDocView>) -> Result<
    DeviceDocView,
    ResolveErrorView,
> {
    if !exports(step.module, step.func@) {
        Err(
            ResolveErrorView::FunctionNotExported {
                func: step.func@,
                module: step.module.name@,
            },
        )
    } else {
        match step.device {
            Some(device) => if satisfies(device.deep_view(), step.module) {
                Ok(device.deep_view())
            } else {
                Err(
                    ResolveErrorView::DeviceUnsuitable {
                        device: device.name@,
                        module: step.module.name@,
                    },
                )
            },
            None => match first_eligible(devices, step.module, devices.len()) {
                Some(found) => Ok(devices[found]),
                None => Err(
                    ResolveErrorView::NoMatchingDevice {
                        requirements: requirement_names(step.module),
                    },
                ),
            },
        }
    }
}

/// What `first_eligible` finds is eligible and the first such; it finds
/// nothing only where no device is eligible.
pub proof fn lemma_first_eligible(devices: Seq<DeviceDocView>, module: ModuleDoc, n: nat)
    requires
        n <= devices.len(),
    ensures
        match first_eligible(devices, module, n) {
            Some(found) => 0 <= found < n && eligible(devices[found], module) && forall|j: int|
                0 <= j < found ==> !eligible(#[trigger] devices[j], module),
            None => forall|j: int| 0 <= j < n ==> !eligible(#[trigger] devices[j], module),
        },
    decreases n,
{
    if n > 0 {
        lemma_first_eligible(devices, module, (n - 1) as nat);
    }
}

/// A device once found stays the first.
proof fn lemma_first_eligible_stable(
    devices: Seq<DeviceDocView>,
    module: ModuleDoc,
    found: nat,
    n: nat,
)
    requires
        first_eligible(devices, module, found) is Some,
        found <= n <= devices.len(),
    ensures
        first_eligible(devices, module, n) == first_eligible(devices, module, found),
    decreases n,
{
    if n > found {
        lemma_first_eligible_stable(devices, module, found, (n - 1) as nat);
    }
}

/// A device that is chosen for a step is never the orchestrator.
pub proof fn lemma_orchestrator_never_chosen(
    step: SequenceItemHydrated,
    devices: Seq<DeviceDocView>,
)
    requires
        step.device is None,
        assignment_of(step, devices) is Ok,
    ensures
        assignment_of(step, devices)->Ok_0.name != orchestrator_name(),
        satisfies(assignment_of(step, devices)->Ok_0, step.module),
{
    lemma_first_eligible(devices, step.module, devices.len());
}

/// Whether the module exports the function.
pub fn module_exports(module: &ModuleDoc, func: &str) -> (found: bool)
    ensures
        found == exports(*module, func@),
{
    let mut i: usize = 0;
    while i < module.exports.len()
        invariant
            i <= module.exports@.len(),
            forall|j: int| 0 <= j < i ==> (#[trigger] module.exports@[j]).name@ != func@,
        decreases module.exports@.len() - i,
    {
        if str_eq(module.exports[i].name.as_str(), func) {
            return true;
        }
        i += 1;
    }
    false
}

fn offers(device: &DeviceDoc, interface: &str) -> (found: bool)
    ensures
        found == device.deep_view().description.supervisor_interfaces.contains(interface@),
{
    let interfaces = &device.description.supervisor_interfaces;
    let mut i: usize = 0;
    while i < interfaces.len()
        invariant
            i <= interfaces@.len(),
            interfaces == &device.description.supervisor_interfaces,
            forall|j: int| 0 <= j < i ==> interfaces.deep_view()[j] != interface@,
        decreases interfaces@.len() - i,
    {
        if str_eq(interfaces[i].as_str(), interface) {
            assert(interfaces.deep_view()[i as int] == interface@);
            return true;
        }
        i += 1;
    }
    false
}

/// Whether the device offers every supervisor interface that the module requires.
pub fn device_satisfies_module(device: &DeviceDoc, module: &ModuleDoc) -> (suits: bool)
    ensures
        suits == satisfies(device.deep_view(), *module),
{
    let mut i: usize = 0;
    while i < module.requirements.len()
        invariant
            i <= module.requirements@.len(),
            forall|j: int|
                0 <= j < i ==> device.deep_view().description.supervisor_interfaces.contains(
                    (#[trigger] module.requirements@[j]).name@,
                ),
        decreases module.requirements@.len() - i,
    {
        if !offers(device, module.requirements[i].name.as_str()) {
            return false;
        }
        i += 1;
    }
    true
}

/// The first known device that may be chosen for the module.
#[verifier::loop_isolation(false)]
fn choose_device(devices: &Vec<DeviceDoc>, module: &ModuleDoc) -> (chosen: Option<DeviceDoc>)
    ensures
        match first_eligible(devices.deep_view(), *module, devices@.len()) {
            Some(found) => chosen is Some && chosen.unwrap().deep_view()
                == devices.deep_view()[found],
            None => chosen is None,
        },
{
    let ghost model = devices.deep_view();
    let mut i: usize = 0;
    while i < devices.len()
        invariant
            i <= devices@.len(),
            first_eligible(model, *module, i as nat) is None,
        decreases devices@.len() - i,
    {
        let device = &devices[i];
        assert(model[i as int] == device.deep_view());
        if !str_eq(device.name.as_str(), "orchestrator") && device_satisfies_module(
            device,
            module,
        ) {
            proof {
                lemma_first_eligible_stable(model, *module, (i + 1) as nat, devices@.len());
            }
            return Some(device.clone());
        }
        i += 1;
    }
    None
}

fn names_of_requirements(module: &ModuleDoc) -> (names: Vec<String>)
    ensures
        names.deep_view() == requirement_names(*module),
{
    let mut names: Vec<String> = Vec::new();
    let mut i: usize = 0;
    while i < module.requirements.len()
        invariant
            i <= module.requirements@.len(),
            names.deep_view() =~= requirement_names(*module).take(i as int),
        decreases module.requirements@.len() - i,
    {
        let ghost before = names.deep_view();
        names.push(module.requirements[i].name.clone());
        assert(names.deep_view() =~= before.push(module.requirements@[i as int].name@));
        i += 1;
    }
    assert(names.deep_view() =~= requirement_names(*module));
    names
}

/// Gives every step its device. A device that a step names must offer what
/// the module requires; where a step names none, the first known device that
/// does is chosen, and never the orchestrator. The steps keep their order.
/// The first step that cannot have its device fails the whole, and the error
/// names the function and the module, the device and the module, or the
/// requirements that no device meets.
#[verifier::loop_isolation(false)]
pub fn check_device_selection(sequence: Vec<SequenceItemHydrated>, devices: &Vec<DeviceDoc>) -> (out:
    Result<Vec<AssignedStep>, ResolveError>)
    ensures
        match out {
            Ok(assigned) => {
                &&& sequence@.len() > 0
                &&& assigned@.len() == sequence@.len()
                &&& forall|i: int|
                    0 <= i < sequence@.len() ==> {
                        &&& (#[trigger] assigned@[i]).module == sequence@[i].module
                        &&& assigned@[i].func@ == sequence@[i].func@
                        &&& assignment_of(sequence@[i], devices.deep_view()) == Ok::<
                            DeviceDocView,
                            ResolveErrorView,
                        >(assigned@[i].device.deep_view())
                    }
            },
            Err(error) => if sequence@.len() == 0 {
                error.deep_view() == ResolveErrorView::NoSteps
            } else {
                exists|k: int|
                    {
                        &&& 0 <= k < sequence@.len()
                        &&& #[trigger] assignment_of(sequence@[k], devices.deep_view()) == Err::<
                            DeviceDocView,
                            ResolveErrorView,
                        >(error.deep_view())
                        &&& forall|j: int|
                            0 <= j < k ==> (#[trigger] assignment_of(
                                sequence@[j],
                                devices.deep_view(),
                            )) is Ok
                    }
            },
        },
{
    let ghost known = devices.deep_view();
    let ghost steps = sequence@;
    let mut assigned: Vec<AssignedStep> = Vec::new();
    for step in it: sequence
        invariant
            steps == it.seq(),
            known == devices.deep_view(),
            assigned@.len() == it.index(),
            forall|j: int|
                0 <= j < it.index() ==> (#[trigger] assignment_of(steps[j], known)) is Ok,
            forall|i: int|
                0 <= i < it.index() ==> {
                    &&& (#[trigger] assigned@[i]).module == steps[i].module
                    &&& assigned@[i].func@ == steps[i].func@
                    &&& assignment_of(steps[i], known) == Ok::<DeviceDocView, ResolveErrorView>(
                        assigned@[i].device.deep_view(),
                    )
                },
    {
        let ghost at = it.index();
        assert(steps[at] == step);
        assert(0 <= at < steps.len());
        if !module_exports(&step.module, step.func.as_str()) {
            let error = ResolveError::FunctionNotExported {
                func: step.func.clone(),
                module: step.module.name.clone(),
            };
            assert(assignment_of(steps[at], known) == Err::<DeviceDocView, ResolveErrorView>(
                error.deep_view(),
            ));
            return Err(error);
        }
        let func = step.func.clone();
        let module = step.module;
        let device = match step.device {
            Some(device) => {
                if !device_satisfies_module(&device, &module) {
                    let error = ResolveError::DeviceUnsuitable {
                        device: device.name.clone(),
                        module: module.name.clone(),
                    };
                    assert(assignment_of(steps[at], known) == Err::<
                        DeviceDocView,
                        ResolveErrorView,
                    >(error.deep_view()));
                    return Err(error);
                }
                device
            },
            None => match choose_device(devices, &module) {
                Some(device) => device,
                None => {
                    let error = ResolveError::NoMatchingDevice {
                        requirements: names_of_requirements(&module),
                    };
                    assert(assignment_of(steps[at], known) == Err::<
                        DeviceDocView,
                        ResolveErrorView,
                    >(error.deep_view()));
                    return Err(error);
                },
            },
        };
        assigned.push(AssignedStep { device, module, func });
    }
    if assigned.len() == 0 {
        return Err(ResolveError::NoSteps);
    }
    Ok(assigned)
}

} // verus!
