//! What holds of every manifest that the builder produces.

use vstd::prelude::*;
use crate::deployment::{DeploymentNodeView, EndpointView, InstructionView};
use crate::ids::{hex_digits, hex_text, ObjectId};
use crate::manifest::{
    endpoint_of, instructed, instruction_for, manifest_of, node_with_instruction, node_with_step,
    plan_of, plans_of, solution_of, StepPlanView,
};
use crate::resolver::AssignedStep;
use crate::ordered_map::{
    distinct, first_position, lemma_first_position, lemma_model_put, model_at, model_at_nested,
    model_has, model_has_nested, model_keys, model_put, model_put_nested,
};

verus! {

/// A value set under two keys is found under them.
pub proof fn lemma_put_nested_same<T>(
    m: Seq<(Seq<char>, Seq<(Seq<char>, T)>)>,
    outer: Seq<char>,
    inner: Seq<char>,
    value: T,
)
    ensures
        model_has_nested(model_put_nested(m, outer, inner, value), outer, inner),
        model_at_nested(model_put_nested(m, outer, inner, value), outer, inner) == value,
{
    let before = if model_has(m, outer) {
        model_at(m, outer)
    } else {
        Seq::empty()
    };
    lemma_model_put(before, inner, value);
    lemma_model_put(m, outer, model_put(before, inner, value));
}

/// Setting a value under two keys leaves what stands under other keys.
pub proof fn lemma_put_nested_other<T>(
    m: Seq<(Seq<char>, Seq<(Seq<char>, T)>)>,
    outer: Seq<char>,
    inner: Seq<char>,
    value: T,
    o: Seq<char>,
    i: Seq<char>,
)
    requires
        o != outer || i != inner,
    ensures
        model_has_nested(model_put_nested(m, outer, inner, value), o, i) == model_has_nested(
            m,
            o,
            i,
        ),
        model_has_nested(m, o, i) ==> model_at_nested(
            model_put_nested(m, outer, inner, value),
            o,
            i,
        ) == model_at_nested(m, o, i),
{
    let before = if model_has(m, outer) {
        model_at(m, outer)
    } else {
        Seq::<(Seq<char>, T)>::empty()
    };
    lemma_model_put(before, inner, value);
    lemma_model_put(m, outer, model_put(before, inner, value));
    if o == outer {
        if !model_has(m, outer) {
            lemma_first_position(model_keys(before), i);
        }
    }
}

/// The place of a step in a manifest: its device, the name of its module, and its function.
pub open spec fn same_place(a: StepPlanView, b: StepPlanView) -> bool {
    a.device.hex() == b.device.hex() && a.module.name == b.module.name && a.func == b.func
}

/// The endpoint that a manifest holds for a function of a module on a device.
pub open spec fn endpoint_at(
    manifest: Seq<(Seq<char>, DeploymentNodeView)>,
    device: Seq<char>,
    module_name: Seq<char>,
    func: Seq<char>,
) -> Option<EndpointView> {
    if model_has(manifest, device) && model_has_nested(
        model_at(manifest, device).endpoints,
        module_name,
        func,
    ) {
        Some(model_at_nested(model_at(manifest, device).endpoints, module_name, func))
    } else {
        None
    }
}

/// The instruction that a manifest holds for a function of a module on a device.
pub open spec fn instruction_at(
    manifest: Seq<(Seq<char>, DeploymentNodeView)>,
    device: Seq<char>,
    module_name: Seq<char>,
    func: Seq<char>,
) -> Option<InstructionView> {
    if model_has(manifest, device) && model_has_nested(
        model_at(manifest, device).instructions.modules,
        module_name,
        func,
    ) {
        Some(model_at_nested(model_at(manifest, device).instructions.modules, module_name, func))
    } else {
        None
    }
}

/// The manifest of a sequence of plans, complete with instructions.
pub open spec fn solved_manifest(plans: Seq<StepPlanView>, deployment: ObjectId) -> Seq<
    (Seq<char>, DeploymentNodeView),
> {
    instructed(manifest_of(plans, deployment, plans.len()), plans, plans.len())
}

/// The devices of a manifest are the devices of its steps, each once.
pub proof fn lemma_manifest_devices(plans: Seq<StepPlanView>, deployment: ObjectId, n: nat)
    requires
        n <= plans.len(),
    ensures
        distinct(model_keys(manifest_of(plans, deployment, n))),
        forall|i: int|
            0 <= i < n ==> model_has(
                manifest_of(plans, deployment, n),
                #[trigger] plans[i].device.hex(),
            ),
        forall|key: Seq<char>| #[trigger]
            model_has(manifest_of(plans, deployment, n), key) ==> exists|i: int|
                0 <= i < n && #[trigger] plans[i].device.hex() == key,
    decreases n,
{
    if n > 0 {
        let before = manifest_of(plans, deployment, (n - 1) as nat);
        let after = manifest_of(plans, deployment, n);
        let plan = plans[n - 1];
        let key = plan.device.hex();
        lemma_manifest_devices(plans, deployment, (n - 1) as nat);
        let node = if model_has(before, key) {
            model_at(before, key)
        } else {
            crate::manifest::empty_node(deployment)
        };
        lemma_model_put(before, key, node_with_step(node, plan));
        assert forall|i: int| 0 <= i < n implies model_has(
            after,
            #[trigger] plans[i].device.hex(),
        ) by {
            if i < n - 1 && plans[i].device.hex() != key {
                assert(model_has(before, plans[i].device.hex()));
            }
        }
        assert forall|other: Seq<char>| #[trigger] model_has(after, other) implies exists|i: int|
            0 <= i < n && #[trigger] plans[i].device.hex() == other by {
            if other == key {
                assert(plans[n - 1].device.hex() == other);
            } else {
                assert(model_has(before, other));
                let i = choose|i: int| 0 <= i < n - 1 && #[trigger] plans[i].device.hex() == other;
                assert(plans[i].device.hex() == other);
            }
        }
    } else {
        assert(model_keys(manifest_of(plans, deployment, n)) =~= Seq::empty());
    }
}

/// Instructions change no device, no endpoint and no mount of a manifest.
pub proof fn lemma_instructions_keep(
    manifest: Seq<(Seq<char>, DeploymentNodeView)>,
    plans: Seq<StepPlanView>,
    n: nat,
)
    requires
        n <= plans.len(),
    ensures
        model_keys(instructed(manifest, plans, n)) == model_keys(manifest),
        instructed(manifest, plans, n).len() == manifest.len(),
        forall|key: Seq<char>|
            model_has(manifest, key) ==> {
                let node = #[trigger] model_at(instructed(manifest, plans, n), key);
                &&& node.endpoints == model_at(manifest, key).endpoints
                &&& node.mounts == model_at(manifest, key).mounts
                &&& node.modules == model_at(manifest, key).modules
                &&& node.deployment_id == model_at(manifest, key).deployment_id
            },
    decreases n,
{
    if n > 0 {
        let before = instructed(manifest, plans, (n - 1) as nat);
        lemma_instructions_keep(manifest, plans, (n - 1) as nat);
        let key = plans[n - 1].device.hex();
        if model_has(before, key) {
            let node = node_with_instruction(
                model_at(before, key),
                plans[n - 1].module.name,
                plans[n - 1].func,
                instruction_for(plans, n - 1),
            );
            lemma_model_put(before, key, node);
            assert forall|other: Seq<char>| model_has(manifest, other) implies {
                let found = #[trigger] model_at(instructed(manifest, plans, n), other);
                &&& found.endpoints == model_at(manifest, other).endpoints
                &&& found.mounts == model_at(manifest, other).mounts
                &&& found.modules == model_at(manifest, other).modules
                &&& found.deployment_id == model_at(manifest, other).deployment_id
            } by {
                assert(model_has(before, other));
                if other != key {
                    assert(model_at(model_put(before, key, node), other) == model_at(
                        before,
                        other,
                    ));
                }
            }
        }
    }
}

/// A manifest has exactly one entry for each device that its steps name.
pub proof fn lemma_one_manifest_per_device(plans: Seq<StepPlanView>, deployment: ObjectId)
    ensures
        distinct(model_keys(solved_manifest(plans, deployment))),
        forall|i: int|
            0 <= i < plans.len() ==> model_has(
                solved_manifest(plans, deployment),
                #[trigger] plans[i].device.hex(),
            ),
        forall|key: Seq<char>| #[trigger]
            model_has(solved_manifest(plans, deployment), key) ==> exists|i: int|
                0 <= i < plans.len() && #[trigger] plans[i].device.hex() == key,
        solved_manifest(plans, deployment).len() == model_keys(
            solved_manifest(plans, deployment),
        ).to_set().len(),
{
    let base = manifest_of(plans, deployment, plans.len());
    lemma_manifest_devices(plans, deployment, plans.len());
    lemma_instructions_keep(base, plans, plans.len());
    let solved = solved_manifest(plans, deployment);
    assert forall|key: Seq<char>| #[trigger] model_has(solved, key) implies exists|i: int|
        0 <= i < plans.len() && #[trigger] plans[i].device.hex() == key by {
        assert(model_has(base, key));
    }
    let keys = model_keys(solved);
    assert(keys.no_duplicates());
    keys.unique_seq_to_set();
}

/// The endpoint that a manifest without instructions holds for the place of a
/// step is the step's own, unless a later step has the same place.
pub proof fn lemma_endpoint_of_step(
    plans: Seq<StepPlanView>,
    deployment: ObjectId,
    n: nat,
    i: int,
)
    requires
        0 <= i < n <= plans.len(),
        forall|j: int| i < j < n ==> !same_place(plans[i], #[trigger] plans[j]),
    ensures
        endpoint_at(
            manifest_of(plans, deployment, n),
            plans[i].device.hex(),
            plans[i].module.name,
            plans[i].func,
        ) == Some(plans[i].endpoint),
    decreases n,
{
    let before = manifest_of(plans, deployment, (n - 1) as nat);
    let plan = plans[n - 1];
    let key = plan.device.hex();
    let node = if model_has(before, key) {
        model_at(before, key)
    } else {
        crate::manifest::empty_node(deployment)
    };
    let node_after = node_with_step(node, plan);
    lemma_model_put(before, key, node_after);
    if i == n - 1 {
        lemma_put_nested_same(node.endpoints, plan.module.name, plan.func, plan.endpoint);
    } else {
        lemma_endpoint_of_step(plans, deployment, (n - 1) as nat, i);
        assert(!same_place(plans[i], plans[n - 1]));
        if plans[i].device.hex() == key {
            lemma_put_nested_other(
                node.endpoints,
                plan.module.name,
                plan.func,
                plan.endpoint,
                plans[i].module.name,
                plans[i].func,
            );
        }
    }
}

/// The instruction that a manifest holds for the place of a step is the
/// step's own, unless a later step has the same place.
pub proof fn lemma_instruction_of_step(
    manifest: Seq<(Seq<char>, DeploymentNodeView)>,
    plans: Seq<StepPlanView>,
    n: nat,
    i: int,
)
    requires
        0 <= i < n <= plans.len(),
        forall|j: int| 0 <= j < plans.len() ==> model_has(manifest, #[trigger] plans[j].device.hex()),
        forall|j: int| i < j < n ==> !same_place(plans[i], #[trigger] plans[j]),
    ensures
        instruction_at(
            instructed(manifest, plans, n),
            plans[i].device.hex(),
            plans[i].module.name,
            plans[i].func,
        ) == Some(instruction_for(plans, i)),
    decreases n,
{
    let before = instructed(manifest, plans, (n - 1) as nat);
    let plan = plans[n - 1];
    let key = plan.device.hex();
    lemma_instructions_keep(manifest, plans, (n - 1) as nat);
    assert(model_has(manifest, plans[n - 1].device.hex()));
    assert(model_has(before, key));
    let node = model_at(before, key);
    let node_after = node_with_instruction(
        node,
        plan.module.name,
        plan.func,
        instruction_for(plans, n - 1),
    );
    lemma_model_put(before, key, node_after);
    if i == n - 1 {
        lemma_put_nested_same(
            node.instructions.modules,
            plan.module.name,
            plan.func,
            instruction_for(plans, n - 1),
        );
    } else {
        lemma_instruction_of_step(manifest, plans, (n - 1) as nat, i);
        assert(!same_place(plans[i], plans[n - 1]));
        if plans[i].device.hex() == key {
            lemma_put_nested_other(
                node.instructions.modules,
                plan.module.name,
                plan.func,
                instruction_for(plans, n - 1),
                plans[i].module.name,
                plans[i].func,
            );
        }
    }
}

/// In a solved manifest, the instruction of a step leads from the step's own
/// endpoint to the endpoint that the manifest holds for the next step, and
/// nowhere from the last step. This is stated of steps whose place no later
/// step takes again.
pub proof fn lemma_results_are_forwarded(plans: Seq<StepPlanView>, deployment: ObjectId, i: int)
    requires
        0 <= i < plans.len(),
        forall|j: int| i < j < plans.len() ==> !same_place(plans[i], #[trigger] plans[j]),
        forall|j: int| i + 1 < j < plans.len() ==> !same_place(plans[i + 1], #[trigger] plans[j]),
    ensures
        ({
            let manifest = solved_manifest(plans, deployment);
            let found = instruction_at(
                manifest,
                plans[i].device.hex(),
                plans[i].module.name,
                plans[i].func,
            );
            &&& found == Some(instruction_for(plans, i))
            &&& Some(found->Some_0.from) == endpoint_at(
                manifest,
                plans[i].device.hex(),
                plans[i].module.name,
                plans[i].func,
            )
            &&& i + 1 < plans.len() ==> found->Some_0.to == endpoint_at(
                manifest,
                plans[i + 1].device.hex(),
                plans[i + 1].module.name,
                plans[i + 1].func,
            )
            &&& i + 1 == plans.len() ==> found->Some_0.to is None
        }),
{
    let base = manifest_of(plans, deployment, plans.len());
    lemma_manifest_devices(plans, deployment, plans.len());
    lemma_instructions_keep(base, plans, plans.len());
    lemma_instruction_of_step(base, plans, plans.len(), i);
    lemma_endpoint_of_step(plans, deployment, plans.len(), i);
    assert(model_has(base, plans[i].device.hex()));
    if i + 1 < plans.len() {
        lemma_endpoint_of_step(plans, deployment, plans.len(), i + 1);
        assert(model_has(base, plans[i + 1].device.hex()));
    }
}

/// Two identifiers with the same text are the same identifier.
pub proof fn lemma_hex_injective(a: ObjectId, b: ObjectId)
    requires
        a.hex() == b.hex(),
    ensures
        a == b,
{
    assert forall|k: int| 0 <= k < 12 implies a.bytes@[k] == b.bytes@[k] by {
        let x = a.bytes@[k];
        let y = b.bytes@[k];
        assert(hex_text(a.bytes@)[2 * k] == hex_digits()[(x / 16) as int]);
        assert(hex_text(b.bytes@)[2 * k] == hex_digits()[(y / 16) as int]);
        assert(hex_text(a.bytes@)[2 * k + 1] == hex_digits()[(x % 16) as int]);
        assert(hex_text(b.bytes@)[2 * k + 1] == hex_digits()[(y % 16) as int]);
        assert(forall|p: int, q: int|
            0 <= p < 16 && 0 <= q < 16 && hex_digits()[p] == hex_digits()[q] ==> p == q);
        assert(x / 16 == y / 16);
        assert(x % 16 == y % 16);
    }
    assert(a.bytes@ =~= b.bytes@);
    assert(a.bytes =~= b.bytes);
}

/// Every device of a manifest without instructions has at least one
/// endpoint, and at least one module.
pub proof fn lemma_steps_leave_endpoints(plans: Seq<StepPlanView>, deployment: ObjectId, n: nat)
    requires
        n <= plans.len(),
    ensures
        forall|at: int|
            0 <= at < manifest_of(plans, deployment, n).len() ==> {
                let node = (#[trigger] manifest_of(plans, deployment, n)[at]).1;
                &&& node.endpoints.len() >= 1
                &&& node.modules.len() >= 1
                &&& node.deployment_id == deployment
            },
    decreases n,
{
    if n > 0 {
        let before = manifest_of(plans, deployment, (n - 1) as nat);
        let after = manifest_of(plans, deployment, n);
        let plan = plans[n - 1];
        let key = plan.device.hex();
        lemma_steps_leave_endpoints(plans, deployment, (n - 1) as nat);
        lemma_first_position(model_keys(before), key);
        let node = if model_has(before, key) {
            model_at(before, key)
        } else {
            crate::manifest::empty_node(deployment)
        };
        let inner = if model_has(node.endpoints, plan.module.name) {
            model_at(node.endpoints, plan.module.name)
        } else {
            Seq::empty()
        };
        lemma_model_put(node.endpoints, plan.module.name, model_put(inner, plan.func, plan.endpoint));
        assert forall|at: int| 0 <= at < after.len() implies {
            let found = (#[trigger] after[at]).1;
            &&& found.endpoints.len() >= 1
            &&& found.modules.len() >= 1
            &&& found.deployment_id == deployment
        } by {
            if model_has(before, key) && at != first_position(model_keys(before), key) {
                assert(after[at] == before[at]);
            } else if !model_has(before, key) && at < before.len() {
                assert(after[at] == before[at]);
            }
        }
    }
}

/// Every device of a solved manifest has at least one endpoint and carries
/// the identifier of the deployment.
pub proof fn lemma_every_device_has_an_endpoint(plans: Seq<StepPlanView>, deployment: ObjectId)
    ensures
        forall|key: Seq<char>|
            model_has(solved_manifest(plans, deployment), key) ==> {
                let node = #[trigger] model_at(solved_manifest(plans, deployment), key);
                &&& node.endpoints.len() >= 1
                &&& node.deployment_id == deployment
            },
{
    let base = manifest_of(plans, deployment, plans.len());
    let solved = solved_manifest(plans, deployment);
    lemma_steps_leave_endpoints(plans, deployment, plans.len());
    lemma_instructions_keep(base, plans, plans.len());
    assert forall|key: Seq<char>| model_has(solved, key) implies {
        let node = #[trigger] model_at(solved, key);
        &&& node.endpoints.len() >= 1
        &&& node.deployment_id == deployment
    } by {
        assert(model_has(base, key));
        lemma_first_position(model_keys(base), key);
        let at = first_position(model_keys(base), key);
        assert(base[at].1 == model_at(base, key));
    }
}

/// The devices that plans name.
pub open spec fn devices_of(plans: Seq<StepPlanView>) -> Set<ObjectId> {
    Seq::new(plans.len(), |i: int| plans[i].device).to_set()
}

/// A solved manifest has as many entries as its steps name devices.
pub proof fn lemma_manifest_counts_devices(plans: Seq<StepPlanView>, deployment: ObjectId)
    ensures
        devices_of(plans).finite(),
        solved_manifest(plans, deployment).len() == devices_of(plans).len(),
{
    let solved = solved_manifest(plans, deployment);
    let keys = model_keys(solved);
    let devices = Seq::new(plans.len(), |i: int| plans[i].device);
    let text = |device: ObjectId| device.hex();
    lemma_one_manifest_per_device(plans, deployment);
    vstd::seq_lib::seq_to_set_is_finite(devices);
    assert(vstd::relations::injective_on(text, devices.to_set())) by {
        assert forall|a: ObjectId, b: ObjectId|
            devices.to_set().contains(a) && devices.to_set().contains(b) && #[trigger] text(a)
                == #[trigger] text(b) implies a == b by {
            lemma_hex_injective(a, b);
        }
    }
    assert(devices.to_set().map(text) =~= keys.to_set()) by {
        assert forall|key: Seq<char>| devices.to_set().map(text).contains(key) implies keys.to_set(
        ).contains(key) by {
            let device = choose|device: ObjectId|
                devices.to_set().contains(device) && text(device) == key;
            let i = choose|i: int| 0 <= i < devices.len() && devices[i] == device;
            assert(model_has(solved, plans[i].device.hex()));
            lemma_first_position(keys, key);
        }
        assert forall|key: Seq<char>| keys.to_set().contains(key) implies devices.to_set().map(
            text,
        ).contains(key) by {
            let at = choose|at: int| 0 <= at < keys.len() && keys[at] == key;
            lemma_first_position(keys, key);
            assert(model_has(solved, key));
            let i = choose|i: int| 0 <= i < plans.len() && #[trigger] plans[i].device.hex() == key;
            assert(devices[i] == plans[i].device);
            assert(devices.to_set().contains(plans[i].device));
            assert(text(plans[i].device) == key);
        }
    }
    vstd::set_lib::lemma_map_size(devices.to_set(), keys.to_set(), text);
}

/// The plans of a sequence are the plans of its steps, one for one.
pub proof fn lemma_plans_follow_steps(
    sequence: Seq<AssignedStep>,
    deployment: ObjectId,
    base: Seq<char>,
    supported: Seq<Seq<char>>,
    n: nat,
)
    requires
        n <= sequence.len(),
        plans_of(sequence, deployment, base, supported, n) is Ok,
    ensures
        plans_of(sequence, deployment, base, supported, n)->Ok_0.len() == n,
        forall|i: int|
            0 <= i < n ==> plan_of(#[trigger] sequence[i], deployment, base, supported) == Ok::<
                StepPlanView,
                crate::manifest::BuildError,
            >(plans_of(sequence, deployment, base, supported, n)->Ok_0[i]),
    decreases n,
{
    if n > 0 {
        lemma_plans_follow_steps(sequence, deployment, base, supported, (n - 1) as nat);
    }
}

/// The devices that the steps of a sequence name.
pub open spec fn step_devices(sequence: Seq<AssignedStep>) -> Set<ObjectId> {
    Seq::new(sequence.len(), |i: int| sequence[i].device.id->Some_0).to_set()
}

/// Whether two steps have the same place in a manifest: the same device,
/// modules of the same name, and the same function.
pub open spec fn same_step_place(a: AssignedStep, b: AssignedStep) -> bool {
    a.device.id == b.device.id && a.module.name@ == b.module.name@ && a.func@ == b.func@
}

/// The manifest of a solved sequence of N steps that name K devices has
/// exactly K entries: one for each device, under the device's identifier.
pub proof fn lemma_solution_has_one_manifest_per_device(
    sequence: Seq<AssignedStep>,
    deployment: ObjectId,
    base: Seq<char>,
    supported: Seq<Seq<char>>,
)
    requires
        solution_of(sequence, deployment, base, supported) is Ok,
    ensures
        ({
            let manifest = solution_of(sequence, deployment, base, supported)->Ok_0.full_manifest;
            &&& manifest.len() == step_devices(sequence).len()
            &&& distinct(model_keys(manifest))
            &&& forall|i: int|
                0 <= i < sequence.len() ==> (#[trigger] sequence[i]).device.id is Some
                    && model_has(manifest, sequence[i].device.id->Some_0.hex())
        }),
{
    let plans = plans_of(sequence, deployment, base, supported, sequence.len())->Ok_0;
    lemma_plans_follow_steps(sequence, deployment, base, supported, sequence.len());
    lemma_manifest_counts_devices(plans, deployment);
    lemma_one_manifest_per_device(plans, deployment);
    assert forall|i: int| 0 <= i < sequence.len() implies (#[trigger] sequence[i]).device.id is Some
        && plans[i].device == sequence[i].device.id->Some_0 by {
        assert(plan_of(sequence[i], deployment, base, supported) is Ok);
    }
    assert(Seq::new(plans.len(), |i: int| plans[i].device) =~= Seq::new(
        sequence.len(),
        |i: int| sequence[i].device.id->Some_0,
    ));
    assert forall|i: int| 0 <= i < sequence.len() implies model_has(
        solved_manifest(plans, deployment),
        (#[trigger] sequence[i]).device.id->Some_0.hex(),
    ) by {
        assert(model_has(solved_manifest(plans, deployment), plans[i].device.hex()));
    }
}

/// In the manifest of a solved sequence, the device of a step holds the
/// instruction to pass the step's result from the step's own endpoint to the
/// endpoint of the next step, which is the endpoint that the manifest holds
/// for that step; the last step passes its result nowhere. This is stated of
/// steps whose place no later step takes again.
pub proof fn lemma_solution_forwards_results(
    sequence: Seq<AssignedStep>,
    deployment: ObjectId,
    base: Seq<char>,
    supported: Seq<Seq<char>>,
    i: int,
)
    requires
        solution_of(sequence, deployment, base, supported) is Ok,
        0 <= i < sequence.len(),
        forall|j: int| i < j < sequence.len() ==> !same_step_place(sequence[i], #[trigger] sequence[j]),
        forall|j: int|
            i + 1 < j < sequence.len() ==> !same_step_place(sequence[i + 1], #[trigger] sequence[j]),
    ensures
        ({
            let manifest = solution_of(sequence, deployment, base, supported)->Ok_0.full_manifest;
            let here = sequence[i];
            let found = instruction_at(
                manifest,
                here.device.id->Some_0.hex(),
                here.module.name@,
                here.func@,
            );
            &&& endpoint_of(here, deployment) is Ok
            &&& found is Some
            &&& found->Some_0.from == endpoint_of(here, deployment)->Ok_0
            &&& i + 1 == sequence.len() ==> found->Some_0.to is None
            &&& i + 1 < sequence.len() ==> {
                let next = sequence[i + 1];
                &&& endpoint_of(next, deployment) is Ok
                &&& found->Some_0.to == Some(endpoint_of(next, deployment)->Ok_0)
                &&& found->Some_0.to == endpoint_at(
                    manifest,
                    next.device.id->Some_0.hex(),
                    next.module.name@,
                    next.func@,
                )
            }
        }),
{
    let plans = plans_of(sequence, deployment, base, supported, sequence.len())->Ok_0;
    lemma_plans_follow_steps(sequence, deployment, base, supported, sequence.len());
    assert forall|j: int| 0 <= j < sequence.len() implies {
        &&& (#[trigger] plans[j]).device == sequence[j].device.id->Some_0
        &&& sequence[j].device.id is Some
        &&& plans[j].module.name == sequence[j].module.name@
        &&& plans[j].func == sequence[j].func@
        &&& endpoint_of(sequence[j], deployment) is Ok
        &&& plans[j].endpoint == endpoint_of(sequence[j], deployment)->Ok_0
    } by {
        assert(plan_of(sequence[j], deployment, base, supported) is Ok);
    }
    assert forall|j: int| i < j < plans.len() implies !same_place(plans[i], #[trigger] plans[j]) by {
        assert(!same_step_place(sequence[i], sequence[j]));
        if plans[i].device.hex() == plans[j].device.hex() {
            lemma_hex_injective(plans[i].device, plans[j].device);
        }
    }
    assert forall|j: int| i + 1 < j < plans.len() implies !same_place(
        plans[i + 1],
        #[trigger] plans[j],
    ) by {
        assert(!same_step_place(sequence[i + 1], sequence[j]));
        if plans[i + 1].device.hex() == plans[j].device.hex() {
            lemma_hex_injective(plans[i + 1].device, plans[j].device);
        }
    }
    lemma_results_are_forwarded(plans, deployment, i);
    assert(plans[i].device == sequence[i].device.id->Some_0);
    if i + 1 < sequence.len() {
        assert(plans[i + 1].device == sequence[i + 1].device.id->Some_0);
    }
}

} // verus!
