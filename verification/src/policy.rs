//! Validation of a solved deployment against zones and risk levels. Every
//! step is checked in order, every check leaves its outcome in the step's
//! log, and one certificate records the whole.

use vstd::prelude::*;
use crate::cards::{DatasourceCard, ModuleCard, NodeCard, Zones};
use crate::certificate::{
    DeploymentCertificate, DeploymentCertificateView, ValidationLog, ValidationLogView,
};
use crate::deployment::{CreateSolutionResult, SequenceStep};
use crate::ids::ObjectId;
use crate::text::str_eq;

verus! {

/// The risk level of a step that has none yet.
pub open spec fn no_risk() -> Seq<char> {
    "none"@
}

/// The risk levels that a zone entry admits.
pub open spec fn levels_of(zone: Zones) -> Seq<Seq<char>> {
    match zone.allowed_risk_levels {
        Some(levels) => levels.deep_view(),
        None => Seq::empty(),
    }
}

/// The risk levels that the zone `name` admits: those of the last entry of
/// that name, and none where the zone is unknown.
pub open spec fn allowed_levels(zones: Seq<Zones>, name: Seq<char>) -> Seq<Seq<char>>
    decreases zones.len(),
{
    if zones.len() == 0 {
        Seq::empty()
    } else if zones.last().zone.deep_view() == Some(name) {
        levels_of(zones.last())
    } else {
        allowed_levels(zones.drop_last(), name)
    }
}

/// Whether the zone `name` admits the risk level.
pub open spec fn allows(zones: Seq<Zones>, name: Seq<char>, level: Seq<char>) -> bool {
    allowed_levels(zones, name).contains(level)
}

/// The card of a device: the first that names it.
pub open spec fn node_card_of(cards: Seq<NodeCard>, device: ObjectId) -> Option<NodeCard>
    decreases cards.len(),
{
    if cards.len() == 0 {
        None
    } else if cards[0].nodeid == device {
        Some(cards[0])
    } else {
        node_card_of(cards.subrange(1, cards.len() as int), device)
    }
}

/// The card of a module: the first that names it.
pub open spec fn module_card_of(cards: Seq<ModuleCard>, module: ObjectId) -> Option<ModuleCard>
    decreases cards.len(),
{
    if cards.len() == 0 {
        None
    } else if cards[0].moduleid == module {
        Some(cards[0])
    } else {
        module_card_of(cards.subrange(1, cards.len() as int), module)
    }
}

/// The card of a data source of a type on a device: the first that names both.
pub open spec fn datasource_card_of(
    cards: Seq<DatasourceCard>,
    ty: Seq<char>,
    device: ObjectId,
) -> Option<DatasourceCard>
    decreases cards.len(),
{
    if cards.len() == 0 {
        None
    } else if cards[0].ty@ == ty && cards[0].nodeid == device {
        Some(cards[0])
    } else {
        datasource_card_of(cards.subrange(1, cards.len() as int), ty, device)
    }
}

/// The log of a step before any check.
pub open spec fn fresh_log(step: SequenceStep) -> ValidationLogView {
    ValidationLogView {
        device: step.device.hex(),
        module: step.module.hex(),
        func: step.func@,
        node_zone: no_risk(),
        module_risk: no_risk(),
        input_risk: no_risk(),
        output_risk: no_risk(),
        valid: true,
        reasons: Seq::empty(),
    }
}

/// A log with one more reason.
pub open spec fn with_reason(log: ValidationLogView, reason: Seq<char>) -> ValidationLogView {
    ValidationLogView { reasons: log.reasons.push(reason), ..log }
}

/// A log that a check has failed, with the reason.
pub open spec fn failed(log: ValidationLogView, reason: Seq<char>) -> ValidationLogView {
    ValidationLogView { valid: false, reasons: log.reasons.push(reason), ..log }
}

/// The sentence that records whether a zone admits a risk level. `what` names
/// the risk: of the module, of the input or of the output.
pub open spec fn risk_reason(
    what: Seq<char>,
    risk: Seq<char>,
    zone: Seq<char>,
    allowed: bool,
) -> Seq<char> {
    what + " risk level '"@ + risk + (if allowed {
        "' allowed in zone '"@
    } else {
        "' not allowed in zone '"@
    }) + zone + "'"@
}

/// A log after the check of a risk level against a zone: the outcome is
/// recorded either way, and a level that is not admitted fails the step.
pub open spec fn checked(
    log: ValidationLogView,
    what: Seq<char>,
    risk: Seq<char>,
    zone: Seq<char>,
    zones: Seq<Zones>,
) -> ValidationLogView {
    if allows(zones, zone, risk) {
        with_reason(log, risk_reason(what, risk, zone, true))
    } else {
        failed(log, risk_reason(what, risk, zone, false))
    }
}

/// What the validation of one step leaves: the step's log, and the risk of
/// its output, which the next step may inherit.
pub struct StepOutcome {
    pub log: ValidationLogView,
    pub output_risk: Seq<char>,
}

/// The log of a step after the risk of its input has been found: that of the
/// step before where the input is temporary, else that of the data source.
pub open spec fn with_input(
    log: ValidationLogView,
    input_type: Seq<char>,
    running: Seq<char>,
    source: Option<DatasourceCard>,
) -> ValidationLogView {
    if input_type == "temp"@ {
        with_reason(
            ValidationLogView { input_risk: running, ..log },
            "Input type is temporary, inheriting risk level '"@ + running + "'"@,
        )
    } else {
        match source {
            Some(card) => with_reason(
                ValidationLogView { input_risk: card.risk_level@, ..log },
                "Data source risk level '"@ + card.risk_level@ + "' found for input type '"@
                    + input_type + "'"@,
            ),
            None => failed(
                log,
                "Data source card not found for input type '"@ + input_type + "' on device "@
                    + log.device,
            ),
        }
    }
}

/// The risk of a step's output: the module's own, or, where the module
/// inherits, that of the data source, or that of the step before where no
/// data source was read.
pub open spec fn output_risk_of(
    policy: Seq<char>,
    running: Seq<char>,
    source: Option<DatasourceCard>,
) -> Seq<char> {
    if policy == "inherit"@ {
        match source {
            Some(card) => card.risk_level@,
            None => running,
        }
    } else {
        policy
    }
}

/// The log of a step after the risk of its output has been found.
pub open spec fn with_output(
    log: ValidationLogView,
    policy: Seq<char>,
    output: Seq<char>,
) -> ValidationLogView {
    let noted = if policy == "inherit"@ {
        with_reason(log, "Module output risk level inherited as '"@ + output + "'"@)
    } else {
        with_reason(log, "Module output risk level set to '"@ + output + "'"@)
    };
    ValidationLogView { output_risk: output, ..noted }
}

/// A log with the closing sentence of a step that passed every check.
pub open spec fn closed(log: ValidationLogView) -> ValidationLogView {
    if log.valid {
        with_reason(log, "Step validated successfully."@)
    } else {
        log
    }
}

/// The checks of a step whose cards are at hand: the module's risk, the
/// input's risk and the output's risk, each against the zone of the device.
pub open spec fn check_cards(
    log: ValidationLogView,
    step: SequenceStep,
    running: Seq<char>,
    zones: Seq<Zones>,
    node: NodeCard,
    module: ModuleCard,
    sources: Seq<DatasourceCard>,
) -> StepOutcome {
    let zone = node.zone@;
    let log = checked(
        ValidationLogView { module_risk: module.risk_level@, ..log },
        "Module"@,
        module.risk_level@,
        zone,
        zones,
    );
    if module.input_type@.len() == 0 {
        StepOutcome {
            log: failed(
                log,
                "Module card didnt have an input type, deployment failed to validate"@,
            ),
            output_risk: running,
        }
    } else {
        let source = if module.input_type@ == "temp"@ {
            None
        } else {
            datasource_card_of(sources, module.input_type@, step.device)
        };
        let log = with_input(log, module.input_type@, running, source);
        let log = checked(log, "Input"@, log.input_risk, zone, zones);
        let output = output_risk_of(module.output_risk@, running, source);
        let log = with_output(log, module.output_risk@, output);
        let log = checked(log, "Output"@, output, zone, zones);
        StepOutcome { log: closed(log), output_risk: output }
    }
}

/// The validation of one step. `running` is the risk of the output of the
/// step before. A step without a function, without a card for its device or
/// its module, or with a card that lacks a risk level or an input type is not
/// valid, and leaves the running risk as it was.
pub open spec fn validate_step(
    step: SequenceStep,
    running: Seq<char>,
    zones: Seq<Zones>,
    nodes: Seq<NodeCard>,
    modules: Seq<ModuleCard>,
    sources: Seq<DatasourceCard>,
) -> StepOutcome {
    let log = fresh_log(step);
    if step.func@.len() == 0 {
        StepOutcome {
            log: failed(log, "Device, module, or function missing in the step."@),
            output_risk: running,
        }
    } else {
        match node_card_of(nodes, step.device) {
            None => StepOutcome {
                log: failed(log, "Node card not found for device "@ + log.device),
                output_risk: running,
            },
            Some(node) => {
                let log = ValidationLogView { node_zone: node.zone@, ..log };
                match module_card_of(modules, step.module) {
                    None => StepOutcome {
                        log: failed(log, "Module card not found for module "@ + log.module),
                        output_risk: running,
                    },
                    Some(module) => if module.risk_level@.len() == 0 {
                        StepOutcome {
                            log: failed(
                                log,
                                "Module card was missing risk level, failed to validate"@,
                            ),
                            output_risk: running,
                        }
                    } else {
                        check_cards(log, step, running, zones, node, module, sources)
                    },
                }
            },
        }
    }
}

/// The logs of the first `n` steps and the risk that runs on after them.
/// The first step starts from no risk.
pub open spec fn outcomes(
    steps: Seq<SequenceStep>,
    zones: Seq<Zones>,
    nodes: Seq<NodeCard>,
    modules: Seq<ModuleCard>,
    sources: Seq<DatasourceCard>,
    n: nat,
) -> (Seq<ValidationLogView>, Seq<char>)
    decreases n,
{
    if n == 0 || n > steps.len() {
        (Seq::empty(), no_risk())
    } else {
        let before = outcomes(steps, zones, nodes, modules, sources, (n - 1) as nat);
        let outcome = validate_step(steps[n - 1], before.1, zones, nodes, modules, sources);
        (before.0.push(outcome.log), outcome.output_risk)
    }
}

/// Whether every step passed.
pub open spec fn all_valid(logs: Seq<ValidationLogView>) -> bool {
    forall|i: int| 0 <= i < logs.len() ==> (#[trigger] logs[i]).valid
}

/// The certificate of a deployment: valid exactly when every step is.
pub open spec fn certificate_of(
    deployment: ObjectId,
    steps: Seq<SequenceStep>,
    zones: Seq<Zones>,
    nodes: Seq<NodeCard>,
    modules: Seq<ModuleCard>,
    sources: Seq<DatasourceCard>,
    date: i64,
) -> DeploymentCertificateView {
    let logs = outcomes(steps, zones, nodes, modules, sources, steps.len()).0;
    DeploymentCertificateView {
        id: None,
        date,
        deployment_id: deployment,
        valid: all_valid(logs),
        validation_logs: logs,
    }
}

/// Whether the zone admits the risk level.
pub fn zone_allows(zones: &Vec<Zones>, zone: &str, level: &str) -> (allowed: bool)
    ensures
        allowed == allows(zones@, zone@, level@),
{
    let mut i: usize = zones.len();
    assert(zones@.take(i as int) =~= zones@);
    while i > 0
        invariant
            i <= zones@.len(),
            allowed_levels(zones@, zone@) == allowed_levels(zones@.take(i as int), zone@),
        decreases i,
    {
        let entry = &zones[i - 1];
        assert(zones@.take(i as int).last() == *entry);
        assert(zones@.take(i as int).drop_last() =~= zones@.take(i - 1));
        let named = match &entry.zone {
            Some(name) => str_eq(name.as_str(), zone),
            None => false,
        };
        if named {
            return match &entry.allowed_risk_levels {
                Some(levels) => contains_text(levels, level),
                None => false,
            };
        }
        i -= 1;
    }
    false
}

fn contains_text(texts: &Vec<String>, wanted: &str) -> (found: bool)
    ensures
        found == texts.deep_view().contains(wanted@),
{
    let mut i: usize = 0;
    while i < texts.len()
        invariant
            i <= texts@.len(),
            forall|j: int| 0 <= j < i ==> texts.deep_view()[j] != wanted@,
        decreases texts@.len() - i,
    {
        if str_eq(texts[i].as_str(), wanted) {
            assert(texts.deep_view()[i as int] == wanted@);
            return true;
        }
        i += 1;
    }
    false
}

/// Finds the card of a device.
pub fn find_node_card<'a>(cards: &'a Vec<NodeCard>, device: &ObjectId) -> (found: Option<
    &'a NodeCard,
>)
    ensures
        match found {
            Some(card) => node_card_of(cards@, *device) == Some(*card),
            None => node_card_of(cards@, *device) is None,
        },
{
    let mut i: usize = 0;
    assert(cards@.subrange(0, cards@.len() as int) =~= cards@);
    while i < cards.len()
        invariant
            i <= cards@.len(),
            node_card_of(cards@, *device) == node_card_of(
                cards@.subrange(i as int, cards@.len() as int),
                *device,
            ),
        decreases cards@.len() - i,
    {
        let ghost rest = cards@.subrange(i as int, cards@.len() as int);
        assert(rest[0] == cards@[i as int]);
        assert(rest.subrange(1, rest.len() as int) =~= cards@.subrange(
            i + 1,
            cards@.len() as int,
        ));
        if cards[i].nodeid == *device {
            return Some(&cards[i]);
        }
        i += 1;
    }
    None
}

/// Finds the card of a module.
pub fn find_module_card<'a>(cards: &'a Vec<ModuleCard>, module: &ObjectId) -> (found: Option<
    &'a ModuleCard,
>)
    ensures
        match found {
            Some(card) => module_card_of(cards@, *module) == Some(*card),
            None => module_card_of(cards@, *module) is None,
        },
{
    let mut i: usize = 0;
    assert(cards@.subrange(0, cards@.len() as int) =~= cards@);
    while i < cards.len()
        invariant
            i <= cards@.len(),
            module_card_of(cards@, *module) == module_card_of(
                cards@.subrange(i as int, cards@.len() as int),
                *module,
            ),
        decreases cards@.len() - i,
    {
        let ghost rest = cards@.subrange(i as int, cards@.len() as int);
        assert(rest[0] == cards@[i as int]);
        assert(rest.subrange(1, rest.len() as int) =~= cards@.subrange(
            i + 1,
            cards@.len() as int,
        ));
        if cards[i].moduleid == *module {
            return Some(&cards[i]);
        }
        i += 1;
    }
    None
}

/// Finds the card of a data source of a type on a device.
pub fn find_datasource_card<'a>(
    cards: &'a Vec<DatasourceCard>,
    ty: &str,
    device: &ObjectId,
) -> (found: Option<&'a DatasourceCard>)
    ensures
        match found {
            Some(card) => datasource_card_of(cards@, ty@, *device) == Some(*card),
            None => datasource_card_of(cards@, ty@, *device) is None,
        },
{
    let mut i: usize = 0;
    assert(cards@.subrange(0, cards@.len() as int) =~= cards@);
    while i < cards.len()
        invariant
            i <= cards@.len(),
            datasource_card_of(cards@, ty@, *device) == datasource_card_of(
                cards@.subrange(i as int, cards@.len() as int),
                ty@,
                *device,
            ),
        decreases cards@.len() - i,
    {
        let ghost rest = cards@.subrange(i as int, cards@.len() as int);
        assert(rest[0] == cards@[i as int]);
        assert(rest.subrange(1, rest.len() as int) =~= cards@.subrange(
            i + 1,
            cards@.len() as int,
        ));
        if str_eq(cards[i].ty.as_str(), ty) && cards[i].nodeid == *device {
            return Some(&cards[i]);
        }
        i += 1;
    }
    None
}

fn text2(a: &str, b: &str) -> (out: String)
    ensures
        out@ == a@ + b@,
{
    let mut out = a.to_string();
    out.append(b);
    out
}

fn text3(a: &str, b: &str, c: &str) -> (out: String)
    ensures
        out@ == a@ + b@ + c@,
{
    let mut out = a.to_string();
    out.append(b);
    out.append(c);
    out
}

fn text5(a: &str, b: &str, c: &str, d: &str, e: &str) -> (out: String)
    ensures
        out@ == a@ + b@ + c@ + d@ + e@,
{
    let mut out = a.to_string();
    out.append(b);
    out.append(c);
    out.append(d);
    out.append(e);
    out
}

fn add_reason(log: &mut ValidationLog, reason: String)
    ensures
        final(log).deep_view() == with_reason(old(log).deep_view(), reason@),
{
    let ghost before = log.reasons.deep_view();
    log.reasons.push(reason);
    assert(log.reasons.deep_view() =~= before.push(reason@));
}

fn fail(log: &mut ValidationLog, reason: String)
    ensures
        final(log).deep_view() == failed(old(log).deep_view(), reason@),
{
    let ghost before = log.reasons.deep_view();
    log.valid = false;
    log.reasons.push(reason);
    assert(log.reasons.deep_view() =~= before.push(reason@));
}

fn check_level(log: &mut ValidationLog, what: &str, risk: &str, zone: &str, zones: &Vec<Zones>)
    ensures
        final(log).deep_view() == checked(old(log).deep_view(), what@, risk@, zone@, zones@),
{
    if zone_allows(zones, zone, risk) {
        let mut reason = text3(what, " risk level '", risk);
        reason.append("' allowed in zone '");
        reason.append(zone);
        reason.append("'");
        add_reason(log, reason);
    } else {
        let mut reason = text3(what, " risk level '", risk);
        reason.append("' not allowed in zone '");
        reason.append(zone);
        reason.append("'");
        fail(log, reason);
    }
}

fn check_step_cards(
    log: ValidationLog,
    step: &SequenceStep,
    running: String,
    zones: &Vec<Zones>,
    node: &NodeCard,
    module: &ModuleCard,
    datasource_cards: &Vec<DatasourceCard>,
) -> (out: (ValidationLog, String))
    ensures
        out.0.deep_view() == check_cards(
            log.deep_view(),
            *step,
            running@,
            zones@,
            *node,
            *module,
            datasource_cards@,
        ).log,
        out.1@ == check_cards(
            log.deep_view(),
            *step,
            running@,
            zones@,
            *node,
            *module,
            datasource_cards@,
        ).output_risk,
{
    let mut log = log;
    let zone = node.zone.as_str();
    log.module_risk = module.risk_level.clone();
    check_level(&mut log, "Module", module.risk_level.as_str(), zone, zones);
    if module.input_type.as_str().is_empty() {
        fail(
            &mut log,
            "Module card didnt have an input type, deployment failed to validate".to_string(),
        );
        return (log, running);
    }
    let temporary = str_eq(module.input_type.as_str(), "temp");
    let source = if temporary {
        None
    } else {
        find_datasource_card(datasource_cards, module.input_type.as_str(), &step.device)
    };
    let ghost source_card: Option<DatasourceCard> = match source {
        Some(card) => Some(*card),
        None => None,
    };
    if temporary {
        log.input_risk = running.clone();
        let reason = text3(
            "Input type is temporary, inheriting risk level '",
            running.as_str(),
            "'",
        );
        add_reason(&mut log, reason);
    } else {
        match source {
            Some(card) => {
                log.input_risk = card.risk_level.clone();
                let reason = text5(
                    "Data source risk level '",
                    card.risk_level.as_str(),
                    "' found for input type '",
                    module.input_type.as_str(),
                    "'",
                );
                add_reason(&mut log, reason);
            },
            None => {
                let mut reason = text3(
                    "Data source card not found for input type '",
                    module.input_type.as_str(),
                    "' on device ",
                );
                reason.append(log.device.as_str());
                fail(&mut log, reason);
            },
        }
    }
    let input_risk = log.input_risk.clone();
    check_level(&mut log, "Input", input_risk.as_str(), zone, zones);
    let inherits = str_eq(module.output_risk.as_str(), "inherit");
    let output = if inherits {
        match source {
            Some(card) => card.risk_level.clone(),
            None => running,
        }
    } else {
        module.output_risk.clone()
    };
    if inherits {
        let reason = text3("Module output risk level inherited as '", output.as_str(), "'");
        add_reason(&mut log, reason);
    } else {
        let reason = text3("Module output risk level set to '", output.as_str(), "'");
        add_reason(&mut log, reason);
    }
    log.output_risk = output.clone();
    check_level(&mut log, "Output", output.as_str(), zone, zones);
    if log.valid {
        add_reason(&mut log, "Step validated successfully.".to_string());
    }
    (log, output)
}

/// Validates one step. `running` is the risk of the output of the step before.
fn validate_one_step(
    step: &SequenceStep,
    running: String,
    zones: &Vec<Zones>,
    node_cards: &Vec<NodeCard>,
    module_cards: &Vec<ModuleCard>,
    datasource_cards: &Vec<DatasourceCard>,
) -> (out: (ValidationLog, String))
    ensures
        out.0.deep_view() == validate_step(
            *step,
            running@,
            zones@,
            node_cards@,
            module_cards@,
            datasource_cards@,
        ).log,
        out.1@ == validate_step(
            *step,
            running@,
            zones@,
            node_cards@,
            module_cards@,
            datasource_cards@,
        ).output_risk,
{
    let mut log = ValidationLog {
        device: step.device.to_hex(),
        module: step.module.to_hex(),
        func: step.func.clone(),
        node_zone: "none".to_string(),
        module_risk: "none".to_string(),
        input_risk: "none".to_string(),
        output_risk: "none".to_string(),
        valid: true,
        reasons: Vec::new(),
    };
    assert(log.reasons.deep_view() =~= Seq::empty());
    assert(log.deep_view() == fresh_log(*step));
    if step.func.as_str().is_empty() {
        fail(&mut log, "Device, module, or function missing in the step.".to_string());
        return (log, running);
    }
    let node = match find_node_card(node_cards, &step.device) {
        Some(node) => node,
        None => {
            let reason = text2("Node card not found for device ", log.device.as_str());
            fail(&mut log, reason);
            return (log, running);
        },
    };
    log.node_zone = node.zone.clone();
    let module = match find_module_card(module_cards, &step.module) {
        Some(module) => module,
        None => {
            let reason = text2("Module card not found for module ", log.module.as_str());
            fail(&mut log, reason);
            return (log, running);
        },
    };
    if module.risk_level.as_str().is_empty() {
        fail(&mut log, "Module card was missing risk level, failed to validate".to_string());
        return (log, running);
    }
    check_step_cards(log, step, running, zones, node, module, datasource_cards)
}

/// Validates a solved deployment against the zones and the cards at hand and
/// returns its certificate. `date` is the time of the validation. Every call
/// yields one certificate, whether the deployment is valid or not.
pub fn validate_deployment_solution(
    deployment_id: &ObjectId,
    solution: &CreateSolutionResult,
    zones: &Vec<Zones>,
    node_cards: &Vec<NodeCard>,
    module_cards: &Vec<ModuleCard>,
    datasource_cards: &Vec<DatasourceCard>,
    date: i64,
) -> (certificate: DeploymentCertificate)
    ensures
        certificate.deep_view() == certificate_of(
            *deployment_id,
            solution.sequence@,
            zones@,
            node_cards@,
            module_cards@,
            datasource_cards@,
            date,
        ),
        certificate.validation_logs@.len() == solution.sequence@.len(),
        certificate.valid == all_valid(certificate.deep_view().validation_logs),
{
    let steps = &solution.sequence;
    let mut running = "none".to_string();
    let mut logs: Vec<ValidationLog> = Vec::new();
    let mut valid = true;
    assert(logs.deep_view() =~= Seq::empty());
    let mut i: usize = 0;
    while i < steps.len()
        invariant
            i <= steps@.len(),
            steps == &solution.sequence,
            logs@.len() == i,
            logs.deep_view() == outcomes(
                steps@,
                zones@,
                node_cards@,
                module_cards@,
                datasource_cards@,
                i as nat,
            ).0,
            running@ == outcomes(
                steps@,
                zones@,
                node_cards@,
                module_cards@,
                datasource_cards@,
                i as nat,
            ).1,
            valid == all_valid(logs.deep_view()),
        decreases steps@.len() - i,
    {
        let ghost before = logs.deep_view();
        let (log, output) = validate_one_step(
            &steps[i],
            running,
            zones,
            node_cards,
            module_cards,
            datasource_cards,
        );
        running = output;
        if !log.valid {
            valid = false;
        }
        logs.push(log);
        proof {
            assert(logs.deep_view() =~= before.push(log.deep_view()));
            if valid {
                assert forall|j: int| 0 <= j < logs.deep_view().len() implies (
                #[trigger] logs.deep_view()[j]).valid by {
                    if j < before.len() {
                        assert(before[j].valid);
                    }
                }
            } else {
                if log.valid {
                    let bad = choose|j: int| 0 <= j < before.len() && !(#[trigger] before[j]).valid;
                    assert(logs.deep_view()[bad] == before[bad]);
                } else {
                    assert(logs.deep_view()[i as int] == log.deep_view());
                }
            }
        }
        i += 1;
    }
    DeploymentCertificate {
        id: None,
        date,
        deployment_id: *deployment_id,
        valid,
        validation_logs: logs,
    }
}

/// What a deployment is annotated with after a validation: nothing where it
/// is valid, and a note of the failure where it is not. The deployment stays
/// in use either way.
pub fn validation_error(certificate: &DeploymentCertificate) -> (note: Option<String>)
    ensures
        note is Some == !certificate.valid,
        note matches Some(text) ==> text@ == "Deployment validation failed."@,
{
    if certificate.valid {
        None
    } else {
        Some("Deployment validation failed.".to_string())
    }
}

/// A step whose module passes on the risk of its input, and whose input is a
/// data source with a card, records the risk of that data source as the risk
/// of its output; and a step after it whose input is temporary records that
/// same risk as the risk of its input.
pub proof fn lemma_risk_is_inherited(
    first: SequenceStep,
    second: SequenceStep,
    running: Seq<char>,
    zones: Seq<Zones>,
    nodes: Seq<NodeCard>,
    modules: Seq<ModuleCard>,
    sources: Seq<DatasourceCard>,
)
    requires
        first.func@.len() > 0,
        second.func@.len() > 0,
        node_card_of(nodes, first.device) is Some,
        node_card_of(nodes, second.device) is Some,
        module_card_of(modules, first.module) is Some,
        module_card_of(modules, second.module) is Some,
        module_card_of(modules, first.module)->Some_0.risk_level@.len() > 0,
        module_card_of(modules, second.module)->Some_0.risk_level@.len() > 0,
        module_card_of(modules, first.module)->Some_0.output_risk@ == "inherit"@,
        module_card_of(modules, first.module)->Some_0.input_type@.len() > 0,
        module_card_of(modules, first.module)->Some_0.input_type@ != "temp"@,
        datasource_card_of(
            sources,
            module_card_of(modules, first.module)->Some_0.input_type@,
            first.device,
        ) is Some,
        module_card_of(modules, second.module)->Some_0.input_type@ == "temp"@,
    ensures
        ({
            let risk = datasource_card_of(
                sources,
                module_card_of(modules, first.module)->Some_0.input_type@,
                first.device,
            )->Some_0.risk_level@;
            let one = validate_step(first, running, zones, nodes, modules, sources);
            let two = validate_step(second, one.output_risk, zones, nodes, modules, sources);
            &&& one.log.output_risk == risk
            &&& one.output_risk == risk
            &&& two.log.input_risk == risk
        }),
{
    reveal_strlit("temp");
}

} // verus!
