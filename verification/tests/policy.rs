use wasmiot_orchestrator::cards::{DatasourceCard, ModuleCard, NodeCard, Zones};
use wasmiot_orchestrator::certificate::ValidationLog;
use wasmiot_orchestrator::deployment::{CreateSolutionResult, SequenceStep};
use wasmiot_orchestrator::ids::ObjectId;
use wasmiot_orchestrator::ordered_map::OrderedMap;
use wasmiot_orchestrator::policy::{
    find_datasource_card, find_module_card, find_node_card, validate_deployment_solution,
    validation_error, zone_allows,
};

fn t(s: &str) -> String {
    s.to_string()
}

fn dev(n: u8) -> ObjectId {
    ObjectId::from_bytes([n; 12])
}

fn module_id(n: u8) -> ObjectId {
    let mut bytes = [0xbb_u8; 12];
    bytes[0] = n;
    ObjectId::from_bytes(bytes)
}

fn zone(name: &str, levels: Vec<&str>) -> Zones {
    Zones {
        id: None,
        zone: Some(t(name)),
        allowed_risk_levels: Some(levels.into_iter().map(t).collect()),
        ty: None,
        levels: None,
    }
}

fn node_card(device: ObjectId, zone: &str) -> NodeCard {
    NodeCard { id: None, name: t("node"), nodeid: device, zone: t(zone) }
}

fn module_card(module: ObjectId, risk: &str, input: &str, output: &str) -> ModuleCard {
    ModuleCard {
        id: None,
        moduleid: module,
        name: t("card"),
        risk_level: t(risk),
        input_type: t(input),
        output_risk: t(output),
    }
}

fn source_card(device: ObjectId, ty: &str, risk: &str) -> DatasourceCard {
    DatasourceCard { id: None, name: t("source"), ty: t(ty), risk_level: t(risk), nodeid: device }
}

fn solved(steps: Vec<(ObjectId, ObjectId, &str)>) -> CreateSolutionResult {
    CreateSolutionResult {
        full_manifest: OrderedMap::new(),
        sequence: steps
            .into_iter()
            .map(|(device, module, func)| SequenceStep { device, module, func: t(func) })
            .collect(),
    }
}

fn deployment() -> ObjectId {
    ObjectId::from_bytes([0xdd; 12])
}

#[test]
fn a_zone_admits_the_levels_of_its_last_entry() {
    let zones = vec![
        zone("lab", vec!["low"]),
        zone("field", vec!["low", "high"]),
        zone("lab", vec!["medium"]),
        Zones { id: None, zone: None, allowed_risk_levels: Some(vec![t("any")]), ty: None, levels: None },
        Zones { id: None, zone: Some(t("bare")), allowed_risk_levels: None, ty: None, levels: None },
    ];
    assert!(zone_allows(&zones, "lab", "medium"));
    assert!(!zone_allows(&zones, "lab", "low"));
    assert!(zone_allows(&zones, "field", "high"));
    assert!(!zone_allows(&zones, "field", "medium"));
    assert!(!zone_allows(&zones, "unknown", "low"));
    assert!(!zone_allows(&zones, "bare", "low"));
    assert!(!zone_allows(&zones, "", "any"));
    assert!(!zone_allows(&vec![], "lab", "low"));
}

#[test]
fn cards_are_found_by_what_they_name() {
    let nodes = vec![node_card(dev(1), "a"), node_card(dev(2), "b"), node_card(dev(1), "c")];
    assert_eq!(find_node_card(&nodes, &dev(1)).unwrap().zone, "a");
    assert_eq!(find_node_card(&nodes, &dev(2)).unwrap().zone, "b");
    assert_eq!(find_node_card(&nodes, &dev(3)), None);
    let modules = vec![module_card(module_id(1), "low", "temp", "low")];
    assert!(find_module_card(&modules, &module_id(1)).is_some());
    assert_eq!(find_module_card(&modules, &module_id(2)), None);
    let sources = vec![
        source_card(dev(1), "image", "low"),
        source_card(dev(2), "image", "high"),
        source_card(dev(2), "audio", "medium"),
    ];
    assert_eq!(find_datasource_card(&sources, "image", &dev(2)).unwrap().risk_level, "high");
    assert_eq!(find_datasource_card(&sources, "audio", &dev(2)).unwrap().risk_level, "medium");
    assert_eq!(find_datasource_card(&sources, "audio", &dev(1)), None);
}

#[test]
fn a_valid_deployment_gets_a_valid_certificate() {
    let certificate = validate_deployment_solution(
        &deployment(),
        &solved(vec![(dev(1), module_id(1), "take")]),
        &vec![zone("lab", vec!["low", "none"])],
        &vec![node_card(dev(1), "lab")],
        &vec![module_card(module_id(1), "low", "temp", "low")],
        &vec![],
        1700000000000,
    );
    assert_eq!(certificate.id, None);
    assert_eq!(certificate.date, 1700000000000);
    assert_eq!(certificate.deployment_id, deployment());
    assert!(certificate.valid);
    assert_eq!(
        certificate.validation_logs,
        vec![ValidationLog {
            device: t("010101010101010101010101"),
            module: t("01bbbbbbbbbbbbbbbbbbbbbb"),
            func: t("take"),
            node_zone: t("lab"),
            module_risk: t("low"),
            input_risk: t("none"),
            output_risk: t("low"),
            valid: true,
            reasons: vec![
                t("Module risk level 'low' allowed in zone 'lab'"),
                t("Input type is temporary, inheriting risk level 'none'"),
                t("Input risk level 'none' allowed in zone 'lab'"),
                t("Module output risk level set to 'low'"),
                t("Output risk level 'low' allowed in zone 'lab'"),
                t("Step validated successfully."),
            ],
        }]
    );
    assert_eq!(validation_error(&certificate), None);
}

#[test]
fn inherited_risk_runs_on_to_the_next_step() {
    let certificate = validate_deployment_solution(
        &deployment(),
        &solved(vec![(dev(1), module_id(1), "read"), (dev(2), module_id(2), "use")]),
        &vec![zone("field", vec!["high", "low"]), zone("lab", vec!["low"])],
        &vec![node_card(dev(1), "field"), node_card(dev(2), "lab")],
        &vec![
            module_card(module_id(1), "low", "image", "inherit"),
            module_card(module_id(2), "low", "temp", "inherit"),
        ],
        &vec![source_card(dev(1), "image", "high")],
        0,
    );
    let first = &certificate.validation_logs[0];
    let second = &certificate.validation_logs[1];
    assert_eq!(first.input_risk, "high");
    assert_eq!(first.output_risk, "high");
    assert!(first.valid);
    assert_eq!(
        first.reasons,
        vec![
            t("Module risk level 'low' allowed in zone 'field'"),
            t("Data source risk level 'high' found for input type 'image'"),
            t("Input risk level 'high' allowed in zone 'field'"),
            t("Module output risk level inherited as 'high'"),
            t("Output risk level 'high' allowed in zone 'field'"),
            t("Step validated successfully."),
        ]
    );
    assert_eq!(second.input_risk, "high");
    assert_eq!(second.output_risk, "high");
    assert!(!second.valid);
    assert_eq!(
        second.reasons,
        vec![
            t("Module risk level 'low' allowed in zone 'lab'"),
            t("Input type is temporary, inheriting risk level 'high'"),
            t("Input risk level 'high' not allowed in zone 'lab'"),
            t("Module output risk level inherited as 'high'"),
            t("Output risk level 'high' not allowed in zone 'lab'"),
        ]
    );
    assert!(!certificate.valid);
    assert_eq!(validation_error(&certificate), Some(t("Deployment validation failed.")));
}

#[test]
fn a_step_without_cards_is_invalid_and_the_next_is_still_checked() {
    let certificate = validate_deployment_solution(
        &deployment(),
        &solved(vec![
            (dev(9), module_id(1), "a"),
            (dev(1), module_id(9), "b"),
            (dev(1), module_id(1), "c"),
        ]),
        &vec![zone("lab", vec!["low", "none"])],
        &vec![node_card(dev(1), "lab")],
        &vec![module_card(module_id(1), "low", "temp", "low")],
        &vec![],
        5,
    );
    assert_eq!(certificate.validation_logs.len(), 3);
    let logs = &certificate.validation_logs;
    assert!(!logs[0].valid);
    assert_eq!(logs[0].node_zone, "none");
    assert_eq!(logs[0].reasons, vec![t("Node card not found for device 090909090909090909090909")]);
    assert!(!logs[1].valid);
    assert_eq!(logs[1].node_zone, "lab");
    assert_eq!(logs[1].module_risk, "none");
    assert_eq!(logs[1].reasons, vec![t("Module card not found for module 09bbbbbbbbbbbbbbbbbbbbbb")]);
    assert!(logs[2].valid);
    assert_eq!(logs[2].input_risk, "none");
    assert!(!certificate.valid);
}

#[test]
fn the_certificate_is_valid_exactly_when_every_step_is() {
    let zones = vec![zone("lab", vec!["low", "none"])];
    let nodes = vec![node_card(dev(1), "lab"), node_card(dev(2), "lab")];
    let modules = vec![
        module_card(module_id(1), "low", "temp", "low"),
        module_card(module_id(2), "high", "temp", "low"),
    ];
    let good = (dev(1), module_id(1), "f");
    let bad = (dev(2), module_id(2), "g");
    for (steps, expected) in vec![
        (vec![], true),
        (vec![good], true),
        (vec![good, good, good], true),
        (vec![bad], false),
        (vec![bad, good], false),
        (vec![good, bad], false),
        (vec![good, bad, good], false),
    ] {
        let certificate =
            validate_deployment_solution(&deployment(), &solved(steps.clone()), &zones, &nodes, &modules, &vec![], 1);
        assert_eq!(certificate.validation_logs.len(), steps.len());
        assert_eq!(certificate.valid, expected);
        assert_eq!(certificate.valid, certificate.validation_logs.iter().all(|log| log.valid));
        assert_eq!(validation_error(&certificate).is_some(), !expected);
    }
}

#[test]
fn a_missing_data_source_fails_the_step_and_keeps_the_running_risk() {
    let certificate = validate_deployment_solution(
        &deployment(),
        &solved(vec![(dev(1), module_id(1), "first"), (dev(1), module_id(2), "second")]),
        &vec![zone("lab", vec!["low", "none", "medium"])],
        &vec![node_card(dev(1), "lab")],
        &vec![
            module_card(module_id(1), "low", "temp", "medium"),
            module_card(module_id(2), "low", "audio", "inherit"),
        ],
        &vec![source_card(dev(2), "audio", "high"), source_card(dev(1), "image", "high")],
        1,
    );
    let second = &certificate.validation_logs[1];
    assert!(!second.valid);
    assert_eq!(second.input_risk, "none");
    assert_eq!(second.output_risk, "medium");
    assert_eq!(
        second.reasons,
        vec![
            t("Module risk level 'low' allowed in zone 'lab'"),
            t("Data source card not found for input type 'audio' on device 010101010101010101010101"),
            t("Input risk level 'none' allowed in zone 'lab'"),
            t("Module output risk level inherited as 'medium'"),
            t("Output risk level 'medium' allowed in zone 'lab'"),
        ]
    );
}

#[test]
fn an_unknown_zone_admits_nothing() {
    let certificate = validate_deployment_solution(
        &deployment(),
        &solved(vec![(dev(1), module_id(1), "f")]),
        &vec![zone("lab", vec!["low", "none"])],
        &vec![node_card(dev(1), "cellar")],
        &vec![module_card(module_id(1), "low", "temp", "low")],
        &vec![],
        1,
    );
    let log = &certificate.validation_logs[0];
    assert!(!log.valid);
    assert_eq!(
        log.reasons,
        vec![
            t("Module risk level 'low' not allowed in zone 'cellar'"),
            t("Input type is temporary, inheriting risk level 'none'"),
            t("Input risk level 'none' not allowed in zone 'cellar'"),
            t("Module output risk level set to 'low'"),
            t("Output risk level 'low' not allowed in zone 'cellar'"),
        ]
    );
}

#[test]
fn incomplete_steps_and_cards_are_invalid() {
    let zones = vec![zone("lab", vec!["low", "none"])];
    let nodes = vec![node_card(dev(1), "lab")];
    let certificate = validate_deployment_solution(
        &deployment(),
        &solved(vec![
            (dev(1), module_id(1), ""),
            (dev(1), module_id(2), "f"),
            (dev(1), module_id(3), "g"),
            (dev(1), module_id(1), "h"),
        ]),
        &zones,
        &nodes,
        &vec![
            module_card(module_id(1), "low", "temp", "low"),
            module_card(module_id(2), "", "temp", "low"),
            module_card(module_id(3), "low", "", "low"),
        ],
        &vec![],
        1,
    );
    let logs = &certificate.validation_logs;
    assert_eq!(logs[0].reasons, vec![t("Device, module, or function missing in the step.")]);
    assert!(!logs[0].valid);
    assert_eq!(logs[1].reasons, vec![t("Module card was missing risk level, failed to validate")]);
    assert!(!logs[1].valid);
    assert_eq!(
        logs[2].reasons,
        vec![
            t("Module risk level 'low' allowed in zone 'lab'"),
            t("Module card didnt have an input type, deployment failed to validate"),
        ]
    );
    assert!(!logs[2].valid);
    assert_eq!(logs[2].module_risk, "low");
    assert!(logs[3].valid);
    assert!(!certificate.valid);
}
