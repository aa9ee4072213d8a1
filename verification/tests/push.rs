use wasmiot_orchestrator::device::{default_device_description, DeviceCommunication, DeviceDoc};
use wasmiot_orchestrator::ordered_map::OrderedMap;
use wasmiot_orchestrator::push::{collect_responses, deploy_url, PushError};

fn reachable(addresses: Vec<&str>, port: u16) -> DeviceDoc {
    DeviceDoc {
        id: None,
        name: "d".to_string(),
        communication: DeviceCommunication {
            addresses: addresses.into_iter().map(|a| a.to_string()).collect(),
            port,
        },
        description: default_device_description(),
    }
}

#[test]
fn a_manifest_goes_to_the_first_address_of_its_device() {
    assert_eq!(
        deploy_url(&reachable(vec!["10.0.0.5", "10.0.0.6"], 5000)),
        Some("http://10.0.0.5:5000/deploy".to_string())
    );
    assert_eq!(deploy_url(&reachable(vec!["cam.local"], 80)), Some("http://cam.local:80/deploy".to_string()));
    assert_eq!(deploy_url(&reachable(vec![], 80)), None);
}

#[test]
fn the_answers_of_all_devices_are_gathered() {
    let answers = vec![("b".to_string(), Ok(2)), ("a".to_string(), Ok(1))];
    assert_eq!(
        collect_responses(answers),
        Ok(OrderedMap { entries: vec![("b".to_string(), 2), ("a".to_string(), 1)] })
    );
}

#[test]
fn the_first_device_that_failed_fails_the_whole() {
    let answers: Vec<(String, Result<u8, String>)> = vec![
        ("a".to_string(), Ok(1)),
        ("b".to_string(), Err("HTTP 500 from device 'b': no".to_string())),
        ("c".to_string(), Err("later".to_string())),
    ];
    assert_eq!(
        collect_responses(answers),
        Err(PushError::DeviceFailed { message: "HTTP 500 from device 'b': no".to_string() })
    );
}

#[test]
fn a_deployment_without_devices_is_not_sent() {
    let answers: Vec<(String, Result<u8, String>)> = vec![];
    assert_eq!(collect_responses(answers), Err(PushError::EmptyResponse));
}
