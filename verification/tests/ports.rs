use light_stripe::collectors::ports::enrich_with_process_names;
use light_stripe::models::{PortBinding, Protocol};

#[test]
fn enrich_with_process_names_skips_missing_pid() {
    let mut bindings = vec![PortBinding {
        port: 9,
        protocol: Protocol::Tcp,
        address: "127.0.0.1".to_string(),
        pid: None,
        process_name: None,
        container_name: None,
        container_image: None,
    }];

    enrich_with_process_names(&mut bindings, &vec![(1, "init".to_string())]);
    assert!(bindings[0].process_name.is_none());
}

#[test]
fn enrich_with_process_names_leaves_unknown_pid() {
    let mut bindings = vec![PortBinding {
        port: 9,
        protocol: Protocol::Tcp,
        address: "127.0.0.1".to_string(),
        pid: Some(u32::MAX - 1),
        process_name: None,
        container_name: None,
        container_image: None,
    }];
    enrich_with_process_names(&mut bindings, &vec![(1, "init".to_string())]);
    assert!(bindings[0].process_name.is_none())
}

#[test]
fn enrich_fills_name_of_known_pid() {
    let mut bindings = vec![PortBinding {
        port: 9,
        protocol: Protocol::Tcp,
        address: "127.0.0.1".to_string(),
        pid: Some(4242),
        process_name: None,
        container_name: None,
        container_image: None,
    }];
    enrich_with_process_names(
        &mut bindings,
        &vec![(7, "other".to_string()), (4242, "light-stripe".to_string())],
    );
    assert_eq!(bindings[0].process_name.as_deref(), Some("light-stripe"));
}
