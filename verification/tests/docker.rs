use light_stripe::collectors::docker::{
    container_id, container_name, container_status, extract_host_ports, short_image,
    ContainerState, ContainerSummary, PortSummary,
};

fn summary_with(
    id: Option<&str>,
    names: Option<Vec<&str>>,
    ports: Option<Vec<PortSummary>>,
) -> ContainerSummary {
    ContainerSummary {
        id: id.map(str::to_string),
        names: names.map(|ns| ns.into_iter().map(str::to_string).collect()),
        image: None,
        state: None,
        ports,
    }
}

fn port(public: Option<u16>, private: u16) -> PortSummary {
    PortSummary {
        public_port: public,
        private_port: private,
    }
}

#[test]
fn short_image_strips_registry_path() {
    assert_eq!(
        short_image("docker.io/library/nginx:latest"),
        "nginx:latest"
    );
    assert_eq!(short_image("nginx:alpine"), "nginx:alpine");
    assert_eq!(short_image(""), "");
}

#[test]
fn container_name_trims_leading_slash() {
    let s = summary_with(None, Some(vec!["/my-app"]), None);
    assert_eq!(container_name(&s), "my-app");
}

#[test]
fn container_name_unknown_when_missing() {
    let missing = summary_with(None, None, None);
    assert_eq!(container_name(&missing), "unknown")
}

#[test]
fn container_id_uses_id_when_present() {
    let s = summary_with(Some("container_id"), Some(vec!["container_name"]), None);
    assert_eq!(container_id(&s), "container_id")
}

#[test]
fn container_id_falls_back_to_name() {
    let s = summary_with(None, Some(vec!["container_name"]), None);
    assert_eq!(container_id(&s), "container_name")
}

#[test]
fn container_status_maps_known_states() {
    assert_eq!(container_status(Some(ContainerState::Running)), "running");
    assert_eq!(container_status(Some(ContainerState::Exited)), "exited");
    assert_eq!(container_status(Some(ContainerState::Created)), "created");
    assert_eq!(container_status(Some(ContainerState::Paused)), "paused");
    assert_eq!(container_status(Some(ContainerState::Restarting)), "restarting");
    assert_eq!(container_status(Some(ContainerState::Removing)), "removing");
    assert_eq!(container_status(Some(ContainerState::Dead)), "dead");
    assert_eq!(container_status(Some(ContainerState::Stopping)), "stopping");
}

#[test]
fn container_status_unknown_for_none_and_empty() {
    assert_eq!(container_status(None), "unknown");
    assert_eq!(container_status(Some(ContainerState::Empty)), "unknown");
}

#[test]
fn extract_host_ports_empty_when_no_ports_field() {
    let s = summary_with(None, None, None);
    assert!(extract_host_ports(&s).is_empty())
}

#[test]
fn extract_host_ports_keeps_only_public_ports() {
    let s = summary_with(
        None,
        None,
        Some(vec![port(None, 8080), port(Some(3000), 3000)]),
    );
    assert_eq!(extract_host_ports(&s), vec![3000]);
}
