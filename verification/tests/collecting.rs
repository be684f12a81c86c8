use light_stripe::collectors::docker::{
    apply_stats, containers_from_summaries, stats_requests, summary_to_container,
    ContainerState, ContainerSummary, PortSummary,
};
use light_stripe::collectors::ports::{binding_pids, select_bindings, SocketEntry};
use light_stripe::collectors::snapshot::{assemble_snapshot, attach_docker, drop_ignored_ports};
use light_stripe::collectors::volumes::{users_of, volume_records, ContainerMounts, MountEntry, VolumeEntry};
use light_stripe::models::{DockerContainer, PortBinding, Protocol, SystemStats};
use light_stripe::order::{sort_listing, sort_unique_names};

fn socket(protocol: Protocol, listening: bool, port: u16, addr: &str, pid: Option<u32>) -> SocketEntry {
    SocketEntry { protocol, listening, local_port: port, local_addr: addr.to_string(), pid }
}

fn summary(id: &str, name: &str, image: &str, state: ContainerState, public: Option<u16>) -> ContainerSummary {
    ContainerSummary {
        id: Some(id.to_string()),
        names: Some(vec![format!("/{name}")]),
        image: Some(image.to_string()),
        state: Some(state),
        ports: Some(vec![PortSummary { public_port: public, private_port: 80 }]),
    }
}

fn stats() -> SystemStats {
    SystemStats { total_memory: 0, used_memory: 0, global_cpu_usage_tenths: 0, cpu_temp_c: None, gpu_temp_c: None }
}

#[test]
fn only_listening_tcp_and_udp_sockets_are_ports() {
    let sockets = vec![
        socket(Protocol::Tcp, true, 8080, "127.0.0.1", Some(1)),
        socket(Protocol::Tcp, false, 8081, "127.0.0.1", Some(2)),
        socket(Protocol::Udp, false, 5353, "0.0.0.0", None),
    ];
    let all = select_bindings(&sockets, None);
    assert_eq!(all.iter().map(|b| b.port).collect::<Vec<_>>(), vec![8080, 5353]);
    let filtered = select_bindings(&sockets, Some(5353));
    assert_eq!(filtered.len(), 1);
    assert!(matches!(filtered[0].protocol, Protocol::Udp));
    assert_eq!(binding_pids(&all), vec![1]);
}

#[test]
fn bindings_sort_by_port_then_address() {
    let sockets = vec![
        socket(Protocol::Tcp, true, 8080, "127.0.0.1", None),
        socket(Protocol::Tcp, true, 22, "::", None),
        socket(Protocol::Tcp, true, 8080, "0.0.0.0", None),
    ];
    let sorted = sort_listing(select_bindings(&sockets, None));
    let keys: Vec<(u16, String)> = sorted.iter().map(|b| (b.port, b.address.clone())).collect();
    assert_eq!(
        keys,
        vec![(22, "::".to_string()), (8080, "0.0.0.0".to_string()), (8080, "127.0.0.1".to_string())]
    );
}

#[test]
fn ignored_ports_are_dropped_and_containers_attached() {
    let sockets = vec![
        socket(Protocol::Udp, false, 53, "0.0.0.0", None),
        socket(Protocol::Tcp, true, 5432, "0.0.0.0", Some(9)),
    ];
    let mut ports: Vec<PortBinding> = drop_ignored_ports(select_bindings(&sockets, None), &vec![53, 323]);
    assert_eq!(ports.len(), 1);
    let containers = containers_from_summaries(&vec![summary("c1", "db", "docker.io/library/postgres:16", ContainerState::Running, Some(5432))]);
    attach_docker(&mut ports, &containers);
    assert_eq!(ports[0].container_name.as_deref(), Some("db"));
    assert_eq!(ports[0].container_image.as_deref(), Some("postgres:16"));
}

#[test]
fn container_rows_and_stats() {
    let summaries = vec![
        summary("c2", "web", "nginx", ContainerState::Exited, None),
        summary("c1", "api", "ghcr.io/acme/api:1", ContainerState::Running, Some(8080)),
    ];
    let rows = containers_from_summaries(&summaries);
    assert_eq!(rows[1].image, "api:1");
    assert_eq!(rows[0].status, "exited");
    assert_eq!(rows[0].host_ports, Vec::<u16>::new());
    let jobs = stats_requests(&rows);
    assert_eq!(jobs, vec![(1, "c1".to_string())]);
    let rows = apply_stats(rows, &vec![(1, Some((205, 1024)))]);
    assert_eq!(rows[1].cpu_percent_tenths, Some(205));
    assert_eq!(rows[1].memory_bytes, Some(1024));
    assert_eq!(rows[0].cpu_percent_tenths, None);
    let sorted = sort_listing(rows);
    assert_eq!(sorted.iter().map(|c| c.name.clone()).collect::<Vec<_>>(), vec!["api", "web"]);
    let no_names = ContainerSummary { id: None, names: None, image: None, state: None, ports: None };
    let row = summary_to_container(&no_names);
    assert_eq!((row.id.as_str(), row.name.as_str(), row.image.as_str(), row.status.as_str()), ("unknown", "unknown", "unknown", "unknown"));
}

#[test]
fn volume_records_use_reported_sizes_and_users() {
    let list = vec![
        VolumeEntry { name: "data".to_string(), driver: "local".to_string(), usage_size: Some(5) },
        VolumeEntry { name: "cache".to_string(), driver: "local".to_string(), usage_size: Some(-1) },
        VolumeEntry { name: "logs".to_string(), driver: "local".to_string(), usage_size: Some(7) },
    ];
    let reported = vec![
        ("data".to_string(), Some(100)),
        ("data".to_string(), Some(200)),
        ("logs".to_string(), Some(-1)),
    ];
    let mount = |typ: &str, name: &str| MountEntry { typ: Some(typ.to_string()), name: Some(name.to_string()) };
    let containers = vec![
        ContainerMounts { names: Some(vec!["/web".to_string()]), mounts: vec![mount("volume", "data")] },
        ContainerMounts { names: Some(vec!["/api".to_string()]), mounts: vec![mount("Volume", "data"), mount("bind", "cache")] },
        ContainerMounts { names: Some(vec!["/web".to_string()]), mounts: vec![mount("volume", "data")] },
    ];
    let rows = volume_records(&list, &reported, &containers);
    assert_eq!(rows[0].size_bytes, Some(200));
    assert_eq!(rows[0].container_names, vec!["api".to_string(), "web".to_string()]);
    assert!(rows[0].in_use);
    assert_eq!(rows[1].size_bytes, None);
    assert!(!rows[1].in_use);
    assert_eq!(rows[2].size_bytes, Some(7));
    assert_eq!(users_of(&containers, "cache"), Vec::<String>::new());
    let sorted = sort_listing(rows);
    assert_eq!(sorted.iter().map(|v| v.name.clone()).collect::<Vec<_>>(), vec!["cache", "data", "logs"]);
}

#[test]
fn unique_names_are_sorted() {
    let names = vec!["b".to_string(), "a".to_string(), "b".to_string(), "ab".to_string()];
    assert_eq!(sort_unique_names(names), vec!["a".to_string(), "ab".to_string(), "b".to_string()]);
}

#[test]
fn snapshot_without_docker_has_no_containers_or_volumes() {
    let ports = vec![];
    let (snapshot, warning) = assemble_snapshot(ports, vec![], stats(), Err("no docker".to_string()), None);
    assert_eq!(snapshot.docker_error.as_deref(), Some("no docker"));
    assert!(snapshot.containers.is_empty());
    assert!(snapshot.volumes.is_empty());
    assert!(warning.is_none());
}

#[test]
fn volume_failure_becomes_a_warning() {
    let containers: Vec<DockerContainer> = vec![];
    let (snapshot, warning) = assemble_snapshot(vec![], vec![], stats(), Ok(containers), Some(Err("denied".to_string())));
    assert!(snapshot.docker_error.is_none());
    assert!(snapshot.volumes.is_empty());
    assert_eq!(warning.as_deref(), Some("volumes unavailable: denied"));
}
