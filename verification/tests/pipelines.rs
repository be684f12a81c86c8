use light_stripe::app::{App, Snapshot, Tab};
use light_stripe::collectors::docker::{
    apply_stats, containers_from_summaries, stats_requests, ContainerState, ContainerSummary, PortSummary,
};
use light_stripe::collectors::ports::{binding_pids, enrich_with_process_names, select_bindings, SocketEntry};
use light_stripe::config::Config;
use light_stripe::models::{DockerContainer, Protocol, SystemStats};
use light_stripe::order::sort_listing;
use light_stripe::search::find_matches;
use light_stripe::worker::{worker_reply, worker_step, FromWorker, ToWorker, WorkerStep};

fn stats() -> SystemStats {
    SystemStats { total_memory: 0, used_memory: 0, global_cpu_usage_tenths: 0, cpu_temp_c: None, gpu_temp_c: None }
}

fn container(name: &str, status: &str) -> DockerContainer {
    DockerContainer {
        id: format!("id-{name}"),
        name: name.to_string(),
        image: "img".to_string(),
        status: status.to_string(),
        host_ports: vec![],
        cpu_percent_tenths: None,
        memory_bytes: None,
    }
}

fn snapshot(containers: Vec<DockerContainer>) -> Snapshot {
    Snapshot { ports: vec![], processes: vec![], containers, docker_error: None, volumes: vec![], stats: stats() }
}

fn socket(protocol: Protocol, listening: bool, port: u16, pid: Option<u32>) -> SocketEntry {
    SocketEntry { protocol, listening, local_port: port, local_addr: "127.0.0.1".to_string(), pid }
}

#[test]
fn filtered_port_listing_has_tcp_only_when_a_socket_listens() {
    let sockets = vec![
        socket(Protocol::Tcp, true, 8080, Some(10)),
        socket(Protocol::Tcp, false, 8080, Some(11)),
        socket(Protocol::Udp, false, 8080, None),
        socket(Protocol::Tcp, true, 9090, Some(12)),
    ];
    let mut bindings = select_bindings(&sockets, Some(8080));
    assert_eq!(binding_pids(&bindings), vec![10]);
    enrich_with_process_names(&mut bindings, &vec![(10, "node".to_string())]);
    let listing = sort_listing(bindings);
    assert_eq!(listing.len(), 2);
    assert!(listing.iter().all(|b| b.port == 8080));
    assert!(listing.iter().any(|b| b.protocol == Protocol::Tcp && b.process_name.as_deref() == Some("node")));
    let unused = sort_listing(select_bindings(&sockets, Some(65530)));
    assert!(unused.is_empty());
    let only_closed = vec![socket(Protocol::Tcp, false, 7000, None)];
    assert!(!select_bindings(&only_closed, Some(7000)).iter().any(|b| b.protocol == Protocol::Tcp));
}

#[test]
fn container_listing_is_sorted_with_stats_only_on_running_rows() {
    let summary = |id: &str, name: &str, state: ContainerState| ContainerSummary {
        id: Some(id.to_string()),
        names: Some(vec![format!("/{name}")]),
        image: Some("ghcr.io/acme/web:1".to_string()),
        state: Some(state),
        ports: Some(vec![PortSummary { public_port: Some(80), private_port: 80 }]),
    };
    let summaries = vec![
        summary("3", "zeta", ContainerState::Running),
        summary("1", "alpha", ContainerState::Exited),
        summary("2", "mid", ContainerState::Running),
    ];
    let rows = containers_from_summaries(&summaries);
    let requests = stats_requests(&rows);
    assert_eq!(requests.iter().map(|(i, _)| *i).collect::<Vec<_>>(), vec![0, 2]);
    let fetched = vec![(0, Some((123, 4096))), (2, None)];
    let listing = sort_listing(apply_stats(rows, &fetched));
    let names: Vec<&str> = listing.iter().map(|c| c.name.as_str()).collect();
    assert_eq!(names, vec!["alpha", "mid", "zeta"]);
    for c in &listing {
        assert_eq!(c.cpu_percent_tenths.is_some(), c.memory_bytes.is_some());
        assert!(c.cpu_percent_tenths.is_none() || c.status == "running");
        assert!(!c.image.contains('/'));
    }
    assert_eq!(listing[2].cpu_percent_tenths, Some(123));
}

#[test]
fn search_lowercases_and_trims_the_query_and_stays_on_its_tab() {
    let mut app = App::new(Config::default());
    app.apply_snapshot(snapshot(vec![container("Api", "running"), container("db", "exited"), container("api-2", "running")]), None);
    app.set_tab(Tab::Docker);
    app.search_query = "  API ".to_string();
    assert_eq!(find_matches(&app), vec![0, 2]);
    app.search_query = "   ".to_string();
    assert!(find_matches(&app).is_empty());
    app.set_tab(Tab::Ports);
    app.search_query = "api".to_string();
    assert!(find_matches(&app).is_empty());
}

#[test]
fn search_steps_wrap_around_the_matches() {
    let mut app = App::new(Config::default());
    app.apply_snapshot(snapshot(vec![container("api", "running"), container("db", "exited"), container("api-2", "running")]), None);
    app.set_tab(Tab::Docker);
    app.search_query = "api".to_string();
    app.apply_search(0);
    assert_eq!((app.search_match_index, app.selected_row), (0, 0));
    app.apply_search(-1);
    assert_eq!((app.search_match_index, app.selected_row), (1, 2));
    app.apply_search(3);
    assert_eq!((app.search_match_index, app.selected_row), (0, 0));
    app.search_query = "nothing".to_string();
    app.apply_search(1);
    assert_eq!((app.search_match_index, app.selected_row), (0, 0));
}

#[test]
fn collector_turns_and_replies() {
    assert_eq!(worker_step(ToWorker::Refresh, &vec![ToWorker::Refresh, ToWorker::Refresh]), WorkerStep::Collect);
    assert_eq!(worker_step(ToWorker::Refresh, &vec![ToWorker::Refresh, ToWorker::Quit]), WorkerStep::Stop);
    assert_eq!(worker_step(ToWorker::Quit, &vec![]), WorkerStep::Stop);
    match worker_reply(Err("daemon gone".to_string())) {
        FromWorker::Failed(e) => assert_eq!(e, "daemon gone"),
        FromWorker::Ready { .. } => panic!("expected a failure"),
    }
    match worker_reply(Ok((snapshot(vec![]), Some("volumes unavailable".to_string())))) {
        FromWorker::Ready { volume_warning, .. } => assert_eq!(volume_warning.as_deref(), Some("volumes unavailable")),
        FromWorker::Failed(_) => panic!("expected a snapshot"),
    }
}

#[test]
fn refresh_is_never_asked_while_one_is_running() {
    let mut app = App::new(Config::default());
    // The first refresh is sent before the loop starts, so one is in flight.
    assert!(!app.take_refresh_request(true, true));
    assert!(app.needs_refresh);
    // A reply arrived: the wanted refresh goes out and clears the wish.
    assert!(app.take_refresh_request(false, false));
    assert!(!app.needs_refresh);
    // Not due, nothing wanted: nothing is asked.
    assert!(!app.take_refresh_request(false, false));
    // Due again after a reply.
    assert!(app.take_refresh_request(true, false));
}
