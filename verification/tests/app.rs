use light_stripe::app::{App, InputMode, Snapshot, Tab};
use light_stripe::config::Config;
use light_stripe::models::{DevProcess, DockerContainer, PortBinding, Protocol, SystemStats};

fn empty_stats() -> SystemStats {
    SystemStats {
        total_memory: 0,
        used_memory: 0,
        global_cpu_usage_tenths: 0,
        cpu_temp_c: None,
        gpu_temp_c: None,
    }
}

fn port(port: u16, process_name: &str) -> PortBinding {
    PortBinding {
        port,
        protocol: Protocol::Tcp,
        address: "127.0.0.1".to_string(),
        pid: Some(1),
        process_name: Some(process_name.to_string()),
        container_name: None,
        container_image: None,
    }
}

fn snapshot_ports(n: usize) -> Snapshot {
    let ports = (0..n).map(|i| port(8000 + i as u16, "node")).collect();
    Snapshot {
        ports,
        processes: vec![],
        containers: vec![],
        docker_error: None,
        volumes: vec![],
        stats: empty_stats(),
    }
}

fn app_with_ports(n: usize) -> App {
    let mut app = App::new(Config::default());
    app.tab = Tab::Ports;
    app.snapshot = Some(snapshot_ports(n));
    app.needs_refresh = false;
    app
}

fn container(name: &str, host_ports: Vec<u16>) -> DockerContainer {
    DockerContainer {
        id: format!("id-{name}"),
        name: name.to_string(),
        image: format!("{name}:latest"),
        status: "running".to_string(),
        host_ports,
        cpu_percent_tenths: None,
        memory_bytes: None,
    }
}

fn process(pid: u32, name: &str) -> DevProcess {
    DevProcess {
        pid,
        name: name.to_string(),
        cmdline: name.to_string(),
        memory_bytes: 0,
        cpu_usage_tenths: 0,
        is_dev: true,
    }
}

#[test]
fn jump_from_port_to_container() {
    let mut app = App::new(Config::default());
    app.tab = Tab::Ports;
    let mut binding = port(6379, "docker-proxy");
    binding.pid = Some(42);
    binding.container_name = Some("redis-dev".to_string());
    app.snapshot = Some(Snapshot {
        ports: vec![binding],
        processes: vec![process(42, "docker-proxy")],
        containers: vec![container("redis-dev", vec![6379])],
        docker_error: None,
        volumes: vec![],
        stats: empty_stats(),
    });

    app.jump_from_selected_port();

    assert_eq!(app.tab, Tab::Docker);
    assert_eq!(app.selected_row, 0);
    assert!(app.status_message.as_deref().unwrap().contains("redis-dev"))
}

#[test]
fn jump_from_port_to_process_when_no_container() {
    let mut app = App::new(Config::default());
    app.tab = Tab::Ports;
    let mut binding = port(3000, "node");
    binding.pid = Some(100);
    app.snapshot = Some(Snapshot {
        ports: vec![binding],
        processes: vec![process(99, "other"), process(100, "node")],
        containers: vec![],
        docker_error: None,
        volumes: vec![],
        stats: empty_stats(),
    });

    app.jump_from_selected_port();
    assert_eq!(app.tab, Tab::Processes);
    assert_eq!(app.selected_row, 1)
}

#[test]
fn jump_reports_when_process_not_in_dev_list() {
    let mut app = App::new(Config::default());
    app.tab = Tab::Ports;
    let mut binding = port(5353, "mDNSResponder");
    binding.pid = Some(1503);
    app.snapshot = Some(Snapshot {
        ports: vec![binding],
        processes: vec![],
        containers: vec![],
        docker_error: None,
        volumes: vec![],
        stats: empty_stats(),
    });
    app.jump_from_selected_port();
    assert_eq!(app.tab, Tab::Ports);
    assert!(
        app.status_message
            .as_deref()
            .unwrap()
            .contains("not in DEV Processes")
    );
}

#[test]
fn move_selection_clamps_at_bounds() {
    let mut app = app_with_ports(3);
    app.move_selection(-1);
    assert_eq!(app.selected_row, 0);
    app.move_selection(100);
    assert_eq!(app.selected_row, 2);
    app.move_selection(-1);
    assert_eq!(app.selected_row, 1);
}

#[test]
fn move_selection_noop_when_empty() {
    let mut app = App::new(Config::default());
    app.move_selection(1);
    assert_eq!(app.selected_row, 0);
}

#[test]
fn clamp_selection_after_refresh_when_row_out_of_range() {
    let mut app = app_with_ports(2);
    app.selected_row = 99;
    app.clamp_selection_after_refresh();
    assert_eq!(app.selected_row, 1);
}

#[test]
fn clamp_selection_clears_when_list_empty() {
    let mut app = App::new(Config::default());
    app.selected_row = 105;
    app.list_offset = 2;

    app.clamp_selection_after_refresh();
    assert_eq!(app.selected_row, 0);
    assert_eq!(app.list_offset, 0);
}

#[test]
fn ensure_visible_scrolls_down_and_up() {
    let mut app = app_with_ports(10);
    app.list_offset = 0;
    app.selected_row = 7;

    app.ensure_visible(5);
    assert_eq!(app.list_offset, 3);
    app.selected_row = 1;
    app.ensure_visible(5);
    assert_eq!(app.list_offset, 1);
}

#[test]
fn set_tab_resets_selection_and_search() {
    let mut app = app_with_ports(3);
    app.selected_row = 2;
    app.list_offset = 1;
    app.search_match_index = 1;
    app.input_mode = InputMode::Search;

    app.set_tab(Tab::Docker);

    assert_eq!(app.tab, Tab::Docker);
    assert_eq!(app.selected_row, 0);
    assert_eq!(app.search_match_index, 0);
    assert_eq!(app.input_mode, InputMode::Normal);
    assert!(app.search_query.is_empty());
}

#[test]
fn apply_search_jumps_to_first_then_cycles() {
    let mut app = app_with_ports(0);
    app.snapshot = Some(Snapshot {
        ports: vec![port(8080, "node"), port(3000, "vite"), port(8081, "node")],
        processes: vec![],
        containers: vec![],
        docker_error: None,
        volumes: vec![],
        stats: empty_stats(),
    });
    app.search_query = "node".to_string();

    app.apply_search(0);
    assert_eq!(app.selected_row, 0);
    assert_eq!(app.search_match_index, 0);

    app.apply_search(1);
    assert_eq!(app.selected_row, 2);
    assert_eq!(app.search_match_index, 1);

    app.apply_search(1);
    assert_eq!(app.selected_row, 0);
    assert_eq!(app.search_match_index, 0);

    app.apply_search(-1);
    assert_eq!(app.selected_row, 2);
}

#[test]
fn apply_search_noop_when_no_matches() {
    let mut app = app_with_ports(2);
    app.selected_row = 1;
    app.search_query = "zzz".to_string();

    app.apply_search(0);

    assert_eq!(app.selected_row, 1)
}

#[test]
fn start_and_cancel_search() {
    let mut app = App::new(Config::default());
    app.search_query = "old".to_string();

    app.start_search();
    assert_eq!(app.input_mode, InputMode::Search);
    assert!(app.search_query.is_empty());

    app.push_search_char('a');
    app.push_search_char('b');

    assert_eq!(app.search_query, "ab");
    app.pop_search_char();
    assert_eq!(app.search_query, "a");

    app.cancel_search();
    assert_eq!(app.input_mode, InputMode::Normal);
    assert!(app.search_query.is_empty());
}

#[test]
fn select_search_status_formats() {
    let mut app = app_with_ports(0);
    app.snapshot = Some(Snapshot {
        ports: vec![port(8080, "node"), port(8081, "node")],
        processes: vec![],
        containers: vec![],
        docker_error: None,
        volumes: vec![],
        stats: empty_stats(),
    });
    assert!(app.select_search_status().is_none());
    app.search_query = "zzz".to_string();
    assert_eq!(
        app.select_search_status().as_deref(),
        Some("/zzz  (no matches)")
    );
    app.search_query = "node".to_string();
    app.search_match_index = 0;
    assert_eq!(app.select_search_status().as_deref(), Some("/node  [1/2]"));
}

#[test]
fn prune_drops_missing_ids() {
    let mut app = App::new(Config::default());
    app.marked_container_ids.insert("gone".into());
    app.snapshot = Some(Snapshot {
        ports: vec![],
        processes: vec![],
        containers: vec![],
        docker_error: None,
        volumes: vec![],
        stats: empty_stats(),
    });
    app.prune_marks_after_refresh();
    assert!(app.marked_container_ids.is_empty())
}
