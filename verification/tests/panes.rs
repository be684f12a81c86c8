use light_stripe::app::{App, Snapshot, Tab};
use light_stripe::config::Config;
use light_stripe::models::{DevProcess, DockerContainer, DockerVolume, PortBinding, Protocol, SystemStats};
use light_stripe::panes::{column_headers, main_message, table_name, table_rows};

fn stats() -> SystemStats {
    SystemStats {
        total_memory: 1073741824,
        used_memory: 0,
        global_cpu_usage_tenths: 0,
        cpu_temp_c: None,
        gpu_temp_c: None,
    }
}

fn full_snapshot() -> Snapshot {
    Snapshot {
        ports: vec![
            PortBinding {
                port: 5432,
                protocol: Protocol::Tcp,
                address: "0.0.0.0".to_string(),
                pid: Some(7),
                process_name: Some("docker-proxy".to_string()),
                container_name: Some("db".to_string()),
                container_image: Some("postgres".to_string()),
            },
            PortBinding {
                port: 53,
                protocol: Protocol::Udp,
                address: "127.0.0.1".to_string(),
                pid: None,
                process_name: None,
                container_name: None,
                container_image: None,
            },
        ],
        processes: vec![DevProcess {
            pid: 42,
            name: "node".to_string(),
            cmdline: "x".repeat(70),
            memory_bytes: 3 * 1048576 / 2,
            cpu_usage_tenths: 57,
            is_dev: true,
        }],
        containers: vec![DockerContainer {
            id: "abc".to_string(),
            name: "api".to_string(),
            image: "node".to_string(),
            status: "running".to_string(),
            host_ports: vec![3000, 9229],
            cpu_percent_tenths: Some(5),
            memory_bytes: None,
        }],
        docker_error: None,
        volumes: vec![DockerVolume {
            name: "data".to_string(),
            driver: "local".to_string(),
            size_bytes: Some(1048576),
            in_use: true,
            container_names: vec!["db".to_string(), "api".to_string()],
        }],
        stats: stats(),
    }
}

fn empty_snapshot() -> Snapshot {
    Snapshot {
        ports: vec![],
        processes: vec![],
        containers: vec![],
        docker_error: None,
        volumes: vec![],
        stats: stats(),
    }
}

fn app_on(tab: Tab, snapshot: Option<Snapshot>) -> App {
    let mut app = App::new(Config::default());
    if let Some(s) = snapshot {
        app.apply_snapshot(s, None);
    }
    app.set_tab(tab);
    app
}

#[test]
fn loading_messages_name_the_list() {
    assert_eq!(main_message(&app_on(Tab::Ports, None)).as_deref(), Some("Loading ports..."));
    assert_eq!(main_message(&app_on(Tab::Processes, None)).as_deref(), Some("Loading processes..."));
    assert_eq!(main_message(&app_on(Tab::Docker, None)).as_deref(), Some("Loading containers..."));
    assert_eq!(main_message(&app_on(Tab::Volumes, None)).as_deref(), Some("Loading volumes..."));
    assert!(table_rows(&app_on(Tab::Ports, None)).is_empty());
}

#[test]
fn empty_lists_have_their_own_message() {
    let s = || Some(empty_snapshot());
    assert_eq!(main_message(&app_on(Tab::Ports, s())).as_deref(), Some("No listening ports found."));
    assert_eq!(main_message(&app_on(Tab::Processes, s())).as_deref(), Some("No dev processes found."));
    assert_eq!(main_message(&app_on(Tab::Docker, s())).as_deref(), Some("No containers found."));
    assert_eq!(main_message(&app_on(Tab::Volumes, s())).as_deref(), Some("No volumes found."));
}

#[test]
fn docker_error_replaces_docker_and_volume_tables_only() {
    let mut s = full_snapshot();
    s.docker_error = Some("socket missing".to_string());
    let docker = app_on(Tab::Docker, Some(s));
    assert_eq!(main_message(&docker).as_deref(), Some("Docker unavailable: socket missing"));
    let mut s = full_snapshot();
    s.docker_error = Some("socket missing".to_string());
    let volumes = app_on(Tab::Volumes, Some(s));
    assert_eq!(main_message(&volumes).as_deref(), Some("Docker unavailable: socket missing"));
    let mut s = full_snapshot();
    s.docker_error = Some("socket missing".to_string());
    assert_eq!(main_message(&app_on(Tab::Ports, Some(s))), None);
}

#[test]
fn port_rows_show_owner_and_missing_pid() {
    let app = app_on(Tab::Ports, Some(full_snapshot()));
    assert_eq!(main_message(&app), None);
    let rows = table_rows(&app);
    assert_eq!(rows.len(), 2);
    assert_eq!(rows[0], vec!["5432", "tcp", "0.0.0.0", "7", "db"]);
    assert_eq!(rows[1], vec!["53", "udp", "127.0.0.1", "-", "-"]);
}

#[test]
fn process_rows_truncate_the_command_line() {
    let mut app = app_on(Tab::Processes, Some(full_snapshot()));
    let rows = table_rows(&app);
    let cmd = format!("{}...", "x".repeat(57));
    assert_eq!(rows[0], vec!["42".to_string(), "5.7 %".to_string(), "1.5 MB".to_string(), "○ node".to_string(), cmd.clone()]);
    app.toggle_mark_current();
    assert_eq!(table_rows(&app)[0][3], "● node");
}

#[test]
fn container_and_volume_rows() {
    let mut app = app_on(Tab::Docker, Some(full_snapshot()));
    app.toggle_mark_current();
    assert_eq!(table_rows(&app)[0], vec!["● api", "node", "3000, 9229", "0.5%", "-", "running"]);
    let app = app_on(Tab::Volumes, Some(full_snapshot()));
    assert_eq!(table_rows(&app)[0], vec!["○ data", "local", "1.0 MB", "yes", "db, api"]);
}

#[test]
fn names_and_headers_of_each_table() {
    assert_eq!(table_name(Tab::Processes), "DEV Processes");
    assert_eq!(table_name(Tab::Volumes), "Volumes");
    assert_eq!(column_headers(Tab::Ports), vec!["PORT", "PROTO", "ADDRESS", "PID", "OWNER"]);
    assert_eq!(column_headers(Tab::Docker), vec!["NAME", "IMAGE", "PORTS", "CPU", "MEM", "STATUS"]);
    assert_eq!(column_headers(Tab::Volumes), vec!["NAME", "DRIVER", "SIZE", "IN USE", "CONTAINERS"]);
}

#[test]
fn every_row_has_one_cell_per_header() {
    for tab in [Tab::Ports, Tab::Processes, Tab::Docker, Tab::Volumes] {
        let app = app_on(tab, Some(full_snapshot()));
        let headers = column_headers(tab);
        let rows = table_rows(&app);
        assert!(!rows.is_empty());
        assert!(rows.iter().all(|row| row.len() == headers.len()));
    }
}
