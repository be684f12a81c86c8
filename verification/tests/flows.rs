use light_stripe::actions::BatchKind;
use light_stripe::app::{App, InputMode, Snapshot, Tab};
use light_stripe::config::Config;
use light_stripe::events::{handle_key, Effect, KeyCode, KeyEvent};
use light_stripe::models::{DevProcess, DockerContainer, DockerVolume, PortBinding, Protocol, SystemStats};
use light_stripe::screen::{footer_hints, footer_text, header_text, tab_label};
use light_stripe::worker::{worker_step, FromWorker, ToWorker, WorkerStep};

fn stats() -> SystemStats {
    SystemStats {
        total_memory: 16 * 1073741824,
        used_memory: 3 * 1073741824 + 1073741824 / 2,
        global_cpu_usage_tenths: 125,
        cpu_temp_c: Some(47),
        gpu_temp_c: None,
    }
}

fn container(name: &str) -> DockerContainer {
    DockerContainer {
        id: format!("id-{name}"),
        name: name.to_string(),
        image: "img".to_string(),
        status: "running".to_string(),
        host_ports: vec![],
        cpu_percent_tenths: None,
        memory_bytes: None,
    }
}

fn process(pid: u32, name: &str) -> DevProcess {
    DevProcess {
        pid,
        name: name.to_string(),
        cmdline: name.to_string(),
        memory_bytes: 0,
        cpu_usage_tenths: 0,
        is_dev: true,
    }
}

fn volume(name: &str, users: &[&str]) -> DockerVolume {
    DockerVolume {
        name: name.to_string(),
        driver: "local".to_string(),
        size_bytes: None,
        in_use: !users.is_empty(),
        container_names: users.iter().map(|s| s.to_string()).collect(),
    }
}

fn snapshot() -> Snapshot {
    Snapshot {
        ports: vec![PortBinding {
            port: 5432,
            protocol: Protocol::Tcp,
            address: "0.0.0.0".to_string(),
            pid: Some(7),
            process_name: Some("docker-proxy".to_string()),
            container_name: Some("db".to_string()),
            container_image: Some("postgres".to_string()),
        }],
        processes: vec![process(7, "docker-proxy"), process(8, "node")],
        containers: vec![container("api"), container("db")],
        docker_error: None,
        volumes: vec![volume("cache", &[]), volume("data", &["db"])],
        stats: stats(),
    }
}

fn key(c: char) -> KeyEvent {
    KeyEvent { code: KeyCode::Char(c), control: false }
}

fn code(code: KeyCode) -> KeyEvent {
    KeyEvent { code, control: false }
}

fn ready_app() -> App {
    let mut app = App::new(Config::default());
    app.apply_snapshot(snapshot(), None);
    app
}

#[test]
fn marking_twice_unmarks() {
    let mut app = ready_app();
    app.set_tab(Tab::Docker);
    app.toggle_mark_current();
    assert!(app.marked_container_ids.contains("id-api"));
    app.toggle_mark_current();
    assert!(app.marked_container_ids.is_empty());
}

#[test]
fn mark_all_then_unmark_all() {
    let mut app = ready_app();
    app.set_tab(Tab::Processes);
    app.mark_all();
    assert_eq!(app.marked_pids.len(), 2);
    assert_eq!(footer_hints(&app), "2 selected processes | Space: mark | a/A: all | x: kill | q: quit | /: search | 1-4: tabs");
    app.unmark_all();
    assert!(app.marked_pids.is_empty());
}

#[test]
fn refresh_forgets_marks_of_vanished_rows_and_clamps() {
    let mut app = ready_app();
    app.set_tab(Tab::Docker);
    app.mark_all();
    app.selected_row = 1;
    let mut next = snapshot();
    next.containers = vec![container("api")];
    app.apply_snapshot(next, Some("volumes unavailable: boom".to_string()));
    assert!(app.marked_container_ids.contains("id-api"));
    assert!(!app.marked_container_ids.contains("id-db"));
    assert_eq!(app.marked_container_ids.len(), 1);
    assert_eq!(app.selected_row, 0);
    assert_eq!(app.status_message.as_deref(), Some("volumes unavailable: boom"));
}

#[test]
fn typing_then_deleting_restores_query() {
    let mut app = ready_app();
    app.start_search();
    app.push_search_char('d');
    app.push_search_char('b');
    app.pop_search_char();
    assert_eq!(app.search_query, "d");
    app.pop_search_char();
    app.pop_search_char();
    assert_eq!(app.search_query, "");
}

#[test]
fn search_steps_back_to_where_it_started() {
    let mut app = ready_app();
    app.set_tab(Tab::Processes);
    app.search_query = "o".to_string();
    app.apply_search(0);
    let start = (app.search_match_index, app.selected_row);
    app.apply_search(5);
    app.apply_search(-5);
    assert_eq!((app.search_match_index, app.selected_row), start);
}

#[test]
fn stop_hands_back_marked_containers_and_reports() {
    let mut app = ready_app();
    app.set_tab(Tab::Docker);
    app.mark_all();
    let effect = handle_key(&mut app, key('s'));
    let targets = match effect {
        Effect::StopContainers(t) => t,
        _ => panic!("expected a stop"),
    };
    assert_eq!(
        targets,
        vec![
            ("id-api".to_string(), "api".to_string()),
            ("id-db".to_string(), "db".to_string())
        ]
    );
    app.finish_batch(BatchKind::StopContainers, &vec![None, Some("timeout".to_string())]);
    assert_eq!(app.status_message.as_deref(), Some("stopped 1/2: timeout"));
    assert!(app.marked_container_ids.is_empty());
    assert!(app.needs_refresh);
}

#[test]
fn stop_without_selection_says_so() {
    let mut app = App::new(Config::default());
    app.set_tab(Tab::Docker);
    assert!(app.stop_selected_container().is_none());
    assert_eq!(app.status_message.as_deref(), Some("no container selected"));
}

#[test]
fn kill_needs_confirmation() {
    let mut app = ready_app();
    app.set_tab(Tab::Processes);
    app.move_selection(1);
    assert!(matches!(handle_key(&mut app, key('x')), Effect::Nothing));
    assert_eq!(
        app.input_mode,
        InputMode::ConfirmProcessRemove { targets: vec![(8, "node".to_string())] }
    );
    assert_eq!(footer_text(&app), "Kill node (pid 8)? [y/N]");
    match handle_key(&mut app, key('y')) {
        Effect::KillProcesses(t) => assert_eq!(t, vec![(8, "node".to_string())]),
        _ => panic!("expected a kill"),
    }
    assert_eq!(app.input_mode, InputMode::Normal);
    app.finish_batch(BatchKind::KillProcesses, &vec![None]);
    assert_eq!(app.status_message.as_deref(), Some("killed 1/1"));
}

#[test]
fn kill_error_reports_last_error() {
    let mut app = ready_app();
    app.finish_batch(
        BatchKind::KillProcesses,
        &vec![Some("first".to_string()), None, Some("last".to_string())],
    );
    assert_eq!(app.status_message.as_deref(), Some("killed pid 1/3: last"));
}

#[test]
fn declined_confirmation_does_nothing() {
    let mut app = ready_app();
    app.set_tab(Tab::Docker);
    handle_key(&mut app, key('d'));
    assert_eq!(footer_text(&app), "Remove api? [y/N]");
    assert!(matches!(handle_key(&mut app, code(KeyCode::Esc)), Effect::Nothing));
    assert_eq!(app.input_mode, InputMode::Normal);
    assert!(!app.should_quit);
}

#[test]
fn in_use_volumes_are_refused() {
    let mut app = ready_app();
    app.set_tab(Tab::Volumes);
    app.mark_all();
    app.request_remove_selected_volumes();
    assert_eq!(app.input_mode, InputMode::Normal);
    assert_eq!(app.status_message.as_deref(), Some("refusing to delete in-use volumes: data"));
    app.unmark_all();
    app.request_remove_selected_volumes();
    assert_eq!(app.input_mode, InputMode::ConfirmVolumeRemove { targets: vec!["cache".to_string()] });
    assert_eq!(app.confirm_volume_remove(), Some(vec!["cache".to_string()]));
    app.finish_batch(BatchKind::RemoveVolumes, &vec![None]);
    assert_eq!(app.status_message.as_deref(), Some("removed volumes 1/1"));
}

#[test]
fn volume_jumps_to_its_container() {
    let mut app = ready_app();
    app.set_tab(Tab::Volumes);
    app.jump_from_selected_volume();
    assert_eq!(app.status_message.as_deref(), Some("volume cache is not used by any container"));
    app.move_selection(1);
    app.jump_from_selected_volume();
    assert_eq!(app.tab, Tab::Docker);
    assert_eq!(app.selected_row, 1);
    assert_eq!(app.status_message.as_deref(), Some("jumped to container db"));
}

#[test]
fn keys_switch_tabs_and_quit() {
    let mut app = ready_app();
    handle_key(&mut app, code(KeyCode::Tab));
    assert_eq!(app.tab, Tab::Processes);
    handle_key(&mut app, key('4'));
    assert_eq!(app.tab, Tab::Volumes);
    handle_key(&mut app, code(KeyCode::Tab));
    assert_eq!(app.tab, Tab::Ports);
    handle_key(&mut app, code(KeyCode::End));
    assert_eq!(app.selected_row, 0);
    handle_key(&mut app, key('q'));
    assert!(app.should_quit);
}

#[test]
fn search_keys() {
    let mut app = ready_app();
    app.set_tab(Tab::Processes);
    handle_key(&mut app, key('/'));
    assert_eq!(app.input_mode, InputMode::Search);
    handle_key(&mut app, key('n'));
    handle_key(&mut app, key('o'));
    handle_key(&mut app, KeyEvent { code: KeyCode::Char('x'), control: true });
    assert_eq!(footer_text(&app), "search: no_");
    handle_key(&mut app, code(KeyCode::Enter));
    assert_eq!(app.input_mode, InputMode::Normal);
    assert_eq!(app.selected_row, 1);
    assert!(footer_text(&app).starts_with("/no  [1/1] | "));
}

#[test]
fn header_shows_memory_cpu_and_temperature() {
    let mut app = App::new(Config::default());
    assert_eq!(header_text(&app), "Light Stripe | Loading...");
    app.apply_snapshot(snapshot(), None);
    assert_eq!(header_text(&app), "Light Stripe | RAM 3.5/16.0 GB | CPU 12.5% 47°C");
    app.last_error = Some("boom".to_string());
    assert_eq!(header_text(&app), "Light Stripe | ERROR: boom");
    assert_eq!(tab_label(Tab::Docker, true), "▶ 3:Docker");
    assert_eq!(tab_label(Tab::Ports, false), "  1:Ports");
}

#[test]
fn worker_stops_on_any_quit() {
    assert_eq!(worker_step(ToWorker::Quit, &vec![]), WorkerStep::Stop);
    assert_eq!(worker_step(ToWorker::Refresh, &vec![ToWorker::Refresh, ToWorker::Quit]), WorkerStep::Stop);
    assert_eq!(worker_step(ToWorker::Refresh, &vec![ToWorker::Refresh]), WorkerStep::Collect);
}

#[test]
fn replies_update_the_dashboard() {
    let mut app = App::new(Config::default());
    app.apply_reply(FromWorker::Failed("docker down".to_string()));
    assert_eq!(app.last_error.as_deref(), Some("docker down"));
    app.apply_reply(FromWorker::Ready { snapshot: snapshot(), volume_warning: None });
    assert!(app.last_error.is_none());
    assert!(app.snapshot.is_some());
    assert!(app.take_refresh_request(false, false));
    assert!(!app.needs_refresh);
    assert!(!app.take_refresh_request(false, false));
    assert!(!app.take_refresh_request(true, true));
    assert!(app.take_refresh_request(true, false));
}
