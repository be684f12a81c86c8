use light_stripe::collectors::processes::{dev_markers, is_dev_process, select_processes, ProcessEntry};
use light_stripe::collectors::system::pick_temperature;

fn entry(pid: u32, name: &str, cmdline: &str) -> ProcessEntry {
    ProcessEntry {
        pid,
        name: name.to_string(),
        cmdline: cmdline.to_string(),
        memory_bytes: 1024,
        cpu_usage_tenths: 3,
    }
}

#[test]
fn builtin_markers_come_first_then_configured_ones() {
    let markers = dev_markers(&vec!["my-legacy-app".to_string()]);
    assert_eq!(markers.len(), 17);
    assert_eq!(markers[0], "node");
    assert_eq!(markers[15], "docker");
    assert_eq!(markers[16], "my-legacy-app");
}

#[test]
fn markers_match_name_or_command_line_ignoring_case() {
    let markers = dev_markers(&vec![]);
    assert!(is_dev_process("Node", "", &markers));
    assert!(is_dev_process("bash", "/usr/bin/python3 -m http.server", &markers));
    assert!(!is_dev_process("bash", "-l", &markers));
}

#[test]
fn dev_only_keeps_developer_processes_sorted_by_pid() {
    let markers = dev_markers(&vec!["legacy".to_string()]);
    let entries = vec![
        entry(300, "node", "node server.js"),
        entry(20, "bash", "-l"),
        entry(100, "app", "./LEGACY --port 80"),
    ];
    let dev = select_processes(&entries, true, &markers);
    let pids: Vec<u32> = dev.iter().map(|p| p.pid).collect();
    assert_eq!(pids, vec![100, 300]);
    assert!(dev.iter().all(|p| p.is_dev));
    assert_eq!(dev[0].cmdline, "./LEGACY --port 80");
    assert_eq!(dev[0].cpu_usage_tenths, 3);
    let all = select_processes(&entries, false, &markers);
    let flags: Vec<(u32, bool)> = all.iter().map(|p| (p.pid, p.is_dev)).collect();
    assert_eq!(flags, vec![(20, false), (100, true), (300, true)]);
}

#[test]
fn temperature_comes_from_the_first_matching_sensor() {
    let readings = vec![
        ("acpitz".to_string(), Some(30)),
        ("CPU Package".to_string(), Some(55)),
        ("cpu core 0".to_string(), Some(60)),
        ("amdgpu edge".to_string(), None),
    ];
    assert_eq!(pick_temperature(&readings, "cpu"), Some(55));
    assert_eq!(pick_temperature(&readings, "gpu"), None);
    assert_eq!(pick_temperature(&readings, "nvme"), None);
    assert_eq!(pick_temperature(&vec![], "cpu"), None);
}
