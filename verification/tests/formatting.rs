use light_stripe::models::Protocol;
use light_stripe::table::{
    format_container_names, format_cpu, format_host_ports, format_in_use, format_memory_mb,
    format_optional_cpu, format_optional_memory, format_pid, format_protocol, marked_name,
    table_title, truncate_text, viewport_rows,
};
use light_stripe::text::{ascii_lowercase, decimal, trim_str};

#[test]
fn memory_in_mebibytes_with_one_decimal() {
    assert_eq!(format_memory_mb(0), "0.0 MB");
    assert_eq!(format_memory_mb(1048576), "1.0 MB");
    assert_eq!(format_memory_mb(1572864), "1.5 MB");
    assert_eq!(format_optional_memory(None), "-");
    assert_eq!(format_optional_memory(Some(10 * 1048576)), "10.0 MB");
}

#[test]
fn memory_rounding_agrees_with_float_formatting() {
    let unit = 1048576u64;
    let mut samples: Vec<u64> = vec![
        unit / 4,
        unit * 3 / 4,
        unit / 20,
        unit * 3 / 20,
        unit + unit / 20,
        unit * 5 + unit / 4,
        123_456_789,
        u32::MAX as u64,
    ];
    for k in 0..2000u64 {
        samples.push(k * 524_288 / 10 + k);
        samples.push(k * 52_429);
    }
    for b in samples {
        let expected = format!("{:.1} MB", b as f64 / unit as f64);
        assert_eq!(format_memory_mb(b), expected, "bytes = {b}");
    }
}

#[test]
fn cpu_cells() {
    assert_eq!(format_cpu(123), "12.3 %");
    assert_eq!(format_cpu(0), "0.0 %");
    assert_eq!(format_optional_cpu(Some(205)), "20.5%");
    assert_eq!(format_optional_cpu(None), "-");
}

#[test]
fn pid_port_and_protocol_cells() {
    assert_eq!(format_pid(Some(4242)), "4242");
    assert_eq!(format_pid(None), "-");
    assert_eq!(format_host_ports(&vec![]), "-");
    assert_eq!(format_host_ports(&vec![80, 443]), "80, 443");
    assert_eq!(format_protocol(Protocol::Tcp), "tcp");
    assert_eq!(format_protocol(Protocol::Udp), "udp");
}

#[test]
fn volume_cells() {
    assert_eq!(format_in_use(true), "yes");
    assert_eq!(format_in_use(false), "no");
    assert_eq!(format_container_names(&vec![]), "-");
    assert_eq!(
        format_container_names(&vec!["api".to_string(), "db".to_string()]),
        "api, db"
    );
    assert_eq!(marked_name(true, "api"), "● api");
    assert_eq!(marked_name(false, "api"), "○ api");
}

#[test]
fn truncation_keeps_short_text() {
    assert_eq!(truncate_text("node server.js", 60), "node server.js");
    assert_eq!(truncate_text("abcdefghij", 6), "abc...");
    assert!(truncate_text(&"x".repeat(100), 60).chars().count() <= 60);
}

#[test]
fn table_layout_numbers() {
    assert_eq!(viewport_rows(24), 20);
    assert_eq!(viewport_rows(3), 0);
    assert_eq!(table_title("Ports", 0, 5), "Ports [1/5]");
}

#[test]
fn text_primitives() {
    assert_eq!(decimal(0), "0");
    assert_eq!(decimal(65535), "65535");
    assert_eq!(decimal(u64::MAX), u64::MAX.to_string());
    assert_eq!(trim_str("  host \t\n"), "host");
    assert_eq!(trim_str("\u{3000}x\u{a0}"), "x");
    assert_eq!(ascii_lowercase("Node /App/Server.JS"), "node /app/server.js");
}
