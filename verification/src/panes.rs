//! What the main area of the dashboard shows for the active tab: a message in
//! place of the table, or the table's name, column headers and rows as text.
use vstd::prelude::*;

use crate::app::{App, Tab};
use crate::models::{DevProcess, DockerContainer, DockerVolume, PortBinding};
use crate::table::{
    container_names_text, cpu_text, format_container_names, format_cpu, format_host_ports,
    format_in_use, format_memory_mb, format_optional_cpu, format_optional_memory, format_pid,
    format_port_owner, format_protocol, host_ports_text, in_use_text, mark_symbol, marked_name,
    memory_text, optional_cpu_text, optional_memory_text, pid_text, port_owner, protocol_text,
    truncate_text, truncated,
};
use crate::text::{dec, decimal, owned, push_str, views};

verus! {

/// Longest command line shown in the processes table.
pub const MAX_CMDLINE_LEN: usize = 60;

/// The name of a tab's table, which titles its frame.
pub open spec fn pane_name(tab: Tab) -> Seq<char> {
    match tab {
        Tab::Ports => "Ports"@,
        Tab::Processes => "DEV Processes"@,
        Tab::Docker => "Docker"@,
        Tab::Volumes => "Volumes"@,
    }
}

/// The name of a tab's table.
pub fn table_name(tab: Tab) -> (r: String)
    ensures
        r@ == pane_name(tab),
{
    match tab {
        Tab::Ports => owned("Ports"),
        Tab::Processes => owned("DEV Processes"),
        Tab::Docker => owned("Docker"),
        Tab::Volumes => owned("Volumes"),
    }
}

/// The column headers of a tab's table.
pub open spec fn headers_of(tab: Tab) -> Seq<Seq<char>> {
    match tab {
        Tab::Ports => seq!["PORT"@, "PROTO"@, "ADDRESS"@, "PID"@, "OWNER"@],
        Tab::Processes => seq!["PID"@, "CPU"@, "MEM"@, "NAME"@, "CMD"@],
        Tab::Docker => seq!["NAME"@, "IMAGE"@, "PORTS"@, "CPU"@, "MEM"@, "STATUS"@],
        Tab::Volumes => seq!["NAME"@, "DRIVER"@, "SIZE"@, "IN USE"@, "CONTAINERS"@],
    }
}

/// Appends one cell to a row.
fn push_cell(row: &mut Vec<String>, cell: String)
    ensures
        final(row)@ == old(row)@.push(cell),
        views(final(row)@) == views(old(row)@).push(cell@),
{
    row.push(cell);
    assert(views(row@) =~= views(old(row)@).push(cell@));
}

/// The column headers of a tab's table.
pub fn column_headers(tab: Tab) -> (r: Vec<String>)
    ensures
        views(r@) == headers_of(tab),
{
    let mut r: Vec<String> = Vec::new();
    assert(views(r@) =~= Seq::<Seq<char>>::empty());
    match tab {
        Tab::Ports => {
            push_cell(&mut r, owned("PORT"));
            push_cell(&mut r, owned("PROTO"));
            push_cell(&mut r, owned("ADDRESS"));
            push_cell(&mut r, owned("PID"));
            push_cell(&mut r, owned("OWNER"));
        },
        Tab::Processes => {
            push_cell(&mut r, owned("PID"));
            push_cell(&mut r, owned("CPU"));
            push_cell(&mut r, owned("MEM"));
            push_cell(&mut r, owned("NAME"));
            push_cell(&mut r, owned("CMD"));
        },
        Tab::Docker => {
            push_cell(&mut r, owned("NAME"));
            push_cell(&mut r, owned("IMAGE"));
            push_cell(&mut r, owned("PORTS"));
            push_cell(&mut r, owned("CPU"));
            push_cell(&mut r, owned("MEM"));
            push_cell(&mut r, owned("STATUS"));
        },
        Tab::Volumes => {
            push_cell(&mut r, owned("NAME"));
            push_cell(&mut r, owned("DRIVER"));
            push_cell(&mut r, owned("SIZE"));
            push_cell(&mut r, owned("IN USE"));
            push_cell(&mut r, owned("CONTAINERS"));
        },
    }
    assert(views(r@) =~= headers_of(tab));
    r
}

/// What the main area shows in place of the active table: a note while the
/// first refresh runs, Docker's error on the Docker and Volumes tabs, or a
/// note that the list is empty. `None` when the table is shown.
pub open spec fn pane_message(app: App) -> Option<Seq<char>> {
    match app.snapshot {
        None => Some(
            match app.tab {
                Tab::Ports => "Loading ports..."@,
                Tab::Processes => "Loading processes..."@,
                Tab::Docker => "Loading containers..."@,
                Tab::Volumes => "Loading volumes..."@,
            },
        ),
        Some(s) => match app.tab {
            Tab::Ports => if s.ports@.len() == 0 {
                Some("No listening ports found."@)
            } else {
                None
            },
            Tab::Processes => if s.processes@.len() == 0 {
                Some("No dev processes found."@)
            } else {
                None
            },
            Tab::Docker => match s.docker_error {
                Some(e) => Some("Docker unavailable: "@ + e@),
                None => if s.containers@.len() == 0 {
                    Some("No containers found."@)
                } else {
                    None
                },
            },
            Tab::Volumes => match s.docker_error {
                Some(e) => Some("Docker unavailable: "@ + e@),
                None => if s.volumes@.len() == 0 {
                    Some("No volumes found."@)
                } else {
                    None
                },
            },
        },
    }
}

/// `"Docker unavailable: <error>"`.
fn unavailable(error: &String) -> (r: String)
    ensures
        r@ == "Docker unavailable: "@ + error@,
{
    let mut out = owned("Docker unavailable: ");
    push_str(&mut out, error.as_str());
    out
}

/// The message shown in place of the active table, if any.
pub fn main_message(app: &App) -> (r: Option<String>)
    ensures
        match r {
            Some(t) => pane_message(*app) == Some(t@),
            None => pane_message(*app) is None,
        },
{
    match &app.snapshot {
        None => match app.tab {
            Tab::Ports => Some(owned("Loading ports...")),
            Tab::Processes => Some(owned("Loading processes...")),
            Tab::Docker => Some(owned("Loading containers...")),
            Tab::Volumes => Some(owned("Loading volumes...")),
        },
        Some(s) => match app.tab {
            Tab::Ports => if s.ports.len() == 0 {
                Some(owned("No listening ports found."))
            } else {
                None
            },
            Tab::Processes => if s.processes.len() == 0 {
                Some(owned("No dev processes found."))
            } else {
                None
            },
            Tab::Docker => match &s.docker_error {
                Some(e) => Some(unavailable(e)),
                None => if s.containers.len() == 0 {
                    Some(owned("No containers found."))
                } else {
                    None
                },
            },
            Tab::Volumes => match &s.docker_error {
                Some(e) => Some(unavailable(e)),
                None => if s.volumes.len() == 0 {
                    Some(owned("No volumes found."))
                } else {
                    None
                },
            },
        },
    }
}

/// The cells of a Ports row.
pub open spec fn port_row(b: PortBinding) -> Seq<Seq<char>> {
    seq![dec(b.port as nat), protocol_text(b.protocol), b.address@, pid_text(b.pid), port_owner(b)]
}

/// The cells of a DEV Processes row.
pub open spec fn process_row(p: DevProcess, marked: bool) -> Seq<Seq<char>> {
    seq![
        dec(p.pid as nat),
        cpu_text(p.cpu_usage_tenths),
        memory_text(p.memory_bytes),
        mark_symbol(marked) + " "@ + p.name@,
        truncated(p.cmdline@, MAX_CMDLINE_LEN as nat),
    ]
}

/// The cells of a Docker row.
pub open spec fn container_row(c: DockerContainer, marked: bool) -> Seq<Seq<char>> {
    seq![
        mark_symbol(marked) + " "@ + c.name@,
        c.image@,
        host_ports_text(c.host_ports@),
        optional_cpu_text(c.cpu_percent_tenths),
        optional_memory_text(c.memory_bytes),
        c.status@,
    ]
}

/// The cells of a Volumes row.
pub open spec fn volume_row(v: DockerVolume, marked: bool) -> Seq<Seq<char>> {
    seq![
        mark_symbol(marked) + " "@ + v.name@,
        v.driver@,
        optional_memory_text(v.size_bytes),
        in_use_text(v.in_use),
        container_names_text(v.container_names@),
    ]
}

/// The cells of a Ports row.
pub fn port_cells(b: &PortBinding) -> (r: Vec<String>)
    ensures
        views(r@) == port_row(*b),
{
    let mut r: Vec<String> = Vec::new();
    assert(views(r@) =~= Seq::<Seq<char>>::empty());
    push_cell(&mut r, decimal(b.port as u64));
    push_cell(&mut r, format_protocol(b.protocol));
    push_cell(&mut r, b.address.clone());
    push_cell(&mut r, format_pid(b.pid));
    push_cell(&mut r, format_port_owner(b));
    assert(views(r@) =~= port_row(*b));
    r
}

/// The cells of a DEV Processes row.
pub fn process_cells(p: &DevProcess, marked: bool) -> (r: Vec<String>)
    ensures
        views(r@) == process_row(*p, marked),
{
    let mut r: Vec<String> = Vec::new();
    assert(views(r@) =~= Seq::<Seq<char>>::empty());
    push_cell(&mut r, decimal(p.pid as u64));
    push_cell(&mut r, format_cpu(p.cpu_usage_tenths));
    push_cell(&mut r, format_memory_mb(p.memory_bytes));
    push_cell(&mut r, marked_name(marked, p.name.as_str()));
    push_cell(&mut r, truncate_text(p.cmdline.as_str(), MAX_CMDLINE_LEN));
    assert(views(r@) =~= process_row(*p, marked));
    r
}

/// The cells of a Docker row.
pub fn container_cells(c: &DockerContainer, marked: bool) -> (r: Vec<String>)
    ensures
        views(r@) == container_row(*c, marked),
{
    let mut r: Vec<String> = Vec::new();
    assert(views(r@) =~= Seq::<Seq<char>>::empty());
    push_cell(&mut r, marked_name(marked, c.name.as_str()));
    push_cell(&mut r, c.image.clone());
    push_cell(&mut r, format_host_ports(&c.host_ports));
    push_cell(&mut r, format_optional_cpu(c.cpu_percent_tenths));
    push_cell(&mut r, format_optional_memory(c.memory_bytes));
    push_cell(&mut r, c.status.clone());
    assert(views(r@) =~= container_row(*c, marked));
    r
}

/// The cells of a Volumes row.
pub fn volume_cells(v: &DockerVolume, marked: bool) -> (r: Vec<String>)
    ensures
        views(r@) == volume_row(*v, marked),
{
    let mut r: Vec<String> = Vec::new();
    assert(views(r@) =~= Seq::<Seq<char>>::empty());
    push_cell(&mut r, marked_name(marked, v.name.as_str()));
    push_cell(&mut r, v.driver.clone());
    push_cell(&mut r, format_optional_memory(v.size_bytes));
    push_cell(&mut r, format_in_use(v.in_use));
    push_cell(&mut r, format_container_names(&v.container_names));
    assert(views(r@) =~= volume_row(*v, marked));
    r
}

/// Row `i` of the active table, each row's mark read from the marks of its
/// tab.
pub open spec fn active_row(app: App, i: int) -> Seq<Seq<char>> {
    match app.snapshot {
        None => Seq::empty(),
        Some(s) => match app.tab {
            Tab::Ports => port_row(s.ports@[i]),
            Tab::Processes => process_row(
                s.processes@[i],
                app.marked_pids@.contains(s.processes@[i].pid),
            ),
            Tab::Docker => container_row(
                s.containers@[i],
                app.marked_container_ids@.contains(s.containers@[i].id@),
            ),
            Tab::Volumes => volume_row(
                s.volumes@[i],
                app.marked_volume_names@.contains(s.volumes@[i].name@),
            ),
        },
    }
}

/// The rows of the active table as text, one row per item of its list.
pub fn table_rows(app: &App) -> (r: Vec<Vec<String>>)
    ensures
        r@.len() == app.active_len(),
        forall|i: int| 0 <= i < r@.len() ==> views(#[trigger] r@[i]@) == active_row(*app, i),
{
    let mut rows: Vec<Vec<String>> = Vec::new();
    match &app.snapshot {
        None => {},
        Some(s) => match app.tab {
            Tab::Ports => {
                let mut i: usize = 0;
                while i < s.ports.len()
                    invariant
                        app.snapshot == Some(*s),
                        app.tab == Tab::Ports,
                        i <= s.ports@.len(),
                        rows@.len() == i,
                        forall|k: int| 0 <= k < i ==> views(#[trigger] rows@[k]@) == active_row(*app, k),
                    decreases s.ports@.len() - i,
                {
                    rows.push(port_cells(&s.ports[i]));
                    i = i + 1;
                }
            },
            Tab::Processes => {
                let mut i: usize = 0;
                while i < s.processes.len()
                    invariant
                        app.snapshot == Some(*s),
                        app.tab == Tab::Processes,
                        i <= s.processes@.len(),
                        rows@.len() == i,
                        forall|k: int| 0 <= k < i ==> views(#[trigger] rows@[k]@) == active_row(*app, k),
                    decreases s.processes@.len() - i,
                {
                    let p = &s.processes[i];
                    let marked = app.marked_pids.contains(p.pid);
                    rows.push(process_cells(p, marked));
                    i = i + 1;
                }
            },
            Tab::Docker => {
                let mut i: usize = 0;
                while i < s.containers.len()
                    invariant
                        app.snapshot == Some(*s),
                        app.tab == Tab::Docker,
                        i <= s.containers@.len(),
                        rows@.len() == i,
                        forall|k: int| 0 <= k < i ==> views(#[trigger] rows@[k]@) == active_row(*app, k),
                    decreases s.containers@.len() - i,
                {
                    let c = &s.containers[i];
                    let marked = app.marked_container_ids.contains(c.id.as_str());
                    rows.push(container_cells(c, marked));
                    i = i + 1;
                }
            },
            Tab::Volumes => {
                let mut i: usize = 0;
                while i < s.volumes.len()
                    invariant
                        app.snapshot == Some(*s),
                        app.tab == Tab::Volumes,
                        i <= s.volumes@.len(),
                        rows@.len() == i,
                        forall|k: int| 0 <= k < i ==> views(#[trigger] rows@[k]@) == active_row(*app, k),
                    decreases s.volumes@.len() - i,
                {
                    let v = &s.volumes[i];
                    let marked = app.marked_volume_names.contains(v.name.as_str());
                    rows.push(volume_cells(v, marked));
                    i = i + 1;
                }
            },
        },
    }
    rows
}

} // verus!
