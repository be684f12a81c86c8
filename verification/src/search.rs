//! Incremental search over the rows of the active tab.
//!
//! A row matches when the (lowercased) query occurs in one of its columns:
//! numbers in decimal, names ASCII-lowercased.
use vstd::prelude::*;

use crate::app::{list_len, App, Snapshot, Tab};
use crate::models::{DevProcess, DockerContainer, DockerVolume, PortBinding};
use crate::table::{format_port_owner, port_owner};
use crate::text::{
    chars_of, contains, dec, decimals, join, join_decimals, lower,
    lower_contains, str_contains, to_lowercase, trim, trim_str, unicode_lowercase,
};

verus! {

/// A port binding matches on its port, address, owner or pid.
pub open spec fn port_matches_spec(b: PortBinding, q: Seq<char>) -> bool {
    ||| contains(dec(b.port as nat), q)
    ||| contains(lower(b.address@), q)
    ||| contains(port_owner(b), q)
    ||| (b.pid matches Some(pid) && contains(dec(pid as nat), q))
}

/// A process matches on its pid, name or command line.
pub open spec fn process_matches_spec(p: DevProcess, q: Seq<char>) -> bool {
    ||| contains(dec(p.pid as nat), q)
    ||| contains(lower(p.name@), q)
    ||| contains(lower(p.cmdline@), q)
}

/// The host ports of a container, as the search sees them.
pub open spec fn ports_text(c: DockerContainer) -> Seq<char> {
    join(decimals(c.host_ports@), ", "@)
}

/// A container matches on its name, image, status or host ports.
pub open spec fn container_matches_spec(c: DockerContainer, q: Seq<char>) -> bool {
    ||| contains(lower(c.name@), q)
    ||| contains(lower(c.image@), q)
    ||| contains(lower(c.status@), q)
    ||| contains(ports_text(c), q)
}

/// A volume matches on its name, driver or the name of a container using it.
pub open spec fn volume_matches_spec(v: DockerVolume, q: Seq<char>) -> bool {
    ||| contains(lower(v.name@), q)
    ||| contains(lower(v.driver@), q)
    ||| exists|i: int| 0 <= i < v.container_names@.len() && contains(lower(v.container_names@[i]@), q)
}

/// Row `i` of the list that `tab` shows matches `q`.
pub open spec fn row_matches(s: Snapshot, tab: Tab, i: int, q: Seq<char>) -> bool {
    match tab {
        Tab::Ports => port_matches_spec(s.ports@[i], q),
        Tab::Processes => process_matches_spec(s.processes@[i], q),
        Tab::Docker => container_matches_spec(s.containers@[i], q),
        Tab::Volumes => volume_matches_spec(s.volumes@[i], q),
    }
}

/// The indices below `n` of the matching rows, in increasing order.
pub open spec fn match_rows(s: Snapshot, tab: Tab, q: Seq<char>, n: nat) -> Seq<usize>
    decreases n,
{
    if n == 0 {
        Seq::empty()
    } else {
        let prev = match_rows(s, tab, q, (n - 1) as nat);
        if row_matches(s, tab, n - 1, q) {
            prev.push((n - 1) as usize)
        } else {
            prev
        }
    }
}

/// What the search looks for, given what was typed.
pub open spec fn search_key(typed: Seq<char>) -> Seq<char> {
    unicode_lowercase(trim(typed))
}

/// The rows that `find_matches` reports for an app state.
pub open spec fn app_matches(app: App) -> Seq<usize> {
    match app.snapshot {
        None => Seq::empty(),
        Some(s) => if trim(app.search_query@).len() == 0 {
            Seq::empty()
        } else {
            match_rows(s, app.tab, search_key(app.search_query@), list_len(Some(s), app.tab))
        },
    }
}

/// The matching rows are strictly increasing, within the list, each one
/// matching, and every matching row of the list is among them.
pub proof fn law_match_rows(s: Snapshot, tab: Tab, q: Seq<char>, n: nat)
    requires
        n <= usize::MAX,
    ensures
        forall|k: int| 0 <= k < match_rows(s, tab, q, n).len() ==> {
            &&& #[trigger] match_rows(s, tab, q, n)[k] < n
            &&& row_matches(s, tab, match_rows(s, tab, q, n)[k] as int, q)
        },
        forall|j: int, k: int| 0 <= j < k < match_rows(s, tab, q, n).len()
            ==> #[trigger] match_rows(s, tab, q, n)[j] < #[trigger] match_rows(s, tab, q, n)[k],
        forall|i: int| 0 <= i < n && #[trigger] row_matches(s, tab, i, q)
            ==> match_rows(s, tab, q, n).contains(i as usize),
        match_rows(s, tab, q, n).len() <= n,
    decreases n,
{
    if n > 0 {
        law_match_rows(s, tab, q, (n - 1) as nat);
        let prev = match_rows(s, tab, q, (n - 1) as nat);
        if row_matches(s, tab, n - 1, q) {
            let cur = match_rows(s, tab, q, n);
            assert(cur == prev.push((n - 1) as usize));
            assert forall|k: int| 0 <= k < cur.len() implies #[trigger] cur[k] < n && row_matches(
                s,
                tab,
                cur[k] as int,
                q,
            ) by {
                if k < prev.len() {
                    assert(cur[k] == prev[k]);
                }
            }
            assert forall|j: int, k: int| 0 <= j < k < cur.len() implies #[trigger] cur[j]
                < #[trigger] cur[k] by {
                assert(cur[j] == prev[j]);
                if k < prev.len() {
                    assert(cur[k] == prev[k]);
                }
            }
            assert forall|i: int| 0 <= i < n && #[trigger] row_matches(s, tab, i, q)
                implies match_rows(s, tab, q, n).contains(i as usize) by {
                if i < n - 1 {
                    let k = choose|k: int| 0 <= k < prev.len() && prev[k] == i as usize;
                    assert(match_rows(s, tab, q, n)[k] == i as usize);
                } else {
                    assert(match_rows(s, tab, q, n)[prev.len() as int] == i as usize);
                }
            }
        } else {
            assert forall|i: int| 0 <= i < n && #[trigger] row_matches(s, tab, i, q)
                implies match_rows(s, tab, q, n).contains(i as usize) by {
                assert(i < n - 1);
            }
        }
    }
}

/// Whether a port binding matches `query`.
pub fn port_matches(binding: &PortBinding, query: &str) -> (r: bool)
    ensures
        r == port_matches_spec(*binding, query@),
{
    let q = chars_of(query);
    let port_text = crate::text::decimal(binding.port as u64);
    if str_contains(port_text.as_str(), &q) {
        return true;
    }
    if lower_contains(binding.address.as_str(), &q) {
        return true;
    }
    let owner = format_port_owner(binding);
    if str_contains(owner.as_str(), &q) {
        return true;
    }
    match binding.pid {
        Some(pid) => {
            let pid_text = crate::text::decimal(pid as u64);
            str_contains(pid_text.as_str(), &q)
        },
        None => false,
    }
}

/// Whether a process matches `query`.
pub fn process_matches(process: &DevProcess, query: &str) -> (r: bool)
    ensures
        r == process_matches_spec(*process, query@),
{
    let q = chars_of(query);
    let pid_text = crate::text::decimal(process.pid as u64);
    str_contains(pid_text.as_str(), &q) || lower_contains(process.name.as_str(), &q)
        || lower_contains(process.cmdline.as_str(), &q)
}

/// The host ports of a container joined with `", "`; empty when it has none.
pub fn format_ports(container: &DockerContainer) -> (r: String)
    ensures
        r@ == ports_text(*container),
{
    if container.host_ports.len() == 0 {
        return String::new();
    }
    join_decimals(&container.host_ports)
}

/// Whether a container matches `query`.
pub fn container_matches(container: &DockerContainer, query: &str) -> (r: bool)
    ensures
        r == container_matches_spec(*container, query@),
{
    let q = chars_of(query);
    if lower_contains(container.name.as_str(), &q) || lower_contains(container.image.as_str(), &q)
        || lower_contains(container.status.as_str(), &q) {
        return true;
    }
    let ports = format_ports(container);
    str_contains(ports.as_str(), &q)
}

/// Whether a volume matches `query`.
pub fn volume_matches(volume: &DockerVolume, query: &str) -> (r: bool)
    ensures
        r == volume_matches_spec(*volume, query@),
{
    let q = chars_of(query);
    if lower_contains(volume.name.as_str(), &q) || lower_contains(volume.driver.as_str(), &q) {
        return true;
    }
    let mut i: usize = 0;
    while i < volume.container_names.len()
        invariant
            i <= volume.container_names.len(),
            q@ == query@,
            forall|k: int| 0 <= k < i ==> !contains(lower(volume.container_names@[k]@), q@),
        decreases volume.container_names.len() - i,
    {
        if lower_contains(volume.container_names[i].as_str(), &q) {
            return true;
        }
        i = i + 1;
    }
    false
}

fn row_matches_exec(snapshot: &Snapshot, tab: Tab, i: usize, query: &str) -> (r: bool)
    requires
        i < list_len(Some(*snapshot), tab),
    ensures
        r == row_matches(*snapshot, tab, i as int, query@),
{
    match tab {
        Tab::Ports => port_matches(&snapshot.ports[i], query),
        Tab::Processes => process_matches(&snapshot.processes[i], query),
        Tab::Docker => container_matches(&snapshot.containers[i], query),
        Tab::Volumes => volume_matches(&snapshot.volumes[i], query),
    }
}

/// The rows of the list that `tab` shows which match `query` as given.
pub fn matching_rows(snapshot: &Snapshot, tab: Tab, query: &str) -> (r: Vec<usize>)
    ensures
        r@ == match_rows(*snapshot, tab, query@, list_len(Some(*snapshot), tab)),
{
    let n: usize = match tab {
        Tab::Ports => snapshot.ports.len(),
        Tab::Processes => snapshot.processes.len(),
        Tab::Docker => snapshot.containers.len(),
        Tab::Volumes => snapshot.volumes.len(),
    };
    let mut r: Vec<usize> = Vec::new();
    let mut i: usize = 0;
    while i < n
        invariant
            i <= n,
            n == list_len(Some(*snapshot), tab),
            r@ == match_rows(*snapshot, tab, query@, i as nat),
        decreases n - i,
    {
        if row_matches_exec(snapshot, tab, i, query) {
            r.push(i);
        }
        i = i + 1;
    }
    r
}

/// The rows of the active tab that match the typed query, trimmed and
/// lowercased; none when there is no snapshot or the query is blank.
///
/// When the lowercased query is not empty, the rows found are increasing,
/// within the active list, and are exactly the rows of that list that match
/// it: only the active tab is searched.
pub fn find_matches(app: &App) -> (r: Vec<usize>)
    ensures
        r@ == app_matches(*app),
        app.snapshot is Some && search_key(app.search_query@).len() > 0 ==> {
            let s = app.snapshot.unwrap();
            let q = search_key(app.search_query@);
            let n = list_len(app.snapshot, app.tab);
            &&& forall|k: int| 0 <= k < r@.len() ==> #[trigger] r@[k] < n
            &&& forall|j: int, k: int| 0 <= j < k < r@.len() ==> #[trigger] r@[j] < #[trigger] r@[k]
            &&& forall|i: int| 0 <= i < n ==> (r@.contains(i as usize) <==> #[trigger] row_matches(s, app.tab, i, q))
        },
{
    match &app.snapshot {
        None => Vec::new(),
        Some(snapshot) => {
            let trimmed = trim_str(app.search_query.as_str());
            let query = to_lowercase(trimmed);
            if trimmed.is_empty() {
                return Vec::new();
            }
            let r = matching_rows(snapshot, app.tab, query.as_str());
            let count = app.active_list_len();
            proof {
                let n = list_len(app.snapshot, app.tab);
                assert(n == count);
                law_match_rows(*snapshot, app.tab, query@, n);
                assert forall|i: int| 0 <= i < n && r@.contains(i as usize) implies row_matches(
                    *snapshot,
                    app.tab,
                    i,
                    query@,
                ) by {
                    let k = choose|k: int| 0 <= k < r@.len() && r@[k] == i as usize;
                    assert(r@[k] < n);
                    assert(r@[k] as int == i);
                }
            }
            r
        },
    }
}

} // verus!
