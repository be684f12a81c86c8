//! Which processes count as developer processes, and how the process list is
//! put together.
use vstd::prelude::*;

use crate::models::DevProcess;
use crate::order::{sort_listing, sorted};
use crate::text::{contains, lower, lower_chars, lower_contains, owned, views};

verus! {

/// The process's name or command line holds one of the markers, ignoring
/// ASCII case.
pub open spec fn has_marker(name: Seq<char>, cmdline: Seq<char>, markers: Seq<String>) -> bool {
    exists|k: int|
        0 <= k < markers.len() && (contains(lower(name), lower(markers[k]@)) || contains(
            lower(cmdline),
            lower(markers[k]@),
        ))
}

/// Whether a process is a developer process: its name or command line holds
/// one of `markers`, ignoring ASCII case.
pub fn is_dev_process(name: &str, cmdline: &str, markers: &Vec<String>) -> (r: bool)
    ensures
        r == has_marker(name@, cmdline@, markers@),
{
    let mut k: usize = 0;
    while k < markers.len()
        invariant
            k <= markers.len(),
            forall|j: int|
                0 <= j < k ==> !(contains(lower(name@), lower(markers@[j]@)) || contains(
                    lower(cmdline@),
                    lower(markers@[j]@),
                )),
        decreases markers.len() - k,
    {
        let marker = lower_chars(markers[k].as_str());
        if lower_contains(name, &marker) || lower_contains(cmdline, &marker) {
            return true;
        }
        k = k + 1;
    }
    false
}

/// A process as the operating system reports it. CPU usage is in tenths of
/// a percent.
pub struct ProcessEntry {
    pub pid: u32,
    pub name: String,
    pub cmdline: String,
    pub memory_bytes: u64,
    pub cpu_usage_tenths: u32,
}

/// The markers of developer tools that are always looked for.
pub open spec fn builtin_markers() -> Seq<Seq<char>> {
    seq![
        "node"@, "npm"@, "pnpm"@, "yarn"@, "bun"@, "deno"@, "python"@, "cargo"@, "rustc"@,
        "go"@, "java"@, "ruby"@, "php"@, "vite"@, "webpack"@, "docker"@,
    ]
}

/// Appends one marker.
fn push_marker(markers: &mut Vec<String>, marker: &str)
    ensures
        views(final(markers)@) == views(old(markers)@).push(marker@),
{
    markers.push(owned(marker));
    assert(views(markers@) =~= views(old(markers)@).push(marker@));
}

/// The built-in markers followed by the configured ones.
pub fn dev_markers(extra: &Vec<String>) -> (r: Vec<String>)
    ensures
        views(r@) == builtin_markers() + views(extra@),
{
    let mut r: Vec<String> = Vec::new();
    assert(views(r@) =~= Seq::<Seq<char>>::empty());
    push_marker(&mut r, "node");
    push_marker(&mut r, "npm");
    push_marker(&mut r, "pnpm");
    push_marker(&mut r, "yarn");
    push_marker(&mut r, "bun");
    push_marker(&mut r, "deno");
    push_marker(&mut r, "python");
    push_marker(&mut r, "cargo");
    push_marker(&mut r, "rustc");
    push_marker(&mut r, "go");
    push_marker(&mut r, "java");
    push_marker(&mut r, "ruby");
    push_marker(&mut r, "php");
    push_marker(&mut r, "vite");
    push_marker(&mut r, "webpack");
    push_marker(&mut r, "docker");
    assert(views(r@) =~= builtin_markers());
    let mut i: usize = 0;
    while i < extra.len()
        invariant
            i <= extra@.len(),
            views(r@) == builtin_markers() + views(extra@.take(i as int)),
        decreases extra@.len() - i,
    {
        push_marker(&mut r, extra[i].as_str());
        assert(views(extra@.take(i + 1)) =~= views(extra@.take(i as int)).push(extra@[i as int]@));
        assert(views(r@) =~= builtin_markers() + views(extra@.take(i + 1)));
        i = i + 1;
    }
    assert(extra@.take(extra@.len() as int) =~= extra@);
    r
}

/// The dashboard's record of a process, marked as a developer process when
/// it holds one of `markers`.
pub open spec fn dev_process_of(e: ProcessEntry, markers: Seq<String>) -> DevProcess {
    DevProcess {
        pid: e.pid,
        name: e.name,
        cmdline: e.cmdline,
        memory_bytes: e.memory_bytes,
        cpu_usage_tenths: e.cpu_usage_tenths,
        is_dev: has_marker(e.name@, e.cmdline@, markers),
    }
}

/// Whether a record is listed: every one, or with `dev_only` the developer
/// processes only.
pub open spec fn listed(dev_only: bool) -> spec_fn(DevProcess) -> bool {
    |p: DevProcess| !dev_only || p.is_dev
}

/// The records of `entries` in their order, those not listed left out.
pub open spec fn kept_processes(entries: Seq<ProcessEntry>, dev_only: bool, markers: Seq<String>) -> Seq<DevProcess> {
    entries.map_values(|e: ProcessEntry| dev_process_of(e, markers)).filter(listed(dev_only))
}

/// The process list: each entry marked as a developer process or not, the
/// others left out when `dev_only`, ordered by pid.
pub fn select_processes(entries: &Vec<ProcessEntry>, dev_only: bool, markers: &Vec<String>) -> (r: Vec<DevProcess>)
    ensures
        r@.to_multiset() == kept_processes(entries@, dev_only, markers@).to_multiset(),
        sorted(r@),
{
    let mut kept: Vec<DevProcess> = Vec::new();
    let mut i: usize = 0;
    while i < entries.len()
        invariant
            i <= entries@.len(),
            kept@ == kept_processes(entries@.take(i as int), dev_only, markers@),
        decreases entries@.len() - i,
    {
        let e = &entries[i];
        let is_dev = is_dev_process(e.name.as_str(), e.cmdline.as_str(), markers);
        let p = DevProcess {
            pid: e.pid,
            name: e.name.clone(),
            cmdline: e.cmdline.clone(),
            memory_bytes: e.memory_bytes,
            cpu_usage_tenths: e.cpu_usage_tenths,
            is_dev,
        };
        let ghost f = |e: ProcessEntry| dev_process_of(e, markers@);
        proof {
            let pre = entries@.take(i as int);
            assert(entries@.take(i + 1) =~= pre.push(entries@[i as int]));
            assert(pre.push(entries@[i as int]).map_values(f) =~= pre.map_values(f).push(p));
            pre.map_values(f).lemma_filter_push(p, listed(dev_only));
        }
        if !dev_only || is_dev {
            kept.push(p);
        }
        i = i + 1;
    }
    assert(entries@.take(entries@.len() as int) =~= entries@);
    sort_listing(kept)
}

} // verus!
