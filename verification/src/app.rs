//! Dashboard state and every decision taken on it: tab and row selection,
//! scrolling, search, marks, jumps between tabs, and the confirmation flow of
//! the actions on containers, processes and volumes.
//!
//! The actions themselves (stopping a container, killing a process, ...) are
//! performed by the caller: the methods that start them hand back what to act
//! on, and `finish_batch` takes back how each attempt went.
use vstd::prelude::*;

use crate::config::Config;
use crate::marks::{NameSet, PidSet};
use crate::text::views;
use crate::models::{DevProcess, DockerContainer, DockerVolume, PortBinding, SystemStats};
use crate::search::{app_matches, find_matches};
use crate::text::{dec, is_blank, push_dec, push_str, trim};

verus! {

/// Everything collected in one refresh.
pub struct Snapshot {
    pub ports: Vec<PortBinding>,
    pub processes: Vec<DevProcess>,
    pub containers: Vec<DockerContainer>,
    pub docker_error: Option<String>,
    pub volumes: Vec<DockerVolume>,
    pub stats: SystemStats,
}

/// The highlighted row of the table widget, if any.
#[derive(Debug, Clone, Copy, PartialEq, Eq, Structural)]
pub struct TableState {
    pub selected: Option<usize>,
}

impl TableState {
    /// No highlighted row.
    pub fn new() -> (r: Self)
        ensures
            r.selected is None,
    {
        TableState { selected: None }
    }

    /// Highlights `index`, or nothing.
    pub fn select(&mut self, index: Option<usize>)
        ensures
            final(self).selected == index,
    {
        self.selected = index;
    }
}

/// The dashboard tabs.
#[derive(Clone, Copy, PartialEq, Eq, Debug, Structural)]
pub enum Tab {
    Ports,
    Processes,
    Docker,
    Volumes,
}

/// What keys currently do.
#[derive(Clone, PartialEq, Eq, Debug)]
#[allow(inconsistent_fields)]
pub enum InputMode {
    Normal,
    Search,
    /// Waiting for confirmation to remove these containers (id, name).
    ConfirmDockerRemove { targets: Vec<(String, String)> },
    /// Waiting for confirmation to kill these processes (pid, name).
    ConfirmProcessRemove { targets: Vec<(u32, String)> },
    /// Waiting for confirmation to delete these volumes.
    ConfirmVolumeRemove { targets: Vec<String> },
}

/// Dashboard state.
pub struct App {
    pub config: Config,
    /// `None` before the first refresh.
    pub snapshot: Option<Snapshot>,
    pub tab: Tab,
    pub selected_row: usize,
    /// First visible row, not counting the header.
    pub list_offset: usize,
    pub table_state: TableState,
    pub should_quit: bool,
    pub needs_refresh: bool,
    pub last_error: Option<String>,
    pub input_mode: InputMode,
    pub search_query: String,
    pub search_match_index: usize,
    pub status_message: Option<String>,
    pub marked_container_ids: NameSet,
    pub marked_pids: PidSet,
    pub marked_volume_names: NameSet,
}

/// Length of the list that `tab` shows.
pub open spec fn list_len(snapshot: Option<Snapshot>, tab: Tab) -> nat {
    match snapshot {
        None => 0,
        Some(s) => match tab {
            Tab::Ports => s.ports@.len(),
            Tab::Processes => s.processes@.len(),
            Tab::Docker => s.containers@.len(),
            Tab::Volumes => s.volumes@.len(),
        },
    }
}

/// `x` limited to `lo..=hi`.
pub open spec fn clamp(x: int, lo: int, hi: int) -> int {
    if x < lo {
        lo
    } else if x > hi {
        hi
    } else {
        x
    }
}

impl App {
    /// Length of the list on the active tab.
    pub open spec fn active_len(self) -> nat {
        list_len(self.snapshot, self.tab)
    }

    /// A fresh dashboard, waiting for its first refresh.
    pub fn new(config: Config) -> (r: Self)
        ensures
            r.config == config,
            r.snapshot is None,
            r.tab == Tab::Ports,
            r.selected_row == 0,
            r.list_offset == 0,
            r.table_state.selected is None,
            !r.should_quit,
            r.needs_refresh,
            r.last_error is None,
            r.input_mode == InputMode::Normal,
            r.search_query@.len() == 0,
            r.search_match_index == 0,
            r.status_message is None,
            r.marked_container_ids@ == Set::<Seq<char>>::empty(),
            r.marked_pids@ == Set::<u32>::empty(),
            r.marked_volume_names@ == Set::<Seq<char>>::empty(),
    {
        App {
            config,
            snapshot: None,
            tab: Tab::Ports,
            selected_row: 0,
            list_offset: 0,
            table_state: TableState::new(),
            should_quit: false,
            needs_refresh: true,
            last_error: None,
            input_mode: InputMode::Normal,
            search_query: String::new(),
            search_match_index: 0,
            status_message: None,
            marked_container_ids: NameSet::new(),
            marked_pids: PidSet::new(),
            marked_volume_names: NameSet::new(),
        }
    }

    /// Switches tab: selection, scrolling, search and status start over.
    pub fn set_tab(&mut self, tab: Tab)
        ensures
            set_tab_post(*old(self), *final(self), tab),
    {
        self.tab = tab;
        self.selected_row = 0;
        self.list_offset = 0;
        self.search_query = String::new();
        self.search_match_index = 0;
        self.input_mode = InputMode::Normal;
        self.clear_status();
    }

    /// Length of the list on the active tab.
    pub fn active_list_len(&self) -> (r: usize)
        ensures
            r == self.active_len(),
    {
        match &self.snapshot {
            None => 0,
            Some(snapshot) => match self.tab {
                Tab::Ports => snapshot.ports.len(),
                Tab::Processes => snapshot.processes.len(),
                Tab::Docker => snapshot.containers.len(),
                Tab::Volumes => snapshot.volumes.len(),
            },
        }
    }

    /// Moves the selection by `delta` rows, stopping at the first and last row.
    pub fn move_selection(&mut self, delta: isize)
        ensures
            move_selection_post(*old(self), *final(self), delta),
    {
        let len = self.active_list_len();
        if len == 0 {
            return;
        }
        let max = len - 1;
        let target: i128 = self.selected_row as i128 + delta as i128;
        let next: usize = if target < 0 {
            0
        } else if target > max as i128 {
            max
        } else {
            target as usize
        };
        self.selected_row = next;
        self.table_state.select(Some(next));
    }

    /// Brings the selection back into the list after the list changed.
    pub fn clamp_selection_after_refresh(&mut self)
        ensures
            old(self).active_len() == 0 ==> *final(self) == (App {
                selected_row: 0,
                list_offset: 0,
                table_state: TableState { selected: None },
                ..*old(self)
            }),
            old(self).active_len() > 0 ==> {
                let row = if old(self).selected_row >= old(self).active_len() {
                    (old(self).active_len() - 1) as usize
                } else {
                    old(self).selected_row
                };
                *final(self) == (App {
                    selected_row: row,
                    table_state: TableState { selected: Some(row) },
                    ..*old(self)
                })
            },
    {
        let len = self.active_list_len();
        if len == 0 {
            self.selected_row = 0;
            self.list_offset = 0;
            self.table_state.select(None);
            return;
        }
        if self.selected_row >= len {
            self.selected_row = len - 1;
        }
        self.table_state.select(Some(self.selected_row));
    }

    /// Scrolls so that the selected row is among `viewport_rows` visible rows.
    pub fn ensure_visible(&mut self, viewport_rows: usize)
        requires
            old(self).list_offset + viewport_rows <= usize::MAX,
        ensures
            viewport_rows == 0 ==> *final(self) == *old(self),
            viewport_rows > 0 ==> {
                let offset = if old(self).selected_row < old(self).list_offset {
                    old(self).selected_row
                } else if old(self).selected_row >= old(self).list_offset + viewport_rows {
                    (old(self).selected_row - viewport_rows + 1) as usize
                } else {
                    old(self).list_offset
                };
                *final(self) == (App { list_offset: offset, ..*old(self) })
            },
    {
        if viewport_rows == 0 {
            return;
        }
        if self.selected_row < self.list_offset {
            self.list_offset = self.selected_row;
        } else if self.selected_row >= self.list_offset + viewport_rows {
            self.list_offset = self.selected_row - viewport_rows + 1;
        }
    }

    /// Enters search mode with an empty query.
    pub fn start_search(&mut self)
        ensures
            start_search_post(*old(self), *final(self)),
    {
        self.input_mode = InputMode::Search;
        self.search_query = String::new();
        self.search_match_index = 0;
    }

    /// Leaves search mode and forgets the query.
    pub fn cancel_search(&mut self)
        ensures
            cancel_search_post(*old(self), *final(self)),
    {
        self.input_mode = InputMode::Normal;
        self.search_query = String::new();
        self.search_match_index = 0;
    }

    /// Appends a character to the query.
    pub fn push_search_char(&mut self, ch: char)
        ensures
            push_search_char_post(*old(self), *final(self), ch),
    {
        crate::text::push_char(&mut self.search_query, ch);
    }

    /// Removes the last character of the query, if any.
    pub fn pop_search_char(&mut self)
        ensures
            pop_search_char_post(*old(self), *final(self)),
    {
        let _ = crate::text::pop_char(&mut self.search_query);
    }

    /// Shows `message` in the footer.
    pub fn set_status(&mut self, message: String)
        ensures
            *final(self) == (App { status_message: Some(message), ..*old(self) }),
    {
        self.status_message = Some(message);
    }

    /// Clears the footer message.
    pub fn clear_status(&mut self)
        ensures
            *final(self) == (App { status_message: None, ..*old(self) }),
    {
        self.status_message = None;
    }

    /// Leaves any confirmation prompt (or search) for normal mode.
    pub fn cancel_pending_action(&mut self)
        ensures
            cancel_pending_post(*old(self), *final(self)),
    {
        self.input_mode = InputMode::Normal;
    }

    /// The selected process, on the Processes tab.
    pub fn selected_process(&self) -> (r: Option<&DevProcess>)
        ensures
            r == (if self.tab == Tab::Processes && self.snapshot is Some
                && self.selected_row < self.snapshot.unwrap().processes@.len() {
                Some(&self.snapshot.unwrap().processes@[self.selected_row as int])
            } else {
                None
            }),
    {
        if self.tab != Tab::Processes {
            return None;
        }
        match &self.snapshot {
            None => None,
            Some(s) => if self.selected_row < s.processes.len() {
                Some(&s.processes[self.selected_row])
            } else {
                None
            },
        }
    }

    /// The selected container, on the Docker tab.
    pub fn selected_container(&self) -> (r: Option<&DockerContainer>)
        ensures
            r == (if self.tab == Tab::Docker && self.snapshot is Some
                && self.selected_row < self.snapshot.unwrap().containers@.len() {
                Some(&self.snapshot.unwrap().containers@[self.selected_row as int])
            } else {
                None
            }),
    {
        if self.tab != Tab::Docker {
            return None;
        }
        match &self.snapshot {
            None => None,
            Some(s) => if self.selected_row < s.containers.len() {
                Some(&s.containers[self.selected_row])
            } else {
                None
            },
        }
    }

    /// The selected volume, on the Volumes tab.
    pub fn selected_volume(&self) -> (r: Option<&DockerVolume>)
        ensures
            r == (if self.tab == Tab::Volumes && self.snapshot is Some
                && self.selected_row < self.snapshot.unwrap().volumes@.len() {
                Some(&self.snapshot.unwrap().volumes@[self.selected_row as int])
            } else {
                None
            }),
    {
        if self.tab != Tab::Volumes {
            return None;
        }
        match &self.snapshot {
            None => None,
            Some(s) => if self.selected_row < s.volumes.len() {
                Some(&s.volumes[self.selected_row])
            } else {
                None
            },
        }
    }

    /// The selected port binding, on the Ports tab.
    pub fn selected_port(&self) -> (r: Option<&PortBinding>)
        ensures
            r == (if self.tab == Tab::Ports && self.snapshot is Some
                && self.selected_row < self.snapshot.unwrap().ports@.len() {
                Some(&self.snapshot.unwrap().ports@[self.selected_row as int])
            } else {
                None
            }),
    {
        if self.tab != Tab::Ports {
            return None;
        }
        match &self.snapshot {
            None => None,
            Some(s) => if self.selected_row < s.ports.len() {
                Some(&s.ports[self.selected_row])
            } else {
                None
            },
        }
    }
}


/// The ids of the containers, in order.
pub open spec fn container_ids(cs: Seq<DockerContainer>) -> Seq<String> {
    cs.map_values(|c: DockerContainer| c.id)
}

/// The pids of the processes, in order.
pub open spec fn process_pids(ps: Seq<DevProcess>) -> Seq<u32> {
    ps.map_values(|p: DevProcess| p.pid)
}

/// The names of the volumes, in order.
pub open spec fn volume_names(vs: Seq<DockerVolume>) -> Seq<String> {
    vs.map_values(|v: DockerVolume| v.name)
}

/// `s` with `x` added if it was absent, removed if it was present.
pub open spec fn toggle<A>(s: Set<A>, x: A) -> Set<A> {
    if s.contains(x) {
        s.remove(x)
    } else {
        s.insert(x)
    }
}

/// Toggling the same member twice leaves a set as it was.
pub proof fn law_toggle_twice<A>(s: Set<A>, x: A)
    ensures
        toggle(toggle(s, x), x) == s,
{
    assert(toggle(toggle(s, x), x) =~= s);
}

fn ids_of(cs: &Vec<DockerContainer>) -> (r: Vec<String>)
    ensures
        r@ == container_ids(cs@),
{
    let mut r: Vec<String> = Vec::new();
    let mut i: usize = 0;
    while i < cs.len()
        invariant
            i <= cs.len(),
            r@ == container_ids(cs@.take(i as int)),
        decreases cs.len() - i,
    {
        r.push(cs[i].id.clone());
        assert(container_ids(cs@.take(i + 1)) =~= container_ids(cs@.take(i as int)).push(cs@[i as int].id));
        i = i + 1;
    }
    assert(cs@.take(cs.len() as int) =~= cs@);
    r
}

fn pids_of(ps: &Vec<DevProcess>) -> (r: Vec<u32>)
    ensures
        r@ == process_pids(ps@),
{
    let mut r: Vec<u32> = Vec::new();
    let mut i: usize = 0;
    while i < ps.len()
        invariant
            i <= ps.len(),
            r@ == process_pids(ps@.take(i as int)),
        decreases ps.len() - i,
    {
        r.push(ps[i].pid);
        assert(process_pids(ps@.take(i + 1)) =~= process_pids(ps@.take(i as int)).push(ps@[i as int].pid));
        i = i + 1;
    }
    assert(ps@.take(ps.len() as int) =~= ps@);
    r
}

fn names_of(vs: &Vec<DockerVolume>) -> (r: Vec<String>)
    ensures
        r@ == volume_names(vs@),
{
    let mut r: Vec<String> = Vec::new();
    let mut i: usize = 0;
    while i < vs.len()
        invariant
            i <= vs.len(),
            r@ == volume_names(vs@.take(i as int)),
        decreases vs.len() - i,
    {
        r.push(vs[i].name.clone());
        assert(volume_names(vs@.take(i + 1)) =~= volume_names(vs@.take(i as int)).push(vs@[i as int].name));
        i = i + 1;
    }
    assert(vs@.take(vs.len() as int) =~= vs@);
    r
}

impl App {
    /// The selected process, as `selected_process` returns it.
    pub open spec fn process_at_cursor(self) -> Option<DevProcess> {
        if self.tab == Tab::Processes && self.snapshot is Some && self.selected_row
            < self.snapshot.unwrap().processes@.len() {
            Some(self.snapshot.unwrap().processes@[self.selected_row as int])
        } else {
            None
        }
    }

    /// The selected container, as `selected_container` returns it.
    pub open spec fn container_at_cursor(self) -> Option<DockerContainer> {
        if self.tab == Tab::Docker && self.snapshot is Some && self.selected_row
            < self.snapshot.unwrap().containers@.len() {
            Some(self.snapshot.unwrap().containers@[self.selected_row as int])
        } else {
            None
        }
    }

    /// The selected volume, as `selected_volume` returns it.
    pub open spec fn volume_at_cursor(self) -> Option<DockerVolume> {
        if self.tab == Tab::Volumes && self.snapshot is Some && self.selected_row
            < self.snapshot.unwrap().volumes@.len() {
            Some(self.snapshot.unwrap().volumes@[self.selected_row as int])
        } else {
            None
        }
    }

    /// The selected port binding, as `selected_port` returns it.
    pub open spec fn port_at_cursor(self) -> Option<PortBinding> {
        if self.tab == Tab::Ports && self.snapshot is Some && self.selected_row
            < self.snapshot.unwrap().ports@.len() {
            Some(self.snapshot.unwrap().ports@[self.selected_row as int])
        } else {
            None
        }
    }

    /// Marks the selected row, or unmarks it if it was marked (not on Ports).
    pub fn toggle_mark_current(&mut self)
        ensures
            toggle_mark_post(*old(self), *final(self)),
    {
        match self.tab {
            Tab::Docker => {
                let id = match self.selected_container() {
                    None => None,
                    Some(c) => Some(c.id.clone()),
                };
                assert(id is Some <==> old(self).container_at_cursor() is Some);
                assert(id is Some ==> id.unwrap()@ == old(self).container_at_cursor().unwrap().id@);
                assert(old(self).process_at_cursor() is None);
                assert(old(self).volume_at_cursor() is None);
                if let Some(id) = id {
                    let ghost before = self.marked_container_ids@;
                    let ghost x = id@;
                    if !self.marked_container_ids.remove(id.as_str()) {
                        self.marked_container_ids.insert(id);
                        assert(before.remove(x) =~= before);
                    }
                    assert(self.marked_container_ids@ =~= toggle(before, x));
                }
            },
            Tab::Processes => {
                let pid = match self.selected_process() {
                    None => None,
                    Some(p) => Some(p.pid),
                };
                assert(old(self).container_at_cursor() is None);
                assert(old(self).volume_at_cursor() is None);
                if let Some(pid) = pid {
                    let ghost before = self.marked_pids@;
                    if !self.marked_pids.remove(pid) {
                        self.marked_pids.insert(pid);
                        assert(before.remove(pid) =~= before);
                    }
                    assert(self.marked_pids@ =~= toggle(before, pid));
                }
            },
            Tab::Volumes => {
                let name = match self.selected_volume() {
                    None => None,
                    Some(v) => Some(v.name.clone()),
                };
                assert(old(self).container_at_cursor() is None);
                assert(old(self).process_at_cursor() is None);
                if let Some(name) = name {
                    let ghost before = self.marked_volume_names@;
                    let ghost x = name@;
                    if !self.marked_volume_names.remove(name.as_str()) {
                        self.marked_volume_names.insert(name);
                        assert(before.remove(x) =~= before);
                    }
                    assert(self.marked_volume_names@ =~= toggle(before, x));
                }
            },
            Tab::Ports => {},
        }
    }

    /// Marks every row of the active list (not on Ports).
    pub fn mark_all(&mut self)
        ensures
            mark_all_post(*old(self), *final(self)),
    {
        match &self.snapshot {
            None => {},
            Some(snapshot) => match self.tab {
                Tab::Docker => {
                    let ids = ids_of(&snapshot.containers);
                    self.marked_container_ids = NameSet::from_names(&ids);
                },
                Tab::Processes => {
                    let pids = pids_of(&snapshot.processes);
                    self.marked_pids = PidSet::from_pids(&pids);
                },
                Tab::Volumes => {
                    let names = names_of(&snapshot.volumes);
                    self.marked_volume_names = NameSet::from_names(&names);
                },
                Tab::Ports => {},
            },
        }
    }

    /// Unmarks every row of the active tab's kind.
    pub fn unmark_all(&mut self)
        ensures
            unmark_all_post(*old(self), *final(self)),
    {
        match self.tab {
            Tab::Docker => self.marked_container_ids.clear(),
            Tab::Processes => self.marked_pids.clear(),
            Tab::Ports => {},
            Tab::Volumes => self.marked_volume_names.clear(),
        }
    }

    /// After a refresh, forgets the marks of rows that are gone.
    pub fn prune_marks_after_refresh(&mut self)
        ensures
            final(self).marked_container_ids@ == (match old(self).snapshot {
                None => Set::<Seq<char>>::empty(),
                Some(s) => old(self).marked_container_ids@.intersect(
                    views(container_ids(s.containers@)).to_set(),
                ),
            }),
            final(self).marked_pids@ == (match old(self).snapshot {
                None => Set::<u32>::empty(),
                Some(s) => old(self).marked_pids@.intersect(process_pids(s.processes@).to_set()),
            }),
            final(self).marked_volume_names@ == (match old(self).snapshot {
                None => Set::<Seq<char>>::empty(),
                Some(s) => old(self).marked_volume_names@.intersect(
                    views(volume_names(s.volumes@)).to_set(),
                ),
            }),
            *final(self) == (App {
                marked_container_ids: final(self).marked_container_ids,
                marked_pids: final(self).marked_pids,
                marked_volume_names: final(self).marked_volume_names,
                ..*old(self)
            }),
    {
        match &self.snapshot {
            None => {
                self.marked_container_ids.clear();
                self.marked_pids.clear();
                self.marked_volume_names.clear();
            },
            Some(snapshot) => {
                let ids = ids_of(&snapshot.containers);
                let pids = pids_of(&snapshot.processes);
                let names = names_of(&snapshot.volumes);
                self.marked_container_ids.retain_in(&ids);
                self.marked_pids.retain_in(&pids);
                self.marked_volume_names.retain_in(&names);
            },
        }
    }

    /// Takes a fresh snapshot: clears the error, shows `warning` if there is
    /// one, forgets marks of rows that are gone and brings the selection back
    /// into the list.
    pub fn apply_snapshot(&mut self, snapshot: Snapshot, warning: Option<String>)
        ensures
            apply_snapshot_post(*old(self), *final(self), snapshot, warning),
    {
        self.snapshot = Some(snapshot);
        self.last_error = None;
        match warning {
            Some(msg) => self.set_status(msg),
            None => {},
        }
        self.prune_marks_after_refresh();
        self.clamp_selection_after_refresh();
    }
}


/// `v` modulo `c`, never negative (`rem_euclid`).
fn euclid_mod(v: i128, c: usize) -> (r: usize)
    requires
        c > 0,
        v > i128::MIN,
    ensures
        r as int == (v as int) % (c as int),
        r < c,
{
    if v >= 0 {
        let m: u128 = (v as u128) % (c as u128);
        m as usize
    } else {
        let w: u128 = (0 - v) as u128;
        let a: u128 = w % (c as u128);
        proof {
            let q = (w as int) / (c as int);
            vstd::arithmetic::div_mod::lemma_fundamental_div_mod(w as int, c as int);
            assert(w as int == (c as int) * q + a);
            if a == 0 {
                assert(v as int == (-q) * (c as int) + 0) by (nonlinear_arith)
                    requires w as int == (c as int) * q + a, a == 0, v == -(w as int);
                vstd::arithmetic::div_mod::lemma_fundamental_div_mod_converse_mod(v as int, c as int, -q, 0);
            } else {
                assert(v as int == (-q - 1) * (c as int) + (c - a)) by (nonlinear_arith)
                    requires w as int == (c as int) * q + a, v == -(w as int);
                vstd::arithmetic::div_mod::lemma_fundamental_div_mod_converse_mod(v as int, c as int, -q - 1, c - a);
            }
        }
        if a == 0 {
            0
        } else {
            (c as u128 - a) as usize
        }
    }
}

/// The match index that a search step lands on: the first match for step 0,
/// else `step` matches on from the current one (taken as an `isize`),
/// wrapping around.
pub open spec fn stepped_index(current: usize, step: isize, count: nat) -> int {
    if step == 0 {
        0
    } else {
        ((current as isize) as int + step) % (count as int)
    }
}

impl App {
    /// Moves the selection to a search match: the first one for `step == 0`,
    /// otherwise `step` matches on from the current match, wrapping around.
    /// Nothing changes when no row matches.
    pub fn apply_search(&mut self, step: isize)
        ensures
            apply_search_post(*old(self), *final(self), step),
    {
        let matches = find_matches(self);
        if matches.len() == 0 {
            return;
        }
        let count = matches.len();
        let index: usize = if step == 0 {
            0
        } else {
            let current: isize = self.search_match_index as isize;
            euclid_mod(current as i128 + step as i128, count)
        };
        self.search_match_index = index;
        let row = matches[index];
        self.selected_row = row;
        self.table_state.select(Some(row));
    }
}

/// Two search steps land where their sum lands: walking `a` matches and then
/// `b` matches is walking `a + b` matches.
pub proof fn law_search_steps_compose(current: usize, a: isize, b: isize, count: nat)
    requires
        0 < count <= usize::MAX,
        current <= isize::MAX,
        count <= isize::MAX + 1,
        a != 0,
        b != 0,
        a + b != 0,
        isize::MIN <= a + b <= isize::MAX,
    ensures
        ({
            let first = stepped_index(current, a, count);
            0 <= first < count && stepped_index(first as usize, b, count) == stepped_index(
                current,
                (a + b) as isize,
                count,
            )
        }),
{
    {
        let c = count as int;
        assert((current as isize) as int == current);
        let first = (current + a) % c;
        vstd::arithmetic::div_mod::lemma_mod_bound(current + a, c);
        vstd::arithmetic::div_mod::lemma_mod_bound(b as int, c);
        vstd::arithmetic::div_mod::lemma_add_mod_noop(current + a, b as int, c);
        vstd::arithmetic::div_mod::lemma_add_mod_noop(first, b as int, c);
        vstd::arithmetic::div_mod::lemma_small_mod(first as nat, count);
        assert(first + b == (current + a) % c + b);
        assert(current + a + b == current + (a + b));
        assert((first as usize) as int == first);
        assert(((first as usize) as isize) as int == first);
    }
}

/// Stepping forward and then back by the same amount returns to the match
/// one started from.
pub proof fn law_search_step_back(current: usize, step: isize, count: nat)
    requires
        0 < count <= usize::MAX,
        count <= isize::MAX + 1,
        current < count,
        step != 0,
        step > isize::MIN,
    ensures
        ({
            let there = stepped_index(current, step, count);
            0 <= there < count && stepped_index(there as usize, (-step) as isize, count) == current
        }),
{
    let c = count as int;
    assert((current as isize) as int == current);
    let there = (current + step) % c;
    vstd::arithmetic::div_mod::lemma_mod_bound(current + step, c);
    vstd::arithmetic::div_mod::lemma_mod_bound(-step, c);
    vstd::arithmetic::div_mod::lemma_add_mod_noop(current + step, -step, c);
    vstd::arithmetic::div_mod::lemma_add_mod_noop(there, -step, c);
    vstd::arithmetic::div_mod::lemma_small_mod(there as nat, count);
    vstd::arithmetic::div_mod::lemma_small_mod(current as nat, count);
    assert(current + step + (-step) == current);
    assert((there as usize) as int == there);
    assert(((there as usize) as isize) as int == there);
    assert(((-step) as isize) as int == -step);
}


/// The footer text that `select_search_status` gives while a query is typed.
pub open spec fn search_status_text(query: Seq<char>, index: usize, matches: nat) -> Seq<char> {
    if matches == 0 {
        "/"@ + query + "  (no matches)"@
    } else {
        "/"@ + query + "  ["@ + dec((index + 1) as nat) + "/"@ + dec(matches) + "]"@
    }
}

impl App {
    /// The search line of the footer: none while the query is blank,
    /// otherwise the query with the match position, or a note that nothing
    /// matches.
    pub fn select_search_status(&self) -> (r: Option<String>)
        requires
            self.search_match_index < usize::MAX,
        ensures
            trim(self.search_query@).len() == 0 ==> r is None,
            trim(self.search_query@).len() > 0 ==> r is Some && r.unwrap()@ == search_status_text(
                self.search_query@,
                self.search_match_index,
                app_matches(*self).len(),
            ),
    {
        if is_blank(self.search_query.as_str()) {
            return None;
        }
        let matches = find_matches(self);
        let mut out = String::new();
        push_str(&mut out, "/");
        push_str(&mut out, self.search_query.as_str());
        if matches.len() == 0 {
            push_str(&mut out, "  (no matches)");
        } else {
            push_str(&mut out, "  [");
            push_dec(&mut out, (self.search_match_index + 1) as u64);
            push_str(&mut out, "/");
            push_dec(&mut out, matches.len() as u64);
            push_str(&mut out, "]");
        }
        Some(out)
    }
}


/// `post` is `pre` after `set_tab(tab)`: selection, scrolling, search and status start over.
pub open spec fn set_tab_post(pre: App, post: App, tab: Tab) -> bool {
    &&& (post == (App {
            tab: tab,
            selected_row: 0,
            list_offset: 0,
            search_query: post.search_query,
            search_match_index: 0,
            input_mode: InputMode::Normal,
            status_message: None,
            ..pre
        }))
    &&& (post.search_query@.len() == 0)
}

/// `post` is `pre` after `move_selection(delta)`: the selection moves by `delta`, held within the list.
pub open spec fn move_selection_post(pre: App, post: App, delta: isize) -> bool {
    &&& (pre.active_len() == 0 ==> post == pre)
    &&& (pre.active_len() > 0 ==> {
            let next = clamp(pre.selected_row + delta, 0, pre.active_len() - 1);
            post == (App {
                selected_row: next as usize,
                table_state: TableState { selected: Some(next as usize) },
                ..pre
            })
        })
}

/// `post` is `pre` after `start_search`.
pub open spec fn start_search_post(pre: App, post: App) -> bool {
    &&& (post == (App {
            input_mode: InputMode::Search,
            search_query: post.search_query,
            search_match_index: 0,
            ..pre
        }))
    &&& (post.search_query@.len() == 0)
}

/// `post` is `pre` after `cancel_search`.
pub open spec fn cancel_search_post(pre: App, post: App) -> bool {
    &&& (post == (App {
            input_mode: InputMode::Normal,
            search_query: post.search_query,
            search_match_index: 0,
            ..pre
        }))
    &&& (post.search_query@.len() == 0)
}

/// `post` is `pre` after `push_search_char(ch)`.
pub open spec fn push_search_char_post(pre: App, post: App, ch: char) -> bool {
    &&& (post == (App { search_query: post.search_query, ..pre }))
    &&& (post.search_query@ == pre.search_query@.push(ch))
}

/// `post` is `pre` after `pop_search_char`.
pub open spec fn pop_search_char_post(pre: App, post: App) -> bool {
    &&& (post == (App { search_query: post.search_query, ..pre }))
    &&& (pre.search_query@.len() == 0 ==> post.search_query@ == pre.search_query@)
    &&& (pre.search_query@.len() > 0 ==> post.search_query@
            == pre.search_query@.drop_last())
}

/// `post` is `pre` after `cancel_pending_action`.
pub open spec fn cancel_pending_post(pre: App, post: App) -> bool {
    &&& (post == (App { input_mode: InputMode::Normal, ..pre }))
}

/// `post` is `pre` after `toggle_mark_current`: the selected row's mark flips.
pub open spec fn toggle_mark_post(pre: App, post: App) -> bool {
    &&& (post.marked_container_ids@ == (match pre.container_at_cursor() {
            Some(c) => toggle(pre.marked_container_ids@, c.id@),
            None => pre.marked_container_ids@,
        }))
    &&& (post.marked_pids@ == (match pre.process_at_cursor() {
            Some(p) => toggle(pre.marked_pids@, p.pid),
            None => pre.marked_pids@,
        }))
    &&& (post.marked_volume_names@ == (match pre.volume_at_cursor() {
            Some(v) => toggle(pre.marked_volume_names@, v.name@),
            None => pre.marked_volume_names@,
        }))
    &&& (post == (App {
            marked_container_ids: post.marked_container_ids,
            marked_pids: post.marked_pids,
            marked_volume_names: post.marked_volume_names,
            ..pre
        }))
}

/// `post` is `pre` after `mark_all`: every row of the active list is marked.
pub open spec fn mark_all_post(pre: App, post: App) -> bool {
    &&& (post.marked_container_ids@ == (if pre.snapshot is Some && pre.tab
            == Tab::Docker {
            views(container_ids(pre.snapshot.unwrap().containers@)).to_set()
        } else {
            pre.marked_container_ids@
        }))
    &&& (post.marked_pids@ == (if pre.snapshot is Some && pre.tab
            == Tab::Processes {
            process_pids(pre.snapshot.unwrap().processes@).to_set()
        } else {
            pre.marked_pids@
        }))
    &&& (post.marked_volume_names@ == (if pre.snapshot is Some && pre.tab
            == Tab::Volumes {
            views(volume_names(pre.snapshot.unwrap().volumes@)).to_set()
        } else {
            pre.marked_volume_names@
        }))
    &&& (post == (App {
            marked_container_ids: post.marked_container_ids,
            marked_pids: post.marked_pids,
            marked_volume_names: post.marked_volume_names,
            ..pre
        }))
}

/// `post` is `pre` after `unmark_all`: the active tab's marks are dropped.
pub open spec fn unmark_all_post(pre: App, post: App) -> bool {
    &&& (post.marked_container_ids@ == (if pre.tab == Tab::Docker {
            Set::<Seq<char>>::empty()
        } else {
            pre.marked_container_ids@
        }))
    &&& (post.marked_pids@ == (if pre.tab == Tab::Processes {
            Set::<u32>::empty()
        } else {
            pre.marked_pids@
        }))
    &&& (post.marked_volume_names@ == (if pre.tab == Tab::Volumes {
            Set::<Seq<char>>::empty()
        } else {
            pre.marked_volume_names@
        }))
    &&& (post == (App {
            marked_container_ids: post.marked_container_ids,
            marked_pids: post.marked_pids,
            marked_volume_names: post.marked_volume_names,
            ..pre
        }))
}

/// `post` is `pre` after `apply_search(step)`.
pub open spec fn apply_search_post(pre: App, post: App, step: isize) -> bool {
    &&& (app_matches(pre).len() == 0 ==> post == pre)
    &&& (app_matches(pre).len() > 0 ==> {
            let m = app_matches(pre);
            let idx = stepped_index(pre.search_match_index, step, m.len());
            &&& 0 <= idx < m.len()
            &&& post == (App {
                search_match_index: idx as usize,
                selected_row: m[idx],
                table_state: TableState { selected: Some(m[idx]) },
                ..pre
            })
        })
}


/// `post` is `pre` after `apply_snapshot(snapshot, warning)`.
pub open spec fn apply_snapshot_post(pre: App, post: App, snapshot: Snapshot, warning: Option<String>) -> bool {
    &&& (post.snapshot == Some(snapshot))
    &&& (post.last_error is None)
    &&& (post.status_message == (match warning {
            Some(w) => Some(w),
            None => pre.status_message,
        }))
    &&& (post.marked_container_ids@ == pre.marked_container_ids@.intersect(
            views(container_ids(snapshot.containers@)).to_set(),
        ))
    &&& (post.marked_pids@ == pre.marked_pids@.intersect(
            process_pids(snapshot.processes@).to_set(),
        ))
    &&& (post.marked_volume_names@ == pre.marked_volume_names@.intersect(
            views(volume_names(snapshot.volumes@)).to_set(),
        ))
    &&& (({
            let len = list_len(Some(snapshot), pre.tab);
            &&& len == 0 ==> post.selected_row == 0 && post.list_offset == 0
                && post.table_state.selected is None
            &&& len > 0 ==> post.selected_row == (if pre.selected_row >= len {
                (len - 1) as usize
            } else {
                pre.selected_row
            }) && post.list_offset == pre.list_offset
                && post.table_state.selected == Some(post.selected_row)
        }))
    &&& (post == (App {
            snapshot: post.snapshot,
            last_error: None,
            status_message: post.status_message,
            marked_container_ids: post.marked_container_ids,
            marked_pids: post.marked_pids,
            marked_volume_names: post.marked_volume_names,
            selected_row: post.selected_row,
            list_offset: post.list_offset,
            table_state: post.table_state,
            ..pre
        }))
}

} // verus!
