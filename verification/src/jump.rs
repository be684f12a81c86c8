//! Jumps from a port or a volume to the container or process behind it.
use vstd::prelude::*;

use crate::actions::shows;
use crate::app::{App, InputMode, Snapshot, Tab, TableState};
use crate::marks::str_eq;
use crate::models::{DevProcess, DockerContainer};
use crate::text::{dec, owned, push_dec, push_str};

verus! {

/// The first position of a container named `name`.
pub open spec fn position_named(cs: Seq<DockerContainer>, name: Seq<char>) -> Option<int>
    decreases cs.len(),
{
    if cs.len() == 0 {
        None
    } else {
        match position_named(cs.drop_last(), name) {
            Some(i) => Some(i),
            None => if cs.last().name@ == name {
                Some(cs.len() - 1)
            } else {
                None
            },
        }
    }
}

/// The first position of the process with pid `pid`.
pub open spec fn position_of_pid(ps: Seq<DevProcess>, pid: u32) -> Option<int>
    decreases ps.len(),
{
    if ps.len() == 0 {
        None
    } else {
        match position_of_pid(ps.drop_last(), pid) {
            Some(i) => Some(i),
            None => if ps.last().pid == pid {
                Some(ps.len() - 1)
            } else {
                None
            },
        }
    }
}

/// Where the container named `name` is listed, if anywhere.
pub open spec fn container_row(s: Option<Snapshot>, name: Seq<char>) -> Option<int> {
    match s {
        Some(s) => position_named(s.containers@, name),
        None => None,
    }
}

/// Where the process with pid `pid` is listed, if anywhere.
pub open spec fn process_row(s: Option<Snapshot>, pid: u32) -> Option<int> {
    match s {
        Some(s) => position_of_pid(s.processes@, pid),
        None => None,
    }
}

/// `new` is `old` after switching to `tab` and selecting `row`; its footer
/// may differ.
pub open spec fn jumped(old: App, new: App, tab: Tab, row: int) -> bool {
    &&& new == (App {
        tab: tab,
        selected_row: row as usize,
        list_offset: 0,
        table_state: TableState { selected: Some(row as usize) },
        search_query: new.search_query,
        search_match_index: 0,
        input_mode: InputMode::Normal,
        status_message: new.status_message,
        ..old
    })
    &&& new.search_query@.len() == 0
    &&& row == row as usize
}

/// `new` is `old` with only its footer changed.
pub open spec fn only_status(old: App, new: App) -> bool {
    new == (App { status_message: new.status_message, ..old })
}

/// How a port's owning process is named in messages.
pub open spec fn process_label(name: Option<String>) -> Seq<char> {
    match name {
        Some(n) => n@,
        None => "process"@,
    }
}

/// The position of the first container named `name`.
fn find_container(cs: &Vec<DockerContainer>, name: &str) -> (r: Option<usize>)
    ensures
        match r {
            Some(i) => position_named(cs@, name@) == Some(i as int),
            None => position_named(cs@, name@) is None,
        },
{
    let mut i: usize = 0;
    while i < cs.len()
        invariant
            i <= cs.len(),
            position_named(cs@.take(i as int), name@) is None,
        decreases cs.len() - i,
    {
        assert(cs@.take(i + 1).drop_last() =~= cs@.take(i as int));
        if str_eq(cs[i].name.as_str(), name) {
            proof { lemma_position_named_prefix(cs@, name@, (i + 1) as nat); }
            return Some(i);
        }
        i = i + 1;
    }
    assert(cs@.take(cs.len() as int) =~= cs@);
    None
}

proof fn lemma_position_named_prefix(cs: Seq<DockerContainer>, name: Seq<char>, n: nat)
    requires
        n <= cs.len(),
        position_named(cs.take(n as int), name) is Some,
    ensures
        position_named(cs, name) == position_named(cs.take(n as int), name),
    decreases cs.len() - n,
{
    if n < cs.len() {
        assert(cs.take(n as int + 1).drop_last() =~= cs.take(n as int));
        lemma_position_named_prefix(cs, name, n + 1);
    } else {
        assert(cs.take(n as int) =~= cs);
    }
}

/// The position of the first process with pid `pid`.
fn find_process(ps: &Vec<DevProcess>, pid: u32) -> (r: Option<usize>)
    ensures
        match r {
            Some(i) => position_of_pid(ps@, pid) == Some(i as int),
            None => position_of_pid(ps@, pid) is None,
        },
{
    let mut i: usize = 0;
    while i < ps.len()
        invariant
            i <= ps.len(),
            position_of_pid(ps@.take(i as int), pid) is None,
        decreases ps.len() - i,
    {
        assert(ps@.take(i + 1).drop_last() =~= ps@.take(i as int));
        if ps[i].pid == pid {
            proof { lemma_position_of_pid_prefix(ps@, pid, (i + 1) as nat); }
            return Some(i);
        }
        i = i + 1;
    }
    assert(ps@.take(ps.len() as int) =~= ps@);
    None
}

proof fn lemma_position_of_pid_prefix(ps: Seq<DevProcess>, pid: u32, n: nat)
    requires
        n <= ps.len(),
        position_of_pid(ps.take(n as int), pid) is Some,
    ensures
        position_of_pid(ps, pid) == position_of_pid(ps.take(n as int), pid),
    decreases ps.len() - n,
{
    if n < ps.len() {
        assert(ps.take(n as int + 1).drop_last() =~= ps.take(n as int));
        lemma_position_of_pid_prefix(ps, pid, n + 1);
    } else {
        assert(ps.take(n as int) =~= ps);
    }
}

impl App {
    /// Selects `index` and scrolls back to the top.
    fn select_row(&mut self, index: usize)
        ensures
            *final(self) == (App {
                selected_row: index,
                list_offset: 0,
                table_state: TableState { selected: Some(index) },
                ..*old(self)
            }),
    {
        self.selected_row = index;
        self.list_offset = 0;
        self.table_state.select(Some(index));
    }

    /// Switches to the Docker tab on the container named `name`, if it is listed.
    fn jump_to_container_by_name(&mut self, name: &str) -> (r: bool)
        ensures
            r == container_row(old(self).snapshot, name@) is Some,
            r ==> jumped(*old(self), *final(self), Tab::Docker, container_row(old(self).snapshot, name@).unwrap()),
            r ==> final(self).status_message is None,
            !r ==> *final(self) == *old(self),
    {
        let index = match &self.snapshot {
            None => return false,
            Some(s) => match find_container(&s.containers, name) {
                None => return false,
                Some(i) => i,
            },
        };
        self.set_tab(Tab::Docker);
        self.select_row(index);
        true
    }

    /// Switches to the Processes tab on the process `pid`, if it is listed.
    fn jump_to_process_by_pid(&mut self, pid: u32) -> (r: bool)
        ensures
            r == process_row(old(self).snapshot, pid) is Some,
            r ==> jumped(*old(self), *final(self), Tab::Processes, process_row(old(self).snapshot, pid).unwrap()),
            r ==> final(self).status_message is None,
            !r ==> *final(self) == *old(self),
    {
        let index = match &self.snapshot {
            None => return false,
            Some(s) => match find_process(&s.processes, pid) {
                None => return false,
                Some(i) => i,
            },
        };
        self.set_tab(Tab::Processes);
        self.select_row(index);
        true
    }

    /// Jumps from the selected volume to the first container that uses it.
    pub fn jump_from_selected_volume(&mut self)
        ensures
            jump_from_volume_post(*old(self), *final(self)),
    {
        let (name, target, linked) = match self.selected_volume() {
            None => {
                self.set_status(owned("no volume selected"));
                return;
            },
            Some(v) => {
                if v.container_names.len() == 0 {
                    let mut msg = owned("volume ");
                    push_str(&mut msg, v.name.as_str());
                    push_str(&mut msg, " is not used by any container");
                    self.set_status(msg);
                    return;
                }
                (v.name.clone(), v.container_names[0].clone(), v.container_names.len())
            },
        };
        if self.jump_to_container_by_name(target.as_str()) {
            let mut msg = owned("jumped to container ");
            push_str(&mut msg, target.as_str());
            let ghost head = msg@;
            if linked > 1 {
                push_str(&mut msg, " (");
                push_dec(&mut msg, linked as u64);
                push_str(&mut msg, " linked)");
                assert(msg@ =~= head + (" ("@ + dec(linked as nat) + " linked)"@));
            } else {
                assert(msg@ =~= head + Seq::<char>::empty());
            }
            self.set_status(msg);
        } else {
            let mut msg = owned("container ");
            push_str(&mut msg, target.as_str());
            push_str(&mut msg, " not in Docker list");
            self.set_status(msg);
        }
    }

    /// Jumps from the selected port to its container, or else to its process.
    pub fn jump_from_selected_port(&mut self)
        ensures
            jump_from_port_post(*old(self), *final(self)),
    {
        let (container_name, pid, process_name) = match self.selected_port() {
            None => {
                self.set_status(owned("no port selected"));
                return;
            },
            Some(b) => (b.container_name.clone(), b.pid, b.process_name.clone()),
        };
        match &container_name {
            Some(name) => {
                if self.jump_to_container_by_name(name.as_str()) {
                    let mut msg = owned("jumped to container ");
                    push_str(&mut msg, name.as_str());
                    self.set_status(msg);
                    return;
                }
            },
            None => {},
        }
        match pid {
            None => {},
            Some(pid) => {
                let mut label = match &process_name {
                    Some(n) => n.clone(),
                    None => owned("process"),
                };
                if self.jump_to_process_by_pid(pid) {
                    let mut msg = owned("jumped to ");
                    push_str(&mut msg, label.as_str());
                    push_str(&mut msg, " (pid: ");
                    push_dec(&mut msg, pid as u64);
                    push_str(&mut msg, ")");
                    self.set_status(msg);
                } else {
                    push_str(&mut label, " (pid ");
                    push_dec(&mut label, pid as u64);
                    push_str(&mut label, ") is not in DEV Processes list, unable to reach");
                    self.set_status(label);
                }
            },
        }
    }
}


/// `post` is `pre` after `jump_from_selected_volume`.
pub open spec fn jump_from_volume_post(pre: App, post: App) -> bool {
    &&& (match pre.volume_at_cursor() {
            None => only_status(pre, post) && shows(post, "no volume selected"@),
            Some(v) => if v.container_names@.len() == 0 {
                only_status(pre, post) && shows(
                    post,
                    "volume "@ + v.name@ + " is not used by any container"@,
                )
            } else {
                let target = v.container_names@[0]@;
                match container_row(pre.snapshot, target) {
                    Some(row) => jumped(pre, post, Tab::Docker, row) && shows(
                        post,
                        "jumped to container "@ + target + (if v.container_names@.len() > 1 {
                            " ("@ + dec(v.container_names@.len()) + " linked)"@
                        } else {
                            Seq::empty()
                        }),
                    ),
                    None => only_status(pre, post) && shows(
                        post,
                        "container "@ + target + " not in Docker list"@,
                    ),
                }
            },
        })
}

/// `post` is `pre` after `jump_from_selected_port`.
pub open spec fn jump_from_port_post(pre: App, post: App) -> bool {
    &&& (match pre.port_at_cursor() {
            None => only_status(pre, post) && shows(post, "no port selected"@),
            Some(b) => {
                let by_container = match b.container_name {
                    Some(c) => container_row(pre.snapshot, c@),
                    None => None,
                };
                if by_container is Some {
                    jumped(pre, post, Tab::Docker, by_container.unwrap()) && shows(
                        post,
                        "jumped to container "@ + b.container_name.unwrap()@,
                    )
                } else {
                    match b.pid {
                        None => post == pre,
                        Some(pid) => match process_row(pre.snapshot, pid) {
                            Some(row) => jumped(pre, post, Tab::Processes, row)
                                && shows(
                                post,
                                "jumped to "@ + process_label(b.process_name) + " (pid: "@ + dec(
                                    pid as nat,
                                ) + ")"@,
                            ),
                            None => only_status(pre, post) && shows(
                                post,
                                process_label(b.process_name) + " (pid "@ + dec(pid as nat)
                                    + ") is not in DEV Processes list, unable to reach"@,
                            ),
                        },
                    }
                }
            },
        })
}

} // verus!
