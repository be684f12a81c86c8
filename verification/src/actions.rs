//! The confirmation flow of the actions on containers, processes and volumes.
//!
//! `stop_selected_container`, `restart_selected_container` and the `confirm_*`
//! methods hand back what to act on; the caller performs the actions and then
//! reports how each attempt went to `finish_batch`, which clears the marks,
//! asks for a refresh and writes the summary into the footer.
use vstd::prelude::*;

use crate::app::{App, InputMode};
use crate::models::{DevProcess, DockerContainer, DockerVolume};
use crate::marks::str_eq;
use crate::text::{dec, join, join_strings, owned, push_dec, push_str, views};

verus! {

/// `app` shows `text` in its footer.
pub open spec fn shows(app: App, text: Seq<char>) -> bool {
    app.status_message is Some && app.status_message.unwrap()@ == text
}

/// Containers whose id is marked, as (id, name), in list order.
pub open spec fn marked_containers(cs: Seq<DockerContainer>, marks: Set<Seq<char>>) -> Seq<(Seq<char>, Seq<char>)>
    decreases cs.len(),
{
    if cs.len() == 0 {
        Seq::empty()
    } else {
        let prev = marked_containers(cs.drop_last(), marks);
        if marks.contains(cs.last().id@) {
            prev.push((cs.last().id@, cs.last().name@))
        } else {
            prev
        }
    }
}

/// Processes whose pid is marked, as (pid, name), in list order.
pub open spec fn marked_processes(ps: Seq<DevProcess>, marks: Set<u32>) -> Seq<(u32, Seq<char>)>
    decreases ps.len(),
{
    if ps.len() == 0 {
        Seq::empty()
    } else {
        let prev = marked_processes(ps.drop_last(), marks);
        if marks.contains(ps.last().pid) {
            prev.push((ps.last().pid, ps.last().name@))
        } else {
            prev
        }
    }
}

/// Volumes whose name is marked, in list order.
pub open spec fn marked_volumes(vs: Seq<DockerVolume>, marks: Set<Seq<char>>) -> Seq<Seq<char>>
    decreases vs.len(),
{
    if vs.len() == 0 {
        Seq::empty()
    } else {
        let prev = marked_volumes(vs.drop_last(), marks);
        if marks.contains(vs.last().name@) {
            prev.push(vs.last().name@)
        } else {
            prev
        }
    }
}

/// The characters of (id, name) pairs.
pub open spec fn pair_views(v: Seq<(String, String)>) -> Seq<(Seq<char>, Seq<char>)> {
    v.map_values(|p: (String, String)| (p.0@, p.1@))
}

/// The characters of (pid, name) pairs.
pub open spec fn pid_pair_views(v: Seq<(u32, String)>) -> Seq<(u32, Seq<char>)> {
    v.map_values(|p: (u32, String)| (p.0, p.1@))
}

/// The containers an action applies to: the marked ones if any, else the
/// selected one.
pub open spec fn docker_targets(app: App) -> Seq<(Seq<char>, Seq<char>)> {
    match app.snapshot {
        None => Seq::empty(),
        Some(s) => if app.marked_container_ids@ != Set::<Seq<char>>::empty() {
            marked_containers(s.containers@, app.marked_container_ids@)
        } else {
            match app.container_at_cursor() {
                Some(c) => seq![(c.id@, c.name@)],
                None => Seq::empty(),
            }
        },
    }
}

/// The processes an action applies to: the marked ones if any, else the
/// selected one.
pub open spec fn process_targets(app: App) -> Seq<(u32, Seq<char>)> {
    match app.snapshot {
        None => Seq::empty(),
        Some(s) => if app.marked_pids@ != Set::<u32>::empty() {
            marked_processes(s.processes@, app.marked_pids@)
        } else {
            match app.process_at_cursor() {
                Some(p) => seq![(p.pid, p.name@)],
                None => Seq::empty(),
            }
        },
    }
}

/// The volumes an action applies to: the marked ones if any, else the
/// selected one.
pub open spec fn volume_targets(app: App) -> Seq<Seq<char>> {
    match app.snapshot {
        None => Seq::empty(),
        Some(s) => if app.marked_volume_names@ != Set::<Seq<char>>::empty() {
            marked_volumes(s.volumes@, app.marked_volume_names@)
        } else {
            match app.volume_at_cursor() {
                Some(v) => seq![v.name@],
                None => Seq::empty(),
            }
        },
    }
}

/// The kinds of batch actions.
#[derive(Clone, Copy, PartialEq, Eq, Debug, Structural)]
pub enum BatchKind {
    StopContainers,
    RestartContainers,
    RemoveContainers,
    KillProcesses,
    RemoveVolumes,
}

/// How many attempts succeeded (`None` is a success).
pub open spec fn successes(outcomes: Seq<Option<String>>) -> nat
    decreases outcomes.len(),
{
    if outcomes.len() == 0 {
        0
    } else {
        successes(outcomes.drop_last()) + if outcomes.last() is None {
            1nat
        } else {
            0nat
        }
    }
}

/// The message of the last failed attempt, if any failed.
pub open spec fn last_failure(outcomes: Seq<Option<String>>) -> Option<Seq<char>>
    decreases outcomes.len(),
{
    if outcomes.len() == 0 {
        None
    } else {
        match outcomes.last() {
            Some(e) => Some(e@),
            None => last_failure(outcomes.drop_last()),
        }
    }
}

/// What the footer says after a batch: `<verb> <ok>/<total>`, followed by
/// `: <error>` with the last error when an attempt failed.
pub open spec fn batch_summary(kind: BatchKind, ok: nat, total: nat, error: Option<Seq<char>>) -> Seq<char> {
    let verb = match kind {
        BatchKind::StopContainers => "stopped "@,
        BatchKind::RestartContainers => "restarted "@,
        BatchKind::RemoveContainers => "removed "@,
        BatchKind::KillProcesses => if error is Some {
            "killed pid "@
        } else {
            "killed "@
        },
        BatchKind::RemoveVolumes => "removed volumes "@,
    };
    let counts = verb + dec(ok) + "/"@ + dec(total);
    match error {
        Some(e) => counts + ": "@ + e,
        None => counts,
    }
}

/// The in-use volumes among `names`, in order.
pub open spec fn in_use_among(names: Seq<Seq<char>>, vs: Seq<DockerVolume>) -> Seq<Seq<char>>
    decreases names.len(),
{
    if names.len() == 0 {
        Seq::empty()
    } else {
        let prev = in_use_among(names.drop_last(), vs);
        if exists|j: int| 0 <= j < vs.len() && vs[j].name@ == names.last() && vs[j].in_use {
            prev.push(names.last())
        } else {
            prev
        }
    }
}

impl App {
    /// The containers an action applies to, as (id, name).
    pub fn docker_action_targets(&self) -> (r: Vec<(String, String)>)
        ensures
            pair_views(r@) == docker_targets(*self),
    {
        match &self.snapshot {
            None => Vec::new(),
            Some(snapshot) => {
                if !self.marked_container_ids.is_empty() {
                    let mut r: Vec<(String, String)> = Vec::new();
                    let mut i: usize = 0;
                    while i < snapshot.containers.len()
                        invariant
                            self.snapshot == Some(*snapshot),
                            i <= snapshot.containers.len(),
                            pair_views(r@) == marked_containers(
                                snapshot.containers@.take(i as int),
                                self.marked_container_ids@,
                            ),
                        decreases snapshot.containers.len() - i,
                    {
                        let c = &snapshot.containers[i];
                        assert(snapshot.containers@.take(i + 1).drop_last() =~= snapshot.containers@.take(i as int));
                        if self.marked_container_ids.contains(c.id.as_str()) {
                            r.push((c.id.clone(), c.name.clone()));
                            assert(pair_views(r@) =~= pair_views(r@.drop_last()).push((c.id@, c.name@)));
                        }
                        i = i + 1;
                    }
                    assert(snapshot.containers@.take(snapshot.containers.len() as int) =~= snapshot.containers@);
                    return r;
                }
                match self.selected_container() {
                    Some(c) => {
                        let mut r: Vec<(String, String)> = Vec::new();
                        r.push((c.id.clone(), c.name.clone()));
                        assert(pair_views(r@) =~= seq![(c.id@, c.name@)]);
                        r
                    },
                    None => Vec::new(),
                }
            },
        }
    }

    /// The processes an action applies to, as (pid, name).
    pub fn process_action_targets(&self) -> (r: Vec<(u32, String)>)
        ensures
            pid_pair_views(r@) == process_targets(*self),
    {
        match &self.snapshot {
            None => Vec::new(),
            Some(snapshot) => {
                if !self.marked_pids.is_empty() {
                    let mut r: Vec<(u32, String)> = Vec::new();
                    let mut i: usize = 0;
                    while i < snapshot.processes.len()
                        invariant
                            self.snapshot == Some(*snapshot),
                            i <= snapshot.processes.len(),
                            pid_pair_views(r@) == marked_processes(
                                snapshot.processes@.take(i as int),
                                self.marked_pids@,
                            ),
                        decreases snapshot.processes.len() - i,
                    {
                        let p = &snapshot.processes[i];
                        assert(snapshot.processes@.take(i + 1).drop_last() =~= snapshot.processes@.take(i as int));
                        if self.marked_pids.contains(p.pid) {
                            r.push((p.pid, p.name.clone()));
                            assert(pid_pair_views(r@) =~= pid_pair_views(r@.drop_last()).push((p.pid, p.name@)));
                        }
                        i = i + 1;
                    }
                    assert(snapshot.processes@.take(snapshot.processes.len() as int) =~= snapshot.processes@);
                    return r;
                }
                match self.selected_process() {
                    Some(p) => {
                        let mut r: Vec<(u32, String)> = Vec::new();
                        r.push((p.pid, p.name.clone()));
                        assert(pid_pair_views(r@) =~= seq![(p.pid, p.name@)]);
                        r
                    },
                    None => Vec::new(),
                }
            },
        }
    }

    /// The volumes an action applies to.
    pub fn volume_action_targets(&self) -> (r: Vec<String>)
        ensures
            views(r@) == volume_targets(*self),
    {
        match &self.snapshot {
            None => Vec::new(),
            Some(snapshot) => {
                if !self.marked_volume_names.is_empty() {
                    let mut r: Vec<String> = Vec::new();
                    let mut i: usize = 0;
                    while i < snapshot.volumes.len()
                        invariant
                            self.snapshot == Some(*snapshot),
                            i <= snapshot.volumes.len(),
                            views(r@) == marked_volumes(
                                snapshot.volumes@.take(i as int),
                                self.marked_volume_names@,
                            ),
                        decreases snapshot.volumes.len() - i,
                    {
                        let v = &snapshot.volumes[i];
                        assert(snapshot.volumes@.take(i + 1).drop_last() =~= snapshot.volumes@.take(i as int));
                        if self.marked_volume_names.contains(v.name.as_str()) {
                            r.push(v.name.clone());
                            assert(views(r@) =~= views(r@.drop_last()).push(v.name@));
                        }
                        i = i + 1;
                    }
                    assert(snapshot.volumes@.take(snapshot.volumes.len() as int) =~= snapshot.volumes@);
                    return r;
                }
                match self.selected_volume() {
                    Some(v) => {
                        let mut r: Vec<String> = Vec::new();
                        r.push(v.name.clone());
                        assert(views(r@) =~= seq![v.name@]);
                        r
                    },
                    None => Vec::new(),
                }
            },
        }
    }
}


impl App {
    /// Starts stopping the target containers: hands back (id, name) of each,
    /// or says in the footer that none is selected.
    pub fn stop_selected_container(&mut self) -> (r: Option<Vec<(String, String)>>)
        ensures
            start_docker_batch_post(*old(self), *final(self), r),
    {
        self.cancel_pending_action();
        let targets = self.docker_action_targets();
        if targets.len() == 0 {
            self.set_status(owned("no container selected"));
            return None;
        }
        Some(targets)
    }

    /// Starts restarting the target containers: hands back (id, name) of
    /// each, or says in the footer that none is selected.
    pub fn restart_selected_container(&mut self) -> (r: Option<Vec<(String, String)>>)
        ensures
            start_docker_batch_post(*old(self), *final(self), r),
    {
        self.cancel_pending_action();
        let targets = self.docker_action_targets();
        if targets.len() == 0 {
            self.set_status(owned("no container selected"));
            return None;
        }
        Some(targets)
    }

    /// Asks for confirmation before killing the target processes.
    pub fn request_kill_selected_process(&mut self)
        ensures
            request_kill_post(*old(self), *final(self)),
    {
        self.cancel_pending_action();
        let targets = self.process_action_targets();
        if targets.len() == 0 {
            self.set_status(owned("no process selected"));
            return;
        }
        self.input_mode = InputMode::ConfirmProcessRemove { targets };
    }

    /// Confirms the pending kill: leaves the prompt and hands back the
    /// processes to kill; nothing happens when no kill is pending.
    pub fn confirm_kill_selected_process(&mut self) -> (r: Option<Vec<(u32, String)>>)
        ensures
            confirm_kill_post(*old(self), *final(self), r),
    {
        let mut mode = InputMode::Normal;
        std::mem::swap(&mut mode, &mut self.input_mode);
        match mode {
            InputMode::ConfirmProcessRemove { targets } => Some(targets),
            other => {
                self.input_mode = other;
                None
            },
        }
    }

    /// Asks for confirmation before removing the target containers.
    pub fn request_remove_selected_container(&mut self)
        ensures
            request_remove_containers_post(*old(self), *final(self)),
    {
        let targets = self.docker_action_targets();
        if targets.len() == 0 {
            self.set_status(owned("no containers selected"));
            return;
        }
        self.input_mode = InputMode::ConfirmDockerRemove { targets };
    }

    /// Confirms the pending removal: leaves the prompt and hands back the
    /// containers to remove; nothing happens when no removal is pending.
    pub fn confirm_docker_remove(&mut self) -> (r: Option<Vec<(String, String)>>)
        ensures
            confirm_docker_remove_post(*old(self), *final(self), r),
    {
        let mut mode = InputMode::Normal;
        std::mem::swap(&mut mode, &mut self.input_mode);
        match mode {
            InputMode::ConfirmDockerRemove { targets } => Some(targets),
            other => {
                self.input_mode = other;
                None
            },
        }
    }

    /// Asks for confirmation before deleting the target volumes; refuses, in
    /// the footer, when some of them are in use.
    pub fn request_remove_selected_volumes(&mut self)
        ensures
            request_remove_volumes_post(*old(self), *final(self)),
    {
        let targets = self.volume_action_targets();
        if targets.len() == 0 {
            self.set_status(owned("no volume selected"));
            return;
        }
        match &self.snapshot {
            None => {},
            Some(snapshot) => {
                let mut busy: Vec<String> = Vec::new();
                let mut i: usize = 0;
                while i < targets.len()
                    invariant
                        i <= targets.len(),
                        views(busy@) == in_use_among(views(targets@).take(i as int), snapshot.volumes@),
                    decreases targets.len() - i,
                {
                    let name = &targets[i];
                    let mut j: usize = 0;
                    let mut found = false;
                    while j < snapshot.volumes.len()
                        invariant
                            j <= snapshot.volumes.len(),
                            found == (exists|k: int| 0 <= k < j && snapshot.volumes@[k].name@ == name@
                                && snapshot.volumes@[k].in_use),
                        decreases snapshot.volumes.len() - j,
                    {
                        if snapshot.volumes[j].in_use && str_eq(
                            snapshot.volumes[j].name.as_str(),
                            name.as_str(),
                        ) {
                            found = true;
                        }
                        j = j + 1;
                    }
                    assert(views(targets@).take(i + 1).drop_last() =~= views(targets@).take(i as int));
                    assert(views(targets@).take(i + 1).last() == name@);
                    if found {
                        busy.push(name.clone());
                        assert(views(busy@) =~= views(busy@.drop_last()).push(name@));
                    }
                    i = i + 1;
                }
                assert(views(targets@).take(targets.len() as int) =~= views(targets@));
                if busy.len() > 0 {
                    let mut msg = owned("refusing to delete in-use volumes: ");
                    let names = join_strings(&busy, ", ");
                    push_str(&mut msg, names.as_str());
                    self.set_status(msg);
                    return;
                }
            },
        }
        self.input_mode = InputMode::ConfirmVolumeRemove { targets };
    }

    /// Confirms the pending deletion: leaves the prompt and hands back the
    /// volumes to delete; nothing happens when no deletion is pending.
    pub fn confirm_volume_remove(&mut self) -> (r: Option<Vec<String>>)
        ensures
            confirm_volume_remove_post(*old(self), *final(self), r),
    {
        let mut mode = InputMode::Normal;
        std::mem::swap(&mut mode, &mut self.input_mode);
        match mode {
            InputMode::ConfirmVolumeRemove { targets } => Some(targets),
            other => {
                self.input_mode = other;
                None
            },
        }
    }

    /// Records how the attempts of a batch went (`None` is a success, in
    /// target order): clears the marks of the batch's kind, asks for a refresh
    /// and writes the summary into the footer.
    pub fn finish_batch(&mut self, kind: BatchKind, outcomes: &Vec<Option<String>>)
        ensures
            shows(
                *final(self),
                batch_summary(kind, successes(outcomes@), outcomes@.len(), last_failure(outcomes@)),
            ),
            final(self).marked_container_ids@ == (if kind == BatchKind::StopContainers || kind
                == BatchKind::RestartContainers || kind == BatchKind::RemoveContainers {
                Set::<Seq<char>>::empty()
            } else {
                old(self).marked_container_ids@
            }),
            final(self).marked_pids@ == (if kind == BatchKind::KillProcesses {
                Set::<u32>::empty()
            } else {
                old(self).marked_pids@
            }),
            final(self).marked_volume_names@ == (if kind == BatchKind::RemoveVolumes {
                Set::<Seq<char>>::empty()
            } else {
                old(self).marked_volume_names@
            }),
            *final(self) == (App {
                needs_refresh: true,
                status_message: final(self).status_message,
                marked_container_ids: final(self).marked_container_ids,
                marked_pids: final(self).marked_pids,
                marked_volume_names: final(self).marked_volume_names,
                ..*old(self)
            }),
    {
        let mut ok: usize = 0;
        let mut last: Option<usize> = None;
        let mut i: usize = 0;
        while i < outcomes.len()
            invariant
                i <= outcomes.len(),
                ok == successes(outcomes@.take(i as int)),
                ok <= i,
                match last {
                    Some(k) => k < i && outcomes@[k as int] is Some && last_failure(
                        outcomes@.take(i as int),
                    ) == Some(outcomes@[k as int].unwrap()@),
                    None => last_failure(outcomes@.take(i as int)) is None,
                },
            decreases outcomes.len() - i,
        {
            assert(outcomes@.take(i + 1).drop_last() =~= outcomes@.take(i as int));
            match &outcomes[i] {
                None => ok = ok + 1,
                Some(_) => last = Some(i),
            }
            i = i + 1;
        }
        assert(outcomes@.take(outcomes.len() as int) =~= outcomes@);
        match kind {
            BatchKind::StopContainers | BatchKind::RestartContainers | BatchKind::RemoveContainers => {
                self.marked_container_ids.clear()
            },
            BatchKind::KillProcesses => self.marked_pids.clear(),
            BatchKind::RemoveVolumes => self.marked_volume_names.clear(),
        }
        self.needs_refresh = true;
        let mut msg = match kind {
            BatchKind::StopContainers => owned("stopped "),
            BatchKind::RestartContainers => owned("restarted "),
            BatchKind::RemoveContainers => owned("removed "),
            BatchKind::KillProcesses => if last.is_some() {
                owned("killed pid ")
            } else {
                owned("killed ")
            },
            BatchKind::RemoveVolumes => owned("removed volumes "),
        };
        push_dec(&mut msg, ok as u64);
        push_str(&mut msg, "/");
        push_dec(&mut msg, outcomes.len() as u64);
        match last {
            Some(k) => {
                push_str(&mut msg, ": ");
                match &outcomes[k] {
                    Some(e) => push_str(&mut msg, e.as_str()),
                    None => {},
                }
            },
            None => {},
        }
        self.set_status(msg);
    }
}


/// `post` and `r` after `stop_selected_container` or `restart_selected_container`:
/// the targets are handed back, or the footer says that there are none.
pub open spec fn start_docker_batch_post(pre: App, post: App, r: Option<Vec<(String, String)>>) -> bool {
    &&& (docker_targets(pre).len() == 0 ==> r is None && shows(post, "no container selected"@)
            && post == (App {
            input_mode: InputMode::Normal,
            status_message: post.status_message,
            ..pre
        }))
    &&& (docker_targets(pre).len() > 0 ==> r is Some && pair_views(r.unwrap()@)
            == docker_targets(pre) && post == (App {
            input_mode: InputMode::Normal,
            ..pre
        }))
}

/// `post` is `pre` after `request_kill_selected_process`.
pub open spec fn request_kill_post(pre: App, post: App) -> bool {
    &&& (process_targets(pre).len() == 0 ==> shows(post, "no process selected"@)
            && post == (App {
            input_mode: InputMode::Normal,
            status_message: post.status_message,
            ..pre
        }))
    &&& (process_targets(pre).len() > 0 ==> (post.input_mode matches
            InputMode::ConfirmProcessRemove { targets } && pid_pair_views(targets@)
            == process_targets(pre)) && post == (App {
            input_mode: post.input_mode,
            ..pre
        }))
}

/// `post` and `r` after `confirm_kill_selected_process`.
pub open spec fn confirm_kill_post(pre: App, post: App, r: Option<Vec<(u32, String)>>) -> bool {
    &&& (pre.input_mode matches InputMode::ConfirmProcessRemove { targets } ==> r == Some(
            targets,
        ) && post == (App { input_mode: InputMode::Normal, ..pre }))
    &&& (!(pre.input_mode is ConfirmProcessRemove) ==> r is None && post == pre)
}

/// `post` is `pre` after `request_remove_selected_container`.
pub open spec fn request_remove_containers_post(pre: App, post: App) -> bool {
    &&& (docker_targets(pre).len() == 0 ==> shows(post, "no containers selected"@)
            && post == (App {
            status_message: post.status_message,
            ..pre
        }))
    &&& (docker_targets(pre).len() > 0 ==> (post.input_mode matches
            InputMode::ConfirmDockerRemove { targets } && pair_views(targets@) == docker_targets(
            pre,
        )) && post == (App { input_mode: post.input_mode, ..pre }))
}

/// `post` and `r` after `confirm_docker_remove`.
pub open spec fn confirm_docker_remove_post(pre: App, post: App, r: Option<Vec<(String, String)>>) -> bool {
    &&& (pre.input_mode matches InputMode::ConfirmDockerRemove { targets } ==> r == Some(
            targets,
        ) && post == (App { input_mode: InputMode::Normal, ..pre }))
    &&& (!(pre.input_mode is ConfirmDockerRemove) ==> r is None && post == pre)
}

/// `post` is `pre` after `request_remove_selected_volumes`.
pub open spec fn request_remove_volumes_post(pre: App, post: App) -> bool {
    &&& (volume_targets(pre).len() == 0 ==> shows(post, "no volume selected"@)
            && post == (App {
            status_message: post.status_message,
            ..pre
        }))
    &&& (volume_targets(pre).len() > 0 ==> {
            let busy = in_use_among(
                volume_targets(pre),
                pre.snapshot.unwrap().volumes@,
            );
            &&& busy.len() > 0 ==> shows(
                post,
                "refusing to delete in-use volumes: "@ + join(busy, ", "@),
            ) && post == (App {
                status_message: post.status_message,
                ..pre
            })
            &&& busy.len() == 0 ==> (post.input_mode matches
                InputMode::ConfirmVolumeRemove { targets } && views(targets@) == volume_targets(
                pre,
            )) && post == (App { input_mode: post.input_mode, ..pre })
        })
}

/// `post` and `r` after `confirm_volume_remove`.
pub open spec fn confirm_volume_remove_post(pre: App, post: App, r: Option<Vec<String>>) -> bool {
    &&& (pre.input_mode matches InputMode::ConfirmVolumeRemove { targets } ==> r == Some(
            targets,
        ) && post == (App { input_mode: InputMode::Normal, ..pre }))
    &&& (!(pre.input_mode is ConfirmVolumeRemove) ==> r is None && post == pre)
}

} // verus!
