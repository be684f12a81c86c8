//! Containers as the Docker daemon lists them, turned into dashboard rows.
use vstd::prelude::*;

use crate::models::DockerContainer;
use crate::text::{after_last, after_last_char, owned, strip_leading, strip_leading_char};

verus! {

/// The state of a container, as the daemon reports it.
#[derive(Clone, Copy, PartialEq, Eq, Debug, Structural)]
pub enum ContainerState {
    Empty,
    Created,
    Running,
    Paused,
    Restarting,
    Exited,
    Removing,
    Dead,
    Stopping,
}

/// One published port of a container.
#[derive(Clone, Debug)]
pub struct PortSummary {
    pub public_port: Option<u16>,
    pub private_port: u16,
}

/// What the container listing says of one container.
#[derive(Clone, Debug)]
pub struct ContainerSummary {
    pub id: Option<String>,
    pub names: Option<Vec<String>>,
    pub image: Option<String>,
    pub state: Option<ContainerState>,
    pub ports: Option<Vec<PortSummary>>,
}

/// A container's display name: its first name without leading slashes, or
/// `unknown`.
pub open spec fn display_name(names: Option<Vec<String>>) -> Seq<char> {
    match names {
        Some(ns) => if ns@.len() > 0 {
            strip_leading(ns@[0]@, '/')
        } else {
            "unknown"@
        },
        None => "unknown"@,
    }
}

/// A container's id, or its display name when the listing gives no id.
pub open spec fn summary_id(s: ContainerSummary) -> Seq<char> {
    match s.id {
        Some(id) => id@,
        None => display_name(s.names),
    }
}

/// The label of a container state.
pub open spec fn status_label(state: Option<ContainerState>) -> Seq<char> {
    match state {
        Some(ContainerState::Running) => "running"@,
        Some(ContainerState::Exited) => "exited"@,
        Some(ContainerState::Created) => "created"@,
        Some(ContainerState::Paused) => "paused"@,
        Some(ContainerState::Restarting) => "restarting"@,
        Some(ContainerState::Removing) => "removing"@,
        Some(ContainerState::Dead) => "dead"@,
        Some(ContainerState::Stopping) => "stopping"@,
        Some(ContainerState::Empty) | None => "unknown"@,
    }
}

/// The published (host) ports among `ps`, in order.
pub open spec fn public_ports(ps: Seq<PortSummary>) -> Seq<u16>
    decreases ps.len(),
{
    if ps.len() == 0 {
        Seq::empty()
    } else {
        let prev = public_ports(ps.drop_last());
        match ps.last().public_port {
            Some(p) => prev.push(p),
            None => prev,
        }
    }
}

/// The host ports of a container.
pub open spec fn summary_host_ports(s: ContainerSummary) -> Seq<u16> {
    match s.ports {
        Some(ps) => public_ports(ps@),
        None => Seq::empty(),
    }
}

/// An image name without its registry and repository path.
pub open spec fn image_short(image: Option<String>) -> Seq<char> {
    after_last(
        match image {
            Some(i) => i@,
            None => "unknown"@,
        },
        '/',
    )
}

/// `c` is the dashboard row for the listed container `s`, before statistics.
pub open spec fn is_row_of(c: DockerContainer, s: ContainerSummary) -> bool {
    &&& c.id@ == summary_id(s)
    &&& c.name@ == display_name(s.names)
    &&& c.image@ == image_short(s.image)
    &&& c.status@ == status_label(s.state)
    &&& c.host_ports@ == summary_host_ports(s)
    &&& c.cpu_percent_tenths is None
    &&& c.memory_bytes is None
}

/// The display name from a name list.
pub fn name_from(names: &Option<Vec<String>>) -> (r: String)
    ensures
        r@ == display_name(*names),
{
    match names {
        Some(ns) => if ns.len() > 0 {
            strip_leading_char(ns[0].as_str(), '/')
        } else {
            owned("unknown")
        },
        None => owned("unknown"),
    }
}

/// A container's display name.
pub fn container_name(summary: &ContainerSummary) -> (r: String)
    ensures
        r@ == display_name(summary.names),
{
    name_from(&summary.names)
}

/// A container's id, or its display name when the listing gives no id.
pub fn container_id(summary: &ContainerSummary) -> (r: String)
    ensures
        r@ == summary_id(*summary),
{
    match &summary.id {
        Some(id) => id.clone(),
        None => container_name(summary),
    }
}

/// The label of a container state.
pub fn container_status(state: Option<ContainerState>) -> (r: String)
    ensures
        r@ == status_label(state),
{
    match state {
        Some(ContainerState::Running) => owned("running"),
        Some(ContainerState::Exited) => owned("exited"),
        Some(ContainerState::Created) => owned("created"),
        Some(ContainerState::Paused) => owned("paused"),
        Some(ContainerState::Restarting) => owned("restarting"),
        Some(ContainerState::Removing) => owned("removing"),
        Some(ContainerState::Dead) => owned("dead"),
        Some(ContainerState::Empty) | None => owned("unknown"),
        Some(ContainerState::Stopping) => owned("stopping"),
    }
}

/// The host ports a container publishes.
pub fn extract_host_ports(summary: &ContainerSummary) -> (r: Vec<u16>)
    ensures
        r@ == summary_host_ports(*summary),
{
    let mut ports: Vec<u16> = Vec::new();
    match &summary.ports {
        None => ports,
        Some(list) => {
            let mut i: usize = 0;
            while i < list.len()
                invariant
                    i <= list.len(),
                    ports@ == public_ports(list@.take(i as int)),
                decreases list.len() - i,
            {
                assert(list@.take(i + 1).drop_last() =~= list@.take(i as int));
                match list[i].public_port {
                    Some(p) => ports.push(p),
                    None => {},
                }
                i = i + 1;
            }
            assert(list@.take(list.len() as int) =~= list@);
            ports
        },
    }
}

/// An image name without its registry and repository path.
pub fn short_image(image: &str) -> (r: String)
    ensures
        r@ == after_last(image@, '/'),
{
    after_last_char(image, '/')
}

/// The dashboard row for one listed container, before statistics.
pub fn summary_to_container(summary: &ContainerSummary) -> (r: DockerContainer)
    ensures
        is_row_of(r, *summary),
{
    let image = match &summary.image {
        Some(i) => short_image(i.as_str()),
        None => short_image("unknown"),
    };
    DockerContainer {
        id: container_id(summary),
        name: container_name(summary),
        image,
        status: container_status(summary.state),
        host_ports: extract_host_ports(summary),
        cpu_percent_tenths: None,
        memory_bytes: None,
    }
}

/// The dashboard rows for the listed containers, in listing order.
pub fn containers_from_summaries(summaries: &Vec<ContainerSummary>) -> (r: Vec<DockerContainer>)
    ensures
        r@.len() == summaries@.len(),
        forall|i: int| 0 <= i < r@.len() ==> is_row_of(#[trigger] r@[i], summaries@[i]),
{
    let mut r: Vec<DockerContainer> = Vec::new();
    let mut i: usize = 0;
    while i < summaries.len()
        invariant
            i <= summaries.len(),
            r@.len() == i,
            forall|k: int| 0 <= k < i ==> is_row_of(#[trigger] r@[k], summaries@[k]),
        decreases summaries.len() - i,
    {
        r.push(summary_to_container(&summaries[i]));
        i = i + 1;
    }
    r
}

/// The running containers, whose statistics are worth fetching: (row, id).
pub open spec fn running_rows(cs: Seq<DockerContainer>) -> Seq<(usize, Seq<char>)>
    decreases cs.len(),
{
    if cs.len() == 0 {
        Seq::empty()
    } else {
        let prev = running_rows(cs.drop_last());
        if cs.last().status@ == "running"@ {
            prev.push(((cs.len() - 1) as usize, cs.last().id@))
        } else {
            prev
        }
    }
}

/// Every running row points at a container of the list whose status is
/// `running`.
pub proof fn lemma_running_rows_are_running(cs: Seq<DockerContainer>)
    requires
        cs.len() <= usize::MAX,
    ensures
        forall|k: int| 0 <= k < running_rows(cs).len() ==> {
            &&& (#[trigger] running_rows(cs)[k]).0 < cs.len()
            &&& cs[running_rows(cs)[k].0 as int].status@ == "running"@
        },
    decreases cs.len(),
{
    if cs.len() > 0 {
        let init = cs.drop_last();
        lemma_running_rows_are_running(init);
        let prev = running_rows(init);
        let cur = running_rows(cs);
        assert forall|k: int| 0 <= k < cur.len() implies {
            &&& (#[trigger] cur[k]).0 < cs.len()
            &&& cs[cur[k].0 as int].status@ == "running"@
        } by {
            if k < prev.len() {
                assert(cur[k] == prev[k]);
                assert(cs[prev[k].0 as int] == init[prev[k].0 as int]);
            } else if cs.last().status@ == "running"@ {
                assert(cur == prev.push(((cs.len() - 1) as usize, cs.last().id@)));
                assert(cur[k].0 == cs.len() - 1);
                assert(cs[cs.len() - 1] == cs.last());
            }
        }
    }
}

/// The rows and ids of the running containers.
pub fn stats_requests(containers: &Vec<DockerContainer>) -> (r: Vec<(usize, String)>)
    ensures
        r@.map_values(|p: (usize, String)| (p.0, p.1@)) == running_rows(containers@),
{
    let mut r: Vec<(usize, String)> = Vec::new();
    let mut i: usize = 0;
    let running = owned("running");
    while i < containers.len()
        invariant
            i <= containers.len(),
            running@ == "running"@,
            r@.map_values(|p: (usize, String)| (p.0, p.1@)) == running_rows(containers@.take(i as int)),
        decreases containers.len() - i,
    {
        assert(containers@.take(i + 1).drop_last() =~= containers@.take(i as int));
        assert(containers@.take(i + 1).last() == containers@[i as int]);
        if crate::marks::str_eq(containers[i].status.as_str(), running.as_str()) {
            let ghost before = r@;
            r.push((i, containers[i].id.clone()));
            assert(r@.map_values(|p: (usize, String)| (p.0, p.1@)) =~= before.map_values(
                |p: (usize, String)| (p.0, p.1@),
            ).push((i, containers@[i as int].id@)));
        }
        i = i + 1;
    }
    assert(containers@.take(containers.len() as int) =~= containers@);
    r
}

/// The rows after the fetched statistics are filled in, one entry at a time:
/// (row, CPU in tenths of a percent and memory in bytes, when fetched).
pub open spec fn with_stats(cs: Seq<DockerContainer>, stats: Seq<(usize, Option<(u32, u64)>)>) -> Seq<DockerContainer>
    decreases stats.len(),
{
    if stats.len() == 0 {
        cs
    } else {
        let prev = with_stats(cs, stats.drop_last());
        match stats.last().1 {
            Some((cpu, mem)) => prev.update(
                stats.last().0 as int,
                DockerContainer {
                    cpu_percent_tenths: Some(cpu),
                    memory_bytes: Some(mem),
                    ..prev[stats.last().0 as int]
                },
            ),
            None => prev,
        }
    }
}

/// A row whose CPU and memory are both known or both unknown, known only
/// for a running container, and whose image name holds no `/`.
pub open spec fn consistent_row(c: DockerContainer) -> bool {
    &&& (c.cpu_percent_tenths is Some <==> c.memory_bytes is Some)
    &&& (c.cpu_percent_tenths is Some ==> c.status@ == "running"@)
    &&& !c.image@.contains('/')
}

/// Filling in statistics for running rows keeps every row consistent, and
/// changes nothing but CPU and memory.
pub proof fn lemma_with_stats_consistent(cs: Seq<DockerContainer>, stats: Seq<(usize, Option<(u32, u64)>)>)
    requires
        forall|i: int| 0 <= i < cs.len() ==> consistent_row(#[trigger] cs[i]),
        forall|k: int| 0 <= k < stats.len() ==> {
            &&& (#[trigger] stats[k]).0 < cs.len()
            &&& cs[stats[k].0 as int].status@ == "running"@
        },
    ensures
        with_stats(cs, stats).len() == cs.len(),
        forall|i: int| 0 <= i < cs.len() ==> {
            &&& consistent_row(#[trigger] with_stats(cs, stats)[i])
            &&& with_stats(cs, stats)[i].status == cs[i].status
            &&& with_stats(cs, stats)[i].name == cs[i].name
        },
    decreases stats.len(),
{
    if stats.len() > 0 {
        let init = stats.drop_last();
        assert forall|k: int| 0 <= k < init.len() implies {
            &&& (#[trigger] init[k]).0 < cs.len()
            &&& cs[init[k].0 as int].status@ == "running"@
        } by {
            assert(init[k] == stats[k]);
        }
        lemma_with_stats_consistent(cs, init);
        let prev = with_stats(cs, init);
        assert(stats.last() == stats[stats.len() - 1]);
    }
}

/// Fills in the fetched statistics.
pub fn apply_stats(containers: Vec<DockerContainer>, stats: &Vec<(usize, Option<(u32, u64)>)>) -> (r: Vec<DockerContainer>)
    requires
        forall|k: int| 0 <= k < stats@.len() ==> (#[trigger] stats@[k]).0 < containers@.len(),
    ensures
        r@ == with_stats(containers@, stats@),
{
    let mut cs = containers;
    let mut k: usize = 0;
    while k < stats.len()
        invariant
            k <= stats.len(),
            cs@ == with_stats(containers@, stats@.take(k as int)),
            cs@.len() == containers@.len(),
            forall|j: int| 0 <= j < stats@.len() ==> (#[trigger] stats@[j]).0 < containers@.len(),
        decreases stats.len() - k,
    {
        assert(stats@.take(k + 1).drop_last() =~= stats@.take(k as int));
        assert(stats@.take(k + 1).last() == stats@[k as int]);
        let (index, fetched) = stats[k];
        match fetched {
            Some((cpu, mem)) => {
                let ghost before = cs@;
                let mut c = cs.remove(index);
                c.cpu_percent_tenths = Some(cpu);
                c.memory_bytes = Some(mem);
                cs.insert(index, c);
                assert(cs@ =~= before.update(index as int, c));
            },
            None => {},
        }
        k = k + 1;
    }
    assert(stats@.take(stats.len() as int) =~= stats@);
    cs
}

} // verus!
