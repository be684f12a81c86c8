//! Putting one snapshot together from what each collector returned.
use vstd::prelude::*;

use crate::app::Snapshot;
use crate::models::{DevProcess, DockerContainer, DockerVolume, PortBinding, SystemStats};
use crate::text::{owned, push_str};

verus! {

/// The bindings whose port is not ignored, in order.
pub open spec fn unignored(bs: Seq<PortBinding>, ignored: Seq<u16>) -> Seq<PortBinding>
    decreases bs.len(),
{
    if bs.len() == 0 {
        Seq::empty()
    } else {
        let prev = unignored(bs.drop_last(), ignored);
        if ignored.contains(bs.last().port) {
            prev
        } else {
            prev.push(bs.last())
        }
    }
}

/// Drops the bindings on ignored ports.
pub fn drop_ignored_ports(ports: Vec<PortBinding>, ignored: &Vec<u16>) -> (r: Vec<PortBinding>)
    ensures
        r@ == unignored(ports@, ignored@),
{
    let ghost input = ports@;
    let mut rest = ports;
    let mut kept: Vec<PortBinding> = Vec::new();
    let ghost mut done: int = 0;
    assert(input.subrange(0, 0) =~= Seq::<PortBinding>::empty());
    assert(input.subrange(0, input.len() as int) =~= input);
    while rest.len() > 0
        invariant
            0 <= done <= input.len(),
            rest@ == input.subrange(done, input.len() as int),
            kept@ == unignored(input.subrange(0, done), ignored@),
        decreases rest.len(),
    {
        assert(rest@[0] == input[done]);
        let b = rest.remove(0);
        let mut hidden = false;
        let mut j: usize = 0;
        while j < ignored.len()
            invariant
                j <= ignored.len(),
                hidden == (exists|k: int| 0 <= k < j && ignored@[k] == b.port),
            decreases ignored.len() - j,
        {
            if ignored[j] == b.port {
                hidden = true;
            }
            j = j + 1;
        }
        proof {
            assert(input.subrange(0, done + 1) =~= input.subrange(0, done).push(b));
            assert(input.subrange(0, done + 1).drop_last() =~= input.subrange(0, done));
            if ignored@.contains(b.port) {
                let k = choose|k: int| 0 <= k < ignored@.len() && ignored@[k] == b.port;
                assert(hidden);
            }
        }
        if !hidden {
            kept.push(b);
        }
        proof {
            done = done + 1;
            assert(rest@ =~= input.subrange(done, input.len() as int));
        }
    }
    kept
}

/// The first container that publishes `port` on the host.
pub open spec fn publisher(cs: Seq<DockerContainer>, port: u16) -> Option<int>
    decreases cs.len(),
{
    if cs.len() == 0 {
        None
    } else {
        match publisher(cs.drop_last(), port) {
            Some(i) => Some(i),
            None => if cs.last().host_ports@.contains(port) {
                Some(cs.len() - 1)
            } else {
                None
            },
        }
    }
}

/// `after` is `before` with the container that publishes its port, if any.
pub open spec fn attached(before: PortBinding, after: PortBinding, cs: Seq<DockerContainer>) -> bool {
    match publisher(cs, before.port) {
        Some(i) => {
            &&& after == (PortBinding {
                container_name: after.container_name,
                container_image: after.container_image,
                ..before
            })
            &&& after.container_name is Some && after.container_name.unwrap()@ == cs[i].name@
            &&& after.container_image is Some && after.container_image.unwrap()@ == cs[i].image@
        },
        None => after == before,
    }
}

fn find_publisher(cs: &Vec<DockerContainer>, port: u16) -> (r: Option<usize>)
    ensures
        match r {
            Some(i) => publisher(cs@, port) == Some(i as int) && i < cs@.len(),
            None => publisher(cs@, port) is None,
        },
{
    let mut i: usize = 0;
    while i < cs.len()
        invariant
            i <= cs.len(),
            publisher(cs@.take(i as int), port) is None,
        decreases cs.len() - i,
    {
        assert(cs@.take(i + 1).drop_last() =~= cs@.take(i as int));
        assert(cs@.take(i + 1).last() == cs@[i as int]);
        let ports = &cs[i].host_ports;
        let mut j: usize = 0;
        let mut found = false;
        while j < ports.len()
            invariant
                j <= ports.len(),
                found == (exists|k: int| 0 <= k < j && ports@[k] == port),
            decreases ports.len() - j,
        {
            if ports[j] == port {
                found = true;
            }
            j = j + 1;
        }
        proof {
            if ports@.contains(port) {
                let k = choose|k: int| 0 <= k < ports@.len() && ports@[k] == port;
                assert(found);
            }
        }
        if found {
            proof { lemma_publisher_prefix(cs@, port, (i + 1) as int); }
            return Some(i);
        }
        i = i + 1;
    }
    assert(cs@.take(cs.len() as int) =~= cs@);
    None
}

proof fn lemma_publisher_prefix(cs: Seq<DockerContainer>, port: u16, n: int)
    requires
        0 <= n <= cs.len(),
        publisher(cs.take(n), port) is Some,
    ensures
        publisher(cs, port) == publisher(cs.take(n), port),
    decreases cs.len() - n,
{
    if n < cs.len() {
        assert(cs.take(n + 1).drop_last() =~= cs.take(n));
        lemma_publisher_prefix(cs, port, n + 1);
    } else {
        assert(cs.take(n) =~= cs);
    }
}

/// Marks each binding with the container that publishes its port.
pub fn attach_docker(ports: &mut Vec<PortBinding>, containers: &Vec<DockerContainer>)
    ensures
        final(ports)@.len() == old(ports)@.len(),
        forall|i: int| 0 <= i < old(ports)@.len() ==> attached(
            #[trigger] old(ports)@[i],
            final(ports)@[i],
            containers@,
        ),
{
    let ghost orig = ports@;
    let mut k: usize = 0;
    while k < ports.len()
        invariant
            k <= ports.len(),
            ports@.len() == orig.len(),
            forall|i: int| 0 <= i < k ==> attached(#[trigger] orig[i], ports@[i], containers@),
            forall|i: int| k <= i < orig.len() ==> #[trigger] ports@[i] == orig[i],
        decreases ports.len() - k,
    {
        match find_publisher(containers, ports[k].port) {
            None => {},
            Some(c) => {
                let ghost before = ports@;
                let mut b = ports.remove(k);
                b.container_name = Some(containers[c].name.clone());
                b.container_image = Some(containers[c].image.clone());
                ports.insert(k, b);
                assert(ports@ =~= before.update(k as int, b));
            },
        }
        k = k + 1;
    }
}

/// The warning shown when volumes could not be listed.
pub open spec fn volumes_warning(error: Seq<char>) -> Seq<char> {
    "volumes unavailable: "@ + error
}

/// Puts a snapshot together. Without Docker there are no containers and no
/// volumes, and the Docker error is kept; with Docker the ports are marked
/// with their containers, and a failure to list volumes becomes a warning.
/// `volumes` is `None` when volumes were not asked for.
pub fn assemble_snapshot(
    ports: Vec<PortBinding>,
    processes: Vec<DevProcess>,
    stats: SystemStats,
    docker: Result<Vec<DockerContainer>, String>,
    volumes: Option<Result<Vec<DockerVolume>, String>>,
) -> (r: (Snapshot, Option<String>))
    ensures
        r.0.processes == processes,
        r.0.stats == stats,
        r.0.ports@.len() == ports@.len(),
        match docker {
            Err(e) => {
                &&& r.0.ports == ports
                &&& r.0.containers@.len() == 0
                &&& r.0.docker_error == Some(e)
                &&& r.0.volumes@.len() == 0
                &&& r.1 is None
            },
            Ok(cs) => {
                &&& forall|i: int| 0 <= i < ports@.len() ==> attached(
                    #[trigger] ports@[i],
                    r.0.ports@[i],
                    cs@,
                )
                &&& r.0.containers == cs
                &&& r.0.docker_error is None
                &&& match volumes {
                    Some(Ok(vs)) => r.0.volumes == vs && r.1 is None,
                    Some(Err(e)) => r.0.volumes@.len() == 0 && r.1 is Some && r.1.unwrap()@
                        == volumes_warning(e@),
                    None => r.0.volumes@.len() == 0 && r.1 is None,
                }
            },
        },
{
    let mut ports = ports;
    match docker {
        Err(e) => (
            Snapshot {
                ports,
                processes,
                containers: Vec::new(),
                docker_error: Some(e),
                volumes: Vec::new(),
                stats,
            },
            None,
        ),
        Ok(containers) => {
            attach_docker(&mut ports, &containers);
            let (volumes, warning) = match volumes {
                Some(Ok(vs)) => (vs, None),
                Some(Err(e)) => {
                    let mut msg = owned("volumes unavailable: ");
                    push_str(&mut msg, e.as_str());
                    (Vec::new(), Some(msg))
                },
                None => (Vec::new(), None),
            };
            (
                Snapshot { ports, processes, containers, docker_error: None, volumes, stats },
                warning,
            )
        },
    }
}

} // verus!
