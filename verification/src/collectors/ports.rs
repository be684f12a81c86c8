//! Listening sockets turned into port bindings, and their owning processes.
use vstd::prelude::*;

use crate::models::{PortBinding, Protocol};

verus! {

/// One socket as the operating system lists it. `listening` is whether a
/// TCP socket is in the LISTEN state; UDP sockets have no state.
#[derive(Clone, Debug)]
pub struct SocketEntry {
    pub protocol: Protocol,
    pub listening: bool,
    pub local_port: u16,
    pub local_addr: String,
    /// The first process that holds the socket, if known.
    pub pid: Option<u32>,
}

/// A socket is a listening port worth showing: a TCP socket in LISTEN or any
/// UDP socket, on the wanted port when one is asked for.
pub open spec fn keeps(s: SocketEntry, port_filter: Option<u16>) -> bool {
    &&& (s.protocol == Protocol::Udp || s.listening)
    &&& match port_filter {
        Some(p) => s.local_port == p,
        None => true,
    }
}

/// `b` is the binding for socket `s`, before its owner is looked up.
pub open spec fn is_binding_of(b: PortBinding, s: SocketEntry) -> bool {
    &&& b.port == s.local_port
    &&& b.protocol == s.protocol
    &&& b.address@ == s.local_addr@
    &&& b.pid == s.pid
    &&& b.process_name is None
    &&& b.container_name is None
    &&& b.container_image is None
}

/// The sockets that are kept, in order.
pub open spec fn kept_sockets(ss: Seq<SocketEntry>, port_filter: Option<u16>) -> Seq<SocketEntry>
    decreases ss.len(),
{
    if ss.len() == 0 {
        Seq::empty()
    } else {
        let prev = kept_sockets(ss.drop_last(), port_filter);
        if keeps(ss.last(), port_filter) {
            prev.push(ss.last())
        } else {
            prev
        }
    }
}

/// The kept sockets are exactly the sockets of `ss` that are kept.
pub proof fn lemma_kept_sockets_members(ss: Seq<SocketEntry>, port_filter: Option<u16>)
    ensures
        forall|i: int| 0 <= i < kept_sockets(ss, port_filter).len() ==> {
            &&& ss.contains(#[trigger] kept_sockets(ss, port_filter)[i])
            &&& keeps(kept_sockets(ss, port_filter)[i], port_filter)
        },
        forall|j: int| 0 <= j < ss.len() && keeps(#[trigger] ss[j], port_filter)
            ==> kept_sockets(ss, port_filter).contains(ss[j]),
    decreases ss.len(),
{
    if ss.len() > 0 {
        let init = ss.drop_last();
        lemma_kept_sockets_members(init, port_filter);
        let prev = kept_sockets(init, port_filter);
        let cur = kept_sockets(ss, port_filter);
        assert forall|i: int| 0 <= i < cur.len() implies {
            &&& ss.contains(#[trigger] cur[i])
            &&& keeps(cur[i], port_filter)
        } by {
            if i < prev.len() {
                assert(cur[i] == prev[i]);
                let j = choose|j: int| 0 <= j < init.len() && init[j] == prev[i];
                assert(ss[j] == init[j]);
            } else {
                assert(cur[i] == ss.last());
                assert(ss[ss.len() - 1] == ss.last());
            }
        }
        assert forall|j: int| 0 <= j < ss.len() && keeps(#[trigger] ss[j], port_filter) implies cur.contains(
            ss[j],
        ) by {
            if j < ss.len() - 1 {
                assert(init[j] == ss[j]);
                let i = choose|i: int| 0 <= i < prev.len() && prev[i] == init[j];
                if keeps(ss.last(), port_filter) {
                    assert(cur[i] == prev[i]);
                }
            } else {
                assert(cur[prev.len() as int] == ss[j]);
            }
        }
    }
}

/// The bindings of the listening sockets, in socket order.
pub fn select_bindings(sockets: &Vec<SocketEntry>, port_filter: Option<u16>) -> (r: Vec<PortBinding>)
    ensures
        r@.len() == kept_sockets(sockets@, port_filter).len(),
        forall|i: int| 0 <= i < r@.len() ==> is_binding_of(#[trigger] r@[i], kept_sockets(sockets@, port_filter)[i]),
{
    let mut r: Vec<PortBinding> = Vec::new();
    let mut k: usize = 0;
    while k < sockets.len()
        invariant
            k <= sockets.len(),
            r@.len() == kept_sockets(sockets@.take(k as int), port_filter).len(),
            forall|i: int| 0 <= i < r@.len() ==> is_binding_of(
                #[trigger] r@[i],
                kept_sockets(sockets@.take(k as int), port_filter)[i],
            ),
        decreases sockets.len() - k,
    {
        assert(sockets@.take(k + 1).drop_last() =~= sockets@.take(k as int));
        assert(sockets@.take(k + 1).last() == sockets@[k as int]);
        let s = &sockets[k];
        let listening_ok = match s.protocol {
            Protocol::Tcp => s.listening,
            Protocol::Udp => true,
        };
        let port_ok = match port_filter {
            Some(p) => s.local_port == p,
            None => true,
        };
        if listening_ok && port_ok {
            r.push(PortBinding {
                port: s.local_port,
                protocol: s.protocol,
                address: s.local_addr.clone(),
                pid: s.pid,
                process_name: None,
                container_name: None,
                container_image: None,
            });
        }
        k = k + 1;
    }
    assert(sockets@.take(sockets.len() as int) =~= sockets@);
    r
}

/// The pids of the bindings whose process is known, in order.
pub open spec fn known_pids(bs: Seq<PortBinding>) -> Seq<u32>
    decreases bs.len(),
{
    if bs.len() == 0 {
        Seq::empty()
    } else {
        let prev = known_pids(bs.drop_last());
        match bs.last().pid {
            Some(p) => prev.push(p),
            None => prev,
        }
    }
}

/// The pids whose process names are to be looked up.
pub fn binding_pids(bindings: &Vec<PortBinding>) -> (r: Vec<u32>)
    ensures
        r@ == known_pids(bindings@),
{
    let mut r: Vec<u32> = Vec::new();
    let mut k: usize = 0;
    while k < bindings.len()
        invariant
            k <= bindings.len(),
            r@ == known_pids(bindings@.take(k as int)),
        decreases bindings.len() - k,
    {
        assert(bindings@.take(k + 1).drop_last() =~= bindings@.take(k as int));
        assert(bindings@.take(k + 1).last() == bindings@[k as int]);
        match bindings[k].pid {
            Some(p) => r.push(p),
            None => {},
        }
        k = k + 1;
    }
    assert(bindings@.take(bindings.len() as int) =~= bindings@);
    r
}

/// The name of process `pid` in a table of (pid, name): the first entry
/// for it.
pub open spec fn name_in(table: Seq<(u32, String)>, pid: u32) -> Option<Seq<char>>
    decreases table.len(),
{
    if table.len() == 0 {
        None
    } else if table[0].0 == pid {
        Some(table[0].1@)
    } else {
        name_in(table.drop_first(), pid)
    }
}

fn lookup_name(table: &Vec<(u32, String)>, pid: u32) -> (r: Option<String>)
    ensures
        match r {
            Some(n) => name_in(table@, pid) == Some(n@),
            None => name_in(table@, pid) is None,
        },
{
    let mut i: usize = 0;
    assert(table@.skip(0) =~= table@);
    while i < table.len()
        invariant
            i <= table.len(),
            name_in(table@, pid) == name_in(table@.skip(i as int), pid),
        decreases table.len() - i,
    {
        if table[i].0 == pid {
            return Some(table[i].1.clone());
        }
        assert(table@.skip(i as int).drop_first() =~= table@.skip(i + 1));
        i = i + 1;
    }
    None
}

/// `after` is `before` with its process name filled in from `table` when its
/// process is found there.
pub open spec fn named_from(before: PortBinding, after: PortBinding, table: Seq<(u32, String)>) -> bool {
    match before.pid {
        Some(pid) => match name_in(table, pid) {
            Some(n) => after == (PortBinding { process_name: after.process_name, ..before })
                && after.process_name is Some && after.process_name.unwrap()@ == n,
            None => after == before,
        },
        None => after == before,
    }
}

/// For each binding with a known process, fills in the process name found
/// for it in `names` (pid, name); bindings whose process is not found keep
/// their name.
pub fn enrich_with_process_names(bindings: &mut Vec<PortBinding>, names: &Vec<(u32, String)>)
    ensures
        final(bindings)@.len() == old(bindings)@.len(),
        forall|i: int| 0 <= i < old(bindings)@.len() ==> named_from(
            #[trigger] old(bindings)@[i],
            final(bindings)@[i],
            names@,
        ),
{
    let ghost orig = bindings@;
    let mut k: usize = 0;
    while k < bindings.len()
        invariant
            k <= bindings.len(),
            bindings@.len() == orig.len(),
            forall|i: int| 0 <= i < k ==> named_from(#[trigger] orig[i], bindings@[i], names@),
            forall|i: int| k <= i < orig.len() ==> #[trigger] bindings@[i] == orig[i],
        decreases bindings.len() - k,
    {
        match bindings[k].pid {
            None => {},
            Some(pid) => match lookup_name(names, pid) {
                None => {},
                Some(name) => {
                    let ghost before = bindings@;
                    let mut b = bindings.remove(k);
                    b.process_name = Some(name);
                    bindings.insert(k, b);
                    assert(bindings@ =~= before.update(k as int, b));
                },
            },
        }
        k = k + 1;
    }
}

} // verus!
