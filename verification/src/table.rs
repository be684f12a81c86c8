//! Text of the dashboard's table cells.
use vstd::prelude::*;

use crate::models::{PortBinding, Protocol};
use crate::text::{
    chars_of, dec, decimals, digit_char, join, join_decimals, join_strings, owned, push_char,
    push_dec, push_str, views,
};

verus! {

/// Who owns a listening port: its container when known, else its process,
/// else `-`.
pub open spec fn port_owner(b: PortBinding) -> Seq<char> {
    match b.container_name {
        Some(c) => c@,
        None => match b.process_name {
            Some(p) => p@,
            None => "-"@,
        },
    }
}

/// The OWNER column of the Ports table.
pub fn format_port_owner(binding: &PortBinding) -> (r: String)
    ensures
        r@ == port_owner(*binding),
{
    match &binding.container_name {
        Some(c) => c.clone(),
        None => match &binding.process_name {
            Some(p) => p.clone(),
            None => owned("-"),
        },
    }
}

/// A protocol's name.
pub open spec fn protocol_text(protocol: Protocol) -> Seq<char> {
    match protocol {
        Protocol::Tcp => "tcp"@,
        Protocol::Udp => "udp"@,
    }
}

/// The PROTO column.
pub fn format_protocol(protocol: Protocol) -> (r: String)
    ensures
        r@ == protocol_text(protocol),
{
    match protocol {
        Protocol::Tcp => owned("tcp"),
        Protocol::Udp => owned("udp"),
    }
}

/// A pid in decimal, or `-`.
pub open spec fn pid_text(pid: Option<u32>) -> Seq<char> {
    match pid {
        Some(p) => dec(p as nat),
        None => "-"@,
    }
}

/// The PID column: the pid, or `-`.
pub fn format_pid(pid: Option<u32>) -> (r: String)
    ensures
        r@ == pid_text(pid),
{
    match pid {
        Some(p) => crate::text::decimal(p as u64),
        None => owned("-"),
    }
}

/// Ports joined with `", "`, or `-` when there are none.
pub open spec fn host_ports_text(ports: Seq<u16>) -> Seq<char> {
    if ports.len() == 0 {
        "-"@
    } else {
        join(decimals(ports), ", "@)
    }
}

/// The PORTS column: the host ports joined with `", "`, or `-`.
pub fn format_host_ports(ports: &Vec<u16>) -> (r: String)
    ensures
        r@ == host_ports_text(ports@),
{
    if ports.len() == 0 {
        return owned("-");
    }
    join_decimals(ports)
}

/// `n / unit` in tenths, rounded to nearest with ties to even.
pub open spec fn rounded_tenths(n: nat, unit: nat) -> nat {
    let q = (n * 10) / unit;
    let r = (n * 10) % unit;
    if 2 * r > unit || (2 * r == unit && q % 2 == 1) {
        q + 1
    } else {
        q
    }
}

/// A number of tenths written with one decimal: `123` is `12.3`.
pub open spec fn tenths_text(t: nat) -> Seq<char> {
    dec(t / 10) + seq!['.', digit_char(t % 10)]
}

/// `n / unit` in tenths, rounded to nearest with ties to even.
pub fn round_tenths(n: u64, unit: u64) -> (r: u64)
    requires
        unit >= 16,
    ensures
        r == rounded_tenths(n as nat, unit as nat),
{
    let big: u128 = n as u128 * 10;
    let q: u128 = big / unit as u128;
    let rem: u128 = big % unit as u128;
    assert(q <= big / 16) by {
        vstd::arithmetic::div_mod::lemma_div_is_ordered_by_denominator(big as int, 16, unit as int);
    }
    assert(q < 0xffff_ffff_ffff_fff0) by (nonlinear_arith)
        requires
            q <= big / 16,
            big == n as u128 * 10,
            n <= 0xffff_ffff_ffff_ffff,
    ;
    let t: u128 = if 2 * rem > unit as u128 || (2 * rem == unit as u128 && q % 2 == 1) {
        q + 1
    } else {
        q
    };
    t as u64
}

/// Appends `t` tenths with one decimal.
pub fn push_tenths(out: &mut String, t: u64)
    ensures
        final(out)@ == old(out)@ + tenths_text(t as nat),
{
    push_dec(out, t / 10);
    push_char(out, '.');
    let d: u8 = (t % 10) as u8;
    push_char(out, (48u8 + d) as char);
    assert(final(out)@ =~= old(out)@ + tenths_text(t as nat));
}

/// Bytes in a mebibyte.
pub const BYTES_IN_MB: u64 = 1048576;

/// Bytes in a gibibyte.
pub const BYTES_IN_GB: u64 = 1073741824;

/// Memory in mebibytes with one decimal, then ` MB`.
pub open spec fn memory_text(bytes: u64) -> Seq<char> {
    tenths_text(rounded_tenths(bytes as nat, BYTES_IN_MB as nat)) + " MB"@
}

/// Memory in mebibytes, or `-` when unknown.
pub open spec fn optional_memory_text(bytes: Option<u64>) -> Seq<char> {
    match bytes {
        Some(b) => memory_text(b),
        None => "-"@,
    }
}

/// Memory in mebibytes with one decimal, then ` MB`.
pub fn format_memory_mb(bytes: u64) -> (r: String)
    ensures
        r@ == memory_text(bytes),
{
    let mut out = String::new();
    push_tenths(&mut out, round_tenths(bytes, BYTES_IN_MB));
    push_str(&mut out, " MB");
    assert(out@ =~= tenths_text(rounded_tenths(bytes as nat, BYTES_IN_MB as nat)) + " MB"@);
    out
}

/// Memory in mebibytes, or `-` when unknown.
pub fn format_optional_memory(bytes: Option<u64>) -> (r: String)
    ensures
        r@ == optional_memory_text(bytes),
{
    match bytes {
        Some(b) => format_memory_mb(b),
        None => owned("-"),
    }
}

/// A process's CPU usage (tenths of a percent) as `12.3 %`.
pub open spec fn cpu_text(tenths: u32) -> Seq<char> {
    tenths_text(tenths as nat) + " %"@
}

/// A container's CPU usage (tenths of a percent) as `12.3%`, or `-`.
pub open spec fn optional_cpu_text(tenths: Option<u32>) -> Seq<char> {
    match tenths {
        Some(t) => tenths_text(t as nat) + "%"@,
        None => "-"@,
    }
}

/// A process's CPU usage (tenths of a percent) as `12.3 %`.
pub fn format_cpu(tenths: u32) -> (r: String)
    ensures
        r@ == cpu_text(tenths),
{
    let mut out = String::new();
    push_tenths(&mut out, tenths as u64);
    push_str(&mut out, " %");
    assert(out@ =~= tenths_text(tenths as nat) + " %"@);
    out
}

/// A container's CPU usage (tenths of a percent) as `12.3%`, or `-`.
pub fn format_optional_cpu(tenths: Option<u32>) -> (r: String)
    ensures
        r@ == optional_cpu_text(tenths),
{
    match tenths {
        Some(t) => {
            let mut out = String::new();
            push_tenths(&mut out, t as u64);
            push_str(&mut out, "%");
            assert(out@ =~= tenths_text(t as nat) + "%"@);
            out
        },
        None => owned("-"),
    }
}

/// `text` cut to at most `max_len` characters: longer text keeps its first
/// `max_len - 3` characters followed by `...`.
pub open spec fn truncated(text: Seq<char>, max_len: nat) -> Seq<char> {
    if text.len() <= max_len {
        text
    } else {
        text.take(if max_len >= 3 {
            max_len - 3
        } else {
            0
        }) + "..."@
    }
}

/// Cuts `text` to at most `max_len` characters, marking the cut with `...`.
pub fn truncate_text(text: &str, max_len: usize) -> (r: String)
    ensures
        r@ == truncated(text@, max_len as nat),
{
    let v = chars_of(text);
    if v.len() <= max_len {
        return owned(text);
    }
    let keep: usize = if max_len >= 3 {
        max_len - 3
    } else {
        0
    };
    let mut out = String::new();
    let mut i: usize = 0;
    while i < keep
        invariant
            i <= keep,
            keep < v.len(),
            v@ == text@,
            out@ == v@.take(i as int),
        decreases keep - i,
    {
        push_char(&mut out, v[i]);
        assert(v@.take(i + 1) =~= v@.take(i as int).push(v@[i as int]));
        i = i + 1;
    }
    push_str(&mut out, "...");
    out
}

/// The mark in front of a row's name.
pub open spec fn mark_symbol(marked: bool) -> Seq<char> {
    if marked {
        "●"@
    } else {
        "○"@
    }
}

/// A row's name with its mark: `● name` or `○ name`.
pub fn marked_name(marked: bool, name: &str) -> (r: String)
    ensures
        r@ == mark_symbol(marked) + " "@ + name@,
{
    let mut out = if marked {
        owned("●")
    } else {
        owned("○")
    };
    push_str(&mut out, " ");
    push_str(&mut out, name);
    out
}

/// `yes` or `no`.
pub open spec fn in_use_text(in_use: bool) -> Seq<char> {
    if in_use {
        "yes"@
    } else {
        "no"@
    }
}

/// The IN USE column.
pub fn format_in_use(in_use: bool) -> (r: String)
    ensures
        r@ == in_use_text(in_use),
{
    if in_use {
        owned("yes")
    } else {
        owned("no")
    }
}

/// Names joined with `", "`, or `-` when there are none.
pub open spec fn container_names_text(names: Seq<String>) -> Seq<char> {
    if names.len() == 0 {
        "-"@
    } else {
        join(views(names), ", "@)
    }
}

/// The CONTAINERS column of the Volumes table: the names joined with `", "`,
/// or `-`.
pub fn format_container_names(names: &Vec<String>) -> (r: String)
    ensures
        r@ == container_names_text(names@),
{
    if names.len() == 0 {
        return owned("-");
    }
    join_strings(names, ", ")
}

/// Rows left for data in a table area `height` rows tall (borders, header
/// and its margin take four).
pub fn viewport_rows(height: u16) -> (r: usize)
    ensures
        r == (if height >= 4 {
            height - 4
        } else {
            0
        }),
{
    if height >= 4 {
        (height - 4) as usize
    } else {
        0
    }
}

/// A table's title: its name and the selected row out of the total, counted
/// from one.
pub fn table_title(name: &str, selected_row: usize, total: usize) -> (r: String)
    requires
        selected_row < usize::MAX,
    ensures
        r@ == name@ + " ["@ + dec((selected_row + 1) as nat) + "/"@ + dec(total as nat) + "]"@,
{
    let mut out = owned(name);
    push_str(&mut out, " [");
    push_dec(&mut out, (selected_row + 1) as u64);
    push_str(&mut out, "/");
    push_dec(&mut out, total as u64);
    push_str(&mut out, "]");
    out
}

} // verus!
