//! Text of the dashboard's header, tab bar and footer.
use vstd::prelude::*;

use crate::actions::pair_views;
use crate::app::{search_status_text, App, InputMode, Tab};
use crate::search::app_matches;
use crate::table::{rounded_tenths, round_tenths, push_tenths, tenths_text, BYTES_IN_GB};
use crate::text::{dec, owned, push_dec, push_str, trim};

verus! {

/// An integer in decimal, with a minus sign when negative.
pub open spec fn int_text(i: int) -> Seq<char> {
    if i < 0 {
        "-"@ + dec((-i) as nat)
    } else {
        dec(i as nat)
    }
}

/// The header line.
pub open spec fn header_line(app: App) -> Seq<char> {
    match app.last_error {
        Some(e) => "Light Stripe | ERROR: "@ + e@,
        None => match app.snapshot {
            Some(s) => "Light Stripe | RAM "@ + tenths_text(
                rounded_tenths(s.stats.used_memory as nat, BYTES_IN_GB as nat),
            ) + "/"@ + tenths_text(rounded_tenths(s.stats.total_memory as nat, BYTES_IN_GB as nat))
                + " GB | CPU "@ + tenths_text(s.stats.global_cpu_usage_tenths as nat) + "%"@
                + match s.stats.cpu_temp_c {
                Some(t) => " "@ + int_text(t as int) + "°C"@,
                None => Seq::empty(),
            },
            None => "Light Stripe | Loading..."@,
        },
    }
}

/// The header line: the current error, or memory, CPU and temperature, or
/// a note that the first refresh is running.
pub fn header_text(app: &App) -> (r: String)
    ensures
        r@ == header_line(*app),
{
    match &app.last_error {
        Some(e) => {
            let mut out = owned("Light Stripe | ERROR: ");
            push_str(&mut out, e.as_str());
            out
        },
        None => match &app.snapshot {
            Some(s) => {
                let mut out = owned("Light Stripe | RAM ");
                push_tenths(&mut out, round_tenths(s.stats.used_memory, BYTES_IN_GB));
                push_str(&mut out, "/");
                push_tenths(&mut out, round_tenths(s.stats.total_memory, BYTES_IN_GB));
                push_str(&mut out, " GB | CPU ");
                push_tenths(&mut out, s.stats.global_cpu_usage_tenths as u64);
                push_str(&mut out, "%");
                let ghost before = out@;
                match s.stats.cpu_temp_c {
                    Some(t) => {
                        push_str(&mut out, " ");
                        if t < 0 {
                            push_str(&mut out, "-");
                            push_dec(&mut out, (0 - (t as i64)) as u64);
                        } else {
                            push_dec(&mut out, t as u64);
                        }
                        push_str(&mut out, "°C");
                        assert(out@ =~= before + (" "@ + int_text(t as int) + "°C"@));
                    },
                    None => {
                        assert(out@ =~= before + Seq::<char>::empty());
                    },
                }
                out
            },
            None => owned("Light Stripe | Loading..."),
        },
    }
}

/// A tab's label in the tab bar; the active one is pointed at.
pub open spec fn tab_label_text(tab: Tab, active: bool) -> Seq<char> {
    (if active {
        "▶ "@
    } else {
        "  "@
    }) + match tab {
        Tab::Ports => "1:Ports"@,
        Tab::Processes => "2:DEV Processes"@,
        Tab::Docker => "3:Docker"@,
        Tab::Volumes => "4:Volumes"@,
    }
}

/// A tab's label in the tab bar.
pub fn tab_label(tab: Tab, active: bool) -> (r: String)
    ensures
        r@ == tab_label_text(tab, active),
{
    let mut out = if active {
        owned("▶ ")
    } else {
        owned("  ")
    };
    match tab {
        Tab::Ports => push_str(&mut out, "1:Ports"),
        Tab::Processes => push_str(&mut out, "2:DEV Processes"),
        Tab::Docker => push_str(&mut out, "3:Docker"),
        Tab::Volumes => push_str(&mut out, "4:Volumes"),
    }
    out
}

/// `"<n> selected <what> | "` when `n > 0`, else nothing.
pub open spec fn selection_prefix(n: nat, what: Seq<char>) -> Seq<char> {
    if n == 0 {
        Seq::empty()
    } else {
        dec(n) + " selected "@ + what + " | "@
    }
}

/// The key hints of the active tab.
pub open spec fn hints_line(app: App) -> Seq<char> {
    match app.tab {
        Tab::Ports => "q: quit | r: refresh | /: search | Enter: jump | 1-4: tabs"@,
        Tab::Processes => selection_prefix(app.marked_pids@.len(), "processes"@)
            + "Space: mark | a/A: all | x: kill | q: quit | /: search | 1-4: tabs"@,
        Tab::Docker => selection_prefix(app.marked_container_ids@.len(), "containers"@)
            + "Space: mark | a/A: all | s: stop | S: restart | d: remove | q: quit | 1-4: tabs"@,
        Tab::Volumes => selection_prefix(app.marked_volume_names@.len(), "volumes"@)
            + "Space: mark | a/A: all | d: delete | Enter: jump | q: quit | 1-4: tabs"@,
    }
}

fn push_selection_prefix(out: &mut String, n: usize, what: &str)
    ensures
        final(out)@ == old(out)@ + selection_prefix(n as nat, what@),
{
    if n > 0 {
        push_dec(out, n as u64);
        push_str(out, " selected ");
        push_str(out, what);
        push_str(out, " | ");
    }
    assert(final(out)@ =~= old(out)@ + selection_prefix(n as nat, what@));
}

/// The key hints of the active tab, led by how many rows are marked.
pub fn footer_hints(app: &App) -> (r: String)
    ensures
        r@ == hints_line(*app),
{
    match app.tab {
        Tab::Ports => owned("q: quit | r: refresh | /: search | Enter: jump | 1-4: tabs"),
        Tab::Processes => {
            let mut out = String::new();
            push_selection_prefix(&mut out, app.marked_pids.len(), "processes");
            push_str(&mut out, "Space: mark | a/A: all | x: kill | q: quit | /: search | 1-4: tabs");
            out
        },
        Tab::Docker => {
            let mut out = String::new();
            push_selection_prefix(&mut out, app.marked_container_ids.len(), "containers");
            push_str(
                &mut out,
                "Space: mark | a/A: all | s: stop | S: restart | d: remove | q: quit | 1-4: tabs",
            );
            out
        },
        Tab::Volumes => {
            let mut out = String::new();
            push_selection_prefix(&mut out, app.marked_volume_names.len(), "volumes");
            push_str(&mut out, "Space: mark | a/A: all | d: delete | Enter: jump | q: quit | 1-4: tabs");
            out
        },
    }
}

/// The footer line.
pub open spec fn footer_line(app: App) -> Seq<char> {
    match app.input_mode {
        InputMode::ConfirmDockerRemove { targets } => if targets@.len() == 1 {
            "Remove "@ + pair_views(targets@)[0].1 + "? [y/N]"@
        } else {
            "Remove "@ + dec(targets@.len()) + " containers? [y/N]"@
        },
        InputMode::ConfirmProcessRemove { targets } => if targets@.len() == 1 {
            "Kill "@ + targets@[0].1@ + " (pid "@ + dec(targets@[0].0 as nat) + ")? [y/N]"@
        } else {
            "Kill "@ + dec(targets@.len()) + " processes? [y/N]"@
        },
        InputMode::ConfirmVolumeRemove { targets } => if targets@.len() == 1 {
            "Delete volume "@ + targets@[0]@ + "? [y/N]"@
        } else {
            "Delete "@ + dec(targets@.len()) + " volumes? [y/N]"@
        },
        InputMode::Search => "search: "@ + app.search_query@ + "_"@,
        InputMode::Normal => match app.status_message {
            Some(m) => m@ + " | "@ + hints_line(app),
            None => if trim(app.search_query@).len() > 0 {
                search_status_text(app.search_query@, app.search_match_index, app_matches(app).len())
                    + " | "@ + hints_line(app)
            } else {
                hints_line(app)
            },
        },
    }
}

/// The footer line: the pending confirmation, the query being typed, or the
/// status or search position followed by the key hints.
pub fn footer_text(app: &App) -> (r: String)
    requires
        app.search_match_index < usize::MAX,
    ensures
        r@ == footer_line(*app),
{
    match &app.input_mode {
        InputMode::ConfirmDockerRemove { targets } => {
            if targets.len() == 1 {
                let mut out = owned("Remove ");
                push_str(&mut out, targets[0].1.as_str());
                push_str(&mut out, "? [y/N]");
                out
            } else {
                let mut out = owned("Remove ");
                push_dec(&mut out, targets.len() as u64);
                push_str(&mut out, " containers? [y/N]");
                out
            }
        },
        InputMode::ConfirmProcessRemove { targets } => {
            if targets.len() == 1 {
                let mut out = owned("Kill ");
                push_str(&mut out, targets[0].1.as_str());
                push_str(&mut out, " (pid ");
                push_dec(&mut out, targets[0].0 as u64);
                push_str(&mut out, ")? [y/N]");
                out
            } else {
                let mut out = owned("Kill ");
                push_dec(&mut out, targets.len() as u64);
                push_str(&mut out, " processes? [y/N]");
                out
            }
        },
        InputMode::ConfirmVolumeRemove { targets } => {
            if targets.len() == 1 {
                let mut out = owned("Delete volume ");
                push_str(&mut out, targets[0].as_str());
                push_str(&mut out, "? [y/N]");
                out
            } else {
                let mut out = owned("Delete ");
                push_dec(&mut out, targets.len() as u64);
                push_str(&mut out, " volumes? [y/N]");
                out
            }
        },
        InputMode::Search => {
            let mut out = owned("search: ");
            push_str(&mut out, app.search_query.as_str());
            push_str(&mut out, "_");
            out
        },
        InputMode::Normal => {
            let hints = footer_hints(app);
            match &app.status_message {
                Some(m) => {
                    let mut out = m.clone();
                    push_str(&mut out, " | ");
                    push_str(&mut out, hints.as_str());
                    out
                },
                None => match app.select_search_status() {
                    Some(mut out) => {
                        push_str(&mut out, " | ");
                        push_str(&mut out, hints.as_str());
                        out
                    },
                    None => hints,
                },
            }
        },
    }
}

} // verus!
