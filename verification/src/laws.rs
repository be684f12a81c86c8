//! Properties that hold across calls and over all inputs.
use vstd::prelude::*;

use crate::actions::{
    marked_processes, start_docker_batch_post, confirm_docker_remove_post, confirm_kill_post, confirm_volume_remove_post, docker_targets,
    pair_views, pid_pair_views, process_targets, request_kill_post,
    request_remove_containers_post, request_remove_volumes_post, in_use_among, volume_targets,
};
use crate::app::{
    apply_search_post, apply_snapshot_post, container_ids, list_len, move_selection_post,
    pop_search_char_post, process_pids, push_search_char_post, toggle_mark_post, volume_names,
    App, InputMode, Tab,
};
use crate::collectors::docker::{
    consistent_row, is_row_of, lemma_running_rows_are_running, lemma_with_stats_consistent,
    running_rows, with_stats, ContainerSummary,
};
use crate::collectors::ports::{
    is_binding_of, keeps, kept_sockets, lemma_kept_sockets_members, named_from, SocketEntry,
};
use crate::collectors::snapshot::unignored;
use crate::events::{command_for, next_tab, performs, Command, Effect, KeyCode, KeyEvent};
use crate::models::{DevProcess, DockerContainer, PortBinding, Protocol};
use crate::order::{seq_lt, sorted, Ordered};
use crate::worker::{
    collections, has_quit, refresh_decision, refresh_sent, refresh_state, refresh_turns, turn_step,
    worker_step_for, ToWorker, WorkerStep,
};
use crate::search::{app_matches, law_match_rows, row_matches, search_key};
use crate::panes::{active_row, headers_of};
use crate::table::truncated;
use crate::text::{after_last, contains, dec, strip_leading, trim, views};

verus! {

/// A search step that finds matches selects a matching row of the active list.
pub proof fn law_search_selects_a_match(pre: App, post: App, step: isize)
    requires
        apply_search_post(pre, post, step),
        app_matches(pre).len() > 0,
        pre.active_len() <= usize::MAX,
    ensures
        post.selected_row < pre.active_len(),
        row_matches(pre.snapshot.unwrap(), pre.tab, post.selected_row as int, search_key(pre.search_query@)),
        post.table_state.selected == Some(post.selected_row),
{
    let s = pre.snapshot.unwrap();
    let n = list_len(Some(s), pre.tab);
    law_match_rows(s, pre.tab, search_key(pre.search_query@), n);
}

/// Moving the selection over a non-empty list keeps it on a row of the list.
pub proof fn law_selection_stays_in_list(pre: App, post: App, delta: isize)
    requires
        move_selection_post(pre, post, delta),
        pre.active_len() > 0,
    ensures
        post.selected_row < post.active_len(),
        post.table_state.selected == Some(post.selected_row),
{
}

/// After a refresh the selection is on a row of the list, or at the top of
/// an empty list with nothing highlighted.
pub proof fn law_refresh_keeps_selection_in_list(pre: App, post: App, snapshot: crate::app::Snapshot, warning: Option<String>)
    requires
        apply_snapshot_post(pre, post, snapshot, warning),
    ensures
        post.active_len() > 0 ==> post.selected_row < post.active_len()
            && post.table_state.selected == Some(post.selected_row),
        post.active_len() == 0 ==> post.selected_row == 0 && post.table_state.selected is None,
{
}

/// After a refresh only rows that still exist stay marked.
pub proof fn law_refresh_forgets_vanished_marks(pre: App, post: App, snapshot: crate::app::Snapshot, warning: Option<String>)
    requires
        apply_snapshot_post(pre, post, snapshot, warning),
    ensures
        post.marked_container_ids@.subset_of(views(container_ids(snapshot.containers@)).to_set()),
        post.marked_pids@.subset_of(process_pids(snapshot.processes@).to_set()),
        post.marked_volume_names@.subset_of(views(volume_names(snapshot.volumes@)).to_set()),
        post.marked_container_ids@.subset_of(pre.marked_container_ids@),
        post.marked_pids@.subset_of(pre.marked_pids@),
        post.marked_volume_names@.subset_of(pre.marked_volume_names@),
{
}

/// Marking the same row twice leaves the marks as they were.
pub proof fn law_toggle_mark_twice(a: App, b: App, c: App)
    requires
        toggle_mark_post(a, b),
        toggle_mark_post(b, c),
    ensures
        c.marked_container_ids@ == a.marked_container_ids@,
        c.marked_pids@ == a.marked_pids@,
        c.marked_volume_names@ == a.marked_volume_names@,
        c == (App {
            marked_container_ids: c.marked_container_ids,
            marked_pids: c.marked_pids,
            marked_volume_names: c.marked_volume_names,
            ..a
        }),
{
    assert(b.container_at_cursor() == a.container_at_cursor());
    assert(b.process_at_cursor() == a.process_at_cursor());
    assert(b.volume_at_cursor() == a.volume_at_cursor());
    match a.container_at_cursor() {
        Some(x) => crate::app::law_toggle_twice(a.marked_container_ids@, x.id@),
        None => {},
    }
    match a.process_at_cursor() {
        Some(x) => crate::app::law_toggle_twice(a.marked_pids@, x.pid),
        None => {},
    }
    match a.volume_at_cursor() {
        Some(x) => crate::app::law_toggle_twice(a.marked_volume_names@, x.name@),
        None => {},
    }
}

/// Deleting the last typed character undoes typing it.
pub proof fn law_pop_undoes_push(a: App, b: App, c: App, ch: char)
    requires
        push_search_char_post(a, b, ch),
        pop_search_char_post(b, c),
    ensures
        c.search_query@ == a.search_query@,
        c == (App { search_query: c.search_query, ..a }),
{
    assert(a.search_query@.push(ch).drop_last() =~= a.search_query@);
}

/// Scrolling for a viewport of `rows > 0` rows makes the selected row visible.
pub proof fn law_scroll_shows_selection(pre: App, post: App, rows: usize)
    requires
        rows > 0,
        pre.list_offset + rows <= usize::MAX,
        post == (App {
            list_offset: (if pre.selected_row < pre.list_offset {
                pre.selected_row
            } else if pre.selected_row >= pre.list_offset + rows {
                (pre.selected_row - rows + 1) as usize
            } else {
                pre.list_offset
            }),
            ..pre
        }),
    ensures
        post.list_offset <= post.selected_row < post.list_offset + rows,
{
}

/// Confirming a container removal hands back exactly the containers that
/// the request named.
pub proof fn law_confirmed_containers_are_requested(a: App, b: App, c: App, r: Option<Vec<(String, String)>>)
    requires
        request_remove_containers_post(a, b),
        docker_targets(a).len() > 0,
        confirm_docker_remove_post(b, c, r),
    ensures
        r is Some,
        pair_views(r.unwrap()@) == docker_targets(a),
        c.input_mode == InputMode::Normal,
{
}

/// Confirming a kill hands back exactly the processes that the request named.
pub proof fn law_confirmed_kills_are_requested(a: App, b: App, c: App, r: Option<Vec<(u32, String)>>)
    requires
        request_kill_post(a, b),
        process_targets(a).len() > 0,
        confirm_kill_post(b, c, r),
    ensures
        r is Some,
        pid_pair_views(r.unwrap()@) == process_targets(a),
        c.input_mode == InputMode::Normal,
{
}

/// A volume deletion can only be confirmed when none of the volumes is in
/// use, and confirming hands back exactly the requested volumes.
pub proof fn law_confirmed_volumes_are_unused(a: App, b: App, c: App, r: Option<Vec<String>>)
    requires
        request_remove_volumes_post(a, b),
        confirm_volume_remove_post(b, c, r),
        r is Some,
        !(a.input_mode is ConfirmVolumeRemove),
    ensures
        views(r.unwrap()@) == volume_targets(a),
        in_use_among(volume_targets(a), a.snapshot.unwrap().volumes@).len() == 0,
{
}

/// Four presses of Tab come back to the same tab.
pub proof fn law_tab_cycle(tab: Tab)
    ensures
        next_tab(next_tab(next_tab(next_tab(tab)))) == tab,
        next_tab(tab) != tab,
{
}

/// After dropping ignored ports none of them is left.
pub proof fn law_no_ignored_port_left(bs: Seq<PortBinding>, ignored: Seq<u16>)
    ensures
        forall|i: int| 0 <= i < unignored(bs, ignored).len() ==> !ignored.contains(
            #[trigger] unignored(bs, ignored)[i].port,
        ),
        unignored(bs, ignored).len() <= bs.len(),
    decreases bs.len(),
{
    if bs.len() > 0 {
        law_no_ignored_port_left(bs.drop_last(), ignored);
        let prev = unignored(bs.drop_last(), ignored);
        if !ignored.contains(bs.last().port) {
            assert forall|i: int| 0 <= i < unignored(bs, ignored).len() implies !ignored.contains(
                #[trigger] unignored(bs, ignored)[i].port,
            ) by {
                if i < prev.len() {
                    assert(unignored(bs, ignored)[i] == prev[i]);
                }
            }
        }
    }
}

/// Every kept socket is listening (TCP) or UDP, and on the wanted port when
/// one was asked for.
pub proof fn law_kept_sockets_listen(ss: Seq<SocketEntry>, port_filter: Option<u16>)
    ensures
        forall|i: int| 0 <= i < kept_sockets(ss, port_filter).len() ==> keeps(
            #[trigger] kept_sockets(ss, port_filter)[i],
            port_filter,
        ),
    decreases ss.len(),
{
    if ss.len() > 0 {
        law_kept_sockets_listen(ss.drop_last(), port_filter);
        let prev = kept_sockets(ss.drop_last(), port_filter);
        assert forall|i: int| 0 <= i < kept_sockets(ss, port_filter).len() implies keeps(
            #[trigger] kept_sockets(ss, port_filter)[i],
            port_filter,
        ) by {
            if i < prev.len() {
                assert(kept_sockets(ss, port_filter)[i] == prev[i]);
            }
        }
    }
}

/// A shortened image name holds no `/` and ends the full name.
pub proof fn law_short_image_is_last_segment(s: Seq<char>)
    ensures
        !after_last(s, '/').contains('/'),
        after_last(s, '/').is_suffix_of(s),
    decreases s.len(),
{
    if s.len() > 0 {
        law_short_image_is_last_segment(s.drop_last());
        if s.last() != '/' {
            let prev = after_last(s.drop_last(), '/');
            assert(after_last(s, '/') == prev.push(s.last()));
            assert(s =~= s.drop_last().push(s.last()));
            assert(prev.push(s.last()) =~= s.subrange(s.len() - prev.len() - 1, s.len() as int));
        } else {
            assert(after_last(s, '/') =~= s.subrange(s.len() as int, s.len() as int));
        }
    } else {
        assert(s.subrange(0, 0) =~= s);
    }
}

/// A container name never starts with `/`.
pub proof fn law_display_name_has_no_leading_slash(s: Seq<char>)
    ensures
        strip_leading(s, '/').len() == 0 || strip_leading(s, '/')[0] != '/',
    decreases s.len(),
{
    if s.len() > 0 && s[0] == '/' {
        law_display_name_has_no_leading_slash(s.drop_first());
    }
}

/// Truncated text is never longer than the limit, once the limit leaves room
/// for the `...`.
pub proof fn law_truncated_fits(text: Seq<char>, max_len: nat)
    requires
        max_len >= 3,
    ensures
        truncated(text, max_len).len() <= max_len,
        text.len() <= max_len ==> truncated(text, max_len) == text,
{
    reveal_strlit("...");
}

/// Every row of the active table has one cell per column header.
pub proof fn law_rows_match_headers(app: App, i: int)
    requires
        0 <= i < app.active_len(),
    ensures
        active_row(app, i).len() == headers_of(app.tab).len(),
{
}

/// A search step with matches lands on the first match for step 0, else on
/// `(current as isize + step)` taken modulo the number of matches, and selects
/// that match's row; the query, tab, list and scrolling stay. Without matches
/// nothing changes.
pub proof fn law_apply_search_lands_on_a_match(pre: App, post: App, step: isize)
    requires
        apply_search_post(pre, post, step),
    ensures
        app_matches(pre).len() == 0 ==> post == pre,
        app_matches(pre).len() > 0 ==> {
            let m = app_matches(pre);
            &&& post.search_match_index as int == (if step == 0 {
                0
            } else {
                ((pre.search_match_index as isize) as int + step) % (m.len() as int)
            })
            &&& post.search_match_index < m.len()
            &&& post.selected_row == m[post.search_match_index as int]
            &&& post.table_state.selected == Some(post.selected_row)
            &&& post.search_query == pre.search_query
            &&& post.tab == pre.tab
            &&& post.snapshot == pre.snapshot
            &&& post.list_offset == pre.list_offset
        },
{
    if app_matches(pre).len() > 0 {
        let s = pre.snapshot.unwrap();
        let n = list_len(pre.snapshot, pre.tab);
        match pre.tab {
            Tab::Ports => assert(s.ports.len() == n),
            Tab::Processes => assert(s.processes.len() == n),
            Tab::Docker => assert(s.containers.len() == n),
            Tab::Volumes => assert(s.volumes.len() == n),
        }
        law_match_rows(s, pre.tab, search_key(pre.search_query@), n);
    }
}

/// With a port asked for, every binding listed is on that port, and a TCP
/// binding is listed exactly when some TCP socket listens on it. The listing
/// is what the ports collection makes of the socket table: the kept
/// sockets' bindings (`select_bindings`), named from a process table
/// (`enrich_with_process_names`), then reordered (`sort_listing`).
pub proof fn law_port_listing(
    sockets: Seq<SocketEntry>,
    port: u16,
    selected: Seq<PortBinding>,
    names: Seq<(u32, String)>,
    named: Seq<PortBinding>,
    listing: Seq<PortBinding>,
)
    requires
        selected.len() == kept_sockets(sockets, Some(port)).len(),
        forall|i: int| 0 <= i < selected.len() ==> is_binding_of(
            #[trigger] selected[i],
            kept_sockets(sockets, Some(port))[i],
        ),
        named.len() == selected.len(),
        forall|i: int| 0 <= i < selected.len() ==> named_from(#[trigger] selected[i], named[i], names),
        listing.to_multiset() == named.to_multiset(),
    ensures
        forall|i: int| 0 <= i < listing.len() ==> (#[trigger] listing[i]).port == port,
        (exists|i: int| 0 <= i < listing.len() && (#[trigger] listing[i]).protocol == Protocol::Tcp)
            <==> (exists|j: int|
            0 <= j < sockets.len() && (#[trigger] sockets[j]).protocol == Protocol::Tcp
                && sockets[j].listening && sockets[j].local_port == port),
{
    broadcast use vstd::seq_lib::group_to_multiset_ensures;

    let kept = kept_sockets(sockets, Some(port));
    lemma_kept_sockets_members(sockets, Some(port));
    assert forall|i: int| 0 <= i < named.len() implies {
        &&& (#[trigger] named[i]).port == kept[i].local_port
        &&& named[i].protocol == kept[i].protocol
        &&& named[i].port == port
        &&& (named[i].protocol == Protocol::Udp || kept[i].listening)
    } by {
        assert(named_from(selected[i], named[i], names));
        assert(is_binding_of(selected[i], kept[i]));
        assert(keeps(kept[i], Some(port)));
    }
    assert forall|i: int| 0 <= i < listing.len() implies (#[trigger] listing[i]).port == port by {
        assert(listing.contains(listing[i]));
        assert(listing.to_multiset().count(listing[i]) > 0);
        assert(named.contains(listing[i]));
        let j = choose|j: int| 0 <= j < named.len() && named[j] == listing[i];
        assert(named[j].port == port);
    }
    if exists|i: int| 0 <= i < listing.len() && (#[trigger] listing[i]).protocol == Protocol::Tcp {
        let i = choose|i: int| 0 <= i < listing.len() && (#[trigger] listing[i]).protocol == Protocol::Tcp;
        assert(listing.contains(listing[i]));
        assert(listing.to_multiset().count(listing[i]) > 0);
        assert(named.contains(listing[i]));
        let j = choose|j: int| 0 <= j < named.len() && named[j] == listing[i];
        assert(named[j].protocol == Protocol::Tcp);
        assert(sockets.contains(kept[j]));
        let k = choose|k: int| 0 <= k < sockets.len() && sockets[k] == kept[j];
        assert(sockets[k].protocol == Protocol::Tcp && sockets[k].listening && sockets[k].local_port == port);
    }
    if exists|j: int|
        0 <= j < sockets.len() && (#[trigger] sockets[j]).protocol == Protocol::Tcp && sockets[j].listening
            && sockets[j].local_port == port {
        let j = choose|j: int|
            0 <= j < sockets.len() && (#[trigger] sockets[j]).protocol == Protocol::Tcp && sockets[j].listening
                && sockets[j].local_port == port;
        assert(keeps(sockets[j], Some(port)));
        assert(kept.contains(sockets[j]));
        let i = choose|i: int| 0 <= i < kept.len() && kept[i] == sockets[j];
        assert(named[i].protocol == Protocol::Tcp);
        assert(named.contains(named[i]));
        assert(named.to_multiset().count(named[i]) > 0);
        assert(listing.contains(named[i]));
        let k = choose|k: int| 0 <= k < listing.len() && listing[k] == named[i];
        assert(listing[k].protocol == Protocol::Tcp);
    }
}

/// The container listing has one row per listed container, ordered by name;
/// in every row CPU and memory are both known or both unknown, known only for
/// a running container, and the image name holds no `/`. The listing is what
/// the Docker collection makes of the daemon's answers: the rows of the
/// containers (`containers_from_summaries`), the statistics fetched for the
/// rows that `stats_requests` names, in that order, filled in
/// (`apply_stats`), then sorted (`sort_listing`).
pub proof fn law_container_listing(
    summaries: Seq<ContainerSummary>,
    rows: Seq<DockerContainer>,
    stats: Seq<(usize, Option<(u32, u64)>)>,
    listing: Seq<DockerContainer>,
)
    requires
        summaries.len() <= usize::MAX,
        rows.len() == summaries.len(),
        forall|i: int| 0 <= i < rows.len() ==> is_row_of(#[trigger] rows[i], summaries[i]),
        stats.len() == running_rows(rows).len(),
        forall|k: int| 0 <= k < stats.len() ==> (#[trigger] stats[k]).0 == running_rows(rows)[k].0,
        listing.to_multiset() == with_stats(rows, stats).to_multiset(),
        sorted(listing),
    ensures
        listing.len() == summaries.len(),
        forall|i: int, j: int| 0 <= i < j < listing.len() ==> !seq_lt(
            (#[trigger] listing[j]).name@,
            (#[trigger] listing[i]).name@,
        ),
        forall|i: int| 0 <= i < listing.len() ==> consistent_row(#[trigger] listing[i]),
{
    broadcast use vstd::seq_lib::group_to_multiset_ensures;

    assert forall|i: int| 0 <= i < rows.len() implies consistent_row(#[trigger] rows[i]) by {
        assert(is_row_of(rows[i], summaries[i]));
        law_short_image_is_last_segment(
            match summaries[i].image {
                Some(im) => im@,
                None => "unknown"@,
            },
        );
    }
    lemma_running_rows_are_running(rows);
    assert forall|k: int| 0 <= k < stats.len() implies {
        &&& (#[trigger] stats[k]).0 < rows.len()
        &&& rows[stats[k].0 as int].status@ == "running"@
    } by {
        assert(stats[k].0 == running_rows(rows)[k].0);
    }
    lemma_with_stats_consistent(rows, stats);
    let filled = with_stats(rows, stats);
    assert(listing.len() == listing.to_multiset().len());
    assert(filled.len() == filled.to_multiset().len());
    assert forall|i: int| 0 <= i < listing.len() implies consistent_row(#[trigger] listing[i]) by {
        assert(listing.contains(listing[i]));
        assert(listing.to_multiset().count(listing[i]) > 0);
        assert(filled.contains(listing[i]));
        let j = choose|j: int| 0 <= j < filled.len() && filled[j] == listing[i];
        assert(consistent_row(filled[j]));
    }
    assert forall|i: int, j: int| 0 <= i < j < listing.len() implies !seq_lt(
        (#[trigger] listing[j]).name@,
        (#[trigger] listing[i]).name@,
    ) by {
        assert(!listing[j].precedes(listing[i]));
    }
}

/// The collector collects at most once per turn that began with a Refresh:
/// refreshes queued behind it are merged into that one collection.
pub proof fn law_collections_follow_refreshes(turns: Seq<(ToWorker, Seq<ToWorker>)>)
    ensures
        collections(turns) <= refresh_turns(turns),
    decreases turns.len(),
{
    if turns.len() > 0 {
        law_collections_follow_refreshes(turns.drop_first());
    }
}

/// A turn holding a Quit, taken or queued, ends the collector without
/// collecting: nothing is collected in it or after it.
pub proof fn law_quit_stops_collecting(turns: Seq<(ToWorker, Seq<ToWorker>)>, q: int)
    requires
        0 <= q < turns.len(),
        has_quit(turns[q]),
    ensures
        collections(turns) <= q,
    decreases turns.len(),
{
    if q == 0 {
        assert(turn_step(turns[0]) == WorkerStep::Stop);
    } else {
        let rest = turns.drop_first();
        assert(rest[q - 1] == turns[q]);
        law_quit_stops_collecting(rest, q - 1);
    }
}

/// Without a Quit, every turn collects exactly once, however many refreshes
/// were queued.
pub proof fn law_each_turn_collects_once(turns: Seq<(ToWorker, Seq<ToWorker>)>)
    requires
        forall|k: int| 0 <= k < turns.len() ==> !has_quit(#[trigger] turns[k]),
    ensures
        collections(turns) == turns.len(),
    decreases turns.len(),
{
    if turns.len() > 0 {
        let rest = turns.drop_first();
        assert(!has_quit(turns[0]));
        assert(turn_step(turns[0]) == WorkerStep::Collect);
        assert forall|k: int| 0 <= k < rest.len() implies !has_quit(#[trigger] rest[k]) by {
            assert(rest[k] == turns[k + 1]);
        }
        law_each_turn_collects_once(rest);
    }
}

/// A reply arrived in one of the passes `lo..hi` of the dashboard's loop.
pub open spec fn reply_in(passes: Seq<(bool, bool, bool)>, lo: int, hi: int) -> bool {
    exists|k: int| lo <= k < hi && (#[trigger] passes[k]).0
}

/// While no refresh is in flight, every refresh asked for so far, and the
/// first one, has been answered.
proof fn lemma_refresh_answered(passes: Seq<(bool, bool, bool)>, n: nat)
    requires
        n <= passes.len(),
    ensures
        !refresh_state(passes, n).0 ==> reply_in(passes, 0, n as int),
        !refresh_state(passes, n).0 ==> forall|i: nat| i < n && #[trigger] refresh_sent(passes, i)
            ==> reply_in(passes, (i + 1) as int, n as int),
    decreases n,
{
    if n > 0 {
        let m = (n - 1) as nat;
        lemma_refresh_answered(passes, m);
        let prev = refresh_state(passes, m);
        if !refresh_state(passes, n).0 {
            assert(!refresh_sent(passes, m));
            if passes[m as int].0 {
                assert(passes[m as int].0);
                assert forall|i: nat| i < n && #[trigger] refresh_sent(passes, i) implies reply_in(
                    passes,
                    (i + 1) as int,
                    n as int,
                ) by {
                    assert(i < m);
                    assert(passes[m as int].0);
                }
            } else {
                assert(!prev.0);
                let k0 = choose|k: int| 0 <= k < m && (#[trigger] passes[k]).0;
                assert(passes[k0].0);
                assert forall|i: nat| i < n && #[trigger] refresh_sent(passes, i) implies reply_in(
                    passes,
                    (i + 1) as int,
                    n as int,
                ) by {
                    assert(i < m);
                    let k = choose|k: int| i + 1 <= k < m && (#[trigger] passes[k]).0;
                    assert(passes[k].0);
                }
            }
        }
    }
}

/// The dashboard never has two collections in flight: a refresh is asked
/// for only after a reply to the first request arrived, and after a reply
/// to every earlier one; and only when one was wanted or the interval had
/// passed.
pub proof fn law_refresh_one_at_a_time(passes: Seq<(bool, bool, bool)>, j: nat)
    requires
        j < passes.len(),
        refresh_sent(passes, j),
    ensures
        reply_in(passes, 0, (j + 1) as int),
        forall|i: nat| i < j && #[trigger] refresh_sent(passes, i) ==> reply_in(passes, (i + 1) as int, (j + 1) as int),
        refresh_state(passes, j).1 || passes[j as int].1,
{
    lemma_refresh_answered(passes, j);
    if passes[j as int].0 {
        assert(passes[j as int].0);
        assert forall|i: nat| i < j && #[trigger] refresh_sent(passes, i) implies reply_in(
            passes,
            (i + 1) as int,
            (j + 1) as int,
        ) by {
            assert(passes[j as int].0);
        }
    } else {
        assert(!refresh_state(passes, j).0);
        let k0 = choose|k: int| 0 <= k < j && (#[trigger] passes[k]).0;
        assert(passes[k0].0);
        assert forall|i: nat| i < j && #[trigger] refresh_sent(passes, i) implies reply_in(
            passes,
            (i + 1) as int,
            (j + 1) as int,
        ) by {
            let k = choose|k: int| i + 1 <= k < j && (#[trigger] passes[k]).0;
            assert(passes[k].0);
        }
    }
}

/// Searching the Processes tab finds every process whose pid, written in
/// decimal, holds the query (trimmed and lowercased).
pub proof fn law_search_finds_process_by_pid(app: App, i: int)
    requires
        app.snapshot is Some,
        app.tab == Tab::Processes,
        trim(app.search_query@).len() > 0,
        0 <= i < app.snapshot.unwrap().processes@.len(),
        contains(dec(app.snapshot.unwrap().processes@[i].pid as nat), search_key(app.search_query@)),
    ensures
        app_matches(app).contains(i as usize),
{
    let s = app.snapshot.unwrap();
    let n = list_len(app.snapshot, app.tab);
    assert(s.processes.len() == n);
    law_match_rows(s, app.tab, search_key(app.search_query@), n);
    assert(row_matches(s, app.tab, i, search_key(app.search_query@)));
}

/// A character key in normal mode.
pub open spec fn char_key(c: char, control: bool) -> KeyEvent {
    KeyEvent { code: KeyCode::Char(c), control }
}

/// The keys of normal mode and what each asks for, on every tab: `S`
/// restarts and `s` stops the Docker containers, `x` kills processes, `d`
/// removes containers or volumes, `g` and Enter jump, and the tab, movement,
/// search, mark and quit keys work everywhere.
pub proof fn law_normal_key_table(tab: Tab, control: bool)
    ensures
        command_for(InputMode::Normal, tab, char_key('q', control)) == Command::Quit,
        command_for(InputMode::Normal, tab, char_key('Q', control)) == Command::Quit,
        command_for(InputMode::Normal, tab, KeyEvent { code: KeyCode::Esc, control }) == Command::Quit,
        command_for(InputMode::Normal, tab, char_key('/', control)) == Command::StartSearch,
        command_for(InputMode::Normal, tab, char_key('n', control)) == Command::SearchStep(1),
        command_for(InputMode::Normal, tab, char_key('N', control)) == Command::SearchStep((-1int) as isize),
        command_for(InputMode::Normal, tab, char_key('r', control)) == Command::Refresh,
        command_for(InputMode::Normal, tab, char_key('R', control)) == Command::Refresh,
        command_for(InputMode::Normal, tab, char_key('1', control)) == Command::SwitchTab(Tab::Ports),
        command_for(InputMode::Normal, tab, char_key('2', control)) == Command::SwitchTab(Tab::Processes),
        command_for(InputMode::Normal, tab, char_key('3', control)) == Command::SwitchTab(Tab::Docker),
        command_for(InputMode::Normal, tab, char_key('4', control)) == Command::SwitchTab(Tab::Volumes),
        command_for(InputMode::Normal, Tab::Ports, KeyEvent { code: KeyCode::Tab, control })
            == Command::SwitchTab(Tab::Processes),
        command_for(InputMode::Normal, Tab::Processes, KeyEvent { code: KeyCode::Tab, control })
            == Command::SwitchTab(Tab::Docker),
        command_for(InputMode::Normal, Tab::Docker, KeyEvent { code: KeyCode::Tab, control })
            == Command::SwitchTab(Tab::Volumes),
        command_for(InputMode::Normal, Tab::Volumes, KeyEvent { code: KeyCode::Tab, control })
            == Command::SwitchTab(Tab::Ports),
        command_for(InputMode::Normal, tab, char_key('k', control)) == Command::Move((-1int) as isize),
        command_for(InputMode::Normal, tab, KeyEvent { code: KeyCode::Up, control }) == Command::Move((-1int) as isize),
        command_for(InputMode::Normal, tab, char_key('j', control)) == Command::Move(1),
        command_for(InputMode::Normal, tab, KeyEvent { code: KeyCode::Down, control }) == Command::Move(1),
        command_for(InputMode::Normal, tab, KeyEvent { code: KeyCode::PageUp, control }) == Command::Move((-20int) as isize),
        command_for(InputMode::Normal, tab, KeyEvent { code: KeyCode::PageDown, control }) == Command::Move(20),
        command_for(InputMode::Normal, tab, KeyEvent { code: KeyCode::Home, control }) == Command::Home,
        command_for(InputMode::Normal, tab, KeyEvent { code: KeyCode::End, control }) == Command::End,
        command_for(InputMode::Normal, Tab::Processes, char_key('x', control)) == Command::RequestKill,
        command_for(InputMode::Normal, Tab::Processes, char_key('X', control)) == Command::RequestKill,
        command_for(InputMode::Normal, Tab::Docker, char_key('s', control)) == Command::Stop,
        command_for(InputMode::Normal, Tab::Docker, char_key('S', control)) == Command::Restart,
        command_for(InputMode::Normal, Tab::Docker, char_key('d', control)) == Command::RequestRemoveContainers,
        command_for(InputMode::Normal, Tab::Docker, char_key('D', control)) == Command::RequestRemoveContainers,
        command_for(InputMode::Normal, Tab::Volumes, char_key('d', control)) == Command::RequestRemoveVolumes,
        command_for(InputMode::Normal, Tab::Volumes, char_key('D', control)) == Command::RequestRemoveVolumes,
        command_for(InputMode::Normal, Tab::Ports, char_key('g', control)) == Command::JumpFromPort,
        command_for(InputMode::Normal, Tab::Ports, KeyEvent { code: KeyCode::Enter, control })
            == Command::JumpFromPort,
        command_for(InputMode::Normal, Tab::Volumes, char_key('g', control)) == Command::JumpFromVolume,
        command_for(InputMode::Normal, Tab::Volumes, KeyEvent { code: KeyCode::Enter, control })
            == Command::JumpFromVolume,
        command_for(InputMode::Normal, tab, char_key(' ', control)) == Command::ToggleMark,
        command_for(InputMode::Normal, tab, char_key('a', control)) == Command::MarkAll,
        command_for(InputMode::Normal, tab, char_key('A', control)) == Command::UnmarkAll,
        tab != Tab::Processes ==> command_for(InputMode::Normal, tab, char_key('x', control)) == Command::Nothing,
        tab != Tab::Docker ==> command_for(InputMode::Normal, tab, char_key('s', control)) == Command::Nothing,
        tab != Tab::Docker ==> command_for(InputMode::Normal, tab, char_key('S', control)) == Command::Nothing,
{
}

/// Pressing `S` on the Docker tab in normal mode restarts the target
/// containers: the effect handed back restarts exactly them, never stops
/// them, and with no target nothing is handed back.
pub proof fn law_restart_key_restarts(pre: App, post: App, control: bool, effect: Effect)
    requires
        pre.input_mode == InputMode::Normal,
        pre.tab == Tab::Docker,
        performs(pre, post, command_for(pre.input_mode, pre.tab, char_key('S', control)), effect),
    ensures
        !(effect is StopContainers),
        docker_targets(pre).len() > 0 ==> (effect matches Effect::RestartContainers(t) && pair_views(t@)
            == docker_targets(pre)),
        docker_targets(pre).len() == 0 ==> effect is Nothing,
        post.input_mode == InputMode::Normal,
{
}

/// Moving the selection over a non-empty list by `delta` lands `delta` rows
/// on when that row exists, and otherwise on the first or last row.
pub proof fn law_move_selection_by_delta(pre: App, post: App, delta: isize)
    requires
        move_selection_post(pre, post, delta),
        pre.active_len() > 0,
    ensures
        0 <= pre.selected_row + delta < pre.active_len() ==> post.selected_row == pre.selected_row + delta,
        pre.selected_row + delta < 0 ==> post.selected_row == 0,
        pre.selected_row + delta >= pre.active_len() ==> post.selected_row == pre.active_len() - 1,
        post.table_state.selected == Some(post.selected_row),
        post.tab == pre.tab,
        post.snapshot == pre.snapshot,
{
    let s = pre.snapshot.unwrap();
    match pre.tab {
        Tab::Ports => assert(s.ports.len() == pre.active_len()),
        Tab::Processes => assert(s.processes.len() == pre.active_len()),
        Tab::Docker => assert(s.containers.len() == pre.active_len()),
        Tab::Volumes => assert(s.volumes.len() == pre.active_len()),
    }
}

/// A listed process is picked when its pid is marked.
pub open spec fn pid_marked(marks: Set<u32>) -> spec_fn(DevProcess) -> bool {
    |p: DevProcess| marks.contains(p.pid)
}

/// A process as (pid, name).
pub open spec fn pid_and_name() -> spec_fn(DevProcess) -> (u32, Seq<char>) {
    |p: DevProcess| (p.pid, p.name@)
}

proof fn lemma_marked_processes_filter(ps: Seq<DevProcess>, marks: Set<u32>)
    ensures
        marked_processes(ps, marks) == ps.filter(pid_marked(marks)).map_values(pid_and_name()),
    decreases ps.len(),
{
    if ps.len() > 0 {
        let init = ps.drop_last();
        lemma_marked_processes_filter(init, marks);
        assert(ps =~= init.push(ps.last()));
        init.lemma_filter_push(ps.last(), pid_marked(marks));
        if marks.contains(ps.last().pid) {
            assert(init.filter(pid_marked(marks)).push(ps.last()).map_values(pid_and_name())
                =~= init.filter(pid_marked(marks)).map_values(pid_and_name()).push((ps.last().pid, ps.last().name@)));
        }
    }
}

/// With some pids marked, `x` asks to kill exactly the listed processes
/// whose pid is marked, in list order, whatever row is selected, and
/// confirming hands back those same processes to kill.
pub proof fn law_marked_processes_are_killed(
    pre: App,
    mid: App,
    post: App,
    r: Option<Vec<(u32, String)>>,
)
    requires
        pre.snapshot is Some,
        pre.marked_pids@ != Set::<u32>::empty(),
        request_kill_post(pre, mid),
        confirm_kill_post(mid, post, r),
    ensures
        ({
            let picked = pre.snapshot.unwrap().processes@.filter(pid_marked(pre.marked_pids@)).map_values(
                pid_and_name(),
            );
            &&& picked.len() > 0 ==> (mid.input_mode matches InputMode::ConfirmProcessRemove { targets }
                && pid_pair_views(targets@) == picked)
            &&& picked.len() > 0 ==> (r matches Some(t) && pid_pair_views(t@) == picked)
            &&& picked.len() == 0 ==> r is None
        }),
{
    lemma_marked_processes_filter(pre.snapshot.unwrap().processes@, pre.marked_pids@);
}

/// Dropping the ignored ports keeps exactly the bindings whose port is not
/// ignored, in their order.
pub proof fn law_unignored_ports_are_kept(bs: Seq<PortBinding>, ignored: Seq<u16>)
    ensures
        unignored(bs, ignored) == bs.filter(|b: PortBinding| !ignored.contains(b.port)),
        forall|i: int| 0 <= i < bs.len() && !ignored.contains(#[trigger] bs[i].port)
            ==> unignored(bs, ignored).contains(bs[i]),
    decreases bs.len(),
{
    let keep = |b: PortBinding| !ignored.contains(b.port);
    if bs.len() > 0 {
        let init = bs.drop_last();
        law_unignored_ports_are_kept(init, ignored);
        assert(bs =~= init.push(bs.last()));
        init.lemma_filter_push(bs.last(), keep);
    }
    assert(unignored(bs, ignored) == bs.filter(keep));
    assert forall|i: int| 0 <= i < bs.len() && !ignored.contains(#[trigger] bs[i].port) implies unignored(
        bs,
        ignored,
    ).contains(bs[i]) by {
        bs.lemma_filter_contains(keep, i);
    }
}

} // verus!
