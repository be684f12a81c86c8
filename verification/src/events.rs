//! Key handling: which command a key stands for in each input mode, and what
//! carrying it out does to the dashboard.
//!
//! Commands that act on containers, processes or volumes hand back an
//! `Effect`; the caller performs it and reports back with `App::finish_batch`.
use vstd::prelude::*;

use crate::actions::{
    confirm_docker_remove_post, confirm_kill_post, confirm_volume_remove_post,
    request_kill_post, request_remove_containers_post, request_remove_volumes_post,
    start_docker_batch_post,
};
use crate::app::{
    apply_search_post, cancel_pending_post, cancel_search_post, mark_all_post,
    move_selection_post, pop_search_char_post, push_search_char_post, set_tab_post,
    start_search_post, toggle_mark_post, unmark_all_post, App, InputMode, Tab, TableState,
};
use crate::jump::{jump_from_port_post, jump_from_volume_post};

verus! {

/// The keys the dashboard tells apart.
#[derive(Clone, Copy, PartialEq, Eq, Debug, Structural)]
pub enum KeyCode {
    Char(char),
    Esc,
    Enter,
    Backspace,
    Tab,
    Up,
    Down,
    PageUp,
    PageDown,
    Home,
    End,
    Other,
}

/// A key press: the key, and whether Control was held.
#[derive(Clone, Copy, PartialEq, Eq, Debug, Structural)]
pub struct KeyEvent {
    pub code: KeyCode,
    pub control: bool,
}

/// What a key asks for.
#[derive(Clone, Copy, PartialEq, Eq, Debug, Structural)]
pub enum Command {
    Nothing,
    Quit,
    StartSearch,
    SearchStep(isize),
    Refresh,
    SwitchTab(Tab),
    Move(isize),
    Home,
    End,
    RequestKill,
    Stop,
    Restart,
    RequestRemoveContainers,
    RequestRemoveVolumes,
    JumpFromPort,
    JumpFromVolume,
    ToggleMark,
    MarkAll,
    UnmarkAll,
    Confirm,
    CancelPending,
    CancelSearch,
    SubmitSearch,
    PopChar,
    PushChar(char),
}

/// Work for the caller: act on these containers, processes or volumes.
pub enum Effect {
    Nothing,
    StopContainers(Vec<(String, String)>),
    RestartContainers(Vec<(String, String)>),
    RemoveContainers(Vec<(String, String)>),
    KillProcesses(Vec<(u32, String)>),
    RemoveVolumes(Vec<String>),
}

/// The tab after `tab` in the Tab-key cycle.
pub open spec fn next_tab(tab: Tab) -> Tab {
    match tab {
        Tab::Ports => Tab::Processes,
        Tab::Processes => Tab::Docker,
        Tab::Docker => Tab::Volumes,
        Tab::Volumes => Tab::Ports,
    }
}

/// The command of a key while a confirmation prompt is open.
pub open spec fn confirm_command(key: KeyEvent) -> Command {
    match key.code {
        KeyCode::Char(c) => if c == 'y' || c == 'Y' {
            Command::Confirm
        } else if c == 'n' || c == 'N' {
            Command::CancelPending
        } else {
            Command::Nothing
        },
        KeyCode::Esc => Command::CancelPending,
        _ => Command::Nothing,
    }
}

/// The command of a key while a search query is typed.
pub open spec fn search_command(key: KeyEvent) -> Command {
    match key.code {
        KeyCode::Esc => Command::CancelSearch,
        KeyCode::Enter => Command::SubmitSearch,
        KeyCode::Backspace => Command::PopChar,
        KeyCode::Char(c) => if !key.control {
            Command::PushChar(c)
        } else {
            Command::Nothing
        },
        _ => Command::Nothing,
    }
}

/// The command of a character key in normal mode.
pub open spec fn normal_char_command(c: char, tab: Tab) -> Command {
    if c == 'q' || c == 'Q' {
        Command::Quit
    } else if c == '/' {
        Command::StartSearch
    } else if c == 'n' {
        Command::SearchStep(1)
    } else if c == 'N' {
        Command::SearchStep(-1int as isize)
    } else if c == 'r' || c == 'R' {
        Command::Refresh
    } else if c == '1' {
        Command::SwitchTab(Tab::Ports)
    } else if c == '2' {
        Command::SwitchTab(Tab::Processes)
    } else if c == '3' {
        Command::SwitchTab(Tab::Docker)
    } else if c == '4' {
        Command::SwitchTab(Tab::Volumes)
    } else if c == 'k' {
        Command::Move(-1int as isize)
    } else if c == 'j' {
        Command::Move(1)
    } else if (c == 'x' || c == 'X') && tab == Tab::Processes {
        Command::RequestKill
    } else if c == 's' && tab == Tab::Docker {
        Command::Stop
    } else if c == 'S' && tab == Tab::Docker {
        Command::Restart
    } else if (c == 'd' || c == 'D') && tab == Tab::Docker {
        Command::RequestRemoveContainers
    } else if (c == 'd' || c == 'D') && tab == Tab::Volumes {
        Command::RequestRemoveVolumes
    } else if c == 'g' && tab == Tab::Ports {
        Command::JumpFromPort
    } else if c == 'g' && tab == Tab::Volumes {
        Command::JumpFromVolume
    } else if c == ' ' {
        Command::ToggleMark
    } else if c == 'a' {
        Command::MarkAll
    } else if c == 'A' {
        Command::UnmarkAll
    } else {
        Command::Nothing
    }
}

/// The command of a key in normal mode.
pub open spec fn normal_command(key: KeyEvent, tab: Tab) -> Command {
    match key.code {
        KeyCode::Char(c) => normal_char_command(c, tab),
        KeyCode::Esc => Command::Quit,
        KeyCode::Tab => Command::SwitchTab(next_tab(tab)),
        KeyCode::Up => Command::Move(-1int as isize),
        KeyCode::Down => Command::Move(1),
        KeyCode::PageUp => Command::Move(-20int as isize),
        KeyCode::PageDown => Command::Move(20),
        KeyCode::Home => Command::Home,
        KeyCode::End => Command::End,
        KeyCode::Enter => if tab == Tab::Ports {
            Command::JumpFromPort
        } else if tab == Tab::Volumes {
            Command::JumpFromVolume
        } else {
            Command::Nothing
        },
        _ => Command::Nothing,
    }
}

/// The command a key stands for, given the input mode and the active tab.
pub open spec fn command_for(mode: InputMode, tab: Tab, key: KeyEvent) -> Command {
    match mode {
        InputMode::Normal => normal_command(key, tab),
        InputMode::Search => search_command(key),
        _ => confirm_command(key),
    }
}

/// `post` and `effect` are what carrying out `cmd` on `pre` gives.
pub open spec fn performs(pre: App, post: App, cmd: Command, effect: Effect) -> bool {
    let batch = match cmd {
        Command::Stop => match effect {
            Effect::Nothing => start_docker_batch_post(pre, post, None),
            Effect::StopContainers(t) => start_docker_batch_post(pre, post, Some(t)),
            _ => false,
        },
        Command::Restart => match effect {
            Effect::Nothing => start_docker_batch_post(pre, post, None),
            Effect::RestartContainers(t) => start_docker_batch_post(pre, post, Some(t)),
            _ => false,
        },
        Command::Confirm => match pre.input_mode {
            InputMode::ConfirmDockerRemove { targets } => effect == Effect::RemoveContainers(targets)
                && confirm_docker_remove_post(pre, post, Some(targets)),
            InputMode::ConfirmProcessRemove { targets } => effect == Effect::KillProcesses(targets)
                && confirm_kill_post(pre, post, Some(targets)),
            InputMode::ConfirmVolumeRemove { targets } => effect == Effect::RemoveVolumes(targets)
                && confirm_volume_remove_post(pre, post, Some(targets)),
            _ => effect is Nothing && post == pre,
        },
        _ => effect is Nothing,
    };
    let state = match cmd {
        Command::Nothing => post == pre,
        Command::Quit => post == (App { should_quit: true, ..pre }),
        Command::StartSearch => start_search_post(pre, post),
        Command::SearchStep(step) => apply_search_post(pre, post, step),
        Command::Refresh => post == (App { needs_refresh: true, ..pre }),
        Command::SwitchTab(tab) => set_tab_post(pre, post, tab),
        Command::Move(delta) => move_selection_post(pre, post, delta),
        Command::Home => post == (App {
            selected_row: 0,
            table_state: TableState { selected: Some(0) },
            ..pre
        }),
        Command::End => {
            let last = if pre.active_len() == 0 {
                0usize
            } else {
                (pre.active_len() - 1) as usize
            };
            post == (App {
                selected_row: last,
                table_state: TableState { selected: Some(last) },
                ..pre
            })
        },
        Command::RequestKill => request_kill_post(pre, post),
        Command::RequestRemoveContainers => request_remove_containers_post(pre, post),
        Command::RequestRemoveVolumes => request_remove_volumes_post(pre, post),
        Command::JumpFromPort => jump_from_port_post(pre, post),
        Command::JumpFromVolume => jump_from_volume_post(pre, post),
        Command::ToggleMark => toggle_mark_post(pre, post),
        Command::MarkAll => mark_all_post(pre, post),
        Command::UnmarkAll => unmark_all_post(pre, post),
        Command::CancelPending => cancel_pending_post(pre, post),
        Command::CancelSearch => cancel_search_post(pre, post),
        Command::SubmitSearch => exists|mid: App|
            apply_search_post(pre, mid, 0) && post == (App { input_mode: InputMode::Normal, ..mid }),
        Command::PopChar => pop_search_char_post(pre, post),
        Command::PushChar(c) => push_search_char_post(pre, post, c),
        _ => true,
    };
    batch && state
}

/// The command a key stands for.
pub fn key_command(mode: &InputMode, tab: Tab, key: KeyEvent) -> (r: Command)
    ensures
        r == command_for(*mode, tab, key),
{
    match mode {
        InputMode::Normal => {},
        InputMode::Search => {
            return match key.code {
                KeyCode::Esc => Command::CancelSearch,
                KeyCode::Enter => Command::SubmitSearch,
                KeyCode::Backspace => Command::PopChar,
                KeyCode::Char(c) => if !key.control {
                    Command::PushChar(c)
                } else {
                    Command::Nothing
                },
                _ => Command::Nothing,
            };
        },
        _ => {
            return match key.code {
                KeyCode::Char(c) => if c == 'y' || c == 'Y' {
                    Command::Confirm
                } else if c == 'n' || c == 'N' {
                    Command::CancelPending
                } else {
                    Command::Nothing
                },
                KeyCode::Esc => Command::CancelPending,
                _ => Command::Nothing,
            };
        },
    }
    match key.code {
        KeyCode::Char(c) => {
            if c == 'q' || c == 'Q' {
                Command::Quit
            } else if c == '/' {
                Command::StartSearch
            } else if c == 'n' {
                Command::SearchStep(1)
            } else if c == 'N' {
                Command::SearchStep(-1)
            } else if c == 'r' || c == 'R' {
                Command::Refresh
            } else if c == '1' {
                Command::SwitchTab(Tab::Ports)
            } else if c == '2' {
                Command::SwitchTab(Tab::Processes)
            } else if c == '3' {
                Command::SwitchTab(Tab::Docker)
            } else if c == '4' {
                Command::SwitchTab(Tab::Volumes)
            } else if c == 'k' {
                Command::Move(-1)
            } else if c == 'j' {
                Command::Move(1)
            } else if (c == 'x' || c == 'X') && tab == Tab::Processes {
                Command::RequestKill
            } else if c == 's' && tab == Tab::Docker {
                Command::Stop
            } else if c == 'S' && tab == Tab::Docker {
                Command::Restart
            } else if (c == 'd' || c == 'D') && tab == Tab::Docker {
                Command::RequestRemoveContainers
            } else if (c == 'd' || c == 'D') && tab == Tab::Volumes {
                Command::RequestRemoveVolumes
            } else if c == 'g' && tab == Tab::Ports {
                Command::JumpFromPort
            } else if c == 'g' && tab == Tab::Volumes {
                Command::JumpFromVolume
            } else if c == ' ' {
                Command::ToggleMark
            } else if c == 'a' {
                Command::MarkAll
            } else if c == 'A' {
                Command::UnmarkAll
            } else {
                Command::Nothing
            }
        },
        KeyCode::Esc => Command::Quit,
        KeyCode::Tab => Command::SwitchTab(
            match tab {
                Tab::Ports => Tab::Processes,
                Tab::Processes => Tab::Docker,
                Tab::Docker => Tab::Volumes,
                Tab::Volumes => Tab::Ports,
            },
        ),
        KeyCode::Up => Command::Move(-1),
        KeyCode::Down => Command::Move(1),
        KeyCode::PageUp => Command::Move(-20),
        KeyCode::PageDown => Command::Move(20),
        KeyCode::Home => Command::Home,
        KeyCode::End => Command::End,
        KeyCode::Enter => if tab == Tab::Ports {
            Command::JumpFromPort
        } else if tab == Tab::Volumes {
            Command::JumpFromVolume
        } else {
            Command::Nothing
        },
        _ => Command::Nothing,
    }
}

/// Carries out a command.
pub fn run_command(app: &mut App, cmd: Command) -> (r: Effect)
    ensures
        performs(*old(app), *final(app), cmd, r),
{
    match cmd {
        Command::Nothing => Effect::Nothing,
        Command::Quit => {
            app.should_quit = true;
            Effect::Nothing
        },
        Command::StartSearch => {
            app.start_search();
            Effect::Nothing
        },
        Command::SearchStep(step) => {
            app.apply_search(step);
            Effect::Nothing
        },
        Command::Refresh => {
            app.needs_refresh = true;
            Effect::Nothing
        },
        Command::SwitchTab(tab) => {
            app.set_tab(tab);
            Effect::Nothing
        },
        Command::Move(delta) => {
            app.move_selection(delta);
            Effect::Nothing
        },
        Command::Home => {
            app.selected_row = 0;
            app.table_state.select(Some(0));
            Effect::Nothing
        },
        Command::End => {
            let len = app.active_list_len();
            let last = if len == 0 {
                0
            } else {
                len - 1
            };
            app.selected_row = last;
            app.table_state.select(Some(last));
            Effect::Nothing
        },
        Command::RequestKill => {
            app.request_kill_selected_process();
            Effect::Nothing
        },
        Command::Stop => match app.stop_selected_container() {
            Some(t) => Effect::StopContainers(t),
            None => Effect::Nothing,
        },
        Command::Restart => match app.restart_selected_container() {
            Some(t) => Effect::RestartContainers(t),
            None => Effect::Nothing,
        },
        Command::RequestRemoveContainers => {
            app.request_remove_selected_container();
            Effect::Nothing
        },
        Command::RequestRemoveVolumes => {
            app.request_remove_selected_volumes();
            Effect::Nothing
        },
        Command::JumpFromPort => {
            app.jump_from_selected_port();
            Effect::Nothing
        },
        Command::JumpFromVolume => {
            app.jump_from_selected_volume();
            Effect::Nothing
        },
        Command::ToggleMark => {
            app.toggle_mark_current();
            Effect::Nothing
        },
        Command::MarkAll => {
            app.mark_all();
            Effect::Nothing
        },
        Command::UnmarkAll => {
            app.unmark_all();
            Effect::Nothing
        },
        Command::Confirm => {
            match &app.input_mode {
                InputMode::ConfirmDockerRemove { .. } => match app.confirm_docker_remove() {
                    Some(t) => Effect::RemoveContainers(t),
                    None => Effect::Nothing,
                },
                InputMode::ConfirmProcessRemove { .. } => match app.confirm_kill_selected_process() {
                    Some(t) => Effect::KillProcesses(t),
                    None => Effect::Nothing,
                },
                InputMode::ConfirmVolumeRemove { .. } => match app.confirm_volume_remove() {
                    Some(t) => Effect::RemoveVolumes(t),
                    None => Effect::Nothing,
                },
                _ => Effect::Nothing,
            }
        },
        Command::CancelPending => {
            app.cancel_pending_action();
            Effect::Nothing
        },
        Command::CancelSearch => {
            app.cancel_search();
            Effect::Nothing
        },
        Command::SubmitSearch => {
            app.apply_search(0);
            let ghost mid = *app;
            app.input_mode = InputMode::Normal;
            assert(apply_search_post(*old(app), mid, 0));
            Effect::Nothing
        },
        Command::PopChar => {
            app.pop_search_char();
            Effect::Nothing
        },
        Command::PushChar(c) => {
            app.push_search_char(c);
            Effect::Nothing
        },
    }
}

/// Handles one key press: finds the command it stands for and carries it out.
pub fn handle_key(app: &mut App, key: KeyEvent) -> (r: Effect)
    ensures
        performs(*old(app), *final(app), command_for(old(app).input_mode, old(app).tab, key), r),
{
    let cmd = key_command(&app.input_mode, app.tab, key);
    run_command(app, cmd)
}

} // verus!
