//! Keys, what they mean in a state of the session, and what they do.
//!
//! A key is first turned into a command, which depends on the state, and
//! the command is then performed. What a command needs from outside the
//! library, it asks for with an `Action`.

use crate::app::{App, AppMode, CopyTarget, DiffRequest, FocusedPanel};
use crate::copy::CopyMode;
use crate::ui::file_picker::{is_control_code, is_query_char};
use vstd::prelude::*;

verus! {

/// A key of the keyboard.
#[derive(Debug, Clone, Copy, PartialEq, Eq)]
pub enum KeyCode {
    Backspace,
    Enter,
    Left,
    Right,
    Up,
    Down,
    Home,
    End,
    PageUp,
    PageDown,
    Tab,
    BackTab,
    Delete,
    Insert,
    /// A function key.
    F(u8),
    /// A character key.
    Char(char),
    Null,
    Esc,
    /// Any other key.
    Other,
}

/// The modifier keys held with a key: none, exactly one of shift, control
/// and alt, or any other combination.
#[derive(Debug, Clone, Copy, PartialEq, Eq)]
pub enum KeyModifiers {
    NONE,
    SHIFT,
    CONTROL,
    ALT,
    OTHER,
}

/// A key press.
#[derive(Debug, Clone, Copy, PartialEq, Eq)]
pub struct KeyEvent {
    pub code: KeyCode,
    pub modifiers: KeyModifiers,
}

/// What a key means in a state of the session.
#[derive(Debug, Clone, Copy, PartialEq, Eq)]
pub enum Command {
    /// Add a character to the query of the search.
    SearchType(char),
    SearchBackspace,
    SearchConfirm,
    SearchCancel,
    Quit,
    /// Open the history of the file selected in the file picker.
    PickerSelect,
    PickerUp,
    PickerDown,
    PickerDelete,
    PickerClear,
    /// Add a character to the query of the file picker.
    PickerType(char),
    /// Scroll the commit window.
    InfoUp,
    InfoDown,
    SelectionUp,
    SelectionDown,
    CursorUp,
    CursorDown,
    SwitchFocus,
    NextResult,
    PreviousResult,
    NextChange,
    PreviousChange,
    PageUp,
    PageDown,
    /// Scroll the focused panel sideways.
    ScrollLeft,
    ScrollRight,
    /// The copy key.
    Yank,
    Copy(CopyTarget),
    StartCopy,
    /// The quit key.
    CloseOrQuit,
    Escape,
    ShrinkSplit,
    GrowSplit,
    OpenFilePicker,
    StartSearch,
    ToggleRange,
    ToggleHelp,
    ShowInfo,
    /// The key is taken, and does nothing.
    Nothing,
}

/// What is to be done outside the library after a key.
#[derive(Debug, PartialEq, Eq)]
pub enum Action {
    /// Nothing.
    Nothing,
    /// Fetch a diff and hand it back with `diff_loaded` or
    /// `range_diff_loaded`.
    Load(DiffRequest),
    /// Load the history of the file that was entered, with `begin_loading`
    /// and `set_history`.
    LoadHistory,
    /// List the files and open the file picker with `switch_to_file_picker`.
    OpenFilePicker,
    /// List the files and start over in the file picker.
    ResetToFilePicker,
    /// Copy what `copy_content` gives, and report with `copy_succeeded` or
    /// `copy_failed`.
    Copy(CopyTarget),
    /// Fetch what `commit_metadata_needed` names, hand it over with
    /// `apply_commit_metadata`, and open the commit window with
    /// `show_commit_info_popup`.
    ShowCommitInfo,
}

/// Whether a key was taken, and what is to be done after it.
#[derive(Debug, PartialEq, Eq)]
pub struct KeyOutcome {
    pub handled: bool,
    pub action: Action,
}

impl KeyEvent {
    /// The press of `code` with `modifiers` held.
    pub fn new(code: KeyCode, modifiers: KeyModifiers) -> (key: Self)
        ensures
            key == (KeyEvent { code, modifiers }),
    {
        KeyEvent { code, modifiers }
    }
}

/// The request that an action hands on, if it is a request for a diff.
pub open spec fn request_of(action: Action) -> Option<DiffRequest> {
    match action {
        Action::Load(request) => Some(request),
        _ => None,
    }
}

/// The action that hands a request on.
pub fn action_of(request: Option<DiffRequest>) -> (action: Action)
    ensures
        request_of(action) == request,
        action is Load || action is Nothing,
{
    match request {
        Some(r) => Action::Load(r),
        None => Action::Nothing,
    }
}

/// The target of the copy that an action asks for, if it asks for one.
pub open spec fn target_of(action: Action) -> Option<CopyTarget> {
    match action {
        Action::Copy(target) => Some(target),
        _ => None,
    }
}

/// What a key means while the query of a search is typed: a character is
/// added, backspace removes one, enter ends the typing, escape ends the
/// search. Any other key is not taken here.
pub open spec fn search_input_meaning(key: KeyEvent) -> Option<Command> {
    match (key.code, key.modifiers) {
        (KeyCode::Char(c), KeyModifiers::NONE) => Some(Command::SearchType(c)),
        (KeyCode::Backspace, KeyModifiers::NONE) => Some(Command::SearchBackspace),
        (KeyCode::Enter, KeyModifiers::NONE) => Some(Command::SearchConfirm),
        (KeyCode::Esc, _) => Some(Command::SearchCancel),
        _ => None,
    }
}

/// What a key means in the file picker. Every key is taken. Control-q
/// quits; enter opens the selected file; the arrows and control-p and
/// control-n move the selection; backspace and control-u edit the query;
/// any other character goes into the query, unless it is what is left of
/// a key sequence that arrived in pieces.
pub open spec fn file_picker_meaning(key: KeyEvent) -> Command {
    match (key.code, key.modifiers) {
        (KeyCode::Char('q'), KeyModifiers::CONTROL) => Command::Quit,
        (KeyCode::Enter, KeyModifiers::NONE) => Command::PickerSelect,
        (KeyCode::Up, KeyModifiers::NONE) => Command::PickerUp,
        (KeyCode::Down, KeyModifiers::NONE) => Command::PickerDown,
        (KeyCode::Char('p'), KeyModifiers::CONTROL) => Command::PickerUp,
        (KeyCode::Char('n'), KeyModifiers::CONTROL) => Command::PickerDown,
        (KeyCode::Backspace, KeyModifiers::NONE) => Command::PickerDelete,
        (KeyCode::Char('u'), KeyModifiers::CONTROL) => Command::PickerClear,
        (KeyCode::Char(c), KeyModifiers::NONE) => if is_control_code(c) || c == '[' || c == '\x1b' {
            Command::Nothing
        } else {
            Command::PickerType(c)
        },
        _ => Command::Nothing,
    }
}

/// The copy target that a key names while a copy command waits for one.
pub open spec fn copy_target_meaning(key: KeyEvent) -> Option<CopyTarget> {
    match (key.code, key.modifiers) {
        (KeyCode::Char('s'), KeyModifiers::NONE) => Some(CopyTarget::FullSha),
        (KeyCode::Char('h'), KeyModifiers::NONE) => Some(CopyTarget::ShortSha),
        (KeyCode::Char('m'), KeyModifiers::NONE) => Some(CopyTarget::Message),
        (KeyCode::Char('a'), KeyModifiers::NONE) => Some(CopyTarget::Author),
        (KeyCode::Char('d'), KeyModifiers::NONE) => Some(CopyTarget::Date),
        (KeyCode::Char('u'), KeyModifiers::NONE) => Some(CopyTarget::GitHubUrl),
        (KeyCode::Char('p'), KeyModifiers::NONE) => Some(CopyTarget::Path),
        _ => None,
    }
}

impl App {
    /// The panel that has the focus, if the history of a file is shown.
    pub open spec fn focus(&self) -> Option<FocusedPanel> {
        match self.mode {
            AppMode::History { focused_panel, .. } => Some(focused_panel),
            AppMode::FilePicker { .. } => None,
        }
    }

    /// What a key means to the search while its query is typed.
    pub open spec fn search_input_command(&self, key: KeyEvent) -> Option<Command> {
        if self.typing_query() {
            search_input_meaning(key)
        } else {
            None
        }
    }

    /// What an up, down or tab key means: up and down, or `k` and `j`,
    /// scroll the commit window if it is open, and else move the selection
    /// in the commit list or the cursor in the diff, whichever has the
    /// focus; tab gives the focus to the other panel.
    pub open spec fn navigation_command(&self, key: KeyEvent) -> Option<Command> {
        match (key.code, key.modifiers) {
            (KeyCode::Up, KeyModifiers::NONE) | (KeyCode::Char('k'), KeyModifiers::NONE) => Some(
                if self.show_commit_info {
                    Command::InfoUp
                } else {
                    match self.focus() {
                        Some(FocusedPanel::Commits) => Command::SelectionUp,
                        Some(FocusedPanel::Diff) => Command::CursorUp,
                        None => Command::Nothing,
                    }
                },
            ),
            (KeyCode::Down, KeyModifiers::NONE) | (KeyCode::Char('j'), KeyModifiers::NONE) => Some(
                if self.show_commit_info {
                    Command::InfoDown
                } else {
                    match self.focus() {
                        Some(FocusedPanel::Commits) => Command::SelectionDown,
                        Some(FocusedPanel::Diff) => Command::CursorDown,
                        None => Command::Nothing,
                    }
                },
            ),
            (KeyCode::Tab, KeyModifiers::NONE) => Some(Command::SwitchFocus),
            _ => None,
        }
    }

    /// What `n` and `N` mean: they step through the results of a search
    /// if there are any to step through, and through the changes of the
    /// diff if not. While a copy command waits for its target, `n` does
    /// not step through changes.
    pub open spec fn change_navigation_command(&self, key: KeyEvent) -> Option<Command> {
        match (key.code, key.modifiers) {
            (KeyCode::Char('n'), KeyModifiers::NONE) => if self.stepping_through_results() {
                Some(Command::NextResult)
            } else if self.copy_mode is Some {
                None
            } else {
                Some(Command::NextChange)
            },
            (KeyCode::Char('N'), KeyModifiers::SHIFT) => if self.stepping_through_results() {
                Some(Command::PreviousResult)
            } else {
                Some(Command::PreviousChange)
            },
            _ => None,
        }
    }

    /// What a scrolling key means: the page keys, control-u, control-d,
    /// control-b and control-f page through the diff; `a` and `s` scroll
    /// the focused panel sideways, unless a copy command waits for its
    /// target.
    pub open spec fn scrolling_command(&self, key: KeyEvent) -> Option<Command> {
        match (key.code, key.modifiers) {
            (KeyCode::PageUp, _) => Some(Command::PageUp),
            (KeyCode::PageDown, _) => Some(Command::PageDown),
            (KeyCode::Char('u'), KeyModifiers::CONTROL) => Some(Command::PageUp),
            (KeyCode::Char('d'), KeyModifiers::CONTROL) => Some(Command::PageDown),
            (KeyCode::Char('b'), KeyModifiers::CONTROL) => Some(Command::PageUp),
            (KeyCode::Char('f'), KeyModifiers::CONTROL) => Some(Command::PageDown),
            (KeyCode::Char('a'), KeyModifiers::NONE) => if self.copy_mode is Some {
                None
            } else {
                Some(Command::ScrollLeft)
            },
            (KeyCode::Char('s'), KeyModifiers::NONE) => if self.copy_mode is Some {
                None
            } else {
                Some(Command::ScrollRight)
            },
            _ => None,
        }
    }

    /// What a key means to copying, which takes keys only while the commit
    /// list has the focus or the commit window is open: `y` is the copy
    /// key, `Y` copies the short hash, `c` copies the full hash in the
    /// commit window and begins a copy command elsewhere; and while a copy
    /// command waits for its target, a key that names one copies it.
    pub open spec fn copy_command(&self, key: KeyEvent) -> Option<Command> {
        if !(self.focus() == Some(FocusedPanel::Commits) || self.show_commit_info) {
            None
        } else {
            match (key.code, key.modifiers) {
                (KeyCode::Char('y'), KeyModifiers::NONE) => Some(Command::Yank),
                (KeyCode::Char('Y'), KeyModifiers::SHIFT) => Some(
                    Command::Copy(CopyTarget::ShortSha),
                ),
                (KeyCode::Char('c'), KeyModifiers::NONE) => Some(
                    if self.show_commit_info {
                        Command::Copy(CopyTarget::FullSha)
                    } else {
                        Command::StartCopy
                    },
                ),
                _ => if self.copy_mode is Some {
                    match copy_target_meaning(key) {
                        Some(target) => Some(Command::Copy(target)),
                        None => None,
                    }
                } else {
                    None
                },
            }
        }
    }

    /// What one of the remaining keys means: `q` is the quit key; escape;
    /// `h` and `l` move the split; `f` opens the file picker; `/` begins a
    /// search if the diff has the focus and the commit window is closed;
    /// `d` marks or closes a range; `?` toggles the help; `i` and enter
    /// open the commit window if the commit list has the focus.
    pub open spec fn ui_command(&self, key: KeyEvent) -> Option<Command> {
        match (key.code, key.modifiers) {
            (KeyCode::Char('q'), KeyModifiers::NONE) => Some(Command::CloseOrQuit),
            (KeyCode::Esc, _) => Some(Command::Escape),
            (KeyCode::Char('h'), KeyModifiers::NONE) => Some(Command::ShrinkSplit),
            (KeyCode::Char('l'), KeyModifiers::NONE) => Some(Command::GrowSplit),
            (KeyCode::Char('f'), KeyModifiers::NONE) => Some(Command::OpenFilePicker),
            (KeyCode::Char('/'), KeyModifiers::NONE) => if !self.show_commit_info && self.focus()
                == Some(FocusedPanel::Diff) {
                Some(Command::StartSearch)
            } else {
                None
            },
            (KeyCode::Char('d'), KeyModifiers::NONE) => Some(Command::ToggleRange),
            (KeyCode::Char('?'), KeyModifiers::NONE) => Some(Command::ToggleHelp),
            (KeyCode::Char('i'), KeyModifiers::NONE) | (KeyCode::Enter, KeyModifiers::NONE) => Some(
                if self.focus() == Some(FocusedPanel::Commits) {
                    Command::ShowInfo
                } else {
                    Command::Nothing
                },
            ),
            _ => None,
        }
    }

    /// What a key means. A search whose query is typed is asked first; the
    /// file picker takes every key that is left; in the history, the keys
    /// are offered to navigation, stepping, scrolling, copying and the
    /// rest, in this order, and the first that takes a key decides.
    pub open spec fn command_of(&self, key: KeyEvent) -> Option<Command> {
        if self.search_input_command(key) is Some {
            self.search_input_command(key)
        } else if self.mode is FilePicker {
            Some(file_picker_meaning(key))
        } else if self.navigation_command(key) is Some {
            self.navigation_command(key)
        } else if self.change_navigation_command(key) is Some {
            self.change_navigation_command(key)
        } else if self.scrolling_command(key) is Some {
            self.scrolling_command(key)
        } else if self.copy_command(key) is Some {
            self.copy_command(key)
        } else {
            self.ui_command(key)
        }
    }

    /// Everything but the mode is as in `before`.
    pub open spec fn same_but_mode(&self, before: &App) -> bool {
        *self == (App { mode: self.mode, ..*before })
    }

    /// The state with the view changed to `ui_state`.
    pub open spec fn with_view(&self, ui_state: crate::ui::state::UIState) -> App {
        App { ui_state, ..*self }
    }

    /// What performing `command` does, from the state `before`; `action` is
    /// what is to be done outside the library afterwards.
    pub open spec fn performed(&self, before: &App, command: Command, action: Action) -> bool {
        match command {
            Command::SearchType(c) => action is Nothing && self.search_typed(
                before,
                c,
                before.typing_query(),
            ),
            Command::SearchBackspace => action is Nothing && self.search_erased(
                before,
                before.typing_query(),
            ),
            Command::SearchConfirm => action is Nothing && self.search_confirmed(
                before,
                before.typing_query(),
            ),
            Command::SearchCancel => action is Nothing && self.diff_search_state is None
                && self.same_but_search(before),
            Command::Quit => action is Nothing && *self == (App { should_quit: true, ..*before }),
            Command::PickerSelect => match before.mode {
                AppMode::FilePicker { state, .. } => if state.selected
                    < state.filtered_files@.len() && state.filtered_files@[state.selected as int].0
                    < state.files@.len() {
                    action is LoadHistory && self.entered_history(
                        before,
                        state.files@[state.filtered_files@[state.selected as int].0 as int].path,
                        true,
                    )
                } else {
                    action is Nothing && *self == *before
                },
                AppMode::History { .. } => action is Nothing && *self == *before,
            },
            Command::PickerUp => action is Nothing && self.same_but_mode(before) && match (
                self.mode,
                before.mode,
            ) {
                (
                    AppMode::FilePicker { state: after, context: c2 },
                    AppMode::FilePicker { state, context: c1 },
                ) => c2 == c1 && after.moved_up_from(&state),
                _ => self.mode == before.mode,
            },
            Command::PickerDown => action is Nothing && self.same_but_mode(before) && match (
                self.mode,
                before.mode,
            ) {
                (
                    AppMode::FilePicker { state: after, context: c2 },
                    AppMode::FilePicker { state, context: c1 },
                ) => c2 == c1 && after.moved_down_from(&state),
                _ => self.mode == before.mode,
            },
            Command::PickerDelete => action is Nothing && self.same_but_mode(before) && match (
                self.mode,
                before.mode,
            ) {
                (
                    AppMode::FilePicker { state: after, context: c2 },
                    AppMode::FilePicker { state, context: c1 },
                ) => c2 == c1 && after.erased_from(&state),
                _ => self.mode == before.mode,
            },
            Command::PickerClear => action is Nothing && self.same_but_mode(before) && match (
                self.mode,
                before.mode,
            ) {
                (
                    AppMode::FilePicker { state: after, context: c2 },
                    AppMode::FilePicker { state, context: c1 },
                ) => c2 == c1 && after.cleared_from(&state),
                _ => self.mode == before.mode,
            },
            Command::PickerType(c) => action is Nothing && self.same_but_mode(before) && match (
                self.mode,
                before.mode,
            ) {
                (
                    AppMode::FilePicker { state: after, context: c2 },
                    AppMode::FilePicker { state, context: c1 },
                ) => c2 == c1 && after.typed_from(&state, c),
                _ => self.mode == before.mode,
            },
            Command::InfoUp => action is Nothing && self.info_scrolled_up(before),
            Command::InfoDown => action is Nothing && self.info_scrolled_down(before),
            Command::SelectionUp => (action is Load || action is Nothing) && self.selection_moved_up(
                before,
                request_of(action),
            ),
            Command::SelectionDown => (action is Load || action is Nothing)
                && self.selection_moved_down(before, request_of(action)),
            Command::CursorUp => action is Nothing && *self == before.with_view(
                before.ui_state.cursor_moved_up(before.layout()),
            ),
            Command::CursorDown => action is Nothing && *self == before.with_view(
                before.ui_state.cursor_moved_down(before.line_count() as usize, before.layout()),
            ),
            Command::SwitchFocus => action is Nothing && *self == (match before.focus() {
                Some(FocusedPanel::Commits) => before.with_focus(FocusedPanel::Diff),
                Some(FocusedPanel::Diff) => before.with_focus(FocusedPanel::Commits),
                None => *before,
            }),
            Command::NextResult => action is Nothing && self.moved_to_next_result(before),
            Command::PreviousResult => action is Nothing && self.moved_to_previous_result(before),
            Command::NextChange => action is Nothing && self.moved_to_next_change(before),
            Command::PreviousChange => action is Nothing && self.moved_to_previous_change(before),
            Command::PageUp => action is Nothing && *self == before.with_view(
                before.ui_state.paged_up(),
            ),
            Command::PageDown => action is Nothing && *self == before.with_view(
                before.ui_state.paged_down(before.line_count() as usize),
            ),
            Command::ScrollLeft => action is Nothing && *self == (match before.focus() {
                Some(FocusedPanel::Commits) => before.with_view(
                    before.ui_state.commit_scrolled_left(),
                ),
                Some(FocusedPanel::Diff) => before.with_view(before.ui_state.diff_scrolled_left()),
                None => *before,
            }),
            Command::ScrollRight => action is Nothing && *self == (match before.focus() {
                Some(FocusedPanel::Commits) => before.with_view(
                    before.ui_state.commit_scrolled_right(before.max_commit_width() as usize),
                ),
                Some(FocusedPanel::Diff) => before.with_view(
                    before.ui_state.diff_scrolled_right(before.max_diff_width() as usize),
                ),
                None => *before,
            }),
            Command::Yank => (action is Copy || action is Nothing) && self.yanked(
                before,
                target_of(action),
            ),
            Command::Copy(target) => action == Action::Copy(target) && *self == *before,
            Command::StartCopy => action is Nothing && self.copy_started(before),
            Command::CloseOrQuit => *self == before.closed_or_quit() && action == (
            if before.quit_returns_to_picker() {
                Action::OpenFilePicker
            } else {
                Action::Nothing
            }),
            Command::Escape => *self == before.escaped() && action == (
            if before.escape_leaves_history() {
                Action::ResetToFilePicker
            } else {
                Action::Nothing
            }),
            Command::ShrinkSplit => action is Nothing && *self == before.with_view(
                before.ui_state.split_decreased(),
            ),
            Command::GrowSplit => action is Nothing && *self == before.with_view(
                before.ui_state.split_increased(),
            ),
            Command::OpenFilePicker => action is OpenFilePicker && *self == *before,
            Command::StartSearch => action is Nothing && self.search_started(before),
            Command::ToggleRange => (action is Load || action is Nothing) && self.range_toggled(
                before,
                request_of(action),
            ),
            Command::ToggleHelp => action is Nothing && *self == before.with_view(
                before.ui_state.help_toggled(),
            ),
            Command::ShowInfo => action is ShowCommitInfo && *self == *before,
            Command::Nothing => action is Nothing && *self == *before,
        }
    }

    /// What a key does, from the state `before`, if `command` is what it
    /// means there: the command is performed, and a key that means nothing
    /// changes nothing.
    pub open spec fn key_handled(
        &self,
        before: &App,
        command: Option<Command>,
        outcome: KeyOutcome,
    ) -> bool {
        match command {
            Some(c) => outcome.handled && self.performed(before, c, outcome.action),
            None => !outcome.handled && outcome.action is Nothing && *self == *before,
        }
    }

    /// What a key means to the search while its query is typed.
    pub fn search_input_key(&self, key: KeyEvent) -> (command: Option<Command>)
        ensures
            command == self.search_input_command(key),
    {
        let typing = match &self.diff_search_state {
            Some(state) => state.is_input_mode,
            None => false,
        };
        if !typing {
            return None;
        }
        match (key.code, key.modifiers) {
            (KeyCode::Char(c), KeyModifiers::NONE) => Some(Command::SearchType(c)),
            (KeyCode::Backspace, KeyModifiers::NONE) => Some(Command::SearchBackspace),
            (KeyCode::Enter, KeyModifiers::NONE) => Some(Command::SearchConfirm),
            (KeyCode::Esc, _) => Some(Command::SearchCancel),
            _ => None,
        }
    }

    /// What a key means in the file picker.
    pub fn file_picker_key(key: KeyEvent) -> (command: Command)
        ensures
            command == file_picker_meaning(key),
    {
        match (key.code, key.modifiers) {
            (KeyCode::Char('q'), KeyModifiers::CONTROL) => Command::Quit,
            (KeyCode::Enter, KeyModifiers::NONE) => Command::PickerSelect,
            (KeyCode::Up, KeyModifiers::NONE) => Command::PickerUp,
            (KeyCode::Down, KeyModifiers::NONE) => Command::PickerDown,
            (KeyCode::Char('p'), KeyModifiers::CONTROL) => Command::PickerUp,
            (KeyCode::Char('n'), KeyModifiers::CONTROL) => Command::PickerDown,
            (KeyCode::Backspace, KeyModifiers::NONE) => Command::PickerDelete,
            (KeyCode::Char('u'), KeyModifiers::CONTROL) => Command::PickerClear,
            (KeyCode::Char(c), KeyModifiers::NONE) => {
                if is_query_char(c) {
                    Command::PickerType(c)
                } else {
                    Command::Nothing
                }
            },
            _ => Command::Nothing,
        }
    }

    /// What an up, down or tab key means.
    pub fn navigation_key(&self, key: KeyEvent) -> (command: Option<Command>)
        ensures
            command == self.navigation_command(key),
    {
        match (key.code, key.modifiers) {
            (KeyCode::Up, KeyModifiers::NONE) | (KeyCode::Char('k'), KeyModifiers::NONE) => {
                if self.show_commit_info {
                    Some(Command::InfoUp)
                } else {
                    match self.get_focused_panel() {
                        Some(FocusedPanel::Commits) => Some(Command::SelectionUp),
                        Some(FocusedPanel::Diff) => Some(Command::CursorUp),
                        None => Some(Command::Nothing),
                    }
                }
            },
            (KeyCode::Down, KeyModifiers::NONE) | (KeyCode::Char('j'), KeyModifiers::NONE) => {
                if self.show_commit_info {
                    Some(Command::InfoDown)
                } else {
                    match self.get_focused_panel() {
                        Some(FocusedPanel::Commits) => Some(Command::SelectionDown),
                        Some(FocusedPanel::Diff) => Some(Command::CursorDown),
                        None => Some(Command::Nothing),
                    }
                }
            },
            (KeyCode::Tab, KeyModifiers::NONE) => Some(Command::SwitchFocus),
            _ => None,
        }
    }

    /// What `n` and `N` mean.
    pub fn change_navigation_key(&self, key: KeyEvent) -> (command: Option<Command>)
        ensures
            command == self.change_navigation_command(key),
    {
        match (key.code, key.modifiers) {
            (KeyCode::Char('n'), KeyModifiers::NONE) => {
                if self.steps_through_results() {
                    Some(Command::NextResult)
                } else if self.copy_mode.is_some() {
                    None
                } else {
                    Some(Command::NextChange)
                }
            },
            (KeyCode::Char('N'), KeyModifiers::SHIFT) => {
                if self.steps_through_results() {
                    Some(Command::PreviousResult)
                } else {
                    Some(Command::PreviousChange)
                }
            },
            _ => None,
        }
    }

    /// What a scrolling key means.
    pub fn scrolling_key(&self, key: KeyEvent) -> (command: Option<Command>)
        ensures
            command == self.scrolling_command(key),
    {
        match (key.code, key.modifiers) {
            (KeyCode::PageUp, _) => Some(Command::PageUp),
            (KeyCode::PageDown, _) => Some(Command::PageDown),
            (KeyCode::Char('u'), KeyModifiers::CONTROL) => Some(Command::PageUp),
            (KeyCode::Char('d'), KeyModifiers::CONTROL) => Some(Command::PageDown),
            (KeyCode::Char('b'), KeyModifiers::CONTROL) => Some(Command::PageUp),
            (KeyCode::Char('f'), KeyModifiers::CONTROL) => Some(Command::PageDown),
            (KeyCode::Char('a'), KeyModifiers::NONE) => {
                if self.copy_mode.is_some() {
                    None
                } else {
                    Some(Command::ScrollLeft)
                }
            },
            (KeyCode::Char('s'), KeyModifiers::NONE) => {
                if self.copy_mode.is_some() {
                    None
                } else {
                    Some(Command::ScrollRight)
                }
            },
            _ => None,
        }
    }

    /// The copy target that a key names.
    pub fn copy_target_key(key: KeyEvent) -> (target: Option<CopyTarget>)
        ensures
            target == copy_target_meaning(key),
    {
        match (key.code, key.modifiers) {
            (KeyCode::Char('s'), KeyModifiers::NONE) => Some(CopyTarget::FullSha),
            (KeyCode::Char('h'), KeyModifiers::NONE) => Some(CopyTarget::ShortSha),
            (KeyCode::Char('m'), KeyModifiers::NONE) => Some(CopyTarget::Message),
            (KeyCode::Char('a'), KeyModifiers::NONE) => Some(CopyTarget::Author),
            (KeyCode::Char('d'), KeyModifiers::NONE) => Some(CopyTarget::Date),
            (KeyCode::Char('u'), KeyModifiers::NONE) => Some(CopyTarget::GitHubUrl),
            (KeyCode::Char('p'), KeyModifiers::NONE) => Some(CopyTarget::Path),
            _ => None,
        }
    }

    /// What a key means to copying.
    pub fn copy_key(&self, key: KeyEvent) -> (command: Option<Command>)
        ensures
            command == self.copy_command(key),
    {
        let on_commits = match self.get_focused_panel() {
            Some(FocusedPanel::Commits) => true,
            _ => false,
        };
        if !on_commits && !self.show_commit_info {
            return None;
        }
        match (key.code, key.modifiers) {
            (KeyCode::Char('y'), KeyModifiers::NONE) => Some(Command::Yank),
            (KeyCode::Char('Y'), KeyModifiers::SHIFT) => Some(Command::Copy(CopyTarget::ShortSha)),
            (KeyCode::Char('c'), KeyModifiers::NONE) => {
                if self.show_commit_info {
                    Some(Command::Copy(CopyTarget::FullSha))
                } else {
                    Some(Command::StartCopy)
                }
            },
            _ => {
                match self.copy_mode {
                    Some(CopyMode::WaitingForTarget) => match Self::copy_target_key(key) {
                        Some(target) => Some(Command::Copy(target)),
                        None => None,
                    },
                    None => None,
                }
            },
        }
    }

    /// What one of the remaining keys means.
    pub fn ui_key(&self, key: KeyEvent) -> (command: Option<Command>)
        ensures
            command == self.ui_command(key),
    {
        let focus = self.get_focused_panel();
        match (key.code, key.modifiers) {
            (KeyCode::Char('q'), KeyModifiers::NONE) => Some(Command::CloseOrQuit),
            (KeyCode::Esc, _) => Some(Command::Escape),
            (KeyCode::Char('h'), KeyModifiers::NONE) => Some(Command::ShrinkSplit),
            (KeyCode::Char('l'), KeyModifiers::NONE) => Some(Command::GrowSplit),
            (KeyCode::Char('f'), KeyModifiers::NONE) => Some(Command::OpenFilePicker),
            (KeyCode::Char('/'), KeyModifiers::NONE) => {
                match focus {
                    Some(FocusedPanel::Diff) => if !self.show_commit_info {
                        Some(Command::StartSearch)
                    } else {
                        None
                    },
                    _ => None,
                }
            },
            (KeyCode::Char('d'), KeyModifiers::NONE) => Some(Command::ToggleRange),
            (KeyCode::Char('?'), KeyModifiers::NONE) => Some(Command::ToggleHelp),
            (KeyCode::Char('i'), KeyModifiers::NONE) | (KeyCode::Enter, KeyModifiers::NONE) => {
                match focus {
                    Some(FocusedPanel::Commits) => Some(Command::ShowInfo),
                    _ => Some(Command::Nothing),
                }
            },
            _ => None,
        }
    }

    /// What a key means in the state as it is.
    pub fn command_for(&self, key: KeyEvent) -> (command: Option<Command>)
        ensures
            command == self.command_of(key),
    {
        if let Some(c) = self.search_input_key(key) {
            return Some(c);
        }
        match &self.mode {
            AppMode::FilePicker { .. } => {
                return Some(Self::file_picker_key(key));
            },
            AppMode::History { .. } => {},
        }
        if let Some(c) = self.navigation_key(key) {
            return Some(c);
        }
        if let Some(c) = self.change_navigation_key(key) {
            return Some(c);
        }
        if let Some(c) = self.scrolling_key(key) {
            return Some(c);
        }
        if let Some(c) = self.copy_key(key) {
            return Some(c);
        }
        self.ui_key(key)
    }

    /// The path of the file that is selected in the file picker.
    fn picked_file(&self) -> (path: Option<String>)
        ensures
            match self.mode {
                AppMode::FilePicker { state, .. } => if state.selected
                    < state.filtered_files@.len() && state.filtered_files@[state.selected as int].0
                    < state.files@.len() {
                    path == Some(
                        state.files@[state.filtered_files@[state.selected as int].0 as int].path,
                    )
                } else {
                    path is None
                },
                AppMode::History { .. } => path is None,
            },
    {
        match &self.mode {
            AppMode::FilePicker { state, .. } => match state.get_selected_file() {
                Some(file) => Some(file.path.clone()),
                None => None,
            },
            AppMode::History { .. } => None,
        }
    }

    /// Performs a command.
    pub fn perform(&mut self, command: Command) -> (action: Action)
        ensures
            final(self).performed(old(self), command, action),
    {
        match command {
            Command::SearchType(c) => {
                let _ = self.search_type_char(c);
                Action::Nothing
            },
            Command::SearchBackspace => {
                let _ = self.search_backspace();
                Action::Nothing
            },
            Command::SearchConfirm => {
                let _ = self.search_confirm();
                Action::Nothing
            },
            Command::SearchCancel => {
                self.clear_diff_search();
                Action::Nothing
            },
            Command::Quit => {
                self.quit();
                Action::Nothing
            },
            Command::PickerSelect => match self.picked_file() {
                Some(path) => {
                    self.switch_to_history(path, true);
                    Action::LoadHistory
                },
                None => Action::Nothing,
            },
            Command::PickerUp => {
                match &mut self.mode {
                    AppMode::FilePicker { state, .. } => {
                        state.move_up();
                    },
                    AppMode::History { .. } => {},
                }
                Action::Nothing
            },
            Command::PickerDown => {
                match &mut self.mode {
                    AppMode::FilePicker { state, .. } => {
                        state.move_down();
                    },
                    AppMode::History { .. } => {},
                }
                Action::Nothing
            },
            Command::PickerDelete => {
                match &mut self.mode {
                    AppMode::FilePicker { state, .. } => {
                        state.delete_char();
                    },
                    AppMode::History { .. } => {},
                }
                Action::Nothing
            },
            Command::PickerClear => {
                match &mut self.mode {
                    AppMode::FilePicker { state, .. } => {
                        state.clear_query();
                    },
                    AppMode::History { .. } => {},
                }
                Action::Nothing
            },
            Command::PickerType(c) => {
                match &mut self.mode {
                    AppMode::FilePicker { state, .. } => {
                        state.append_char(c);
                    },
                    AppMode::History { .. } => {},
                }
                Action::Nothing
            },
            Command::InfoUp => {
                self.scroll_commit_info_up();
                Action::Nothing
            },
            Command::InfoDown => {
                self.scroll_commit_info_down();
                Action::Nothing
            },
            Command::SelectionUp => {
                let request = self.move_selection_up();
                action_of(request)
            },
            Command::SelectionDown => {
                let request = self.move_selection_down();
                action_of(request)
            },
            Command::CursorUp => {
                let layout_mode = self.effective_layout();
                self.ui_state.move_cursor_up(&layout_mode);
                Action::Nothing
            },
            Command::CursorDown => {
                let max_lines = self.get_diff_line_count();
                let layout_mode = self.effective_layout();
                self.ui_state.move_cursor_down(max_lines, &layout_mode);
                Action::Nothing
            },
            Command::SwitchFocus => {
                self.switch_focus();
                Action::Nothing
            },
            Command::NextResult => {
                self.navigate_to_next_search_result();
                Action::Nothing
            },
            Command::PreviousResult => {
                self.navigate_to_previous_search_result();
                Action::Nothing
            },
            Command::NextChange => {
                self.navigate_to_next_change();
                Action::Nothing
            },
            Command::PreviousChange => {
                self.navigate_to_previous_change();
                Action::Nothing
            },
            Command::PageUp => {
                self.ui_state.scroll_diff_page_up();
                Action::Nothing
            },
            Command::PageDown => {
                let max_lines = self.get_diff_line_count();
                self.ui_state.scroll_diff_page_down(max_lines);
                Action::Nothing
            },
            Command::ScrollLeft => {
                match self.get_focused_panel() {
                    Some(FocusedPanel::Commits) => self.ui_state.scroll_commit_left(),
                    Some(FocusedPanel::Diff) => self.ui_state.scroll_diff_left(),
                    None => {},
                }
                Action::Nothing
            },
            Command::ScrollRight => {
                match self.get_focused_panel() {
                    Some(FocusedPanel::Commits) => {
                        let max_width = self.calculate_max_commit_line_width();
                        self.ui_state.scroll_commit_right(max_width);
                    },
                    Some(FocusedPanel::Diff) => {
                        let max_width = self.calculate_max_diff_line_width();
                        self.ui_state.scroll_diff_right(max_width);
                    },
                    None => {},
                }
                Action::Nothing
            },
            Command::Yank => match self.yank() {
                Some(target) => Action::Copy(target),
                None => Action::Nothing,
            },
            Command::Copy(target) => Action::Copy(target),
            Command::StartCopy => {
                self.start_copy_mode();
                Action::Nothing
            },
            Command::CloseOrQuit => {
                if self.close_or_quit() {
                    Action::OpenFilePicker
                } else {
                    Action::Nothing
                }
            },
            Command::Escape => {
                if self.escape() {
                    Action::ResetToFilePicker
                } else {
                    Action::Nothing
                }
            },
            Command::ShrinkSplit => {
                self.ui_state.decrease_split_ratio();
                Action::Nothing
            },
            Command::GrowSplit => {
                self.ui_state.increase_split_ratio();
                Action::Nothing
            },
            Command::OpenFilePicker => Action::OpenFilePicker,
            Command::StartSearch => {
                self.start_diff_search();
                Action::Nothing
            },
            Command::ToggleRange => {
                let request = self.toggle_diff_range_selection();
                action_of(request)
            },
            Command::ToggleHelp => {
                self.ui_state.toggle_help();
                Action::Nothing
            },
            Command::ShowInfo => Action::ShowCommitInfo,
            Command::Nothing => Action::Nothing,
        }
    }

    /// Performs what a key means, if it means anything.
    fn perform_if(&mut self, command: Option<Command>) -> (outcome: KeyOutcome)
        ensures
            final(self).key_handled(old(self), command, outcome),
    {
        match command {
            Some(c) => {
                let action = self.perform(c);
                KeyOutcome { handled: true, action }
            },
            None => KeyOutcome { handled: false, action: Action::Nothing },
        }
    }

    /// Takes a key: what the key means in the state as it is is performed.
    /// The answer says what is to be done outside the library.
    pub fn handle_key(&mut self, key: KeyEvent) -> (action: Action)
        ensures
            match old(self).command_of(key) {
                Some(command) => final(self).performed(old(self), command, action),
                None => action is Nothing && *final(self) == *old(self),
            },
    {
        let command = self.command_for(key);
        match command {
            Some(c) => self.perform(c),
            None => Action::Nothing,
        }
    }

    /// Takes a key if it is an up, down or tab key.
    pub fn handle_navigation_keys(&mut self, key: KeyEvent) -> (outcome: KeyOutcome)
        ensures
            final(self).key_handled(old(self), old(self).navigation_command(key), outcome),
    {
        let command = self.navigation_key(key);
        self.perform_if(command)
    }

    /// Takes a key if it is a scrolling key.
    pub fn handle_scrolling_keys(&mut self, key: KeyEvent) -> (outcome: KeyOutcome)
        ensures
            final(self).key_handled(old(self), old(self).scrolling_command(key), outcome),
    {
        let command = self.scrolling_key(key);
        self.perform_if(command)
    }

    /// Takes a key if it is one of those left to the rest.
    pub fn handle_ui_keys(&mut self, key: KeyEvent) -> (outcome: KeyOutcome)
        ensures
            final(self).key_handled(old(self), old(self).ui_command(key), outcome),
    {
        let command = self.ui_key(key);
        self.perform_if(command)
    }

    /// Takes a key if it means something to copying.
    pub fn handle_copy_keys(&mut self, key: KeyEvent) -> (outcome: KeyOutcome)
        ensures
            final(self).key_handled(old(self), old(self).copy_command(key), outcome),
    {
        let command = self.copy_key(key);
        self.perform_if(command)
    }

    /// Takes a key if it is `n` or `N`.
    pub fn handle_change_navigation_keys(&mut self, key: KeyEvent) -> (outcome: KeyOutcome)
        ensures
            final(self).key_handled(old(self), old(self).change_navigation_command(key), outcome),
    {
        let command = self.change_navigation_key(key);
        self.perform_if(command)
    }

    /// Takes a key if the query of a search is typed and the key means
    /// something to it.
    pub fn handle_search_input_keys(&mut self, key: KeyEvent) -> (outcome: KeyOutcome)
        ensures
            final(self).key_handled(old(self), old(self).search_input_command(key), outcome),
    {
        let command = self.search_input_key(key);
        self.perform_if(command)
    }
}

} // verus!
