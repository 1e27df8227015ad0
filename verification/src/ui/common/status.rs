//! What the status bar says.

use crate::app::search::DiffSearchState;
use crate::app::{App, AppMode, FocusedPanel};
use crate::diff::highlight::{Color, Style};
use crate::text::{decimal, decimal_text};
use vstd::prelude::*;

verus! {

/// What the status bar is about, which decides its colours.
#[derive(Debug, Clone, Copy, PartialEq, Eq, Structural)]
pub enum StatusKind {
    /// An error message: white on red.
    Error,
    /// A message about something copied: black on green.
    Copied,
    /// A copy command is waiting for its target: black on yellow.
    CopyMode,
    /// A search is going on: black on cyan.
    Search,
    /// Paths and key hints: gray on black.
    Normal,
}

/// The status bar: its text and what it is about.
#[derive(Debug)]
pub struct StatusBar {
    pub text: String,
    pub kind: StatusKind,
}

impl StatusKind {
    /// The colours of the status bar.
    pub fn style(&self) -> (style: Style)
        ensures
            style == (match *self {
                StatusKind::Error => Style {
                    fg: Some(Color::White),
                    bg: Some(Color::Red),
                    bold: false,
                    italic: false,
                    underlined: false,
                },
                StatusKind::Copied => Style {
                    fg: Some(Color::Black),
                    bg: Some(Color::Green),
                    bold: false,
                    italic: false,
                    underlined: false,
                },
                StatusKind::CopyMode => Style {
                    fg: Some(Color::Black),
                    bg: Some(Color::Yellow),
                    bold: false,
                    italic: false,
                    underlined: false,
                },
                StatusKind::Search => Style {
                    fg: Some(Color::Black),
                    bg: Some(Color::Cyan),
                    bold: false,
                    italic: false,
                    underlined: false,
                },
                StatusKind::Normal => Style {
                    fg: Some(Color::Gray),
                    bg: Some(Color::Black),
                    bold: false,
                    italic: false,
                    underlined: false,
                },
            }),
    {
        let (fg, bg) = match self {
            StatusKind::Error => (Color::White, Color::Red),
            StatusKind::Copied => (Color::Black, Color::Green),
            StatusKind::CopyMode => (Color::Black, Color::Yellow),
            StatusKind::Search => (Color::Black, Color::Cyan),
            StatusKind::Normal => (Color::Gray, Color::Black),
        };
        Style { fg: Some(fg), bg: Some(bg), bold: false, italic: false, underlined: false }
    }
}

/// What the status bar says of a search: the query while it is typed, else
/// that nothing matched, else which match of how many is current, counted
/// from 1, or 0 if none is.
pub open spec fn search_status(state: DiffSearchState) -> Seq<char> {
    if state.is_input_mode {
        "Search: "@ + state.query@ + "_"@
    } else if state.results@.len() == 0 {
        "No matches for '"@ + state.query@ + "'"@
    } else {
        decimal_text(
            match state.current_result {
                Some(i) => if i < usize::MAX {
                    (i + 1) as nat
                } else {
                    usize::MAX as nat
                },
                None => 0,
            },
        ) + "/"@ + decimal_text(state.results@.len()) + " matches for '"@ + state.query@ + "'"@
    }
}

/// The key hints for the panel that has the focus.
pub open spec fn focus_hint(mode: AppMode) -> Seq<char> {
    match mode {
        AppMode::History { focused_panel, .. } => if focused_panel == FocusedPanel::Commits {
            "↑↓/jk: select | i/Enter: info | y: copy | d: diff | a/s: h-scroll"@
        } else {
            "↑↓/jk: move cursor | PgUp/PgDn: scroll | a/s: h-scroll"@
        },
        AppMode::FilePicker { .. } => "Type to search files"@,
    }
}

/// The file that the status bar names.
pub open spec fn file_display(mode: AppMode) -> Seq<char> {
    match mode {
        AppMode::History { file_path, .. } => file_path@,
        AppMode::FilePicker { .. } => "File Picker"@,
    }
}

/// The text of the status bar. An error goes before a copy message, that
/// before the hint of a copy command, that before a search, and that
/// before the paths and key hints.
pub open spec fn status_text(app: &App) -> Seq<char> {
    if app.error_message is Some {
        " ERROR: "@ + app.error_message->Some_0@
    } else if app.copy_message is Some {
        " "@ + app.copy_message->Some_0@
    } else if app.copy_mode is Some {
        " Copy mode: s=SHA, h=short, m=msg, a=author, d=date, u=URL, y=SHA"@
    } else if app.diff_search_state is Some {
        " "@ + search_status(app.diff_search_state->Some_0)
            + " | n/N: next/prev | Esc: exit search"@
    } else {
        " "@ + app.repo_root@ + " | "@ + file_display(app.mode) + " | Tab: panel | "@ + focus_hint(
            app.mode,
        ) + " | h/l: resize | ?: help | q: quit "@
    }
}

/// What the status bar is about.
pub open spec fn status_kind(app: &App) -> StatusKind {
    if app.error_message is Some {
        StatusKind::Error
    } else if app.copy_message is Some {
        StatusKind::Copied
    } else if app.copy_mode is Some {
        StatusKind::CopyMode
    } else if app.diff_search_state is Some {
        StatusKind::Search
    } else {
        StatusKind::Normal
    }
}

/// What the status bar says of a search.
fn search_status_text(state: &DiffSearchState) -> (text: String)
    ensures
        text@ == search_status(*state),
{
    if state.is_input_mode {
        let mut text = "Search: ".to_owned();
        text.append(state.query.as_str());
        text.append("_");
        text
    } else if state.results.len() == 0 {
        let mut text = "No matches for '".to_owned();
        text.append(state.query.as_str());
        text.append("'");
        text
    } else {
        let current: usize = match state.current_result {
            Some(i) => i.saturating_add(1),
            None => 0,
        };
        let mut text = decimal(current as u64);
        text.append("/");
        text.append(decimal(state.results.len() as u64).as_str());
        text.append(" matches for '");
        text.append(state.query.as_str());
        text.append("'");
        text
    }
}

/// The status bar of a session.
pub fn status_bar(app: &App) -> (bar: StatusBar)
    ensures
        bar.text@ == status_text(app),
        bar.kind == status_kind(app),
{
    if let Some(error_msg) = &app.error_message {
        let mut text = " ERROR: ".to_owned();
        text.append(error_msg.as_str());
        return StatusBar { text, kind: StatusKind::Error };
    }
    if let Some(copy_msg) = &app.copy_message {
        let mut text = " ".to_owned();
        text.append(copy_msg.as_str());
        return StatusBar { text, kind: StatusKind::Copied };
    }
    if app.copy_mode.is_some() {
        return StatusBar {
            text: " Copy mode: s=SHA, h=short, m=msg, a=author, d=date, u=URL, y=SHA".to_owned(),
            kind: StatusKind::CopyMode,
        };
    }
    if let Some(search_state) = &app.diff_search_state {
        let mut text = " ".to_owned();
        text.append(search_status_text(search_state).as_str());
        text.append(" | n/N: next/prev | Esc: exit search");
        return StatusBar { text, kind: StatusKind::Search };
    }
    let mut text = " ".to_owned();
    text.append(app.repo_root.as_str());
    text.append(" | ");
    match &app.mode {
        AppMode::History { file_path, focused_panel } => {
            text.append(file_path.as_str());
            text.append(" | Tab: panel | ");
            match focused_panel {
                FocusedPanel::Commits => {
                    text.append(
                        "↑↓/jk: select | i/Enter: info | y: copy | d: diff | a/s: h-scroll",
                    );
                },
                FocusedPanel::Diff => {
                    text.append("↑↓/jk: move cursor | PgUp/PgDn: scroll | a/s: h-scroll");
                },
            }
        },
        AppMode::FilePicker { .. } => {
            text.append("File Picker");
            text.append(" | Tab: panel | ");
            text.append("Type to search files");
        },
    }
    text.append(" | h/l: resize | ?: help | q: quit ");
    assert(text@ =~= status_text(app));
    StatusBar { text, kind: StatusKind::Normal }
}

} // verus!
