//! The state of a session and the rules by which it moves.
//!
//! The session never talks to git, to the clipboard or to the clock itself.
//! Where it needs a diff that it does not have, it says so with a
//! `DiffRequest`; whoever runs the session fetches the diff and hands it
//! back with `diff_loaded` or `range_diff_loaded`.

pub mod changes;
pub mod events;
pub mod search;

use crate::app::changes::{
    is_next_change, is_previous_change, law_halving_finds_the_next_change,
    law_halving_finds_the_previous_change, next_change, next_change_of, previous_change,
    previous_change_of, strictly_increasing,
};
use crate::app::search::{
    compile_search, in_text_order, match_after, match_before, match_in_bounds, match_views,
    matches_in_lines, next_match, previous_match, search, search_pattern, starts_increase,
    DiffSearchState,
};
use crate::cache::{inserted, touched, value_of_key, DiffCache};
use crate::cli::LayoutMode;
use crate::commit::{Commit, CommitStats};
use crate::copy::{commit_copy_text, copy_text, CopyFormat, CopyMode};
use crate::diff::side_by_side::{projected, SideBySideDiff};
use crate::diff::{find_changes, is_change_index, line_views, parse_diff, parsed_diff};
use crate::git::files::GitFile;
use crate::git::history::{detect_pr_info, is_detected_pr};
use crate::git::working::WorkingDirectoryStatus;
use crate::pattern::pattern_is_valid;
use crate::text::{chars_of, concat2, concat3, line_bounds, same_text, split_lines};
use crate::ui::commit_info::CommitInfoPopup;
use crate::ui::file_picker::FilePickerState;
use crate::ui::state::{minus, percent_of, UIState};
use vstd::prelude::*;

verus! {

/// The panel that takes the keys.
#[derive(Debug, Clone, Copy, PartialEq, Eq, Structural)]
pub enum FocusedPanel {
    Commits,
    Diff,
}

/// Why the file picker is open.
#[derive(Debug)]
pub enum FilePickerContext {
    /// The session started without a file.
    Initial,
    /// Another file is being chosen while `previous_file` is shown.
    SwitchFile { previous_file: String },
}

/// What the session shows: the file picker, or the history of one file.
#[derive(Debug)]
pub enum AppMode {
    FilePicker { state: FilePickerState, context: FilePickerContext },
    History { file_path: String, focused_panel: FocusedPanel },
}

/// A diff that the session needs and does not have.
#[derive(Debug, PartialEq, Eq)]
pub enum DiffRequest {
    /// The uncommitted changes of `path`. To be cached under `key`.
    WorkingDirectory { key: String, path: String },
    /// What commit `hash` changed in `path`. To be cached under `hash`.
    Commit { hash: String, path: String },
    /// What changed in `path` between two commits. To be cached under
    /// `key`; the indices are those of the two commits in the list.
    Range {
        older_hash: String,
        newer_hash: String,
        path: String,
        key: String,
        older_index: usize,
        newer_index: usize,
    },
}

/// What is copied with a copy command.
#[derive(Debug, Clone, Copy, PartialEq, Eq, Structural)]
pub enum CopyTarget {
    FullSha,
    ShortSha,
    Message,
    Author,
    Date,
    GitHubUrl,
    Path,
}

/// Width from which on the layout `Auto` is side by side.
pub const WIDE_TERMINAL: u16 = 120;

/// Seconds after which a message disappears.
pub const MESSAGE_SECONDS: u64 = 3;

/// Number of message lines that the commit window is taken to show.
pub const COMMIT_INFO_VIEWPORT: usize = 10;

/// Number of diffs that the cache of a session holds.
pub const CACHE_CAPACITY: usize = 50;

/// The state of a session.
pub struct App {
    pub repo_root: String,
    pub should_quit: bool,
    pub context_lines: u32,
    pub follow_renames: bool,
    pub first_parent: bool,
    pub mode: AppMode,
    /// The commits of the file, the newest first.
    pub commits: Vec<Commit>,
    /// Index in `commits` of the commit that is selected.
    pub selected_index: usize,
    /// The path of the file at a commit, where it is known: pairs of hash
    /// and path; of two pairs with the same hash the later one counts.
    pub rename_map: Vec<(String, String)>,
    /// The diff that is shown, as git wrote it.
    pub current_diff: String,
    pub current_side_by_side_diff: Option<SideBySideDiff>,
    pub diff_cache: DiffCache,
    pub ui_state: UIState,
    pub layout_mode: LayoutMode,
    pub loading: bool,
    pub error_message: Option<String>,
    /// Index of the commit marked as one end of a range, while the other
    /// end is being chosen.
    pub diff_range_start: Option<usize>,
    /// Indices of the older and of the newer commit of the range whose diff
    /// is shown.
    pub current_diff_range: Option<(usize, usize)>,
    pub copy_mode: Option<CopyMode>,
    pub copy_message: Option<String>,
    pub show_commit_info: bool,
    pub commit_info_popup: Option<CommitInfoPopup>,
    /// Indices of the changed lines of the diff that is shown.
    pub current_changes: Vec<usize>,
    /// Index in `current_changes` of the change that was jumped to last.
    pub current_change_index: Option<usize>,
    /// When the message that is shown appeared, in seconds of a clock that
    /// never goes back.
    pub message_timer: Option<u64>,
    pub diff_search_state: Option<DiffSearchState>,
    pub came_from_file_picker: bool,
    pub redraw_tui: bool,
}

/// The older and the newer of two commits of the list. The list is newest
/// first, so the older commit is the one with the higher index.
pub open spec fn ordered_range(start_index: usize, end_index: usize) -> (usize, usize) {
    if start_index > end_index {
        (start_index, end_index)
    } else {
        (end_index, start_index)
    }
}

/// The key under which the diff between two commits is cached.
pub open spec fn range_key(older_hash: Seq<char>, newer_hash: Seq<char>) -> Seq<char> {
    older_hash + ".."@ + newer_hash
}

/// The older and the newer of two commits of the list, as indices.
pub fn range_order(start_index: usize, end_index: usize) -> (r: (usize, usize))
    ensures
        r == ordered_range(start_index, end_index),
        r.0 >= r.1,
        (r.0 == start_index && r.1 == end_index) || (r.0 == end_index && r.1 == start_index),
{
    if start_index > end_index {
        (start_index, end_index)
    } else {
        (end_index, start_index)
    }
}

/// The path stored for `hash` in a rename map: that of the last pair with
/// this hash among the first `n` pairs.
pub open spec fn renamed_path(map: Seq<(String, String)>, hash: Seq<char>, n: int) -> Option<
    Seq<char>,
>
    decreases n,
{
    if n <= 0 {
        None
    } else if map[n - 1].0@ == hash {
        Some(map[n - 1].1@)
    } else {
        renamed_path(map, hash, n - 1)
    }
}

/// The longest of the first `n` lines, in characters.
pub open spec fn longest_line(lines: Seq<Seq<char>>, n: int) -> nat
    decreases n,
{
    if n <= 0 {
        0
    } else {
        let before = longest_line(lines, n - 1);
        if lines[n - 1].len() > before {
            lines[n - 1].len()
        } else {
            before
        }
    }
}

/// The widest of the first `n` commits as the commit list shows them: hash,
/// a space, subject.
pub open spec fn widest_commit(commits: Seq<Commit>, n: int) -> nat
    decreases n,
{
    if n <= 0 {
        0
    } else {
        let before = widest_commit(commits, n - 1);
        let width = commits[n - 1].hash@.len() + 1 + commits[n - 1].subject@.len();
        if width > before {
            width
        } else {
            before
        }
    }
}

/// The message that tells what was copied.
pub open spec fn copied_message(target: CopyTarget, content: Seq<char>) -> Seq<char> {
    match target {
        CopyTarget::FullSha => "Copied: "@ + content,
        CopyTarget::ShortSha => "Copied: "@ + content,
        CopyTarget::Message => "Copied commit message"@,
        CopyTarget::Author => "Copied author: "@ + content,
        CopyTarget::Date => "Copied date: "@ + content,
        CopyTarget::GitHubUrl => "Copied URL: "@ + content,
        CopyTarget::Path => "Copied Path: "@ + content,
    }
}

/// The view of an optional string.
pub open spec fn optional_text(s: Option<String>) -> Option<Seq<char>> {
    match s {
        Some(t) => Some(t@),
        None => None,
    }
}

impl App {
    /// The session shows the history of a file.
    pub open spec fn in_history(&self) -> bool {
        self.mode is History
    }

    /// The file whose history is shown, if any.
    pub open spec fn file(&self) -> Option<Seq<char>> {
        match self.mode {
            AppMode::History { file_path, .. } => Some(file_path@),
            AppMode::FilePicker { .. } => None,
        }
    }

    /// The layout in use: for `Auto`, side by side from 120 columns on and
    /// unified below.
    pub open spec fn layout(&self) -> LayoutMode {
        match self.layout_mode {
            LayoutMode::Auto => if self.ui_state.terminal_width >= WIDE_TERMINAL {
                LayoutMode::SideBySide
            } else {
                LayoutMode::Unified
            },
            other => other,
        }
    }

    /// A commit is selected: the selection is an index of the list.
    pub open spec fn has_selection(&self) -> bool {
        self.selected_index < self.commits@.len()
    }

    /// What belongs to the session as a whole is as in `before`.
    pub open spec fn session_same(&self, before: &App) -> bool {
        &&& self.repo_root == before.repo_root
        &&& self.context_lines == before.context_lines
        &&& self.follow_renames == before.follow_renames
        &&& self.first_parent == before.first_parent
        &&& self.layout_mode == before.layout_mode
        &&& self.should_quit == before.should_quit
        &&& self.redraw_tui == before.redraw_tui
        &&& self.came_from_file_picker == before.came_from_file_picker
        &&& self.mode == before.mode
    }

    /// The list of commits and the selection in it are as in `before`.
    pub open spec fn history_same(&self, before: &App) -> bool {
        &&& self.commits == before.commits
        &&& self.rename_map == before.rename_map
        &&& self.selected_index == before.selected_index
        &&& self.diff_range_start == before.diff_range_start
        &&& self.current_diff_range == before.current_diff_range
        &&& self.loading == before.loading
    }

    /// The diff that is shown, and what is derived from it, is as in
    /// `before`.
    pub open spec fn diff_same(&self, before: &App) -> bool {
        &&& self.current_diff == before.current_diff
        &&& self.current_side_by_side_diff == before.current_side_by_side_diff
        &&& self.diff_cache == before.diff_cache
        &&& self.current_changes == before.current_changes
        &&& self.current_change_index == before.current_change_index
        &&& self.diff_search_state == before.diff_search_state
    }

    /// The messages are as in `before`.
    pub open spec fn messages_same(&self, before: &App) -> bool {
        &&& self.error_message == before.error_message
        &&& self.copy_mode == before.copy_mode
        &&& self.copy_message == before.copy_message
        &&& self.message_timer == before.message_timer
    }

    /// The commit window is as in `before`.
    pub open spec fn popup_same(&self, before: &App) -> bool {
        &&& self.show_commit_info == before.show_commit_info
        &&& self.commit_info_popup == before.commit_info_popup
    }

    /// What is derived from the diff belongs to the diff that is shown: the
    /// change index lists its changed lines, the side-by-side layout, if
    /// there is one, is its projection, and no search is going on.
    pub open spec fn derived_from_current_diff(&self) -> bool {
        &&& is_change_index(parsed_diff(self.current_diff@), self.current_changes@)
        &&& strictly_increasing(self.current_changes@)
        &&& self.current_change_index is None
        &&& self.diff_search_state is None
        &&& match self.current_side_by_side_diff {
            Some(layout) => self.layout() == LayoutMode::SideBySide && layout.well_formed()
                && layout.rows() == projected(parsed_diff(self.current_diff@)),
            None => self.layout() != LayoutMode::SideBySide,
        }
    }

    /// The layout in use.
    pub fn effective_layout(&self) -> (mode: LayoutMode)
        ensures
            mode == self.layout(),
            mode != LayoutMode::Auto,
    {
        match self.layout_mode {
            LayoutMode::Auto => {
                if self.ui_state.terminal_width >= WIDE_TERMINAL {
                    LayoutMode::SideBySide
                } else {
                    LayoutMode::Unified
                }
            },
            LayoutMode::Unified => LayoutMode::Unified,
            LayoutMode::SideBySide => LayoutMode::SideBySide,
        }
    }

    /// A session with the given mode and nothing loaded.
    fn with_mode(
        repo_root: String,
        mode: AppMode,
        context_lines: u32,
        follow_renames: bool,
        first_parent: bool,
        layout_mode: LayoutMode,
    ) -> (r: Self)
        ensures
            r.repo_root == repo_root,
            r.mode == mode,
            r.context_lines == context_lines,
            r.follow_renames == follow_renames,
            r.first_parent == first_parent,
            r.layout_mode == layout_mode,
            r.is_fresh(),
    {
        App {
            repo_root,
            should_quit: false,
            context_lines,
            follow_renames,
            first_parent,
            mode,
            commits: Vec::new(),
            selected_index: 0,
            rename_map: Vec::new(),
            current_diff: String::new(),
            current_side_by_side_diff: None,
            diff_cache: DiffCache::new(CACHE_CAPACITY),
            ui_state: UIState::new(),
            layout_mode,
            loading: false,
            error_message: None,
            diff_range_start: None,
            current_diff_range: None,
            copy_mode: None,
            copy_message: None,
            show_commit_info: false,
            commit_info_popup: None,
            current_changes: Vec::new(),
            current_change_index: None,
            message_timer: None,
            diff_search_state: None,
            came_from_file_picker: false,
            redraw_tui: false,
        }
    }

    /// Nothing is loaded, selected, shown or going on.
    pub open spec fn is_fresh(&self) -> bool {
        &&& !self.should_quit
        &&& self.commits@.len() == 0
        &&& self.selected_index == 0
        &&& self.rename_map@.len() == 0
        &&& self.current_diff@.len() == 0
        &&& self.current_side_by_side_diff is None
        &&& self.diff_cache.entries().len() == 0
        &&& self.diff_cache.capacity() == CACHE_CAPACITY
        &&& self.ui_state.split_percent == 40
        &&& !self.ui_state.show_help
        &&& self.ui_state.terminal_height == 24
        &&& self.ui_state.terminal_width == 80
        &&& self.ui_state.diff_scroll == 0
        &&& self.ui_state.diff_horizontal_scroll == 0
        &&& self.ui_state.commit_horizontal_scroll == 0
        &&& self.ui_state.diff_cursor_line == 0
        &&& !self.loading
        &&& self.error_message is None
        &&& self.diff_range_start is None
        &&& self.current_diff_range is None
        &&& self.copy_mode is None
        &&& self.copy_message is None
        &&& !self.show_commit_info
        &&& self.commit_info_popup is None
        &&& self.current_changes@.len() == 0
        &&& self.current_change_index is None
        &&& self.message_timer is None
        &&& self.diff_search_state is None
        &&& !self.came_from_file_picker
        &&& !self.redraw_tui
    }

    /// A session that starts in the file picker, over `files`.
    pub fn new_file_picker(
        repo_root: String,
        files: Vec<GitFile>,
        context_lines: u32,
        follow_renames: bool,
        first_parent: bool,
        layout_mode: LayoutMode,
    ) -> (r: Self)
        ensures
            r.repo_root == repo_root,
            r.context_lines == context_lines,
            r.follow_renames == follow_renames,
            r.first_parent == first_parent,
            r.layout_mode == layout_mode,
            r.is_fresh(),
            r.mode matches AppMode::FilePicker { state, context } && context
                is Initial && state.files == files && state.query@.len() == 0 && state.selected
                == 0 && state.listing_current(),
    {
        let state = FilePickerState::new(files);
        Self::with_mode(
            repo_root,
            AppMode::FilePicker { state, context: FilePickerContext::Initial },
            context_lines,
            follow_renames,
            first_parent,
            layout_mode,
        )
    }

    /// A session that starts in the history of `file_path`, with the focus
    /// on the commit list.
    pub fn new_history(
        repo_root: String,
        file_path: String,
        context_lines: u32,
        follow_renames: bool,
        first_parent: bool,
        layout_mode: LayoutMode,
    ) -> (r: Self)
        ensures
            r.repo_root == repo_root,
            r.context_lines == context_lines,
            r.follow_renames == follow_renames,
            r.first_parent == first_parent,
            r.layout_mode == layout_mode,
            r.is_fresh(),
            r.mode == (AppMode::History { file_path, focused_panel: FocusedPanel::Commits }),
    {
        Self::with_mode(
            repo_root,
            AppMode::History { file_path, focused_panel: FocusedPanel::Commits },
            context_lines,
            follow_renames,
            first_parent,
            layout_mode,
        )
    }

    /// What entering the history of `file_path` does, from the state
    /// `before`.
    pub open spec fn entered_history(&self, before: &App, file_path: String, from_picker: bool) -> bool {
        &&& self.mode == (AppMode::History {
                    file_path,
                    focused_panel: FocusedPanel::Commits,
                })
        &&& self.came_from_file_picker == from_picker
        &&& self.commits@.len() == 0
        &&& self.selected_index == 0
        &&& self.rename_map@.len() == 0
        &&& self.current_diff@.len() == 0
        &&& self.current_side_by_side_diff is None
        &&& self.diff_cache.entries().len() == 0
        &&& self.diff_cache.capacity() == before.diff_cache.capacity()
        &&& self.current_changes@.len() == 0
        &&& self.current_change_index is None
        &&& self.diff_search_state is None
        &&& self.ui_state.diff_scroll == 0
        &&& self.ui_state.diff_horizontal_scroll == 0
        &&& self.ui_state.diff_cursor_line == 0
        &&& self.ui_state.commit_horizontal_scroll == before.ui_state.commit_horizontal_scroll
        &&& self.ui_state.split_percent == before.ui_state.split_percent
        &&& self.ui_state.show_help == before.ui_state.show_help
        &&& self.ui_state.terminal_height == before.ui_state.terminal_height
        &&& self.ui_state.terminal_width == before.ui_state.terminal_width
        &&& self.repo_root == before.repo_root
        &&& self.context_lines == before.context_lines
        &&& self.follow_renames == before.follow_renames
        &&& self.first_parent == before.first_parent
        &&& self.layout_mode == before.layout_mode
        &&& self.should_quit == before.should_quit
        &&& self.redraw_tui == before.redraw_tui
        &&& self.loading == before.loading
        &&& self.diff_range_start == before.diff_range_start
        &&& self.current_diff_range == before.current_diff_range
        &&& self.messages_same(before)
        &&& self.popup_same(before)
    }

    /// Enters the history of `file_path`. Everything that belonged to the
    /// file shown before is dropped: commits, rename map, diff, scroll and
    /// cursor, cache, change index and search. The history itself is
    /// loaded afterwards, with `begin_loading` and `set_history`.
    pub fn switch_to_history(&mut self, file_path: String, from_picker: bool)
        ensures
            final(self).entered_history(old(self), file_path, from_picker),
    {
        self.mode = AppMode::History { file_path, focused_panel: FocusedPanel::Commits };
        self.came_from_file_picker = from_picker;
        self.commits = Vec::new();
        self.selected_index = 0;
        self.rename_map = Vec::new();
        self.current_diff = String::new();
        self.current_side_by_side_diff = None;
        self.ui_state.reset_diff_scroll();
        self.diff_cache.clear();
        self.clear_change_cache();
        self.clear_diff_search();
    }

    /// Opens the file picker over `files` to choose another file. Nothing
    /// happens unless the history of a file is shown.
    pub fn switch_to_file_picker(&mut self, files: Vec<GitFile>)
        ensures
            match old(self).mode {
                AppMode::History { file_path, .. } => {
                    &&& final(self).mode matches AppMode::FilePicker { state, context }
                        && state.files == files && state.query@.len() == 0 && state.selected == 0
                        && state.listing_current() && context
                        == (FilePickerContext::SwitchFile { previous_file: file_path })
                    &&& !final(self).came_from_file_picker
                },
                AppMode::FilePicker { .. } => {
                    &&& final(self).mode == old(self).mode
                    &&& final(self).came_from_file_picker == old(self).came_from_file_picker
                },
            },
            final(self).repo_root == old(self).repo_root,
            final(self).context_lines == old(self).context_lines,
            final(self).follow_renames == old(self).follow_renames,
            final(self).first_parent == old(self).first_parent,
            final(self).layout_mode == old(self).layout_mode,
            final(self).should_quit == old(self).should_quit,
            final(self).redraw_tui == old(self).redraw_tui,
            final(self).history_same(old(self)),
            final(self).diff_same(old(self)),
            final(self).ui_state == old(self).ui_state,
            final(self).messages_same(old(self)),
            final(self).popup_same(old(self)),
    {
        let previous_file = match &self.mode {
            AppMode::History { file_path, .. } => file_path.clone(),
            AppMode::FilePicker { .. } => {
                return ;
            },
        };
        let state = FilePickerState::new(files);
        self.mode =
        AppMode::FilePicker { state, context: FilePickerContext::SwitchFile { previous_file } };
        self.came_from_file_picker = false;
    }

    /// Says that the history is being loaded, and for which file; nothing
    /// happens in the file picker.
    pub fn begin_loading(&mut self) -> (file: Option<String>)
        ensures
            optional_text(file) == old(self).file(),
            old(self).in_history() ==> final(self).loading && final(self).error_message is None,
            !old(self).in_history() ==> final(self).loading == old(self).loading && final(self).error_message == old(self).error_message,
            final(self).session_same(old(self)),
            final(self).commits == old(self).commits,
            final(self).rename_map == old(self).rename_map,
            final(self).selected_index == old(self).selected_index,
            final(self).diff_range_start == old(self).diff_range_start,
            final(self).current_diff_range == old(self).current_diff_range,
            final(self).diff_same(old(self)),
            final(self).ui_state == old(self).ui_state,
            final(self).copy_mode == old(self).copy_mode,
            final(self).copy_message == old(self).copy_message,
            final(self).message_timer == old(self).message_timer,
            final(self).popup_same(old(self)),
    {
        let file = match &self.mode {
            AppMode::History { file_path, .. } => file_path.clone(),
            AppMode::FilePicker { .. } => {
                return None;
            },
        };
        self.loading = true;
        self.error_message = None;
        Some(file)
    }

    /// Takes the history that was loaded: the commits, the newest first;
    /// the state of the working directory; and the paths of the file at
    /// its commits. If the working directory has changes, an entry for
    /// them is put before the commits. Then the diff of the selected
    /// commit is shown if it is cached, and asked for if it is not.
    pub fn set_history(
        &mut self,
        commits: Vec<Commit>,
        working_directory: WorkingDirectoryStatus,
        rename_map: Vec<(String, String)>,
    ) -> (request: Option<DiffRequest>)
        ensures
            !final(self).loading,
            final(self).commits@.len() == commits@.len() + (if working_directory
                == WorkingDirectoryStatus::Clean {
                0int
            } else {
                1int
            }),
            working_directory == WorkingDirectoryStatus::Clean ==> final(self).commits@
                == commits@,
            working_directory != WorkingDirectoryStatus::Clean ==> final(self).commits@.skip(1) == commits@ && working_directory.label_text() is Some && final(self).commits@[0].is_working_directory_entry(working_directory.label_text()->Some_0),
            final(self).rename_map == (if old(self).follow_renames {
                rename_map
            } else {
                old(self).rename_map
            }),
            final(self).selected_index == old(self).selected_index,
            final(self).session_same(old(self)),
            final(self).diff_range_start == old(self).diff_range_start,
            final(self).current_diff_range == old(self).current_diff_range,
            final(self).messages_same(old(self)),
            final(self).popup_same(old(self)),
            request is Some ==> final(self).in_history() && final(self).has_selection(),
            final(self).selection_loaded(
                &(App {
                    commits: final(self).commits,
                    rename_map: final(self).rename_map,
                    loading: false,
                    ..*old(self)
                }),
                request,
            ),
    {
        let mut commits = commits;
        let ghost given = commits@;
        match working_directory.label() {
            Some(status_text) => {
                commits.insert(0, Commit::new_working_directory(status_text));
                assert(commits@.skip(1) =~= given);
            },
            None => {},
        }
        self.commits = commits;
        if self.follow_renames {
            self.rename_map = rename_map;
        }
        self.loading = false;
        if self.commits.len() > 0 {
            self.load_diff_for_selected_commit()
        } else {
            None
        }
    }

    /// The path of the file at commit `hash`: the path that the rename map
    /// gives, else `file_path`.
    pub fn path_at_commit(&self, hash: &str, file_path: &str) -> (path: String)
        ensures
            path@ == (match renamed_path(self.rename_map@, hash@, self.rename_map@.len() as int) {
                Some(p) => p,
                None => file_path@,
            }),
    {
        let mut n: usize = self.rename_map.len();
        while n > 0
            invariant
                n <= self.rename_map@.len(),
                renamed_path(self.rename_map@, hash@, self.rename_map@.len() as int)
                    == renamed_path(self.rename_map@, hash@, n as int),
            decreases n,
        {
            if same_text(self.rename_map[n - 1].0.as_str(), hash) {
                return self.rename_map[n - 1].1.clone();
            }
            n -= 1;
        }
        file_path.to_owned()
    }

    /// What `load_diff_for_selected_commit` does, from the state `before`.
    /// If no commit is selected or the file picker is open, nothing, and
    /// nothing is asked for. Else the diff of the selected commit is looked
    /// up in the cache under its hash: a diff that is found is shown; one
    /// that is not found is asked for, for the working directory or for
    /// the commit at the path that the file has there.
    pub open spec fn selection_loaded(&self, before: &App, request: Option<DiffRequest>) -> bool {
        &&& self.session_same(before)
        &&& self.history_same(before)
        &&& self.messages_same(before)
        &&& self.popup_same(before)
        &&& !(before.in_history() && before.has_selection()) ==> request is None
            && self.diff_same(before) && self.ui_state == before.ui_state
        &&& before.in_history() && before.has_selection() ==> {
            let commit = before.commits@[before.selected_index as int];
            let cached = value_of_key(before.diff_cache.entries(), commit.hash@);
            &&& self.diff_cache.entries() == touched(before.diff_cache.entries(), commit.hash@)
            &&& self.diff_cache.capacity() == before.diff_cache.capacity()
            &&& request is None <==> cached is Some
            &&& cached is Some ==> self.current_diff@ == cached->Some_0 && self.shows_new_diff(
                before,
            )
            &&& cached is None ==> self.current_diff == before.current_diff
                && self.current_side_by_side_diff == before.current_side_by_side_diff
                && self.current_changes == before.current_changes && self.current_change_index
                == before.current_change_index && self.diff_search_state
                == before.diff_search_state && self.ui_state == before.ui_state
            &&& request is Some ==> (if commit.is_working_directory {
                request->Some_0 matches DiffRequest::WorkingDirectory { key, path } && key@
                    == commit.hash@ && Some(path@) == before.file()
            } else {
                request->Some_0 matches DiffRequest::Commit { hash, path } && hash@
                    == commit.hash@ && path@ == (match renamed_path(
                    before.rename_map@,
                    commit.hash@,
                    before.rename_map@.len() as int,
                ) {
                    Some(p) => p,
                    None => before.file()->Some_0,
                })
            })
        }
    }

    /// The state with the commit at `index` selected.
    pub open spec fn with_selection(&self, index: usize) -> App {
        App { selected_index: index, ..*self }
    }

    /// The state after the selection has moved to the commit at `index`: a
    /// range that is shown is dropped, unless one end of a new range is
    /// marked, and a search has ended.
    pub open spec fn moved_to(&self, index: usize) -> App {
        App {
            selected_index: index,
            current_diff_range: if self.diff_range_start is None {
                None
            } else {
                self.current_diff_range
            },
            diff_search_state: None,
            ..*self
        }
    }

    /// The state with the focus on `panel`; the same state in the file
    /// picker.
    pub open spec fn with_focus(&self, panel: FocusedPanel) -> App {
        match self.mode {
            AppMode::History { file_path, .. } => App {
                mode: AppMode::History { file_path, focused_panel: panel },
                ..*self
            },
            AppMode::FilePicker { .. } => *self,
        }
    }

    /// Shows the diff of the selected commit if the cache has it, and asks
    /// for it if not. Nothing happens, and nothing is asked for, if no
    /// commit is selected or the file picker is open.
    pub fn load_diff_for_selected_commit(&mut self) -> (request: Option<DiffRequest>)
        ensures
            final(self).selection_loaded(old(self), request),
    {
        if self.commits.len() == 0 || self.selected_index >= self.commits.len() {
            return None;
        }
        let file_path = match &self.mode {
            AppMode::History { file_path, .. } => file_path.clone(),
            AppMode::FilePicker { .. } => {
                return None;
            },
        };
        let hash = self.commits[self.selected_index].hash.clone();
        let is_working_directory = self.commits[self.selected_index].is_working_directory;
        match self.diff_cache.get(hash.as_str()) {
            Some(cached_diff) => {
                self.show_diff(cached_diff);
                None
            },
            None => {
                if is_working_directory {
                    Some(DiffRequest::WorkingDirectory { key: hash, path: file_path })
                } else {
                    let path = self.path_at_commit(hash.as_str(), file_path.as_str());
                    Some(DiffRequest::Commit { hash, path })
                }
            },
        }
    }

    /// The diff shown has just been replaced: what is derived from the
    /// diff belongs to the new diff, the view is back at its top, and all
    /// else is as in `before`, but for the diff, the cache and the range.
    pub open spec fn shows_new_diff(&self, before: &App) -> bool {
        &&& self.derived_from_current_diff()
        &&& self.ui_state.diff_scroll == 0
        &&& self.ui_state.diff_horizontal_scroll == 0
        &&& self.ui_state.diff_cursor_line == 0
        &&& self.ui_state.commit_horizontal_scroll == before.ui_state.commit_horizontal_scroll
        &&& self.ui_state.split_percent == before.ui_state.split_percent
        &&& self.ui_state.show_help == before.ui_state.show_help
        &&& self.ui_state.terminal_height == before.ui_state.terminal_height
        &&& self.ui_state.terminal_width == before.ui_state.terminal_width
    }

    /// Makes `diff` the diff that is shown, and everything that is derived
    /// from a diff with it: the side-by-side layout, if that layout is in
    /// use, and the change index. The view goes back to the top and a
    /// search that was going on ends, so that nothing refers to the diff
    /// shown before.
    pub fn show_diff(&mut self, diff: String)
        ensures
            final(self).current_diff@ == diff@,
            final(self).shows_new_diff(old(self)),
            final(self).diff_cache == old(self).diff_cache,
            final(self).session_same(old(self)),
            final(self).history_same(old(self)),
            final(self).messages_same(old(self)),
            final(self).popup_same(old(self)),
    {
        let lines = parse_diff(diff.as_str());
        self.current_side_by_side_diff = match self.effective_layout() {
            LayoutMode::SideBySide => Some(SideBySideDiff::from_unified(&lines)),
            _ => None,
        };
        self.current_changes = find_changes(&lines);
        self.current_change_index = None;
        self.current_diff = diff;
        self.diff_search_state = None;
        self.ui_state.reset_diff_scroll();
    }

    /// Takes a diff that was asked for with a request other than for a
    /// range: the diff is cached under `key` and shown.
    pub fn diff_loaded(&mut self, key: String, diff: String)
        ensures
            final(self).current_diff@ == diff@,
            final(self).shows_new_diff(old(self)),
            final(self).diff_cache.entries() == inserted(
                old(self).diff_cache.entries(),
                old(self).diff_cache.capacity(),
                key@,
                diff@,
            ),
            final(self).diff_cache.capacity() == old(self).diff_cache.capacity(),
            final(self).session_same(old(self)),
            final(self).history_same(old(self)),
            final(self).messages_same(old(self)),
            final(self).popup_same(old(self)),
    {
        self.diff_cache.put(key, diff.clone());
        self.show_diff(diff);
    }

    /// Takes the diff between two commits that was asked for: the diff is
    /// cached under `key` and shown, and the range is noted as the one that
    /// is shown.
    pub fn range_diff_loaded(
        &mut self,
        key: String,
        diff: String,
        older_index: usize,
        newer_index: usize,
    )
        ensures
            final(self).current_diff@ == diff@,
            final(self).shows_new_diff(old(self)),
            final(self).current_diff_range == Some((older_index, newer_index)),
            final(self).diff_cache.entries() == inserted(
                old(self).diff_cache.entries(),
                old(self).diff_cache.capacity(),
                key@,
                diff@,
            ),
            final(self).diff_cache.capacity() == old(self).diff_cache.capacity(),
            final(self).session_same(old(self)),
            final(self).commits == old(self).commits,
            final(self).rename_map == old(self).rename_map,
            final(self).selected_index == old(self).selected_index,
            final(self).diff_range_start == old(self).diff_range_start,
            final(self).loading == old(self).loading,
            final(self).messages_same(old(self)),
            final(self).popup_same(old(self)),
    {
        self.diff_cache.put(key, diff.clone());
        self.show_diff(diff);
        self.current_diff_range = Some((older_index, newer_index));
    }

    /// Ends the session.
    pub fn quit(&mut self)
        ensures
            final(self).should_quit,
            final(self).repo_root == old(self).repo_root,
            final(self).context_lines == old(self).context_lines,
            final(self).follow_renames == old(self).follow_renames,
            final(self).first_parent == old(self).first_parent,
            final(self).layout_mode == old(self).layout_mode,
            final(self).redraw_tui == old(self).redraw_tui,
            final(self).came_from_file_picker == old(self).came_from_file_picker,
            final(self).mode == old(self).mode,
            final(self).history_same(old(self)),
            final(self).diff_same(old(self)),
            final(self).ui_state == old(self).ui_state,
            final(self).messages_same(old(self)),
            final(self).popup_same(old(self)),
    {
        self.should_quit = true;
    }

    /// What a move of the selection to another commit does before the diff
    /// of that commit is loaded: a range that is shown is dropped, unless
    /// one end of a new range is marked, and a search ends.
    fn selection_moved(&mut self, index: usize)
        ensures
            *final(self) == old(self).moved_to(index),
    {
        self.selected_index = index;
        if self.diff_range_start.is_none() {
            self.current_diff_range = None;
        }
        self.clear_diff_search();
    }

    /// What moving the selection up does, from the state `before`;
    /// `request` is what is asked for.
    pub open spec fn selection_moved_up(&self, before: &App, request: Option<DiffRequest>) -> bool {
        &&& before.selected_index == 0 ==> request is None && *self == *before
        &&& before.selected_index > 0 ==> self.selection_loaded(
                    &before.moved_to((before.selected_index - 1) as usize),
                    request,
                )
    }

    /// Selects the commit above the selected one, if there is one, and
    /// shows its diff or asks for it.
    pub fn move_selection_up(&mut self) -> (request: Option<DiffRequest>)
        ensures
            final(self).selection_moved_up(old(self), request),
    {
        if self.selected_index > 0 {
            let index = self.selected_index - 1;
            self.selection_moved(index);
            self.load_diff_for_selected_commit()
        } else {
            None
        }
    }

    /// What moving the selection down does, from the state `before`;
    /// `request` is what is asked for.
    pub open spec fn selection_moved_down(&self, before: &App, request: Option<DiffRequest>) -> bool {
        &&& !(before.selected_index + 1 < before.commits@.len()) ==> request is None
                    && *self == *before
        &&& before.selected_index + 1 < before.commits@.len() ==> self.selection_loaded(
                    &before.moved_to((before.selected_index + 1) as usize),
                    request,
                )
    }

    /// Selects the commit below the selected one, if there is one, and
    /// shows its diff or asks for it.
    pub fn move_selection_down(&mut self) -> (request: Option<DiffRequest>)
        ensures
            final(self).selection_moved_down(old(self), request),
    {
        if self.commits.len() > 0 && self.selected_index < self.commits.len() - 1 {
            let index = self.selected_index + 1;
            self.selection_moved(index);
            self.load_diff_for_selected_commit()
        } else {
            None
        }
    }

    /// Selects the commit at `index`, if it is a commit of the list other
    /// than the selected one, and shows its diff or asks for it.
    pub fn select_commit(&mut self, index: usize) -> (request: Option<DiffRequest>)
        ensures
            !(index < old(self).commits@.len() && index != old(self).selected_index)
                ==> request is None && *final(self) == *old(self),
            index < old(self).commits@.len() && index != old(self).selected_index ==> final(self).selection_loaded(&old(self).with_selection(index), request),
    {
        if index < self.commits.len() && index != self.selected_index {
            self.selected_index = index;
            self.load_diff_for_selected_commit()
        } else {
            None
        }
    }

    /// Takes the new size of the terminal. A scroll offset that the new
    /// size no longer allows is pulled back: the horizontal ones to within
    /// the new width, the vertical one to where the last line of the diff
    /// is still on the screen. If the layout in use changes with the size
    /// and a diff is shown, the side-by-side layout is made or dropped to
    /// fit.
    pub fn handle_resize(&mut self, width: u16, height: u16)
        ensures
            final(self).ui_state == old(self).ui_state.resized(width, height).scroll_clamped(
                final(self).line_count() as usize,
                final(self).layout(),
            ),
            final(self).layout() != old(self).layout() && old(self).current_diff@.len() > 0
                ==> match final(self).current_side_by_side_diff {
                Some(layout) => final(self).layout() == LayoutMode::SideBySide
                    && layout.well_formed() && layout.rows() == projected(
                    parsed_diff(old(self).current_diff@),
                ),
                None => final(self).layout() != LayoutMode::SideBySide,
            },
            !(final(self).layout() != old(self).layout() && old(self).current_diff@.len() > 0)
                ==> final(self).current_side_by_side_diff == old(self).current_side_by_side_diff,
            final(self).current_diff == old(self).current_diff,
            final(self).diff_cache == old(self).diff_cache,
            final(self).current_changes == old(self).current_changes,
            final(self).current_change_index == old(self).current_change_index,
            final(self).diff_search_state == old(self).diff_search_state,
            final(self).session_same(old(self)),
            final(self).history_same(old(self)),
            final(self).messages_same(old(self)),
            final(self).popup_same(old(self)),
    {
        let old_effective_layout = self.effective_layout();
        self.ui_state.handle_resize(width, height);
        let new_effective_layout = self.effective_layout();
        if old_effective_layout != new_effective_layout && self.current_diff.as_str().unicode_len()
            > 0 {
            self.current_side_by_side_diff = match new_effective_layout {
                LayoutMode::SideBySide => {
                    let lines = parse_diff(self.current_diff.as_str());
                    Some(SideBySideDiff::from_unified(&lines))
                },
                _ => None,
            };
        }
        let line_count = self.get_diff_line_count();
        self.ui_state.clamp_diff_scroll(line_count, &new_effective_layout);
    }

    /// Gives the focus to the other panel; nothing happens in the file
    /// picker.
    pub fn switch_focus(&mut self)
        ensures
            match old(self).mode {
                AppMode::History { file_path, focused_panel } => final(self).mode
                    == (AppMode::History {
                    file_path,
                    focused_panel: if focused_panel == FocusedPanel::Commits {
                        FocusedPanel::Diff
                    } else {
                        FocusedPanel::Commits
                    },
                }),
                AppMode::FilePicker { .. } => final(self).mode == old(self).mode,
            },
            final(self).repo_root == old(self).repo_root,
            final(self).context_lines == old(self).context_lines,
            final(self).follow_renames == old(self).follow_renames,
            final(self).first_parent == old(self).first_parent,
            final(self).layout_mode == old(self).layout_mode,
            final(self).should_quit == old(self).should_quit,
            final(self).redraw_tui == old(self).redraw_tui,
            final(self).came_from_file_picker == old(self).came_from_file_picker,
            final(self).history_same(old(self)),
            final(self).diff_same(old(self)),
            final(self).ui_state == old(self).ui_state,
            final(self).messages_same(old(self)),
            final(self).popup_same(old(self)),
    {
        match &mut self.mode {
            AppMode::History { focused_panel, .. } => {
                *focused_panel = match *focused_panel {
                    FocusedPanel::Commits => FocusedPanel::Diff,
                    FocusedPanel::Diff => FocusedPanel::Commits,
                };
            },
            AppMode::FilePicker { .. } => {},
        }
    }

    /// Gives the focus to `panel`; nothing happens in the file picker.
    pub fn focus_panel(&mut self, panel: FocusedPanel)
        ensures
            *final(self) == old(self).with_focus(panel),
    {
        match &mut self.mode {
            AppMode::History { focused_panel, .. } => {
                *focused_panel = panel;
            },
            AppMode::FilePicker { .. } => {},
        }
    }

    /// The panel that has the focus; none in the file picker.
    pub fn get_focused_panel(&self) -> (panel: Option<FocusedPanel>)
        ensures
            panel == (match self.mode {
                AppMode::History { focused_panel, .. } => Some(focused_panel),
                AppMode::FilePicker { .. } => None,
            }),
    {
        match &self.mode {
            AppMode::History { focused_panel, .. } => Some(*focused_panel),
            AppMode::FilePicker { .. } => None,
        }
    }

    /// The file whose history is shown; none in the file picker.
    pub fn get_file_path(&self) -> (path: Option<&String>)
        ensures
            match path {
                Some(p) => self.file() == Some(p@),
                None => self.file() is None,
            },
    {
        match &self.mode {
            AppMode::History { file_path, .. } => Some(file_path),
            AppMode::FilePicker { .. } => None,
        }
    }

    /// What marking or closing a range does, from the state `before`;
    /// `request` is what is asked for.
    pub open spec fn range_toggled(&self, before: &App, request: Option<DiffRequest>) -> bool {
        &&& !before.in_history() ==> request is None && self.diff_range_start == before.diff_range_start && self.current_diff_range == before.current_diff_range
                    && self.diff_same(before) && self.ui_state == before.ui_state
        &&& before.in_history() && before.diff_range_start is None ==> request is None
                    && self.diff_range_start == Some(before.selected_index) && self.current_diff_range == before.current_diff_range && self.diff_same(
                    before,
                ) && self.ui_state == before.ui_state
        &&& before.in_history() && before.diff_range_start is Some ==> self.diff_range_start is None
        &&& before.in_history() && before.diff_range_start == Some(
                    before.selected_index,
                ) ==> request is None && self.current_diff_range is None && self.diff_same(before) && self.ui_state == before.ui_state
        &&& before.in_history() && before.diff_range_start is Some && before.diff_range_start != Some(before.selected_index) ==> self.range_shown_or_asked(
                    before,
                    before.diff_range_start->Some_0,
                    before.selected_index,
                    request,
                )
        &&& self.session_same(before)
        &&& self.commits == before.commits
        &&& self.rename_map == before.rename_map
        &&& self.selected_index == before.selected_index
        &&& self.loading == before.loading
        &&& self.messages_same(before)
        &&& self.popup_same(before)
    }

    /// Marks the selected commit as one end of a range, or, if an end is
    /// marked already, takes the selected commit as the other end: then
    /// the diff between the two is shown or asked for, older commit first,
    /// unless both ends are the same commit, in which case a range that is
    /// shown is dropped. Nothing happens in the file picker.
    pub fn toggle_diff_range_selection(&mut self) -> (request: Option<DiffRequest>)
        ensures
            final(self).range_toggled(old(self), request),
    {
        match &self.mode {
            AppMode::History { .. } => {},
            AppMode::FilePicker { .. } => {
                return None;
            },
        }
        match self.diff_range_start {
            Some(start_index) => {
                let end_index = self.selected_index;
                let request = if start_index != end_index {
                    self.show_diff_range(start_index, end_index)
                } else {
                    self.current_diff_range = None;
                    None
                };
                self.diff_range_start = None;
                request
            },
            None => {
                self.diff_range_start = Some(self.selected_index);
                None
            },
        }
    }

    /// Forgets the marked end of a range and the range that is shown.
    pub fn clear_diff_range_selection(&mut self)
        ensures
            final(self).diff_range_start is None,
            final(self).current_diff_range is None,
            final(self).session_same(old(self)),
            final(self).commits == old(self).commits,
            final(self).rename_map == old(self).rename_map,
            final(self).selected_index == old(self).selected_index,
            final(self).loading == old(self).loading,
            final(self).diff_same(old(self)),
            final(self).ui_state == old(self).ui_state,
            final(self).messages_same(old(self)),
            final(self).popup_same(old(self)),
    {
        self.diff_range_start = None;
        self.current_diff_range = None;
    }

    /// Whether the commit at `index` is marked as one end of a range.
    pub fn is_commit_marked_for_diff(&self, index: usize) -> (marked: bool)
        ensures
            marked == (self.diff_range_start == Some(index)),
    {
        match self.diff_range_start {
            Some(start) => start == index,
            None => false,
        }
    }

    /// What `show_diff_range` does for the two ends `start_index` and
    /// `end_index`, from the state `before`. If an end is no commit of the
    /// list, nothing. Else the range is ordered, older commit first, and
    /// looked up in the cache under the two hashes joined by `..`: a diff
    /// that is found is shown and the range noted; one that is not found
    /// is asked for.
    pub open spec fn range_shown_or_asked(
        &self,
        before: &App,
        start_index: usize,
        end_index: usize,
        request: Option<DiffRequest>,
    ) -> bool {
        if !(start_index < before.commits@.len() && end_index < before.commits@.len()) {
            &&& request is None
            &&& self.current_diff == before.current_diff
            &&& self.current_side_by_side_diff == before.current_side_by_side_diff
            &&& self.diff_cache == before.diff_cache
            &&& self.current_changes == before.current_changes
            &&& self.current_change_index == before.current_change_index
            &&& self.diff_search_state == before.diff_search_state
            &&& self.ui_state == before.ui_state
            &&& self.current_diff_range == before.current_diff_range
        } else {
            let (older_index, newer_index) = ordered_range(start_index, end_index);
            let older = before.commits@[older_index as int];
            let newer = before.commits@[newer_index as int];
            let key = range_key(older.hash@, newer.hash@);
            let cached = value_of_key(before.diff_cache.entries(), key);
            &&& self.diff_cache.entries() == touched(before.diff_cache.entries(), key)
            &&& self.diff_cache.capacity() == before.diff_cache.capacity()
            &&& cached is Some ==> request is None && self.current_diff@ == cached->Some_0
                && self.shows_new_diff(before) && self.current_diff_range == Some(
                (older_index, newer_index),
            )
            &&& cached is None ==> {
                &&& self.current_diff == before.current_diff
                &&& self.current_side_by_side_diff == before.current_side_by_side_diff
                &&& self.current_changes == before.current_changes
                &&& self.current_change_index == before.current_change_index
                &&& self.diff_search_state == before.diff_search_state
                &&& self.ui_state == before.ui_state
                &&& self.current_diff_range == before.current_diff_range
                &&& request matches Some(
                    DiffRequest::Range {
                        older_hash,
                        newer_hash,
                        path,
                        key: request_key,
                        older_index: request_older,
                        newer_index: request_newer,
                    },
                ) && older_hash@ == older.hash@ && newer_hash@ == newer.hash@ && Some(path@)
                    == before.file() && request_key@ == key && request_older == older_index
                    && request_newer == newer_index
            }
        }
    }

    /// Shows the diff between the commits at `start_index` and `end_index`
    /// if the cache has it, and asks for it if not. The history of a file
    /// must be shown.
    fn show_diff_range(&mut self, start_index: usize, end_index: usize) -> (request: Option<
        DiffRequest,
    >)
        requires
            old(self).in_history(),
        ensures
            final(self).range_shown_or_asked(old(self), start_index, end_index, request),
            final(self).session_same(old(self)),
            final(self).commits == old(self).commits,
            final(self).rename_map == old(self).rename_map,
            final(self).selected_index == old(self).selected_index,
            final(self).diff_range_start == old(self).diff_range_start,
            final(self).loading == old(self).loading,
            final(self).messages_same(old(self)),
            final(self).popup_same(old(self)),
    {
        if self.commits.len() == 0 || start_index >= self.commits.len() || end_index
            >= self.commits.len() {
            return None;
        }
        let (older_index, newer_index) = range_order(start_index, end_index);
        let older_hash = self.commits[older_index].hash.clone();
        let newer_hash = self.commits[newer_index].hash.clone();
        let cache_key = concat3(older_hash.as_str(), "..", newer_hash.as_str());
        match self.diff_cache.get(cache_key.as_str()) {
            Some(cached_diff) => {
                self.show_diff(cached_diff);
                self.current_diff_range = Some((older_index, newer_index));
                None
            },
            None => {
                let path = match &self.mode {
                    AppMode::History { file_path, .. } => file_path.clone(),
                    AppMode::FilePicker { .. } => String::new(),
                };
                Some(
                    DiffRequest::Range {
                        older_hash,
                        newer_hash,
                        path,
                        key: cache_key,
                        older_index,
                        newer_index,
                    },
                )
            },
        }
    }

    /// The width of the longest line of the diff that is shown, in
    /// characters.
    pub open spec fn max_diff_width(&self) -> nat {
        longest_line(split_lines(self.current_diff@), split_lines(self.current_diff@).len() as int)
    }

    /// The width of the widest commit as the commit list shows it, in
    /// characters, and at most the largest `usize`.
    pub open spec fn max_commit_width(&self) -> nat {
        if widest_commit(self.commits@, self.commits@.len() as int) <= usize::MAX {
            widest_commit(self.commits@, self.commits@.len() as int)
        } else {
            usize::MAX as nat
        }
    }

    /// Number of lines of the diff as it is shown: rows in the
    /// side-by-side layout, lines of the diff text in the unified one.
    pub open spec fn line_count(&self) -> nat {
        if self.layout() == LayoutMode::SideBySide {
            match self.current_side_by_side_diff {
                Some(layout) => if layout.old_lines@.len() >= layout.new_lines@.len() {
                    layout.old_lines@.len()
                } else {
                    layout.new_lines@.len()
                },
                None => 0,
            }
        } else {
            split_lines(self.current_diff@).len()
        }
    }

    /// The width of the longest line of the diff that is shown, in
    /// characters.
    pub fn calculate_max_diff_line_width(&self) -> (width: usize)
        ensures
            width == self.max_diff_width(),
    {
        let text = chars_of(self.current_diff.as_str());
        let bounds = line_bounds(&text);
        let ghost lines = split_lines(self.current_diff@);
        let mut width: usize = 0;
        let mut i: usize = 0;
        while i < bounds.len()
            invariant
                i <= bounds@.len(),
                text@ == self.current_diff@,
                lines == split_lines(text@),
                bounds@.len() == lines.len(),
                forall|k: int|
                    0 <= k < bounds@.len() ==> {
                        &&& (#[trigger] bounds@[k]).0 <= bounds@[k].1 <= text@.len()
                        &&& text@.subrange(bounds@[k].0 as int, bounds@[k].1 as int) == lines[k]
                    },
                width == longest_line(lines, i as int),
            decreases bounds.len() - i,
        {
            let length = bounds[i].1 - bounds[i].0;
            assert(lines[i as int].len() == length);
            if length > width {
                width = length;
            }
            i += 1;
        }
        width
    }

    /// The width of the widest commit as the commit list shows it, in
    /// characters.
    pub fn calculate_max_commit_line_width(&self) -> (width: usize)
        ensures
            width == self.max_commit_width(),
    {
        let mut width: usize = 0;
        let mut i: usize = 0;
        while i < self.commits.len()
            invariant
                i <= self.commits@.len(),
                width == (if widest_commit(self.commits@, i as int) <= usize::MAX {
                    widest_commit(self.commits@, i as int)
                } else {
                    usize::MAX as nat
                }),
            decreases self.commits.len() - i,
        {
            let hash_width = self.commits[i].hash.as_str().unicode_len();
            let subject_width = self.commits[i].subject.as_str().unicode_len();
            let line_width = hash_width.saturating_add(1).saturating_add(subject_width);
            if line_width > width {
                width = line_width;
            }
            i += 1;
        }
        width
    }

    /// Number of lines of the diff as it is shown: rows in the
    /// side-by-side layout, lines of the diff text in the unified one.
    pub fn get_diff_line_count(&self) -> (count: usize)
        ensures
            count == self.line_count(),
    {
        match self.effective_layout() {
            LayoutMode::SideBySide => match &self.current_side_by_side_diff {
                Some(side_by_side) => {
                    let old_count = side_by_side.old_lines.len();
                    let new_count = side_by_side.new_lines.len();
                    if old_count >= new_count {
                        old_count
                    } else {
                        new_count
                    }
                },
                None => 0,
            },
            _ => {
                let text = chars_of(self.current_diff.as_str());
                line_bounds(&text).len()
            },
        }
    }

    /// Number of lines by which a page key moves the diff.
    pub fn get_page_scroll_size(&self) -> (n: usize)
        ensures
            n == self.ui_state.page_scroll_size(),
    {
        self.ui_state.get_page_scroll_size()
    }

    /// The text that a copy command copies, if a commit is selected; for
    /// the path, if also the history of a file is shown.
    pub fn copy_content(&self, target: CopyTarget) -> (content: Option<String>)
        ensures
            content is Some <==> self.commits@.len() > 0 && self.has_selection() && (target
                == CopyTarget::Path ==> self.in_history()),
            content is Some ==> content->Some_0@ == (match target {
                CopyTarget::FullSha => copy_text(
                    &self.commits@[self.selected_index as int],
                    CopyFormat::FullSha,
                ),
                CopyTarget::ShortSha => copy_text(
                    &self.commits@[self.selected_index as int],
                    CopyFormat::ShortSha,
                ),
                CopyTarget::Message => copy_text(
                    &self.commits@[self.selected_index as int],
                    CopyFormat::Message,
                ),
                CopyTarget::Author => copy_text(
                    &self.commits@[self.selected_index as int],
                    CopyFormat::Author,
                ),
                CopyTarget::Date => copy_text(
                    &self.commits@[self.selected_index as int],
                    CopyFormat::Date,
                ),
                CopyTarget::GitHubUrl => copy_text(
                    &self.commits@[self.selected_index as int],
                    CopyFormat::GitHubUrl,
                ),
                CopyTarget::Path => self.file()->Some_0,
            }),
    {
        if self.commits.len() == 0 || self.selected_index >= self.commits.len() {
            return None;
        }
        let commit = &self.commits[self.selected_index];
        match target {
            CopyTarget::FullSha => Some(commit_copy_text(commit, CopyFormat::FullSha)),
            CopyTarget::ShortSha => Some(commit_copy_text(commit, CopyFormat::ShortSha)),
            CopyTarget::Message => Some(commit_copy_text(commit, CopyFormat::Message)),
            CopyTarget::Author => Some(commit_copy_text(commit, CopyFormat::Author)),
            CopyTarget::Date => Some(commit_copy_text(commit, CopyFormat::Date)),
            CopyTarget::GitHubUrl => Some(commit_copy_text(commit, CopyFormat::GitHubUrl)),
            CopyTarget::Path => match &self.mode {
                AppMode::History { file_path, .. } => Some(file_path.clone()),
                AppMode::FilePicker { .. } => None,
            },
        }
    }

    /// Notes that `content` was copied: a message says so, the copy
    /// command is over, and the message is timed from `now`.
    pub fn copy_succeeded(&mut self, target: CopyTarget, content: &str, now: u64)
        ensures
            optional_text(final(self).copy_message) == Some(copied_message(target, content@)),
            final(self).copy_mode is None,
            final(self).message_timer == Some(now),
            final(self).error_message == old(self).error_message,
            final(self).session_same(old(self)),
            final(self).history_same(old(self)),
            final(self).diff_same(old(self)),
            final(self).ui_state == old(self).ui_state,
            final(self).popup_same(old(self)),
    {
        let message = match target {
            CopyTarget::FullSha => concat2("Copied: ", content),
            CopyTarget::ShortSha => concat2("Copied: ", content),
            CopyTarget::Message => "Copied commit message".to_owned(),
            CopyTarget::Author => concat2("Copied author: ", content),
            CopyTarget::Date => concat2("Copied date: ", content),
            CopyTarget::GitHubUrl => concat2("Copied URL: ", content),
            CopyTarget::Path => concat2("Copied Path: ", content),
        };
        self.copy_message = Some(message);
        self.copy_mode = None;
        self.start_message_timer(now);
    }

    /// Notes that copying failed: `error` is shown and timed from `now`.
    pub fn copy_failed(&mut self, error: String, now: u64)
        ensures
            final(self).error_message == Some(error),
            final(self).message_timer == Some(now),
            final(self).copy_mode == old(self).copy_mode,
            final(self).copy_message == old(self).copy_message,
            final(self).session_same(old(self)),
            final(self).history_same(old(self)),
            final(self).diff_same(old(self)),
            final(self).ui_state == old(self).ui_state,
            final(self).popup_same(old(self)),
    {
        self.error_message = Some(error);
        self.start_message_timer(now);
    }

    /// What beginning a copy command does, from the state `before`.
    pub open spec fn copy_started(&self, before: &App) -> bool {
        &&& self.copy_mode == Some(CopyMode::WaitingForTarget)
        &&& optional_text(self.copy_message) == Some(
                    "Copy mode: s=SHA, h=short, m=msg, a=author, d=date, u=URL, y=SHA, p=path"@,
                )
        &&& self.error_message == before.error_message
        &&& self.message_timer == before.message_timer
        &&& self.session_same(before)
        &&& self.history_same(before)
        &&& self.diff_same(before)
        &&& self.ui_state == before.ui_state
        &&& self.popup_same(before)
    }

    /// Begins a copy command: the next key says what to copy.
    pub fn start_copy_mode(&mut self)
        ensures
            final(self).copy_started(old(self)),
    {
        self.copy_mode = Some(CopyMode::WaitingForTarget);
        self.copy_message = Some(
            "Copy mode: s=SHA, h=short, m=msg, a=author, d=date, u=URL, y=SHA, p=path".to_owned(),
        );
    }

    /// Gives a copy command up.
    pub fn cancel_copy_mode(&mut self)
        ensures
            final(self).copy_mode is None,
            final(self).copy_message is None,
            final(self).error_message == old(self).error_message,
            final(self).message_timer == old(self).message_timer,
            final(self).session_same(old(self)),
            final(self).history_same(old(self)),
            final(self).diff_same(old(self)),
            final(self).ui_state == old(self).ui_state,
            final(self).popup_same(old(self)),
    {
        self.copy_mode = None;
        self.copy_message = None;
    }

    /// Takes the copy message away.
    pub fn clear_copy_message(&mut self)
        ensures
            final(self).copy_message is None,
            final(self).message_timer is None,
            final(self).copy_mode == old(self).copy_mode,
            final(self).error_message == old(self).error_message,
            final(self).session_same(old(self)),
            final(self).history_same(old(self)),
            final(self).diff_same(old(self)),
            final(self).ui_state == old(self).ui_state,
            final(self).popup_same(old(self)),
    {
        self.copy_message = None;
        self.message_timer = None;
    }

    /// Times the message that is shown from `now`, a time in seconds.
    pub fn start_message_timer(&mut self, now: u64)
        ensures
            final(self).message_timer == Some(now),
            final(self).copy_mode == old(self).copy_mode,
            final(self).copy_message == old(self).copy_message,
            final(self).error_message == old(self).error_message,
            final(self).session_same(old(self)),
            final(self).history_same(old(self)),
            final(self).diff_same(old(self)),
            final(self).ui_state == old(self).ui_state,
            final(self).popup_same(old(self)),
    {
        self.message_timer = Some(now);
    }

    /// Whether a message timed from `since` is over at `now`: three
    /// seconds or more have passed.
    pub open spec fn timed_out(since: u64, now: u64) -> bool {
        now >= since && now - since >= MESSAGE_SECONDS
    }

    /// Takes the messages away if the one that is shown has been there for
    /// three seconds or more at `now`.
    pub fn check_message_timeout(&mut self, now: u64)
        ensures
            old(self).message_timer is Some && Self::timed_out(
                old(self).message_timer->Some_0,
                now,
            ) ==> final(self).copy_message is None && final(self).error_message is None && final(self).message_timer is None,
            !(old(self).message_timer is Some && Self::timed_out(
                old(self).message_timer->Some_0,
                now,
            )) ==> final(self).copy_message == old(self).copy_message && final(self).error_message == old(self).error_message && final(self).message_timer == old(self).message_timer,
            final(self).copy_mode == old(self).copy_mode,
            final(self).session_same(old(self)),
            final(self).history_same(old(self)),
            final(self).diff_same(old(self)),
            final(self).ui_state == old(self).ui_state,
            final(self).popup_same(old(self)),
    {
        if let Some(since) = self.message_timer {
            if now >= since && now - since >= MESSAGE_SECONDS {
                self.copy_message = None;
                self.error_message = None;
                self.message_timer = None;
            }
        }
    }

    /// What of the selected commit still has to be fetched before the
    /// commit window can show it: its hash, whether its branches and tags
    /// are missing, and whether its statistics are. Nothing for the
    /// working directory and when no commit is selected.
    pub fn commit_metadata_needed(&self) -> (needed: Option<(String, bool, bool)>)
        ensures
            needed is Some <==> self.commits@.len() > 0 && self.has_selection()
                && !self.commits@[self.selected_index as int].is_working_directory,
            needed is Some ==> {
                let commit = self.commits@[self.selected_index as int];
                &&& needed->Some_0.0@ == commit.hash@
                &&& needed->Some_0.1 == (commit.refs@.len() == 0)
                &&& needed->Some_0.2 == (commit.stats is None)
            },
    {
        if self.commits.len() == 0 || self.selected_index >= self.commits.len() {
            return None;
        }
        let commit = &self.commits[self.selected_index];
        if commit.is_working_directory {
            return None;
        }
        Some((commit.hash.clone(), commit.refs.len() == 0, commit.stats.is_none()))
    }

    /// Adds what was fetched of the commit at `index`: branches and tags,
    /// if it had none yet; statistics, if it had none yet; and the pull
    /// request that its subject names, if none was known. Nothing happens
    /// for the working directory and if `index` is no commit of the list.
    pub fn apply_commit_metadata(
        &mut self,
        index: usize,
        refs: Option<Vec<String>>,
        stats: Option<Option<CommitStats>>,
    )
        ensures
            final(self).commits@.len() == old(self).commits@.len(),
            forall|i: int|
                0 <= i < old(self).commits@.len() && i != index ==> (#[trigger] final(self).commits@[i]) == old(self).commits@[i],
            index < old(self).commits@.len() ==> {
                let before = old(self).commits@[index as int];
                let after = final(self).commits@[index as int];
                &&& after.same_but_metadata(&before)
                &&& before.is_working_directory ==> after == before
                &&& !before.is_working_directory ==> {
                    &&& after.refs == (if before.refs@.len() == 0 && refs is Some {
                        refs->Some_0
                    } else {
                        before.refs
                    })
                    &&& after.stats == (if before.stats is None && stats is Some {
                        stats->Some_0
                    } else {
                        before.stats
                    })
                    &&& before.pr_info is Some ==> after.pr_info == before.pr_info
                    &&& before.pr_info is None ==> is_detected_pr(after.pr_info, before.subject@)
                }
            },
            final(self).session_same(old(self)),
            final(self).rename_map == old(self).rename_map,
            final(self).selected_index == old(self).selected_index,
            final(self).diff_range_start == old(self).diff_range_start,
            final(self).current_diff_range == old(self).current_diff_range,
            final(self).loading == old(self).loading,
            final(self).diff_same(old(self)),
            final(self).ui_state == old(self).ui_state,
            final(self).messages_same(old(self)),
            final(self).popup_same(old(self)),
    {
        if index >= self.commits.len() {
            return ;
        }
        if self.commits[index].is_working_directory {
            return ;
        }
        let ghost before = self.commits@;
        let mut commit = self.commits.remove(index);
        if commit.refs.len() == 0 {
            if let Some(found) = refs {
                commit.refs = found;
            }
        }
        if commit.pr_info.is_none() {
            commit.pr_info = detect_pr_info(&commit);
        }
        if commit.stats.is_none() {
            if let Some(found) = stats {
                commit.stats = found;
            }
        }
        self.commits.insert(index, commit);
    }

    /// Opens the commit window on the selected commit, if there is one.
    pub fn show_commit_info_popup(&mut self)
        ensures
            old(self).commits@.len() > 0 && old(self).has_selection() ==> final(self).show_commit_info && final(self).commit_info_popup is Some && final(self).commit_info_popup->Some_0.scroll_position == 0 && final(self).commit_info_popup->Some_0.commit.same_as(
                &old(self).commits@[old(self).selected_index as int],
            ),
            !(old(self).commits@.len() > 0 && old(self).has_selection()) ==> final(self).popup_same(old(self)),
            final(self).session_same(old(self)),
            final(self).history_same(old(self)),
            final(self).diff_same(old(self)),
            final(self).ui_state == old(self).ui_state,
            final(self).messages_same(old(self)),
    {
        if self.commits.len() == 0 || self.selected_index >= self.commits.len() {
            return ;
        }
        let commit = self.commits[self.selected_index].clone();
        self.commit_info_popup = Some(CommitInfoPopup::new(commit));
        self.show_commit_info = true;
    }

    /// Closes the commit window.
    pub fn hide_commit_info_popup(&mut self)
        ensures
            !final(self).show_commit_info,
            final(self).commit_info_popup is None,
            final(self).session_same(old(self)),
            final(self).history_same(old(self)),
            final(self).diff_same(old(self)),
            final(self).ui_state == old(self).ui_state,
            final(self).messages_same(old(self)),
    {
        self.show_commit_info = false;
        self.commit_info_popup = None;
    }

    /// What scrolling the commit window up does, from the state `before`.
    pub open spec fn info_scrolled_up(&self, before: &App) -> bool {
        &&& self.show_commit_info == before.show_commit_info
        &&& match before.commit_info_popup {
                    Some(popup) => self.commit_info_popup is Some && self.commit_info_popup->Some_0.commit == popup.commit && self.commit_info_popup->Some_0.scroll_position == (if popup.scroll_position > 0 {
                        popup.scroll_position - 1
                    } else {
                        0
                    }),
                    None => self.commit_info_popup is None,
                }
        &&& self.session_same(before)
        &&& self.history_same(before)
        &&& self.diff_same(before)
        &&& self.ui_state == before.ui_state
        &&& self.messages_same(before)
    }

    /// The message in the commit window one line up.
    pub fn scroll_commit_info_up(&mut self)
        ensures
            final(self).info_scrolled_up(old(self)),
    {
        match &mut self.commit_info_popup {
            Some(popup) => {
                popup.scroll_up();
            },
            None => {},
        }
    }

    /// What scrolling the commit window down does, from the state `before`.
    pub open spec fn info_scrolled_down(&self, before: &App) -> bool {
        &&& self.show_commit_info == before.show_commit_info
        &&& match before.commit_info_popup {
                    Some(popup) => self.commit_info_popup is Some && self.commit_info_popup->Some_0.commit == popup.commit && self.commit_info_popup->Some_0.scroll_position == (if popup.scroll_position
                        + COMMIT_INFO_VIEWPORT < popup.total_lines() {
                        popup.scroll_position + 1
                    } else {
                        popup.scroll_position as int
                    }),
                    None => self.commit_info_popup is None,
                }
        &&& self.session_same(before)
        &&& self.history_same(before)
        &&& self.diff_same(before)
        &&& self.ui_state == before.ui_state
        &&& self.messages_same(before)
    }

    /// The message in the commit window one line down, while lines remain
    /// below a window of ten lines.
    pub fn scroll_commit_info_down(&mut self)
        ensures
            final(self).info_scrolled_down(old(self)),
    {
        match &mut self.commit_info_popup {
            Some(popup) => {
                let total_lines = popup.get_total_lines();
                popup.scroll_down(total_lines, COMMIT_INFO_VIEWPORT);
            },
            None => {},
        }
    }

    /// Forgets the change index.
    pub fn clear_change_cache(&mut self)
        ensures
            final(self).current_changes@.len() == 0,
            final(self).current_change_index is None,
            final(self).current_diff == old(self).current_diff,
            final(self).current_side_by_side_diff == old(self).current_side_by_side_diff,
            final(self).diff_cache == old(self).diff_cache,
            final(self).diff_search_state == old(self).diff_search_state,
            final(self).session_same(old(self)),
            final(self).history_same(old(self)),
            final(self).ui_state == old(self).ui_state,
            final(self).messages_same(old(self)),
            final(self).popup_same(old(self)),
    {
        self.current_changes = Vec::new();
        self.current_change_index = None;
    }

    /// Which change was jumped to last, counted from 1, and how many
    /// changes there are.
    pub fn get_change_status(&self) -> (status: Option<(usize, usize)>)
        ensures
            match self.current_change_index {
                Some(index) => status == Some(
                    (
                        if index < usize::MAX {
                            (index + 1) as usize
                        } else {
                            usize::MAX
                        },
                        self.current_changes@.len() as usize,
                    ),
                ),
                None => status is None,
            },
    {
        match self.current_change_index {
            Some(index) => Some((index.saturating_add(1), self.current_changes.len())),
            None => None,
        }
    }

    /// The diff panel has the focus.
    pub open spec fn diff_focused(&self) -> bool {
        self.mode matches AppMode::History { focused_panel, .. } && focused_panel
            == FocusedPanel::Diff
    }

    /// What a jump to the change at position `found` of the change index
    /// does, from the state `before`: the cursor goes to the changed line,
    /// the view centres on it if it was below the view and moves up to it
    /// if it was above, and the position is noted. With nothing found,
    /// nothing changes.
    pub open spec fn jumped_to_change(&self, before: &App, found: Option<usize>) -> bool {
        match found {
            Some(k) => {
                let line = before.current_changes@[k as int];
                &&& self.current_change_index == Some(k)
                &&& self.ui_state.diff_cursor_line == line
                &&& self.ui_state.diff_scroll == before.ui_state.scroll_centering(
                    line as int,
                    before.layout(),
                )
                &&& self.ui_state.same_but_cursor(before.ui_state)
            },
            None => self.current_change_index == before.current_change_index && self.ui_state
                == before.ui_state,
        }
    }

    /// What a jump to the next change does, from the state `before`: with
    /// the focus on the diff, a jump to what halving finds in the list of
    /// changes, whatever that list holds. If the list is a change index,
    /// that is the first changed line after the cursor.
    pub open spec fn moved_to_next_change(&self, before: &App) -> bool {
        &&& !before.diff_focused() ==> self.current_change_index == before.current_change_index
            && self.ui_state == before.ui_state
        &&& before.diff_focused() ==> self.jumped_to_change(
            before,
            next_change_of(before.current_changes@, before.ui_state.diff_cursor_line),
        )
        &&& strictly_increasing(before.current_changes@) ==> is_next_change(
            before.current_changes@,
            before.ui_state.diff_cursor_line,
            next_change_of(before.current_changes@, before.ui_state.diff_cursor_line),
        )
        &&& self.current_changes == before.current_changes
        &&& self.current_diff == before.current_diff
        &&& self.current_side_by_side_diff == before.current_side_by_side_diff
        &&& self.diff_cache == before.diff_cache
        &&& self.diff_search_state == before.diff_search_state
        &&& self.session_same(before)
        &&& self.history_same(before)
        &&& self.messages_same(before)
        &&& self.popup_same(before)
    }

    /// Moves the cursor to the first changed line after it, if the diff
    /// panel has the focus and there is such a line. There is no
    /// wrap-around.
    pub fn navigate_to_next_change(&mut self)
        ensures
            final(self).moved_to_next_change(old(self)),
    {
        let length = self.current_changes.len();
        proof {
            if strictly_increasing(self.current_changes@) {
                assert(self.current_changes@.len() == length);
                law_halving_finds_the_next_change(
                    self.current_changes@,
                    self.ui_state.diff_cursor_line,
                );
            }
        }
        match self.get_focused_panel() {
            Some(FocusedPanel::Diff) => {},
            _ => {
                return ;
            },
        }
        let found = next_change(&self.current_changes, self.ui_state.diff_cursor_line);
        if let Some(next_index) = found {
            let line = self.current_changes[next_index];
            let layout = self.effective_layout();
            self.ui_state.ensure_diff_line_visible(line, &layout);
            self.current_change_index = Some(next_index);
        }
        assert(self.jumped_to_change(old(self), found));
    }

    /// What a jump to the previous change does, from the state `before`:
    /// with the focus on the diff, a jump to what halving finds in the list
    /// of changes, whatever that list holds. If the list is a change index,
    /// that is the last changed line before the cursor.
    pub open spec fn moved_to_previous_change(&self, before: &App) -> bool {
        &&& !before.diff_focused() ==> self.current_change_index == before.current_change_index
            && self.ui_state == before.ui_state
        &&& before.diff_focused() ==> self.jumped_to_change(
            before,
            previous_change_of(before.current_changes@, before.ui_state.diff_cursor_line),
        )
        &&& strictly_increasing(before.current_changes@) ==> is_previous_change(
            before.current_changes@,
            before.ui_state.diff_cursor_line,
            previous_change_of(before.current_changes@, before.ui_state.diff_cursor_line),
        )
        &&& self.current_changes == before.current_changes
        &&& self.current_diff == before.current_diff
        &&& self.current_side_by_side_diff == before.current_side_by_side_diff
        &&& self.diff_cache == before.diff_cache
        &&& self.diff_search_state == before.diff_search_state
        &&& self.session_same(before)
        &&& self.history_same(before)
        &&& self.messages_same(before)
        &&& self.popup_same(before)
    }

    /// Moves the cursor to the last changed line before it, if the diff
    /// panel has the focus and there is such a line. There is no
    /// wrap-around.
    pub fn navigate_to_previous_change(&mut self)
        ensures
            final(self).moved_to_previous_change(old(self)),
    {
        let length = self.current_changes.len();
        proof {
            if strictly_increasing(self.current_changes@) {
                assert(self.current_changes@.len() == length);
                law_halving_finds_the_previous_change(
                    self.current_changes@,
                    self.ui_state.diff_cursor_line,
                );
            }
        }
        match self.get_focused_panel() {
            Some(FocusedPanel::Diff) => {},
            _ => {
                return ;
            },
        }
        let found = previous_change(&self.current_changes, self.ui_state.diff_cursor_line);
        if let Some(index) = found {
            let line = self.current_changes[index];
            let layout = self.effective_layout();
            self.ui_state.ensure_diff_line_visible(line, &layout);
            self.current_change_index = Some(index);
        }
        assert(self.jumped_to_change(old(self), found));
    }

    /// What beginning a search does, from the state `before`.
    pub open spec fn search_started(&self, before: &App) -> bool {
        &&& self.diff_search_state matches Some(state) && state.query@.len() == 0
                    && state.is_active && state.is_input_mode && state.results@.len() == 0
                    && state.current_result is None && state.regex is None
        &&& self.same_but_search(before)
    }

    /// Begins a search in the diff: the query is empty and being typed.
    pub fn start_diff_search(&mut self)
        ensures
            final(self).search_started(old(self)),
    {
        self.diff_search_state = Some(
            DiffSearchState {
                query: String::new(),
                is_active: true,
                is_input_mode: true,
                results: Vec::new(),
                current_result: None,
                regex: None,
            },
        );
    }

    /// Everything but the state of the search is as in `before`.
    pub open spec fn same_but_search(&self, before: &App) -> bool {
        &&& self.current_diff == before.current_diff
        &&& self.current_side_by_side_diff == before.current_side_by_side_diff
        &&& self.diff_cache == before.diff_cache
        &&& self.current_changes == before.current_changes
        &&& self.current_change_index == before.current_change_index
        &&& self.session_same(before)
        &&& self.history_same(before)
        &&& self.ui_state == before.ui_state
        &&& self.messages_same(before)
        &&& self.popup_same(before)
    }

    /// Searches the diff that is shown for the query as it stands. An
    /// empty query, and one that is no valid pattern, give no results and
    /// no current result: a pattern that does not compile is never an
    /// error. Nothing happens if no search is going on.
    pub fn update_search_results(&mut self)
        ensures
            match old(self).diff_search_state {
                None => final(self).diff_search_state is None,
                Some(before) => {
                    &&& final(self).diff_search_state is Some
                    &&& final(self).diff_search_state->Some_0.query == before.query
                    &&& final(self).diff_search_state->Some_0.is_active == before.is_active
                    &&& final(self).diff_search_state->Some_0.is_input_mode
                        == before.is_input_mode
                    &&& final(self).searched(before.query@, before.current_result)
                },
            },
            final(self).same_but_search(old(self)),
    {
        let lines = parse_diff(self.current_diff.as_str());
        match &mut self.diff_search_state {
            Some(search_state) => {
                if search_state.query.as_str().unicode_len() == 0 {
                    search_state.results = Vec::new();
                    search_state.current_result = None;
                    search_state.regex = None;
                    return ;
                }
                match compile_search(search_state.query.as_str()) {
                    Ok(regex) => {
                        search_state.results = search(&lines, &regex);
                        search_state.regex = Some(regex);
                    },
                    Err(_) => {
                        search_state.results = Vec::new();
                        search_state.current_result = None;
                        search_state.regex = None;
                    },
                }
            },
            None => {},
        }
    }

    /// The search state holds what a search of the diff that is shown for
    /// `query` gives; `current` was the current result before the search.
    pub open spec fn searched(&self, query: Seq<char>, current: Option<usize>) -> bool {
        let state = self.diff_search_state->Some_0;
        let lines = parsed_diff(self.current_diff@);
        if query.len() > 0 && pattern_is_valid(search_pattern(query)) {
            &&& state.regex is Some
            &&& state.regex->Some_0.source() == search_pattern(query)
            &&& match_views(state.results@) == matches_in_lines(
                lines,
                search_pattern(query),
                lines.len() as int,
            )
            &&& in_text_order(match_views(state.results@))
            &&& starts_increase(match_views(state.results@))
            &&& forall|i: int|
                0 <= i < state.results@.len() ==> match_in_bounds(
                    #[trigger] match_views(state.results@)[i],
                    lines,
                    lines.len() as int,
                )
            &&& state.current_result == current
        } else {
            &&& state.regex is None
            &&& state.results@.len() == 0
            &&& state.current_result is None
        }
    }

    /// A search is repeatable. Two states that show the same diff, each
    /// after a search for the same query, hold the same matches. No two of
    /// them start at the same place: they come by line, and within a line
    /// by where they start, and none starts before the one before it ends.
    pub proof fn law_search_is_repeatable(
        &self,
        other: &App,
        query: Seq<char>,
        current: Option<usize>,
        other_current: Option<usize>,
    )
        requires
            self.current_diff@ == other.current_diff@,
            self.searched(query, current),
            other.searched(query, other_current),
        ensures
            match_views(self.diff_search_state->Some_0.results@) == match_views(
                other.diff_search_state->Some_0.results@,
            ),
            starts_increase(match_views(self.diff_search_state->Some_0.results@)),
            in_text_order(match_views(self.diff_search_state->Some_0.results@)),
    {
        assert(match_views(self.diff_search_state->Some_0.results@) =~= match_views(
            other.diff_search_state->Some_0.results@,
        ));
    }

    /// What a step from one search result to another does, from the state
    /// `before`, when `target` is the result to go to: it becomes the
    /// current result, the cursor goes to its line, and the view centres on
    /// that line if it was below the view and moves up to it if it was
    /// above.
    pub open spec fn stepped_to_result(&self, before: &App, target: Option<usize>) -> bool {
        let state = before.diff_search_state->Some_0;
        &&& self.diff_search_state is Some
        &&& self.diff_search_state->Some_0.current_result == target
        &&& self.diff_search_state->Some_0.query == state.query
        &&& self.diff_search_state->Some_0.is_active == state.is_active
        &&& self.diff_search_state->Some_0.is_input_mode == state.is_input_mode
        &&& self.diff_search_state->Some_0.results == state.results
        &&& self.diff_search_state->Some_0.regex == state.regex
        &&& match target {
            Some(index) => if index < state.results@.len() {
                let line = state.results@[index as int].line_index;
                &&& self.ui_state.diff_cursor_line == line
                &&& self.ui_state.diff_scroll == before.ui_state.scroll_centering(
                    line as int,
                    before.layout(),
                )
                &&& self.ui_state.same_but_cursor(before.ui_state)
            } else {
                self.ui_state == before.ui_state
            },
            None => self.ui_state == before.ui_state,
        }
    }

    /// Everything but the search state and the view is as in `before`.
    pub open spec fn same_but_search_and_view(&self, before: &App) -> bool {
        &&& self.current_diff == before.current_diff
        &&& self.current_side_by_side_diff == before.current_side_by_side_diff
        &&& self.diff_cache == before.diff_cache
        &&& self.current_changes == before.current_changes
        &&& self.current_change_index == before.current_change_index
        &&& self.session_same(before)
        &&& self.history_same(before)
        &&& self.messages_same(before)
        &&& self.popup_same(before)
    }

    /// What a step to the next search result does, from the state `before`.
    pub open spec fn moved_to_next_result(&self, before: &App) -> bool {
        &&& match before.diff_search_state {
                    Some(state) => if state.results@.len() > 0 {
                        self.stepped_to_result(
                            before,
                            match_after(state.results@.len() as usize, state.current_result),
                        )
                    } else {
                        self.diff_search_state == before.diff_search_state && self.ui_state == before.ui_state
                    },
                    None => self.diff_search_state is None && self.ui_state == before.ui_state,
                }
        &&& self.same_but_search_and_view(before)
    }

    /// Goes to the next search result, or from the last one to the first.
    /// Nothing happens without a search or without results.
    pub fn navigate_to_next_search_result(&mut self)
        ensures
            final(self).moved_to_next_result(old(self)),
    {
        let next_index = match &mut self.diff_search_state {
            Some(search_state) => {
                if search_state.results.len() == 0 {
                    return ;
                }
                let next = next_match(search_state.results.len(), search_state.current_result);
                search_state.current_result = next;
                next
            },
            None => {
                return ;
            },
        };
        if let Some(index) = next_index {
            self.scroll_to_search_result(index);
        }
    }

    /// What a step to the previous search result does, from the state
    /// `before`.
    pub open spec fn moved_to_previous_result(&self, before: &App) -> bool {
        &&& match before.diff_search_state {
                    Some(state) => if state.results@.len() > 0 {
                        self.stepped_to_result(
                            before,
                            match_before(state.results@.len() as usize, state.current_result),
                        )
                    } else {
                        self.diff_search_state == before.diff_search_state && self.ui_state == before.ui_state
                    },
                    None => self.diff_search_state is None && self.ui_state == before.ui_state,
                }
        &&& self.same_but_search_and_view(before)
    }

    /// Goes to the previous search result, or from the first one to the
    /// last. Nothing happens without a search or without results.
    pub fn navigate_to_previous_search_result(&mut self)
        ensures
            final(self).moved_to_previous_result(old(self)),
    {
        let previous_index = match &mut self.diff_search_state {
            Some(search_state) => {
                if search_state.results.len() == 0 {
                    return ;
                }
                let previous = previous_match(
                    search_state.results.len(),
                    search_state.current_result,
                );
                search_state.current_result = previous;
                previous
            },
            None => {
                return ;
            },
        };
        if let Some(index) = previous_index {
            self.scroll_to_search_result(index);
        }
    }

    /// Puts the cursor on the line of search result `result_index` and
    /// brings that line into view. Nothing happens if there is no such
    /// result.
    pub fn scroll_to_search_result(&mut self, result_index: usize)
        ensures
            match old(self).diff_search_state {
                Some(state) => if result_index < state.results@.len() {
                    let line = state.results@[result_index as int].line_index;
                    &&& final(self).ui_state.diff_cursor_line == line
                    &&& final(self).ui_state.diff_scroll == old(self).ui_state.scroll_centering(
                        line as int,
                        old(self).layout(),
                    )
                    &&& final(self).ui_state.same_but_cursor(old(self).ui_state)
                } else {
                    final(self).ui_state == old(self).ui_state
                },
                None => final(self).ui_state == old(self).ui_state,
            },
            final(self).diff_search_state == old(self).diff_search_state,
            final(self).same_but_search_and_view(old(self)),
    {
        let target_line = match &self.diff_search_state {
            Some(search_state) => {
                if result_index < search_state.results.len() {
                    search_state.results[result_index].line_index
                } else {
                    return ;
                }
            },
            None => {
                return ;
            },
        };
        let layout_mode = self.effective_layout();
        self.ui_state.ensure_diff_line_visible(target_line, &layout_mode);
    }

    /// Ends the search.
    pub fn clear_diff_search(&mut self)
        ensures
            final(self).diff_search_state is None,
            final(self).same_but_search(old(self)),
    {
        self.diff_search_state = None;
    }

    /// The state after the quit key: the commit window is closed if it is
    /// open; else a marked end of a range is forgotten, with the range that
    /// is shown; else, if the file was chosen in the file picker, nothing
    /// changes, since the key leads back there; else the session ends.
    pub open spec fn closed_or_quit(&self) -> App {
        if self.show_commit_info {
            App { show_commit_info: false, commit_info_popup: None, ..*self }
        } else if self.diff_range_start is Some {
            App { diff_range_start: None, current_diff_range: None, ..*self }
        } else if self.came_from_file_picker {
            *self
        } else {
            App { should_quit: true, ..*self }
        }
    }

    /// Whether the quit key leads back to the file picker: nothing is there
    /// to close or forget, and the file was chosen in the file picker.
    pub open spec fn quit_returns_to_picker(&self) -> bool {
        !self.show_commit_info && self.diff_range_start is None && self.came_from_file_picker
    }

    /// What the quit key does. The answer says whether the file picker is
    /// to be opened.
    pub fn close_or_quit(&mut self) -> (to_file_picker: bool)
        ensures
            *final(self) == old(self).closed_or_quit(),
            to_file_picker == old(self).quit_returns_to_picker(),
    {
        if self.show_commit_info {
            self.hide_commit_info_popup();
            false
        } else if self.diff_range_start.is_some() {
            self.clear_diff_range_selection();
            false
        } else if self.came_from_file_picker {
            true
        } else {
            self.quit();
            false
        }
    }

    /// What the escape key leaves behind, in this order: the help if it is
    /// shown, else the commit window, else a search, else a copy command,
    /// else the marked end of a range together with the range that is
    /// shown. If none of these is there, nothing changes.
    pub open spec fn escaped(&self) -> App {
        if self.ui_state.show_help {
            App { ui_state: UIState { show_help: false, ..self.ui_state }, ..*self }
        } else if self.show_commit_info {
            App { show_commit_info: false, commit_info_popup: None, ..*self }
        } else if self.diff_search_state is Some {
            App { diff_search_state: None, ..*self }
        } else if self.copy_mode is Some {
            App { copy_mode: None, copy_message: None, ..*self }
        } else if self.diff_range_start is Some {
            App { diff_range_start: None, current_diff_range: None, ..*self }
        } else {
            *self
        }
    }

    /// Whether the escape key finds nothing to leave, so that it leads back
    /// to the file picker.
    pub open spec fn escape_leaves_history(&self) -> bool {
        !self.ui_state.show_help && !self.show_commit_info && self.diff_search_state is None
            && self.copy_mode is None && self.diff_range_start is None
    }

    /// What the escape key does. The answer says whether there was nothing
    /// to leave: then the file picker is to be opened.
    pub fn escape(&mut self) -> (to_file_picker: bool)
        ensures
            *final(self) == old(self).escaped(),
            to_file_picker == old(self).escape_leaves_history(),
    {
        if self.ui_state.show_help {
            self.ui_state.show_help = false;
            false
        } else if self.show_commit_info {
            self.hide_commit_info_popup();
            false
        } else if self.diff_search_state.is_some() {
            self.clear_diff_search();
            false
        } else if self.copy_mode.is_some() {
            self.cancel_copy_mode();
            false
        } else if self.diff_range_start.is_some() {
            self.clear_diff_range_selection();
            false
        } else {
            true
        }
    }

    /// The query of a search is being typed.
    pub open spec fn typing_query(&self) -> bool {
        self.diff_search_state is Some && self.diff_search_state->Some_0.is_input_mode
    }

    /// What typing `c` into the query does, from the state `before`; `typed`
    /// says whether a query was being typed.
    pub open spec fn search_typed(&self, before: &App, c: char, typed: bool) -> bool {
        &&& typed == before.typing_query()
        &&& !typed ==> *self == *before
        &&& typed ==> {
                    let state = before.diff_search_state->Some_0;
                    &&& self.diff_search_state is Some
                    &&& self.diff_search_state->Some_0.query@ == state.query@.push(c)
                    &&& self.diff_search_state->Some_0.is_active == state.is_active
                    &&& self.diff_search_state->Some_0.is_input_mode
                    &&& self.searched(state.query@.push(c), state.current_result)
                    &&& self.same_but_search(before)
                }
    }

    /// Adds a character to the query of the search and searches anew.
    /// Nothing happens, and the answer is `false`, unless the query is
    /// being typed.
    pub fn search_type_char(&mut self, c: char) -> (typed: bool)
        ensures
            final(self).search_typed(old(self), c, typed),
    {
        match &mut self.diff_search_state {
            Some(search_state) => {
                if !search_state.is_input_mode {
                    return false;
                }
                search_state.query.push(c);
            },
            None => {
                return false;
            },
        }
        self.update_search_results();
        true
    }

    /// What erasing the last character of the query does, from the state
    /// `before`; `typed` says whether a query was being typed.
    pub open spec fn search_erased(&self, before: &App, typed: bool) -> bool {
        &&& typed == before.typing_query()
        &&& !typed ==> *self == *before
        &&& typed ==> {
                    let state = before.diff_search_state->Some_0;
                    let query = if state.query@.len() > 0 {
                        state.query@.drop_last()
                    } else {
                        state.query@
                    };
                    &&& self.diff_search_state is Some
                    &&& self.diff_search_state->Some_0.query@ == query
                    &&& self.diff_search_state->Some_0.is_active == state.is_active
                    &&& self.diff_search_state->Some_0.is_input_mode
                    &&& self.searched(query, state.current_result)
                    &&& self.same_but_search(before)
                }
    }

    /// Removes the last character of the query of the search, if there is
    /// one, and searches anew. Nothing happens, and the answer is `false`,
    /// unless the query is being typed.
    pub fn search_backspace(&mut self) -> (typed: bool)
        ensures
            final(self).search_erased(old(self), typed),
    {
        match &mut self.diff_search_state {
            Some(search_state) => {
                if !search_state.is_input_mode {
                    return false;
                }
                let _ = search_state.query.pop();
            },
            None => {
                return false;
            },
        }
        self.update_search_results();
        true
    }

    /// What ending the typing of the query does, from the state `before`;
    /// `typed` says whether a query was being typed.
    pub open spec fn search_confirmed(&self, before: &App, typed: bool) -> bool {
        &&& typed == before.typing_query()
        &&& !typed ==> *self == *before
        &&& typed ==> {
                    let state = before.diff_search_state->Some_0;
                    &&& self.diff_search_state is Some
                    &&& self.diff_search_state->Some_0.query == state.query
                    &&& self.diff_search_state->Some_0.is_active == state.is_active
                    &&& !self.diff_search_state->Some_0.is_input_mode
                    &&& self.diff_search_state->Some_0.results == state.results
                    &&& self.diff_search_state->Some_0.regex == state.regex
                    &&& self.same_but_search_and_view(before)
                    &&& if state.results@.len() > 0 {
                        let line = state.results@[0].line_index;
                        &&& self.diff_search_state->Some_0.current_result == Some(0usize)
                        &&& self.ui_state.diff_cursor_line == line
                        &&& self.ui_state.diff_scroll == before.ui_state.scroll_centering(
                            line as int,
                            before.layout(),
                        )
                        &&& self.ui_state.same_but_cursor(before.ui_state)
                    } else {
                        &&& self.diff_search_state->Some_0.current_result
                            == state.current_result
                        &&& self.ui_state == before.ui_state
                    }
                }
    }

    /// Ends the typing of the query: if there are results, the first
    /// becomes the current one and is brought into view. Nothing happens,
    /// and the answer is `false`, unless the query is being typed.
    pub fn search_confirm(&mut self) -> (typed: bool)
        ensures
            final(self).search_confirmed(old(self), typed),
    {
        let has_results = match &mut self.diff_search_state {
            Some(search_state) => {
                if !search_state.is_input_mode {
                    return false;
                }
                search_state.is_input_mode = false;
                if search_state.results.len() > 0 {
                    search_state.current_result = Some(0);
                    true
                } else {
                    false
                }
            },
            None => {
                return false;
            },
        };
        if has_results {
            self.scroll_to_search_result(0);
        }
        true
    }

    /// The keys for next and previous step through the results of a
    /// search: a search is going on, its query is not being typed any
    /// more, and it has results.
    pub open spec fn stepping_through_results(&self) -> bool {
        self.diff_search_state matches Some(state) && state.is_active && !state.is_input_mode
            && state.results@.len() > 0
    }

    /// Whether the keys for next and previous step through the results of
    /// a search; if not, they step through the changes.
    pub fn steps_through_results(&self) -> (r: bool)
        ensures
            r == self.stepping_through_results(),
    {
        match &self.diff_search_state {
            Some(state) => state.is_active && !state.is_input_mode && state.results.len() > 0,
            None => false,
        }
    }

    /// What the copy key does, from the state `before`; `target` is what is
    /// to be copied.
    pub open spec fn yanked(&self, before: &App, target: Option<CopyTarget>) -> bool {
        &&& before.copy_mode is Some ==> target == Some(CopyTarget::FullSha) && *self
                    == *before
        &&& before.copy_mode is None ==> {
                    &&& target is None
                    &&& self.copy_mode == Some(CopyMode::WaitingForTarget)
                    &&& optional_text(self.copy_message) == Some(
                        "Copy mode: s=SHA, h=short, m=msg, a=author, d=date, u=URL, y=SHA, p=path"@,
                    )
                    &&& self.error_message == before.error_message
                    &&& self.message_timer == before.message_timer
                    &&& self.session_same(before)
                    &&& self.history_same(before)
                    &&& self.diff_same(before)
                    &&& self.ui_state == before.ui_state
                    &&& self.popup_same(before)
                }
    }

    /// What the copy key does: it begins a copy command, or, pressed again
    /// while a copy command waits for its target, asks for the full hash
    /// to be copied.
    pub fn yank(&mut self) -> (target: Option<CopyTarget>)
        ensures
            final(self).yanked(old(self), target),
    {
        match self.copy_mode {
            None => {
                self.start_copy_mode();
                None
            },
            Some(CopyMode::WaitingForTarget) => Some(CopyTarget::FullSha),
        }
    }

    /// The column at which the diff panel begins: the commit panel's share
    /// of the width.
    pub open spec fn split_column(&self) -> int {
        self.ui_state.terminal_width * self.ui_state.split() / 100
    }

    /// The panel that column `col` of the screen belongs to: the commit
    /// panel left of the split, the diff panel from the split on.
    pub fn get_panel_at_position(&self, col: u16, _row: u16) -> (panel: FocusedPanel)
        ensures
            panel == (if col < self.split_column() {
                FocusedPanel::Commits
            } else {
                FocusedPanel::Diff
            }),
    {
        let split_point = percent_of(self.ui_state.terminal_width, self.ui_state.effective_split());
        if (col as usize) < split_point {
            FocusedPanel::Commits
        } else {
            FocusedPanel::Diff
        }
    }

    /// The commit that row `row` of the commit panel shows: the rows from
    /// the third on show the commits in order; the first two rows are
    /// border and title.
    pub fn get_commit_at_row(&self, row: u16) -> (index: Option<usize>)
        ensures
            index == (if row >= 2 && row - 2 < self.commits@.len() {
                Some((row - 2) as usize)
            } else {
                None
            }),
    {
        if row <= 1 {
            return None;
        }
        let commit_index = (row - 2) as usize;
        if commit_index < self.commits.len() {
            Some(commit_index)
        } else {
            None
        }
    }

    /// A click at column `col`, row `row`: the panel clicked gets the
    /// focus, and a commit clicked in the commit panel is selected.
    pub fn handle_mouse_click(&mut self, col: u16, row: u16) -> (request: Option<DiffRequest>)
        ensures
            col >= old(self).split_column() ==> request is None && *final(self) == old(self).with_focus(FocusedPanel::Diff),
            col < old(self).split_column() && !(row >= 2 && row - 2 < old(self).commits@.len()
                && row - 2 != old(self).selected_index) ==> request is None && *final(self)
                == old(self).with_focus(FocusedPanel::Commits),
            col < old(self).split_column() && row >= 2 && row - 2 < old(self).commits@.len()
                && row - 2 != old(self).selected_index ==> final(self).selection_loaded(
                &old(self).with_focus(FocusedPanel::Commits).with_selection((row - 2) as usize),
                request,
            ),
    {
        match self.get_panel_at_position(col, row) {
            FocusedPanel::Commits => {
                self.focus_panel(FocusedPanel::Commits);
                match self.get_commit_at_row(row) {
                    Some(commit_index) => self.select_commit(commit_index),
                    None => None,
                }
            },
            FocusedPanel::Diff => {
                self.focus_panel(FocusedPanel::Diff);
                None
            },
        }
    }

    /// The file to open in an editor and the line to open it at: the line
    /// of the new file that the cursor is on, or 0 if the cursor is on a
    /// line that the new file does not have. Nothing in the file picker
    /// and when the cursor is on no line of the diff.
    pub fn editor_target(&self) -> (target: Option<(String, usize)>)
        ensures
            target is Some <==> self.in_history() && self.ui_state.diff_cursor_line
                < parsed_diff(self.current_diff@).len(),
            target is Some ==> Some(target->Some_0.0@) == self.file() && target->Some_0.1 == (
            match parsed_diff(self.current_diff@)[self.ui_state.diff_cursor_line as int].new_line_num {
                Some(n) => n,
                None => 0,
            }),
    {
        let file = match &self.mode {
            AppMode::History { file_path, .. } => file_path.clone(),
            AppMode::FilePicker { .. } => {
                return None;
            },
        };
        let lines = parse_diff(self.current_diff.as_str());
        let cursor = self.ui_state.diff_cursor_line;
        if cursor >= lines.len() {
            return None;
        }
        assert(line_views(lines@)[cursor as int] == lines@[cursor as int]@);
        let line = match lines[cursor].new_line_num {
            Some(n) => n,
            None => 0,
        };
        Some((file, line))
    }
}

} // verus!
