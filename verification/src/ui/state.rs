//! Scroll, cursor and size state of the diff and commit panels.
//!
//! Every transition is total: a request that would leave the allowed range
//! is clamped. Each transition is stated as a function from the state
//! before to the state after.

use crate::cli::LayoutMode;
use vstd::prelude::*;

verus! {

/// Smallest share of the width that the commit panel takes, in percent.
pub const MIN_SPLIT_PERCENT: u8 = 20;

/// Largest share of the width that the commit panel takes, in percent.
pub const MAX_SPLIT_PERCENT: u8 = 70;

/// One step of the split, in percent.
pub const SPLIT_STEP_PERCENT: u8 = 5;

/// One step of horizontal scrolling, in columns.
pub const HORIZONTAL_STEP: usize = 4;

/// The share of the height that the diff panels take in the side-by-side
/// layout, in percent.
pub const SIDE_BY_SIDE_DIFF_PERCENT: u8 = 70;

/// Scroll, cursor and size state of the panels.
#[derive(Debug)]
pub struct UIState {
    /// Share of the commit panel, in percent; the diff panel takes the rest.
    pub split_percent: u8,
    pub show_help: bool,
    pub terminal_height: u16,
    pub terminal_width: u16,
    /// Index of the first diff line shown.
    pub diff_scroll: usize,
    pub diff_horizontal_scroll: usize,
    pub commit_horizontal_scroll: usize,
    /// Index of the diff line that the cursor is on.
    pub diff_cursor_line: usize,
}

/// `a - b`, or 0 where that would be negative.
pub open spec fn minus(a: int, b: int) -> int {
    if a >= b {
        a - b
    } else {
        0
    }
}

/// The smaller of two numbers.
pub open spec fn smaller(a: int, b: int) -> int {
    if a <= b {
        a
    } else {
        b
    }
}

/// The first line shown after the view is moved, if need be, so that line
/// `target` is shown: the view moves up to the target if the target is
/// above it, and otherwise, if the target is below the last line shown, it
/// moves down to `below`.
pub open spec fn scroll_showing(scroll: int, target: int, visible: int, below: int) -> int {
    if target < scroll {
        target
    } else if target >= scroll + visible {
        below
    } else {
        scroll
    }
}

/// A horizontal scroll offset one step to the right, as long as it stays
/// below `max_width`.
pub open spec fn stepped_right(offset: usize, max_width: usize) -> usize {
    if offset + HORIZONTAL_STEP < max_width {
        (offset + HORIZONTAL_STEP) as usize
    } else {
        offset
    }
}

/// A horizontal scroll offset after the terminal got `width` columns: an
/// offset beyond the width is pulled back to ten columns before it.
pub open spec fn pulled_back(offset: usize, width: u16) -> usize {
    if offset > width {
        minus(width as int, 10) as usize
    } else {
        offset
    }
}

/// `percent` hundredths of `height`, rounded down.
pub fn percent_of(height: u16, percent: u8) -> (r: usize)
    requires
        percent <= 100,
    ensures
        r == height * percent / 100,
        r <= height,
{
    assert(height * percent <= 65535 * 100) by (nonlinear_arith)
        requires
            height <= 65535,
            percent <= 100,
    ;
    assert(height * percent <= height * 100) by (nonlinear_arith)
        requires
            percent <= 100,
    ;
    let product: u32 = height as u32 * percent as u32;
    (product / 100) as usize
}

impl UIState {
    /// The split in use: `split_percent`, held within 20 and 70.
    pub open spec fn split(&self) -> int {
        if self.split_percent < MIN_SPLIT_PERCENT {
            MIN_SPLIT_PERCENT as int
        } else if self.split_percent > MAX_SPLIT_PERCENT {
            MAX_SPLIT_PERCENT as int
        } else {
            self.split_percent as int
        }
    }

    /// The split is within its range, 20 to 70 percent.
    pub open spec fn split_in_range(&self) -> bool {
        MIN_SPLIT_PERCENT <= self.split_percent <= MAX_SPLIT_PERCENT
    }

    /// Number of lines by which a page key moves the diff: half of what is
    /// left of the diff panel's share of the height, after three lines for
    /// borders and status bar, once two more lines are taken off.
    pub open spec fn page_scroll_size(&self) -> int {
        minus(minus(self.terminal_height as int, 3) * (100 - self.split()) / 100, 2) / 2
    }

    /// Number of diff lines that fit on the screen, in the given layout: the
    /// diff panel's share of the height without the status bar, less two
    /// lines of border.
    pub open spec fn visible_lines(&self, layout_mode: LayoutMode) -> int {
        let share = if layout_mode == LayoutMode::SideBySide {
            SIDE_BY_SIDE_DIFF_PERCENT as int
        } else {
            100 - self.split()
        };
        minus(minus(self.terminal_height as int, 1) * share / 100, 2)
    }

    /// The largest scroll offset for a diff of `total_lines` lines.
    pub open spec fn max_scroll(&self, total_lines: int) -> int {
        minus(total_lines, self.visible_lines(LayoutMode::Unified))
    }

    /// The scroll offset that shows line `target` with the least movement:
    /// the target becomes the first line if it was above the view, and the
    /// last line if it was below.
    pub open spec fn scroll_pinning(&self, target: int, layout_mode: LayoutMode) -> int {
        let visible = self.visible_lines(layout_mode);
        scroll_showing(
            self.diff_scroll as int,
            target,
            visible,
            minus(target, minus(visible, 1)),
        )
    }

    /// The scroll offset that shows line `target`, centred if it was below
    /// the view: the target becomes the first line if it was above the
    /// view, and the middle line if it was below.
    pub open spec fn scroll_centering(&self, target: int, layout_mode: LayoutMode) -> int {
        let visible = self.visible_lines(layout_mode);
        scroll_showing(self.diff_scroll as int, target, visible, minus(target, visible / 2))
    }

    /// Everything but the cursor line and the vertical scroll offset of the
    /// diff is as in `before`.
    pub open spec fn same_but_cursor(&self, before: UIState) -> bool {
        &&& self.split_percent == before.split_percent
        &&& self.show_help == before.show_help
        &&& self.terminal_height == before.terminal_height
        &&& self.terminal_width == before.terminal_width
        &&& self.diff_horizontal_scroll == before.diff_horizontal_scroll
        &&& self.commit_horizontal_scroll == before.commit_horizontal_scroll
    }

    /// The state at start: an 80 by 24 terminal, the commit panel at 40
    /// percent, nothing scrolled.
    pub open spec fn initial() -> UIState {
        UIState {
            split_percent: 40,
            show_help: false,
            terminal_height: 24,
            terminal_width: 80,
            diff_scroll: 0,
            diff_horizontal_scroll: 0,
            commit_horizontal_scroll: 0,
            diff_cursor_line: 0,
        }
    }

    /// The state after the terminal got a new size.
    pub open spec fn resized(self, width: u16, height: u16) -> UIState {
        UIState {
            terminal_width: width,
            terminal_height: height,
            diff_horizontal_scroll: pulled_back(self.diff_horizontal_scroll, width),
            commit_horizontal_scroll: pulled_back(self.commit_horizontal_scroll, width),
            ..self
        }
    }

    /// The state with the diff scrolled no further down than to where the
    /// last of its `max_lines` lines is still on the screen in the given
    /// layout.
    pub open spec fn scroll_clamped(self, max_lines: usize, layout_mode: LayoutMode) -> UIState {
        UIState {
            diff_scroll: smaller(
                self.diff_scroll as int,
                minus(max_lines as int, self.visible_lines(layout_mode)),
            ) as usize,
            ..self
        }
    }

    /// The state back at the top left of the diff, cursor on the first
    /// line.
    pub open spec fn scroll_reset(self) -> UIState {
        UIState { diff_scroll: 0, diff_horizontal_scroll: 0, diff_cursor_line: 0, ..self }
    }

    /// The state with the commit panel five percent wider, up to 70.
    pub open spec fn split_increased(self) -> UIState {
        UIState {
            split_percent: smaller(self.split() + SPLIT_STEP_PERCENT, MAX_SPLIT_PERCENT as int) as u8,
            ..self
        }
    }

    /// The state with the commit panel five percent narrower, down to 20.
    pub open spec fn split_decreased(self) -> UIState {
        UIState {
            split_percent: if self.split() - SPLIT_STEP_PERCENT < MIN_SPLIT_PERCENT {
                MIN_SPLIT_PERCENT
            } else {
                (self.split() - SPLIT_STEP_PERCENT) as u8
            },
            ..self
        }
    }

    /// The state with the help shown if it was hidden, hidden if it was
    /// shown.
    pub open spec fn help_toggled(self) -> UIState {
        UIState { show_help: !self.show_help, ..self }
    }

    /// The state with the diff one line up, not above the first line.
    pub open spec fn scrolled_up(self) -> UIState {
        UIState { diff_scroll: minus(self.diff_scroll as int, 1) as usize, ..self }
    }

    /// The state with the diff one line down, as long as the last line of
    /// a diff of `max_lines` lines is not yet on the screen.
    pub open spec fn scrolled_down(self, max_lines: usize) -> UIState {
        UIState {
            diff_scroll: if self.diff_scroll < self.max_scroll(max_lines as int) {
                (self.diff_scroll + 1) as usize
            } else {
                self.diff_scroll
            },
            ..self
        }
    }

    /// The state with the diff one page up, not above the first line.
    pub open spec fn paged_up(self) -> UIState {
        UIState {
            diff_scroll: minus(self.diff_scroll as int, self.page_scroll_size()) as usize,
            ..self
        }
    }

    /// The state with the diff one page down, not beyond the largest
    /// scroll offset for a diff of `max_lines` lines.
    pub open spec fn paged_down(self, max_lines: usize) -> UIState {
        UIState {
            diff_scroll: smaller(
                self.diff_scroll + self.page_scroll_size(),
                self.max_scroll(max_lines as int),
            ) as usize,
            ..self
        }
    }

    /// The state with the diff four columns to the left, not beyond the
    /// first column.
    pub open spec fn diff_scrolled_left(self) -> UIState {
        UIState {
            diff_horizontal_scroll: minus(
                self.diff_horizontal_scroll as int,
                HORIZONTAL_STEP as int,
            ) as usize,
            ..self
        }
    }

    /// The state with the diff four columns to the right, as long as the
    /// offset stays below `max_width`, the width of the longest line.
    pub open spec fn diff_scrolled_right(self, max_width: usize) -> UIState {
        UIState {
            diff_horizontal_scroll: stepped_right(self.diff_horizontal_scroll, max_width),
            ..self
        }
    }

    /// The state with the commit list four columns to the left, not beyond
    /// the first column.
    pub open spec fn commit_scrolled_left(self) -> UIState {
        UIState {
            commit_horizontal_scroll: minus(
                self.commit_horizontal_scroll as int,
                HORIZONTAL_STEP as int,
            ) as usize,
            ..self
        }
    }

    /// The state with the commit list four columns to the right, as long
    /// as the offset stays below `max_width`, the width of the longest
    /// line.
    pub open spec fn commit_scrolled_right(self, max_width: usize) -> UIState {
        UIState {
            commit_horizontal_scroll: stepped_right(self.commit_horizontal_scroll, max_width),
            ..self
        }
    }

    /// The state with the view moved, if need be, so that the cursor line
    /// is on the screen: up to the cursor if it is above the view, and
    /// down until the cursor is on the last line shown if it is below.
    pub open spec fn showing_cursor(self, layout_mode: LayoutMode) -> UIState {
        UIState {
            diff_scroll: self.scroll_pinning(self.diff_cursor_line as int, layout_mode) as usize,
            ..self
        }
    }

    /// The state with the cursor on line `target` and the view moved, if
    /// need be, so that the line is on the screen: up to the line if it is
    /// above the view, and down until the line is in the middle if it is
    /// below.
    pub open spec fn showing_line(self, target: usize, layout_mode: LayoutMode) -> UIState {
        UIState {
            diff_scroll: self.scroll_centering(target as int, layout_mode) as usize,
            diff_cursor_line: target,
            ..self
        }
    }

    /// The state with the cursor one line up, not above the first line;
    /// the view follows the cursor if the cursor moved.
    pub open spec fn cursor_moved_up(self, layout_mode: LayoutMode) -> UIState {
        if self.diff_cursor_line > 0 {
            (UIState {
                diff_cursor_line: (self.diff_cursor_line - 1) as usize,
                ..self
            }).showing_cursor(layout_mode)
        } else {
            self
        }
    }

    /// The state with the cursor one line down, not below the last of
    /// `max_lines` lines; the view follows the cursor if the cursor moved.
    pub open spec fn cursor_moved_down(self, max_lines: usize, layout_mode: LayoutMode) -> UIState {
        if self.diff_cursor_line + 1 < max_lines {
            (UIState {
                diff_cursor_line: (self.diff_cursor_line + 1) as usize,
                ..self
            }).showing_cursor(layout_mode)
        } else {
            self
        }
    }

    /// The state at start.
    pub fn new() -> (r: Self)
        ensures
            r == Self::initial(),
            r.split_in_range(),
    {
        UIState {
            split_percent: 40,
            show_help: false,
            terminal_height: 24,
            terminal_width: 80,
            diff_scroll: 0,
            diff_horizontal_scroll: 0,
            commit_horizontal_scroll: 0,
            diff_cursor_line: 0,
        }
    }

    /// The split in use, in percent.
    pub fn effective_split(&self) -> (p: u8)
        ensures
            p == self.split(),
            MIN_SPLIT_PERCENT <= p <= MAX_SPLIT_PERCENT,
    {
        if self.split_percent < MIN_SPLIT_PERCENT {
            MIN_SPLIT_PERCENT
        } else if self.split_percent > MAX_SPLIT_PERCENT {
            MAX_SPLIT_PERCENT
        } else {
            self.split_percent
        }
    }

    /// Takes the new size of the terminal. A horizontal scroll offset that
    /// lies beyond the new width is pulled back to ten columns before it.
    pub fn handle_resize(&mut self, width: u16, height: u16)
        ensures
            *final(self) == old(self).resized(width, height),
            final(self).diff_horizontal_scroll <= old(self).diff_horizontal_scroll,
            final(self).commit_horizontal_scroll <= old(self).commit_horizontal_scroll,
    {
        self.terminal_height = height;
        self.terminal_width = width;
        if self.diff_horizontal_scroll > width as usize {
            self.diff_horizontal_scroll = (width as usize).saturating_sub(10);
        }
        if self.commit_horizontal_scroll > width as usize {
            self.commit_horizontal_scroll = (width as usize).saturating_sub(10);
        }
    }

    /// Pulls the diff back, if it is scrolled past it, to where the last of
    /// its `max_lines` lines is still on the screen in the given layout.
    pub fn clamp_diff_scroll(&mut self, max_lines: usize, layout_mode: &LayoutMode)
        ensures
            *final(self) == old(self).scroll_clamped(max_lines, *layout_mode),
            final(self).diff_scroll <= old(self).diff_scroll,
    {
        let viewport_height = self.get_visible_lines(layout_mode);
        let max_scroll = max_lines.saturating_sub(viewport_height);
        if self.diff_scroll > max_scroll {
            self.diff_scroll = max_scroll;
        }
    }

    /// Back to the top left of the diff, cursor on the first line.
    pub fn reset_diff_scroll(&mut self)
        ensures
            *final(self) == old(self).scroll_reset(),
    {
        self.diff_scroll = 0;
        self.diff_horizontal_scroll = 0;
        self.diff_cursor_line = 0;
    }

    /// Gives the commit panel five percent more, up to 70.
    pub fn increase_split_ratio(&mut self)
        ensures
            *final(self) == old(self).split_increased(),
            final(self).split_in_range(),
    {
        let p = self.effective_split();
        self.split_percent = if p > MAX_SPLIT_PERCENT - SPLIT_STEP_PERCENT {
            MAX_SPLIT_PERCENT
        } else {
            p + SPLIT_STEP_PERCENT
        };
    }

    /// Gives the commit panel five percent less, down to 20.
    pub fn decrease_split_ratio(&mut self)
        ensures
            *final(self) == old(self).split_decreased(),
            final(self).split_in_range(),
    {
        let p = self.effective_split();
        self.split_percent = if p < MIN_SPLIT_PERCENT + SPLIT_STEP_PERCENT {
            MIN_SPLIT_PERCENT
        } else {
            p - SPLIT_STEP_PERCENT
        };
    }

    /// Shows the help if it is hidden, hides it if it is shown.
    pub fn toggle_help(&mut self)
        ensures
            *final(self) == old(self).help_toggled(),
    {
        self.show_help = !self.show_help;
    }

    /// Number of lines by which a page key moves the diff. Computed anew
    /// from the height and the split at every call.
    pub fn get_page_scroll_size(&self) -> (n: usize)
        ensures
            n == self.page_scroll_size(),
    {
        let visible_height: u16 = self.terminal_height.saturating_sub(3);
        let diff_height: usize = percent_of(visible_height, 100 - self.effective_split());
        diff_height.saturating_sub(2) / 2
    }

    /// Number of diff lines that fit on the screen in the given layout.
    pub fn get_visible_lines(&self, layout_mode: &LayoutMode) -> (n: usize)
        ensures
            n == self.visible_lines(*layout_mode),
            n <= u16::MAX,
    {
        let visible_height: u16 = self.terminal_height.saturating_sub(1);
        let share: u8 = match layout_mode {
            LayoutMode::SideBySide => SIDE_BY_SIDE_DIFF_PERCENT,
            _ => 100 - self.effective_split(),
        };
        let diff_height: usize = percent_of(visible_height, share);
        diff_height.saturating_sub(2)
    }

    /// One line up, not above the first line.
    pub fn scroll_diff_up(&mut self)
        ensures
            *final(self) == old(self).scrolled_up(),
    {
        if self.diff_scroll > 0 {
            self.diff_scroll -= 1;
        }
    }

    /// One line down, as long as the last line of a diff of `max_lines`
    /// lines is not yet on the screen. An offset within the allowed range
    /// stays within it.
    pub fn scroll_diff_down(&mut self, max_lines: usize)
        ensures
            *final(self) == old(self).scrolled_down(max_lines),
            old(self).diff_scroll <= old(self).max_scroll(max_lines as int) ==> final(self).diff_scroll <= old(self).max_scroll(max_lines as int),
    {
        let viewport_height = self.get_visible_lines(&LayoutMode::Unified);
        let max_scroll = max_lines.saturating_sub(viewport_height);
        if self.diff_scroll < max_scroll {
            self.diff_scroll += 1;
        }
    }

    /// One page up, not above the first line.
    pub fn scroll_diff_page_up(&mut self)
        ensures
            *final(self) == old(self).paged_up(),
    {
        let page_size = self.get_page_scroll_size();
        self.diff_scroll = self.diff_scroll.saturating_sub(page_size);
    }

    /// One page down, not beyond the largest scroll offset for a diff of
    /// `max_lines` lines.
    pub fn scroll_diff_page_down(&mut self, max_lines: usize)
        ensures
            *final(self) == old(self).paged_down(max_lines),
            final(self).diff_scroll <= old(self).max_scroll(max_lines as int),
    {
        let page_size = self.get_page_scroll_size();
        let viewport_height = self.get_visible_lines(&LayoutMode::Unified);
        let max_scroll = max_lines.saturating_sub(viewport_height);
        self.diff_scroll = if self.diff_scroll >= max_scroll || page_size >= max_scroll
            - self.diff_scroll {
            max_scroll
        } else {
            self.diff_scroll + page_size
        };
    }

    /// The diff four columns to the left, not beyond the first column.
    pub fn scroll_diff_left(&mut self)
        ensures
            *final(self) == old(self).diff_scrolled_left(),
    {
        self.diff_horizontal_scroll = self.diff_horizontal_scroll.saturating_sub(HORIZONTAL_STEP);
    }

    /// The diff four columns to the right, as long as the offset stays
    /// below `max_width`, the width of the longest line.
    pub fn scroll_diff_right(&mut self, max_width: usize)
        ensures
            *final(self) == old(self).diff_scrolled_right(max_width),
    {
        if max_width > HORIZONTAL_STEP && self.diff_horizontal_scroll < max_width
            - HORIZONTAL_STEP {
            self.diff_horizontal_scroll += HORIZONTAL_STEP;
        }
    }

    /// The commit list four columns to the left, not beyond the first
    /// column.
    pub fn scroll_commit_left(&mut self)
        ensures
            *final(self) == old(self).commit_scrolled_left(),
    {
        self.commit_horizontal_scroll = self.commit_horizontal_scroll.saturating_sub(
            HORIZONTAL_STEP,
        );
    }

    /// The commit list four columns to the right, as long as the offset
    /// stays below `max_width`, the width of the longest line.
    pub fn scroll_commit_right(&mut self, max_width: usize)
        ensures
            *final(self) == old(self).commit_scrolled_right(max_width),
    {
        if max_width > HORIZONTAL_STEP && self.commit_horizontal_scroll < max_width
            - HORIZONTAL_STEP {
            self.commit_horizontal_scroll += HORIZONTAL_STEP;
        }
    }

    /// The cursor one line up, not above the first line; the view follows
    /// the cursor if the cursor moved.
    pub fn move_cursor_up(&mut self, layout_mode: &LayoutMode)
        ensures
            *final(self) == old(self).cursor_moved_up(*layout_mode),
    {
        if self.diff_cursor_line > 0 {
            self.diff_cursor_line -= 1;
            self.ensure_cursor_visible(layout_mode);
        }
    }

    /// The cursor one line down, not below the last of `max_lines` lines;
    /// the view follows the cursor if the cursor moved. A cursor on a line
    /// of the diff stays on one.
    pub fn move_cursor_down(&mut self, max_lines: usize, layout_mode: &LayoutMode)
        ensures
            *final(self) == old(self).cursor_moved_down(max_lines, *layout_mode),
            old(self).diff_cursor_line < max_lines ==> final(self).diff_cursor_line < max_lines,
    {
        if max_lines > 0 && self.diff_cursor_line < max_lines - 1 {
            self.diff_cursor_line += 1;
            self.ensure_cursor_visible(layout_mode);
        }
    }

    /// Moves the view, if need be, so that the cursor line is on the
    /// screen. Afterwards the cursor is not above the view, and not below
    /// it if the view shows any line at all.
    pub fn ensure_cursor_visible(&mut self, layout_mode: &LayoutMode)
        ensures
            *final(self) == old(self).showing_cursor(*layout_mode),
            final(self).diff_scroll <= final(self).diff_cursor_line,
            final(self).visible_lines(*layout_mode) > 0 ==> final(self).diff_cursor_line < final(self).diff_scroll + final(self).visible_lines(*layout_mode),
    {
        let visible_lines = self.get_visible_lines(layout_mode);
        if self.diff_cursor_line < self.diff_scroll {
            self.diff_scroll = self.diff_cursor_line;
        } else if self.diff_cursor_line - self.diff_scroll >= visible_lines {
            self.diff_scroll = self.diff_cursor_line.saturating_sub(
                visible_lines.saturating_sub(1),
            );
        }
    }

    /// Puts the cursor on line `target_line` and moves the view, if need
    /// be, so that the line is on the screen. Afterwards the line is not
    /// above the view, and not below it if the view shows any line at all.
    pub fn ensure_diff_line_visible(&mut self, target_line: usize, layout_mode: &LayoutMode)
        ensures
            *final(self) == old(self).showing_line(target_line, *layout_mode),
            final(self).diff_scroll <= target_line,
            final(self).visible_lines(*layout_mode) > 0 ==> target_line < final(self).diff_scroll
                + final(self).visible_lines(*layout_mode),
    {
        let visible_lines = self.get_visible_lines(layout_mode);
        if target_line < self.diff_scroll {
            self.diff_scroll = target_line;
        } else if target_line - self.diff_scroll >= visible_lines {
            let half_viewport = visible_lines / 2;
            self.diff_scroll = target_line.saturating_sub(half_viewport);
        }
        self.diff_cursor_line = target_line;
    }
}

impl Default for UIState {
    fn default() -> (r: Self)
        ensures
            r == Self::initial(),
    {
        Self::new()
    }
}

} // verus!
