use vstd::prelude::*;

use crate::ui::{repeat, repeat_str, wrap_text, wrapped_lines};

verus! {

pub const VERTICAL: &'static str = "│";
pub const HORIZONTAL: &'static str = "─";
pub const TOP_RIGHT: &'static str = "┐";
pub const TOP_LEFT: &'static str = "┌";
pub const BOTTOM_RIGHT: &'static str = "┘";
pub const BOTTOM_LEFT: &'static str = "└";
pub const TOP_TEE: &'static str = "┬";
pub const BOTTOM_TEE: &'static str = "┴";

/// Panels abstract away a terminal "window" (section of the screen). A panel
/// includes a border and margin around the edge of the window, and a title
/// that appears at the top. Margins are set individually, in the order (top,
/// right, bottom, left). The panel translates coordinates to account for the
/// border and margins, so that x = 0 and y = 0 are the top-left printable cell.
/// `colors` is whatever palette the caller draws with.
pub struct Panel<C> {
    screen_pos: usize,
    pub colors: C,
    title: String,
    start_x: u16,
    n_row: u16,
    n_col: u16,
    margins: (u16, u16, u16, u16),
}

impl<C> Panel<C> {
    pub closed spec fn screen_pos_spec(&self) -> usize {
        self.screen_pos
    }

    pub closed spec fn colors_spec(&self) -> C {
        self.colors
    }

    pub closed spec fn title_spec(&self) -> Seq<char> {
        self.title@
    }

    pub closed spec fn start_x_spec(&self) -> u16 {
        self.start_x
    }

    pub closed spec fn n_row_spec(&self) -> u16 {
        self.n_row
    }

    pub closed spec fn n_col_spec(&self) -> u16 {
        self.n_col
    }

    pub closed spec fn margins_spec(&self) -> (u16, u16, u16, u16) {
        self.margins
    }

    /// Rows left for text once borders and margins are taken.
    pub open spec fn rows_spec(&self) -> int {
        self.n_row_spec() - self.margins_spec().0 - self.margins_spec().2 - 2
    }

    /// Columns left for text once borders and margins are taken.
    pub open spec fn cols_spec(&self) -> int {
        self.n_col_spec() - self.margins_spec().1 - self.margins_spec().3 - 2
    }

    /// Creates a new panel.
    pub fn new(
        title: String,
        screen_pos: usize,
        colors: C,
        n_row: u16,
        n_col: u16,
        start_x: u16,
        margins: (u16, u16, u16, u16),
    ) -> (r: Self)
        ensures
            r.title_spec() == title@,
            r.screen_pos_spec() == screen_pos,
            r.colors_spec() == colors,
            r.n_row_spec() == n_row,
            r.n_col_spec() == n_col,
            r.start_x_spec() == start_x,
            r.margins_spec() == margins,
    {
        Panel { screen_pos, colors, title, start_x, n_row, n_col, margins }
    }

    /// Updates the window size.
    pub fn resize(&mut self, n_row: u16, n_col: u16, start_x: u16)
        ensures
            final(self).n_row_spec() == n_row,
            final(self).n_col_spec() == n_col,
            final(self).start_x_spec() == start_x,
            final(self).title_spec() == old(self).title_spec(),
            final(self).screen_pos_spec() == old(self).screen_pos_spec(),
            final(self).margins_spec() == old(self).margins_spec(),
            final(self).colors_spec() == old(self).colors_spec(),
    {
        self.n_row = n_row;
        self.n_col = n_col;
        self.start_x = start_x;
    }

    /// Returns the effective number of rows (accounting for borders and
    /// margins).
    pub fn get_rows(&self) -> (r: u16)
        requires
            self.rows_spec() >= 0,
        ensures
            r == self.rows_spec(),
    {
        self.n_row - self.margins.0 - self.margins.2 - 2
    }

    /// Returns the effective number of columns (accounting for borders and
    /// margins).
    pub fn get_cols(&self) -> (r: u16)
        requires
            self.cols_spec() >= 0,
        ensures
            r == self.cols_spec(),
    {
        self.n_col - self.margins.1 - self.margins.3 - 2
    }

    /// The terminal row of panel row `y`.
    pub fn abs_y(&self, y: u16) -> (r: u16)
        requires
            y + self.margins_spec().0 + 1 <= u16::MAX,
        ensures
            r == y + self.margins_spec().0 + 1,
    {
        y + self.margins.0 + 1
    }

    /// The terminal column of panel column `x`.
    pub fn abs_x(&self, x: u16) -> (r: u16)
        requires
            x + self.start_x_spec() + self.margins_spec().3 + 1 <= u16::MAX,
        ensures
            r == x + self.start_x_spec() + self.margins_spec().3 + 1,
    {
        x + self.start_x + self.margins.3 + 1
    }

    pub fn title(&self) -> (r: &str)
        ensures
            r@ == self.title_spec(),
    {
        self.title.as_str()
    }

    pub fn screen_pos(&self) -> (r: usize)
        ensures
            r == self.screen_pos_spec(),
    {
        self.screen_pos
    }

    pub fn start_x(&self) -> (r: u16)
        ensures
            r == self.start_x_spec(),
    {
        self.start_x
    }

    pub fn n_row(&self) -> (r: u16)
        ensures
            r == self.n_row_spec(),
    {
        self.n_row
    }

    pub fn n_col(&self) -> (r: u16)
        ensures
            r == self.n_col_spec(),
    {
        self.n_col
    }

    /// The top border: a corner (a tee for any panel but the first), the
    /// horizontal run, and the right corner.
    pub open spec fn border_top_spec(&self) -> Seq<char> {
        (if self.screen_pos_spec() == 0 { TOP_LEFT@ } else { TOP_TEE@ }) + repeat(
            HORIZONTAL@,
            (self.n_col_spec() - 2) as nat,
        ) + TOP_RIGHT@
    }

    /// The bottom border, built like the top one.
    pub open spec fn border_bottom_spec(&self) -> Seq<char> {
        (if self.screen_pos_spec() == 0 { BOTTOM_LEFT@ } else { BOTTOM_TEE@ }) + repeat(
            HORIZONTAL@,
            (self.n_col_spec() - 2) as nat,
        ) + BOTTOM_RIGHT@
    }

    /// The text of the top border line.
    pub fn border_top(&self) -> (r: String)
        requires
            self.n_col_spec() >= 2,
        ensures
            r@ == self.border_top_spec(),
    {
        let mut line = if self.screen_pos == 0 {
            String::from_str(TOP_LEFT)
        } else {
            String::from_str(TOP_TEE)
        };
        let run = repeat_str(HORIZONTAL, (self.n_col - 2) as usize);
        line.append(run.as_str());
        line.append(TOP_RIGHT);
        line
    }

    /// The text of the bottom border line.
    pub fn border_bottom(&self) -> (r: String)
        requires
            self.n_col_spec() >= 2,
        ensures
            r@ == self.border_bottom_spec(),
    {
        let mut line = if self.screen_pos == 0 {
            String::from_str(BOTTOM_LEFT)
        } else {
            String::from_str(BOTTOM_TEE)
        };
        let run = repeat_str(HORIZONTAL, (self.n_col - 2) as usize);
        line.append(run.as_str());
        line.append(BOTTOM_RIGHT);
        line
    }

    /// A blank line as wide as the whole panel, for clearing it.
    pub fn blank_line(&self) -> (r: String)
        ensures
            r@ == repeat(" "@, self.n_col_spec() as nat),
    {
        repeat_str(" ", self.n_col as usize)
    }

    /// A blank line as wide as the inside of the borders.
    pub fn blank_inner_line(&self) -> (r: String)
        requires
            self.n_col_spec() >= 2,
        ensures
            r@ == repeat(" "@, (self.n_col_spec() - 2) as nat),
    {
        repeat_str(" ", (self.n_col - 2) as usize)
    }

    /// Word-wraps `string` to the panel's width from row `start_y` on: the
    /// lines that fit above the last row, and the row on which the text
    /// ended. Nothing fits when `start_y` is already past the last row, and
    /// the row returned is then `start_y` itself.
    pub fn wrap_layout(&self, start_y: u16, string: &str) -> (r: (Vec<String>, u16))
        requires
            self.rows_spec() >= 0,
            self.cols_spec() >= 0,
        ensures
            ({
                let lines = wrapped_lines(string@, self.cols_spec() as usize);
                let room = self.rows_spec() - start_y;
                let n = if room <= 0 {
                    0
                } else if lines.len() < room {
                    lines.len() as int
                } else {
                    room
                };
                &&& r.0@.len() == n
                &&& forall|i: int| 0 <= i < n ==> #[trigger] r.0@[i]@ == lines[i]
                &&& r.1 == if room <= 0 {
                    start_y as int
                } else if n == 0 {
                    (start_y - 1) % 0x10000
                } else {
                    start_y + n - 1
                }
            }),
    {
        let max_row = self.get_rows();
        if start_y >= max_row {
            return (Vec::new(), start_y);
        }
        let lines = wrap_text(string, self.get_cols() as usize);
        let ghost all = wrapped_lines(string@, self.cols_spec() as usize);
        let mut out: Vec<String> = Vec::new();
        let mut row: u16 = start_y;
        let mut i: usize = 0;
        while i < lines.len() && row < max_row
            invariant
                max_row == self.rows_spec(),
                start_y < max_row,
                lines@.len() == all.len(),
                forall|j: int| 0 <= j < lines@.len() ==> #[trigger] lines@[j]@ == all[j],
                i <= lines@.len(),
                row == start_y + i,
                row <= max_row,
                out@.len() == i,
                forall|j: int| 0 <= j < i ==> #[trigger] out@[j]@ == all[j],
            decreases lines@.len() - i,
        {
            let line = lines[i].clone();
            out.push(line);
            i = i + 1;
            row = row + 1;
        }
        let last = if i == 0 {
            start_y.wrapping_sub(1)
        } else {
            row - 1
        };
        (out, last)
    }
}

} // verus!
