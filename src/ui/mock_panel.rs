use vstd::prelude::*;

use crate::ui::{wrap_text, wrapped_lines};

verus! {

/// A panel that keeps its window as a vector of rows instead of printing to
/// the terminal, so that what was written can be read back.
pub struct Panel<C> {
    pub buffer: Vec<String>,
    pub screen_pos: usize,
    pub colors: C,
    pub title: String,
    pub start_x: u16,
    pub n_row: u16,
    pub n_col: u16,
    pub margins: (u16, u16, u16, u16),
}

/// `n` empty rows.
pub open spec fn blank_rows(rows: Seq<String>, n: int) -> bool {
    &&& rows.len() == n
    &&& forall|i: int| 0 <= i < n ==> #[trigger] rows[i]@ == Seq::<char>::empty()
}

fn blank_buffer(n: usize) -> (r: Vec<String>)
    ensures
        blank_rows(r@, n as int),
{
    let mut rows: Vec<String> = Vec::new();
    let mut i: usize = 0;
    while i < n
        invariant
            i <= n,
            blank_rows(rows@, i as int),
        decreases n - i,
    {
        rows.push(String::new());
        i = i + 1;
    }
    rows
}

impl<C> Panel<C> {
    /// Rows left for text once borders and margins are taken.
    pub open spec fn rows_spec(&self) -> int {
        self.n_row - self.margins.0 - self.margins.2 - 2
    }

    /// Columns left for text once borders, margins and one spare column are
    /// taken.
    pub open spec fn cols_spec(&self) -> int {
        self.n_col - self.margins.1 - self.margins.3 - 3
    }

    /// Everything but the rows is as in `other`.
    pub open spec fn same_frame(&self, other: &Self) -> bool {
        &&& self.screen_pos == other.screen_pos
        &&& self.colors == other.colors
        &&& self.title == other.title
        &&& self.start_x == other.start_x
        &&& self.n_row == other.n_row
        &&& self.n_col == other.n_col
        &&& self.margins == other.margins
    }

    /// Creates a panel whose window holds `n_row - 2` empty rows.
    pub fn new(
        title: String,
        screen_pos: usize,
        colors: C,
        n_row: u16,
        n_col: u16,
        start_x: u16,
        margins: (u16, u16, u16, u16),
    ) -> (r: Self)
        requires
            n_row >= 2,
        ensures
            blank_rows(r.buffer@, n_row - 2),
            r.title == title,
            r.screen_pos == screen_pos,
            r.colors == colors,
            r.n_row == n_row,
            r.n_col == n_col,
            r.start_x == start_x,
            r.margins == margins,
    {
        let buffer = blank_buffer((n_row - 2) as usize);
        Panel { buffer, screen_pos, colors, title, start_x, n_row, n_col, margins }
    }

    /// Nothing is drawn: the rows are the window.
    pub fn redraw(&self) {
    }

    /// Empties every row inside the borders.
    pub fn clear_inner(&mut self)
        requires
            old(self).n_row >= 2,
        ensures
            blank_rows(final(self).buffer@, old(self).n_row - 2),
            final(self).same_frame(old(self)),
    {
        self.buffer = blank_buffer((self.n_row - 2) as usize);
    }

    /// Puts `string` into row `y`.
    pub fn write_line(&mut self, y: u16, string: String, _style: Option<crossterm::style::ContentStyle>)
        requires
            y < old(self).buffer@.len(),
        ensures
            final(self).buffer@ == old(self).buffer@.update(y as int, string),
            final(self).same_frame(old(self)),
    {
        self.buffer[y as usize] = string;
    }

    /// Puts `key: value` into row `y`.
    pub fn write_key_value_line(
        &mut self,
        y: u16,
        key: String,
        value: String,
        _key_style: Option<crossterm::style::ContentStyle>,
        _value_style: Option<crossterm::style::ContentStyle>,
    )
        requires
            y < old(self).buffer@.len(),
        ensures
            final(self).buffer@.len() == old(self).buffer@.len(),
            final(self).buffer@[y as int]@ == key@ + ": "@ + value@,
            forall|j: int|
                0 <= j < old(self).buffer@.len() && j != y ==> #[trigger] final(self).buffer@[j]
                    == old(self).buffer@[j],
            final(self).same_frame(old(self)),
    {
        let mut line = key;
        line.append(": ");
        line.append(value.as_str());
        self.write_line(y, line, None);
    }

    /// Word-wraps `string` to the panel's width into the rows from `start_y`
    /// on. The first line always goes into `start_y`; the others follow while
    /// rows are left. Returns the row on which the text ended.
    pub fn write_wrap_line(
        &mut self,
        start_y: u16,
        string: &str,
        _style: Option<crossterm::style::ContentStyle>,
    ) -> (r: u16)
        requires
            old(self).rows_spec() >= 0,
            old(self).cols_spec() >= 0,
            start_y < old(self).buffer@.len(),
            old(self).rows_spec() <= old(self).buffer@.len(),
            old(self).buffer@.len() <= u16::MAX,
        ensures
            ({
                let lines = wrapped_lines(string@, old(self).cols_spec() as usize);
                let room = if old(self).rows_spec() - start_y >= 1 {
                    old(self).rows_spec() - start_y
                } else {
                    1
                };
                let n = if lines.len() < room {
                    lines.len() as int
                } else {
                    room
                };
                &&& final(self).buffer@.len() == old(self).buffer@.len()
                &&& forall|j: int|
                    0 <= j < old(self).buffer@.len() && !(start_y <= j < start_y + n)
                        ==> #[trigger] final(self).buffer@[j] == old(self).buffer@[j]
                &&& forall|j: int| 0 <= j < n ==> #[trigger] final(self).buffer@[start_y + j]@ == lines[j]
                &&& r == if n == 0 {
                    (start_y - 1) % 0x10000
                } else {
                    start_y + n - 1
                }
            }),
            final(self).same_frame(old(self)),
    {
        let max_row = self.get_rows();
        let lines = wrap_text(string, self.get_cols() as usize);
        let ghost all = wrapped_lines(string@, self.cols_spec() as usize);
        let ghost before = self.buffer@;
        let ghost frame = *self;
        let mut row: u16 = start_y;
        let mut i: usize = 0;
        while i < lines.len() && (i == 0 || row < max_row)
            invariant
                max_row == frame.rows_spec(),
                start_y < before.len(),
                max_row <= before.len(),
                before.len() <= u16::MAX,
                lines@.len() == all.len(),
                forall|j: int| 0 <= j < lines@.len() ==> #[trigger] lines@[j]@ == all[j],
                i <= lines@.len(),
                row == start_y + i,
                i > 0 ==> row <= max_row || i == 1,
                row <= before.len(),
                self.buffer@.len() == before.len(),
                forall|j: int|
                    0 <= j < before.len() && !(start_y <= j < start_y + i) ==> #[trigger] self.buffer@[j]
                        == before[j],
                forall|j: int| 0 <= j < i ==> #[trigger] self.buffer@[start_y + j]@ == all[j],
                self.same_frame(&frame),
            decreases lines@.len() - i,
        {
            let line = lines[i].clone();
            self.write_line(row, line, None);
            i = i + 1;
            row = row + 1;
        }
        if i == 0 {
            start_y.wrapping_sub(1)
        } else {
            row - 1
        }
    }

    /// Sets the window size. The rows are cut to `n_row - 2` when there are
    /// more; when there are fewer, as many empty rows as there were are added.
    pub fn resize(&mut self, n_row: u16, n_col: u16, start_x: u16)
        requires
            n_row >= 2,
        ensures
            final(self).n_row == n_row,
            final(self).n_col == n_col,
            final(self).start_x == start_x,
            final(self).screen_pos == old(self).screen_pos,
            final(self).colors == old(self).colors,
            final(self).title == old(self).title,
            final(self).margins == old(self).margins,
            n_row - 2 < old(self).buffer@.len() ==> final(self).buffer@ == old(self).buffer@.take(
                n_row - 2,
            ),
            n_row - 2 == old(self).buffer@.len() ==> final(self).buffer@ == old(self).buffer@,
            n_row - 2 > old(self).buffer@.len() ==> {
                &&& final(self).buffer@.len() == 2 * old(self).buffer@.len()
                &&& final(self).buffer@.take(old(self).buffer@.len() as int) == old(self).buffer@
                &&& forall|j: int|
                    old(self).buffer@.len() <= j < final(self).buffer@.len()
                        ==> #[trigger] final(self).buffer@[j]@ == Seq::<char>::empty()
            },
    {
        self.n_row = n_row;
        self.n_col = n_col;
        self.start_x = start_x;

        let new_len = (n_row - 2) as usize;
        let len = self.buffer.len();
        if new_len < len {
            self.buffer.truncate(new_len);
        } else if new_len > len {
            let ghost before = self.buffer@;
            let ghost frame = *self;
            let mut k: usize = new_len - len;
            while k < new_len
                invariant
                    new_len - len <= k <= new_len,
                    self.buffer@.len() == len + (k - (new_len - len)),
                    self.buffer@.take(len as int) == before,
                    before.len() == len,
                    self.same_frame(&frame),
                    frame.n_row == n_row,
                    frame.n_col == n_col,
                    frame.start_x == start_x,
                    forall|j: int|
                        len <= j < self.buffer@.len() ==> #[trigger] self.buffer@[j]@ == Seq::<
                            char,
                        >::empty(),
                decreases new_len - k,
            {
                self.buffer.push(String::new());
                assert(self.buffer@.take(len as int) =~= before);
                k = k + 1;
            }
        }
    }

    /// Returns the effective number of rows (accounting for borders and
    /// margins).
    pub fn get_rows(&self) -> (r: u16)
        requires
            self.rows_spec() >= 0,
        ensures
            r == self.rows_spec(),
    {
        self.n_row - self.margins.0 - self.margins.2 - 2
    }

    /// Returns the effective number of columns (accounting for borders,
    /// margins and a spare column).
    pub fn get_cols(&self) -> (r: u16)
        requires
            self.cols_spec() >= 0,
        ensures
            r == self.cols_spec(),
    {
        self.n_col - self.margins.1 - self.margins.3 - 3
    }

    /// The text of row `row`.
    pub fn get_row(&self, row: usize) -> (r: String)
        requires
            row < self.buffer@.len(),
        ensures
            r@ == self.buffer@[row as int]@,
    {
        self.buffer[row].clone()
    }
}

} // verus!
