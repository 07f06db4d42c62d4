use vstd::prelude::*;

verus! {

/// Display width taken by the columns `from..to` of `widths`, one separator
/// column after each.
pub open spec fn spec_span(widths: Seq<usize>, from: int, to: int) -> int
    decreases to - from,
{
    if from >= to {
        0
    } else {
        widths[from] + 1 + spec_span(widths, from + 1, to)
    }
}

pub proof fn lemma_span_split(widths: Seq<usize>, from: int, mid: int, to: int)
    requires
        from <= mid <= to,
    ensures
        spec_span(widths, from, to) == spec_span(widths, from, mid) + spec_span(widths, mid, to),
    decreases mid - from,
{
    if from < mid {
        lemma_span_split(widths, from + 1, mid, to);
    }
}

pub proof fn lemma_span_ge_len(widths: Seq<usize>, from: int, to: int)
    requires
        from <= to,
    ensures
        spec_span(widths, from, to) >= to - from,
    decreases to - from,
{
    if from < to {
        lemma_span_ge_len(widths, from + 1, to);
    }
}

pub proof fn lemma_span_unit(widths: Seq<usize>, i: int)
    ensures
        spec_span(widths, i, i + 1) == widths[i] + 1,
{
    assert(spec_span(widths, i + 1, i + 1) == 0);
}

/// Whether the columns `from..to` with their separators take more than `limit`
/// cells of display width.
pub(crate) fn span_exceeds(widths: &Vec<usize>, from: usize, to: usize, limit: usize) -> (r: bool)
    requires
        from <= to <= widths@.len(),
    ensures
        r == (spec_span(widths@, from as int, to as int) > limit),
{
    let n: usize = widths.len();
    let mut i: usize = from;
    let mut acc: usize = 0;
    while i < to
        invariant
            from <= i <= to <= n == widths@.len(),
            acc == spec_span(widths@, from as int, i as int),
            acc <= limit,
        decreases to - i,
    {
        let w = widths[i];
        proof {
            lemma_span_unit(widths@, i as int);
        }
        if w >= limit - acc {
            proof {
                lemma_span_split(widths@, from as int, i as int, to as int);
                lemma_span_split(widths@, i as int, i + 1, to as int);
                lemma_span_ge_len(widths@, i + 1, to as int);
            }
            return true;
        }
        proof {
            lemma_span_split(widths@, from as int, i as int, i + 1);
        }
        acc = acc + w + 1;
        i = i + 1;
    }
    false
}

/// The least column offset in `start..=sel` from which the columns up to and
/// including `sel` fit within `width`, or `sel` itself when none does.
fn advance_col_offset(widths: &Vec<usize>, start: usize, sel: usize, width: usize) -> (r: usize)
    requires
        start <= sel < widths@.len(),
    ensures
        start <= r <= sel,
        r < sel ==> spec_span(widths@, r as int, sel + 1) < width,
        r > start ==> spec_span(widths@, r - 1, sel + 1) >= width,
{
    let n: usize = widths.len();
    let mut off: usize = start;
    let mut done: bool = false;
    while !done && off < sel
        invariant
            start <= off <= sel < n == widths@.len(),
            done ==> off < sel && spec_span(widths@, off as int, sel + 1) < width,
            off > start ==> spec_span(widths@, off - 1, sel + 1) >= width,
        decreases sel - off, (if done { 0int } else { 1int }),
    {
        let fits = if width == 0 {
            false
        } else {
            !span_exceeds(widths, off, sel + 1, width - 1)
        };
        if fits {
            done = true;
        } else {
            proof {
                lemma_span_ge_len(widths@, off as int, sel + 1);
            }
            off += 1;
        }
    }
    off
}

/// Selection and scroll state of a two-dimensional virtual table: an always-valid
/// selected row, an optional selected column, scroll offsets on both axes and the
/// per-column display widths.
///
/// The column offset never passes the selected column, so a selected cell is
/// never scrolled out to the left.
pub struct TableState {
    pub selected_row: usize,
    pub selected_col: Option<usize>,
    pub offset_row: usize,
    pub offset_col: usize,
    pub total_rows: usize,
    pub total_cols: usize,
    pub width: usize,
    pub height: usize,
    pub col_widths: Vec<usize>,
}

impl TableState {
    pub open spec fn wf(self) -> bool {
        &&& if self.total_rows == 0 {
            self.selected_row == 0 && self.offset_row == 0
        } else {
            self.selected_row < self.total_rows && self.offset_row <= self.selected_row
        }
        &&& self.col_widths@.len() == self.total_cols
        &&& match self.selected_col {
            Some(c) => c < self.total_cols && self.offset_col <= c,
            None => self.offset_col == 0,
        }
    }

    /// The selected row stays within the visible window when a height is set.
    pub open spec fn window_ok(self) -> bool {
        self.height > 0 ==> self.selected_row - self.offset_row < self.height
    }

    pub open spec fn spec_total_rows(self) -> nat {
        self.total_rows as nat
    }

    pub open spec fn spec_total_cols(self) -> nat {
        self.total_cols as nat
    }

    pub open spec fn spec_width(self) -> nat {
        self.width as nat
    }

    pub open spec fn spec_height(self) -> nat {
        self.height as nat
    }

    pub open spec fn spec_offset_row(self) -> nat {
        self.offset_row as nat
    }

    pub open spec fn spec_offset_col(self) -> nat {
        self.offset_col as nat
    }

    pub open spec fn spec_col_widths(self) -> Seq<usize> {
        self.col_widths@
    }

    /// Everything but the row selection and the row offset is unchanged.
    pub open spec fn same_but_rows(pre: TableState, post: TableState) -> bool {
        &&& post.selected_col == pre.selected_col
        &&& post.offset_col == pre.offset_col
        &&& post.total_rows == pre.total_rows
        &&& post.total_cols == pre.total_cols
        &&& post.width == pre.width
        &&& post.height == pre.height
        &&& post.col_widths@ == pre.col_widths@
    }

    /// Everything but the per-column widths is unchanged.
    pub open spec fn same_but_widths(pre: TableState, post: TableState) -> bool {
        &&& post.selected_row == pre.selected_row
        &&& post.offset_row == pre.offset_row
        &&& post.selected_col == pre.selected_col
        &&& post.offset_col == pre.offset_col
        &&& post.total_rows == pre.total_rows
        &&& post.total_cols == pre.total_cols
        &&& post.width == pre.width
        &&& post.height == pre.height
    }

    /// Everything but the column selection and the column offset is unchanged.
    pub open spec fn same_but_cols(pre: TableState, post: TableState) -> bool {
        &&& post.selected_row == pre.selected_row
        &&& post.offset_row == pre.offset_row
        &&& post.total_rows == pre.total_rows
        &&& post.total_cols == pre.total_cols
        &&& post.width == pre.width
        &&& post.height == pre.height
        &&& post.col_widths@ == pre.col_widths@
    }


    /// How `select_next_row` moves the state: down one row, wrapping from the
    /// last to the first; the row offset follows off the bottom edge.
    pub open spec fn next_row_rel(pre: TableState, post: TableState) -> bool {
        &&& Self::same_but_rows(pre, post)
        &&& (pre.total_rows == 0 ==> post == pre)
        &&& (pre.total_rows > 0 && pre.selected_row >= pre.total_rows - 1 ==> post.selected_row
            == 0 && post.offset_row == 0)
        &&& (pre.total_rows > 0 && pre.selected_row < pre.total_rows - 1 ==> {
            &&& post.selected_row == pre.selected_row + 1
            &&& post.offset_row == if pre.height > 0 && pre.selected_row - pre.offset_row
                == pre.height - 1 {
                pre.offset_row + 1
            } else {
                pre.offset_row as int
            }
        })
    }

    /// How `select_prev_row` moves the state: up one row, wrapping from the
    /// first to the last; the row offset follows off the top edge.
    pub open spec fn prev_row_rel(pre: TableState, post: TableState) -> bool {
        &&& Self::same_but_rows(pre, post)
        &&& (pre.total_rows == 0 ==> post == pre)
        &&& (pre.total_rows > 0 && pre.selected_row == 0 ==> {
            &&& post.selected_row == pre.total_rows - 1
            &&& post.offset_row == if 0 < pre.height < pre.total_rows {
                pre.total_rows - pre.height
            } else {
                pre.offset_row as int
            }
        })
        &&& (pre.total_rows > 0 && pre.selected_row > 0 ==> {
            &&& post.selected_row == pre.selected_row - 1
            &&& post.offset_row == if pre.selected_row == pre.offset_row {
                pre.offset_row - 1
            } else {
                pre.offset_row as int
            }
        })
    }

    /// How `select_next_row_page` moves the state: one viewport height down,
    /// clamped at the last row, the offset pinned to show a full final page.
    pub open spec fn next_row_page_rel(pre: TableState, post: TableState) -> bool {
        &&& Self::same_but_rows(pre, post)
        &&& (pre.total_rows == 0 || pre.height == 0 ==> post == pre)
        &&& (pre.total_rows > 0 && pre.height > 0 ==> {
            if pre.total_rows < pre.height {
                post.selected_row == pre.total_rows - 1 && post.offset_row == 0
            } else if pre.selected_row + pre.height < pre.total_rows - 1 {
                &&& post.selected_row == pre.selected_row + pre.height
                &&& post.offset_row == if pre.selected_row + 2 * pre.height > pre.total_rows - 1 {
                    pre.total_rows - pre.height
                } else {
                    pre.selected_row + pre.height
                }
            } else {
                post.selected_row == pre.total_rows - 1 && post.offset_row == pre.total_rows
                    - pre.height
            }
        })
    }

    /// How `select_prev_row_page` moves the state: one viewport height up,
    /// clamped at the first row.
    pub open spec fn prev_row_page_rel(pre: TableState, post: TableState) -> bool {
        &&& Self::same_but_rows(pre, post)
        &&& (pre.total_rows == 0 || pre.height == 0 ==> post == pre)
        &&& (pre.total_rows > 0 && pre.height > 0 ==> {
            if pre.total_rows < pre.height {
                post.selected_row == 0 && post.offset_row == 0
            } else if pre.selected_row > pre.height {
                &&& post.selected_row == pre.selected_row - pre.height
                &&& post.offset_row == if pre.selected_row < 2 * pre.height {
                    0
                } else {
                    pre.selected_row - 2 * pre.height + 1
                }
            } else {
                post.selected_row == 0 && post.offset_row == 0
            }
        })
    }

    /// How `select_first_row` moves the state: straight to the first row.
    pub open spec fn first_row_rel(pre: TableState, post: TableState) -> bool {
        &&& Self::same_but_rows(pre, post)
        &&& (pre.total_rows == 0 ==> post == pre)
        &&& (pre.total_rows > 0 ==> post.selected_row == 0 && post.offset_row == 0)
    }

    /// How `select_last_row` moves the state: straight to the last row, the
    /// offset showing the final full page.
    pub open spec fn last_row_rel(pre: TableState, post: TableState) -> bool {
        &&& Self::same_but_rows(pre, post)
        &&& (pre.total_rows == 0 ==> post == pre)
        &&& (pre.total_rows > 0 ==> {
            &&& post.selected_row == pre.total_rows - 1
            &&& post.offset_row == if 0 < pre.height < pre.total_rows {
                pre.total_rows - pre.height
            } else {
                pre.offset_row as int
            }
        })
    }

    /// How `select_next_col` moves the state: entering column zero from
    /// whole-row mode, else one column right, the offset advancing by the
    /// least amount that lets the columns up to the selection fit the width.
    pub open spec fn next_col_rel(pre: TableState, post: TableState) -> bool {
        &&& Self::same_but_cols(pre, post)
        &&& (pre.total_cols == 0 ==> post == pre)
        &&& (pre.total_cols > 0 && pre.selected_col is None ==> post.selected_col == Some(0usize)
            && post.offset_col == 0)
        &&& (pre.total_cols > 0 && pre.selected_col is Some ==> {
            let c = pre.selected_col.unwrap();
            let sel = if c < pre.total_cols - 1 {
                c + 1
            } else {
                c as int
            };
            &&& post.selected_col == Some(sel as usize)
            &&& pre.offset_col <= post.offset_col <= sel
            &&& (post.offset_col < sel ==> spec_span(
                pre.col_widths@,
                post.offset_col as int,
                sel + 1,
            ) < pre.width)
            &&& (post.offset_col > pre.offset_col ==> spec_span(
                pre.col_widths@,
                post.offset_col - 1,
                sel + 1,
            ) >= pre.width)
        })
    }

    /// How `select_prev_col` moves the state: one column left, leaving for
    /// whole-row mode from column zero; the offset retreats with the selection.
    pub open spec fn prev_col_rel(pre: TableState, post: TableState) -> bool {
        &&& Self::same_but_cols(pre, post)
        &&& (pre.total_cols == 0 || pre.selected_col is None ==> post == pre)
        &&& (pre.total_cols > 0 && pre.selected_col is Some && pre.selected_col.unwrap() > 0 ==> {
            let c = pre.selected_col.unwrap();
            &&& post.selected_col == Some((c - 1) as usize)
            &&& post.offset_col == if c == pre.offset_col {
                pre.offset_col - 1
            } else {
                pre.offset_col as int
            }
        })
        &&& (pre.total_cols > 0 && pre.selected_col == Some(0usize) ==> post.selected_col is None
            && post.offset_col == 0)
    }

    /// How `select_first_col` moves the state: straight to column zero.
    pub open spec fn first_col_rel(pre: TableState, post: TableState) -> bool {
        &&& Self::same_but_cols(pre, post)
        &&& (pre.total_cols == 0 ==> post == pre)
        &&& (pre.total_cols > 0 ==> post.selected_col == Some(0usize) && post.offset_col == 0)
    }

    /// How `select_last_col` moves the state: straight to the last column,
    /// the offset showing exactly the trailing columns that fit, and never
    /// hiding the selection.
    pub open spec fn last_col_rel(pre: TableState, post: TableState) -> bool {
        &&& Self::same_but_cols(pre, post)
        &&& (pre.total_cols == 0 ==> post == pre)
        &&& (pre.total_cols > 0 ==> {
            &&& post.selected_col == Some((pre.total_cols - 1) as usize)
            &&& post.offset_col <= pre.total_cols - 1
            &&& (post.offset_col > 0 ==> spec_span(
                pre.col_widths@,
                post.offset_col - 1,
                pre.total_cols as int,
            ) > pre.width)
            &&& (spec_span(pre.col_widths@, post.offset_col as int, pre.total_cols as int)
                > pre.width ==> post.offset_col == pre.total_cols - 1)
        })
    }

    /// How `widen_col` changes the widths: the selected column one wider,
    /// clamped at the widest representable width.
    pub open spec fn widen_rel(pre: TableState, post: TableState) -> bool {
        &&& Self::same_but_widths(pre, post)
        &&& match pre.selected_col {
            Some(c) => {
                let w = pre.col_widths@[c as int];
                post.col_widths@ == if w < usize::MAX {
                    pre.col_widths@.update(c as int, (w + 1) as usize)
                } else {
                    pre.col_widths@
                }
            },
            None => post.col_widths@ == pre.col_widths@,
        }
    }

    /// How `narrow_col` changes the widths: the selected column one
    /// narrower, never below width one.
    pub open spec fn narrow_rel(pre: TableState, post: TableState) -> bool {
        &&& Self::same_but_widths(pre, post)
        &&& match pre.selected_col {
            Some(c) => {
                let w = pre.col_widths@[c as int];
                post.col_widths@ == if w > 1 {
                    pre.col_widths@.update(c as int, (w - 1) as usize)
                } else {
                    pre.col_widths@
                }
            },
            None => post.col_widths@ == pre.col_widths@,
        }
    }

    pub fn new(total_rows: usize, total_cols: usize, col_widths: Vec<usize>) -> (r: TableState)
        requires
            col_widths@.len() == total_cols,
        ensures
            r.wf(),
            r.window_ok(),
            r.selected_row == 0,
            r.selected_col is None,
            r.spec_offset_row() == 0,
            r.spec_offset_col() == 0,
            r.spec_total_rows() == total_rows,
            r.spec_total_cols() == total_cols,
            r.spec_col_widths() == col_widths@,
            r.spec_width() == 0,
            r.spec_height() == 0,
    {
        TableState {
            selected_row: 0,
            selected_col: None,
            offset_row: 0,
            offset_col: 0,
            total_rows,
            total_cols,
            width: 0,
            height: 0,
            col_widths,
        }
    }

    /// Rebinds the table to a new row count, resetting the row selection while
    /// keeping the column state and widths.
    pub fn with_new_total_rows(&self, total_rows: usize) -> (r: TableState)
        requires
            self.wf(),
        ensures
            r.wf(),
            r.window_ok(),
            r.selected_row == 0,
            r.spec_offset_row() == 0,
            r.spec_total_rows() == total_rows,
            r.selected_col == self.selected_col,
            r.spec_offset_col() == self.spec_offset_col(),
            r.spec_total_cols() == self.spec_total_cols(),
            r.spec_col_widths() == self.spec_col_widths(),
            r.spec_width() == self.spec_width(),
            r.spec_height() == self.spec_height(),
    {
        TableState {
            selected_row: 0,
            selected_col: self.selected_col,
            offset_row: 0,
            offset_col: self.offset_col,
            total_rows,
            total_cols: self.total_cols,
            width: self.width,
            height: self.height,
            col_widths: self.col_widths.clone(),
        }
    }

    /// Records the width and height of the table's content area on screen,
    /// scrolling just far enough to keep the selected row inside a window
    /// that shrank.
    pub fn set_area(&mut self, width: usize, height: usize)
        requires
            old(self).wf(),
        ensures
            final(self).wf(),
            final(self).window_ok(),
            final(self).spec_width() == width,
            final(self).spec_height() == height,
            final(self).selected_row == old(self).selected_row,
            final(self).selected_col == old(self).selected_col,
            final(self).spec_offset_col() == old(self).spec_offset_col(),
            final(self).spec_total_rows() == old(self).spec_total_rows(),
            final(self).spec_total_cols() == old(self).spec_total_cols(),
            final(self).spec_col_widths() == old(self).spec_col_widths(),
            final(self).spec_offset_row() == if height > 0 && old(self).selected_row - old(self).offset_row >= height {
                old(self).selected_row - height + 1
            } else {
                old(self).offset_row as int
            },
    {
        self.width = width;
        self.height = height;
        if height > 0 && self.selected_row - self.offset_row >= height {
            self.offset_row = self.selected_row - height + 1;
        }
    }

    pub fn select_next_row(&mut self)
        requires
            old(self).wf(),
            old(self).window_ok(),
        ensures
            final(self).wf(),
            final(self).window_ok(),
            Self::next_row_rel(*old(self), *final(self)),
    {
        if self.total_rows == 0 {
            return;
        }
        if self.selected_row >= self.total_rows - 1 {
            self.select_first_row();
        } else {
            if self.height > 0 && self.selected_row - self.offset_row == self.height - 1 {
                self.offset_row += 1;
            }
            self.selected_row += 1;
        }
    }

    pub fn select_prev_row(&mut self)
        requires
            old(self).wf(),
            old(self).window_ok(),
        ensures
            final(self).wf(),
            final(self).window_ok(),
            Self::prev_row_rel(*old(self), *final(self)),
    {
        if self.total_rows == 0 {
            return;
        }
        if self.selected_row == 0 {
            self.select_last_row();
        } else {
            if self.selected_row - self.offset_row == 0 {
                self.offset_row -= 1;
            }
            self.selected_row -= 1;
        }
    }

    pub fn select_next_row_page(&mut self)
        requires
            old(self).wf(),
            old(self).window_ok(),
        ensures
            final(self).wf(),
            final(self).window_ok(),
            Self::next_row_page_rel(*old(self), *final(self)),
    {
        if self.total_rows == 0 || self.height == 0 {
            return;
        }
        if self.total_rows < self.height {
            self.selected_row = self.total_rows - 1;
            self.offset_row = 0;
        } else if self.height < self.total_rows - 1 - self.selected_row {
            self.selected_row += self.height;
            if self.height > self.total_rows - 1 - self.selected_row {
                self.offset_row = self.total_rows - self.height;
            } else {
                self.offset_row = self.selected_row;
            }
        } else {
            self.selected_row = self.total_rows - 1;
            self.offset_row = self.total_rows - self.height;
        }
    }

    pub fn select_prev_row_page(&mut self)
        requires
            old(self).wf(),
            old(self).window_ok(),
        ensures
            final(self).wf(),
            final(self).window_ok(),
            Self::prev_row_page_rel(*old(self), *final(self)),
    {
        if self.total_rows == 0 || self.height == 0 {
            return;
        }
        if self.total_rows < self.height {
            self.selected_row = 0;
            self.offset_row = 0;
        } else if self.selected_row > self.height {
            self.selected_row -= self.height;
            if self.selected_row < self.height {
                self.offset_row = 0;
            } else {
                self.offset_row = self.selected_row - self.height + 1;
            }
        } else {
            self.selected_row = 0;
            self.offset_row = 0;
        }
    }

    pub fn select_first_row(&mut self)
        requires
            old(self).wf(),
        ensures
            final(self).wf(),
            final(self).window_ok(),
            Self::first_row_rel(*old(self), *final(self)),
    {
        if self.total_rows == 0 {
            return;
        }
        self.selected_row = 0;
        self.offset_row = 0;
    }

    pub fn select_last_row(&mut self)
        requires
            old(self).wf(),
            old(self).window_ok(),
        ensures
            final(self).wf(),
            final(self).window_ok(),
            Self::last_row_rel(*old(self), *final(self)),
    {
        if self.total_rows == 0 {
            return;
        }
        self.selected_row = self.total_rows - 1;
        if 0 < self.height && self.height < self.total_rows {
            self.offset_row = self.total_rows - self.height;
        }
    }

    /// Enters column selection at column zero from whole-row mode, or moves one
    /// column to the right, advancing the column offset by the least amount that
    /// lets the columns up to the new selection fit the viewport width.
    pub fn select_next_col(&mut self)
        requires
            old(self).wf(),
        ensures
            final(self).wf(),
            Self::next_col_rel(*old(self), *final(self)),
    {
        if self.total_cols == 0 {
            return;
        }
        if let Some(selected_col) = self.selected_col {
            let sel = if selected_col < self.total_cols - 1 {
                selected_col + 1
            } else {
                selected_col
            };
            self.selected_col = Some(sel);
            self.offset_col = advance_col_offset(&self.col_widths, self.offset_col, sel, self.width);
        } else {
            self.selected_col = Some(0);
        }
    }

    /// Moves one column to the left, leaving column selection for whole-row mode
    /// when already at column zero; the offset retreats when the selection would
    /// pass it.
    pub fn select_prev_col(&mut self)
        requires
            old(self).wf(),
        ensures
            final(self).wf(),
            Self::prev_col_rel(*old(self), *final(self)),
    {
        if self.total_cols == 0 {
            return;
        }
        if let Some(selected_col) = self.selected_col {
            if selected_col > 0 {
                if selected_col == self.offset_col {
                    self.offset_col -= 1;
                }
                self.selected_col = Some(selected_col - 1);
            } else {
                self.selected_col = None;
            }
        }
    }

    pub fn select_first_col(&mut self)
        requires
            old(self).wf(),
        ensures
            final(self).wf(),
            Self::first_col_rel(*old(self), *final(self)),
    {
        if self.total_cols == 0 {
            return;
        }
        self.selected_col = Some(0);
        self.offset_col = 0;
    }

    /// Jumps to the last column and scrolls so that exactly the trailing columns
    /// that fit the viewport width are shown; at least the selected column itself
    /// stays visible even when it alone is wider than the viewport.
    pub fn select_last_col(&mut self)
        requires
            old(self).wf(),
        ensures
            final(self).wf(),
            Self::last_col_rel(*old(self), *final(self)),
    {
        if self.total_cols == 0 {
            return;
        }
        let total = self.total_cols;
        self.selected_col = Some(total - 1);
        let mut off: usize = total - 1;
        let mut done: bool = false;
        while !done && off > 0
            invariant
                total == self.col_widths@.len(),
                off <= total - 1,
                off < total - 1 ==> spec_span(self.col_widths@, off as int, total as int)
                    <= self.width,
                done ==> off > 0 && spec_span(self.col_widths@, off - 1, total as int)
                    > self.width,
            decreases off, (if done { 0int } else { 1int }),
        {
            if span_exceeds(&self.col_widths, off - 1, total, self.width) {
                done = true;
            } else {
                off -= 1;
            }
        }
        self.offset_col = off;
    }

    /// On-screen cell offset of the selected cell relative to the table's content
    /// area: the width of the columns scrolled past before it and the visible row
    /// index. Whole-row mode has no anchored cell.
    pub fn selected_item_position(&self) -> (r: Option<(usize, usize)>)
        requires
            self.wf(),
            self.selected_col matches Some(c) ==> spec_span(
                self.spec_col_widths(),
                self.spec_offset_col() as int,
                c as int,
            ) <= usize::MAX,
        ensures
            match self.selected_col {
                Some(c) => r == Some(
                    (
                        spec_span(
                            self.spec_col_widths(),
                            self.spec_offset_col() as int,
                            c as int,
                        ) as usize,
                        (self.selected_row - self.spec_offset_row()) as usize,
                    ),
                ),
                None => r is None,
            },
    {
        match self.selected_col {
            Some(col) => {
                let mut x: usize = 0;
                let mut i: usize = self.offset_col;
                while i < col
                    invariant
                        self.offset_col <= i <= col,
                        col < self.col_widths@.len(),
                        x == spec_span(self.col_widths@, self.offset_col as int, i as int),
                        spec_span(self.col_widths@, self.offset_col as int, col as int)
                            <= usize::MAX,
                    decreases col - i,
                {
                    proof {
                        lemma_span_unit(self.col_widths@, i as int);
                        lemma_span_split(self.col_widths@, self.offset_col as int, i as int, i + 1);
                        lemma_span_split(
                            self.col_widths@,
                            self.offset_col as int,
                            i + 1,
                            col as int,
                        );
                        lemma_span_ge_len(self.col_widths@, i + 1, col as int);
                    }
                    x = x + self.col_widths[i] + 1;
                    i = i + 1;
                }
                Some((x, self.selected_row - self.offset_row))
            },
            None => None,
        }
    }

    /// Makes the selected column one cell wider; a column already at the widest
    /// representable width stays as it is.
    pub fn widen_col(&mut self)
        requires
            old(self).wf(),
        ensures
            final(self).wf(),
            Self::widen_rel(*old(self), *final(self)),
    {
        if let Some(col) = self.selected_col {
            let w = self.col_widths[col];
            if w < usize::MAX {
                self.col_widths.set(col, w + 1);
            }
        }
    }

    /// Makes the selected column one cell narrower, never below width one.
    pub fn narrow_col(&mut self)
        requires
            old(self).wf(),
        ensures
            final(self).wf(),
            Self::narrow_rel(*old(self), *final(self)),
    {
        if let Some(col) = self.selected_col {
            let w = self.col_widths[col];
            if w > 1 {
                self.col_widths.set(col, w - 1);
            }
        }
    }

    pub fn selected_col_width(&self) -> (r: Option<usize>)
        requires
            self.wf(),
        ensures
            match self.selected_col {
                Some(c) => r == Some(self.spec_col_widths()[c as int]),
                None => r is None,
            },
    {
        match self.selected_col {
            Some(col) => Some(self.col_widths[col]),
            None => None,
        }
    }

    /// How many columns starting at the column offset the renderer should emit:
    /// every column until the running span first exceeds the viewport width,
    /// that boundary column included.
    pub fn visible_col_count(&self) -> (r: usize)
        requires
            self.wf(),
        ensures
            r <= self.spec_total_cols() - self.spec_offset_col(),
            spec_span(
                self.spec_col_widths(),
                self.spec_offset_col() as int,
                self.spec_offset_col() + r,
            ) > self.spec_width() ==> (spec_span(
                self.spec_col_widths(),
                self.spec_offset_col() as int,
                self.spec_offset_col() + r - 1,
            ) <= self.spec_width()),
            spec_span(
                self.spec_col_widths(),
                self.spec_offset_col() as int,
                self.spec_offset_col() + r,
            ) <= self.spec_width() ==> r == self.spec_total_cols() - self.spec_offset_col(),
    {
        let ghost widths = self.col_widths@;
        let ghost off = self.offset_col as int;
        let mut count: usize = 0;
        let mut i: usize = self.offset_col;
        let mut acc: usize = 0;
        while i < self.total_cols
            invariant
                self.wf(),
                self.offset_col <= i <= self.total_cols,
                count == i - self.offset_col,
                widths == self.col_widths@,
                off == self.offset_col as int,
                acc == spec_span(widths, off, i as int),
                acc <= self.width,
            decreases self.total_cols - i,
        {
            let w = self.col_widths[i];
            proof {
                lemma_span_unit(widths, i as int);
                lemma_span_split(widths, off, i as int, i + 1);
            }
            if w >= self.width - acc {
                return count + 1;
            }
            acc = acc + w + 1;
            i = i + 1;
            count = count + 1;
        }
        count
    }
}


/// Law: a well-formed table never scrolls the selected column out to the
/// left: the column offset never exceeds a value that would hide it. Every
/// column operation keeps the state well-formed, so this holds after any
/// sequence of moves.
pub proof fn lemma_selected_col_visible(s: TableState)
    requires
        s.wf(),
    ensures
        match s.selected_col {
            Some(c) => s.spec_offset_col() <= c,
            None => s.spec_offset_col() == 0,
        },
{
}

/// Law: widening a column then narrowing it restores the original width
/// exactly, for any width the widget can represent; and narrowing is floored
/// at width one, so a width-one column survives a narrow unchanged rather
/// than collapsing to zero.
pub proof fn lemma_widen_narrow_roundtrip(widths: Seq<usize>, c: int)
    requires
        0 <= c < widths.len(),
        1 <= widths[c] < usize::MAX,
    ensures
        ({
            let widened = widths.update(c, (widths[c] + 1) as usize);
            &&& widened[c] > 1
            &&& widened.update(c, (widened[c] - 1) as usize) == widths
        }),
        widths[c] == 1 ==> widths.update(c, widths[c]) == widths,
{
    let widened = widths.update(c, (widths[c] + 1) as usize);
    assert(widened.update(c, (widened[c] - 1) as usize) =~= widths);
    assert(widths.update(c, widths[c]) =~= widths);
}

} // verus!
