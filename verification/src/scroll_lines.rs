use vstd::prelude::*;
use vstd::string::*;

use crate::spec_digits;
use crate::digits;

verus! {

/// Display width of a text, as the terminal column count of its characters.
pub uninterp spec fn text_width(s: Seq<char>) -> nat;

/// Relies on textwrap::core::display_width: the width is a function of the
/// characters alone, and an empty text takes no columns.
#[verifier::external_body]
pub(crate) fn display_width(s: &str) -> (r: usize)
    ensures
        r == text_width(s@),
        s@.len() == 0 ==> r == 0,
{
    textwrap::core::display_width(s)
}

/// Number of visual rows a text occupies when soft-wrapped to a column budget.
pub uninterp spec fn wrap_rows(s: Seq<char>, width: nat) -> nat;

/// Relies on textwrap::wrap: the row count is a function of the text and the
/// width alone, and every text occupies at least one row.
#[verifier::external_body]
fn wrapped_row_count(s: &str, width: usize) -> (r: usize)
    ensures
        r == wrap_rows(s@, width as nat),
        r >= 1,
{
    textwrap::wrap(s, width).len()
}

/// Rows one logical line takes on screen: its wrapped row count when wrapping
/// is on, exactly one row otherwise.
pub open spec fn line_rows(s: Seq<char>, wrap: bool, width: nat) -> nat {
    if wrap {
        wrap_rows(s, width)
    } else {
        1
    }
}

/// The page-scroll walk over the visual heights `hs` of the lines ahead,
/// starting at line index `from` with `budget` visual rows still to fill.
///
/// `Some(c)` means the walk fills the page within the listed lines and the
/// offset should advance by `c` lines: one past the boundary line when it ends
/// the page exactly, the boundary line itself staying visible when it is only
/// partially on the page. `None` means the listed lines do not fill the page.
pub open spec fn page_steps(hs: Seq<nat>, from: int, budget: int) -> Option<int>
    decreases hs.len() - from,
{
    if from < 0 || from >= hs.len() {
        None
    } else if hs[from] >= budget {
        Some(
            if hs[from] > budget {
                from
            } else {
                from + 1
            },
        )
    } else {
        page_steps(hs, from + 1, budget - hs[from])
    }
}

/// A page-scroll walk never steps back before the line it starts from.
pub proof fn lemma_page_steps_ge_from(hs: Seq<nat>, from: int, budget: int)
    requires
        page_steps(hs, from, budget) is Some,
    ensures
        page_steps(hs, from, budget).unwrap() >= from,
    decreases hs.len() - from,
{
    if 0 <= from < hs.len() && hs[from] < budget {
        lemma_page_steps_ge_from(hs, from + 1, budget - hs[from]);
    }
}

/// Greatest display width among a list of lines.
pub open spec fn max_text_width(ls: Seq<Seq<char>>) -> nat
    decreases ls.len(),
{
    if ls.len() == 0 {
        0
    } else {
        let rest = max_text_width(ls.drop_last());
        let w = text_width(ls.last());
        if w > rest {
            w
        } else {
            rest
        }
    }
}

/// The lines joined back into one text, a newline between each pair.
pub open spec fn join_lines(ls: Seq<Seq<char>>) -> Seq<char>
    decreases ls.len(),
{
    if ls.len() == 0 {
        Seq::empty()
    } else if ls.len() == 1 {
        ls[0]
    } else {
        join_lines(ls.drop_last()) + seq!['\n'] + ls.last()
    }
}

/// Whether line numbers are shown and whether long lines soft-wrap.
#[derive(Debug, Clone, Copy, PartialEq, Eq, Structural)]
pub struct ScrollLinesOptions {
    pub number: bool,
    pub wrap: bool,
}

impl ScrollLinesOptions {
    pub fn new(number: bool, wrap: bool) -> (r: Self)
        ensures
            r.number == number,
            r.wrap == wrap,
    {
        Self { number, wrap }
    }
}

impl Default for ScrollLinesOptions {
    fn default() -> (r: Self)
        ensures
            r.number,
            r.wrap,
    {
        Self::new(true, true)
    }
}

/// A scrollable multi-line text viewport: the pre-rendered lines, the cached
/// widest line width and gutter width, the vertical and horizontal offsets and
/// the display options.
///
/// The vertical offset always addresses a real line (or zero when there are no
/// lines), and the horizontal offset never scrolls past the widest line.
pub struct ScrollLinesState {
    pub lines: Vec<String>,
    pub max_digits: usize,
    pub max_line_width: usize,
    pub v_offset: usize,
    pub h_offset: usize,
    pub options: ScrollLinesOptions,
}

impl ScrollLinesState {
    pub open spec fn wf(self) -> bool {
        &&& if self.lines@.len() == 0 {
            self.v_offset == 0
        } else {
            self.v_offset < self.lines@.len()
        }
        &&& self.h_offset == 0 || self.h_offset < self.max_line_width
        &&& self.max_digits == spec_digits(self.lines@.len())
        &&& self.max_line_width == max_text_width(self.lines.deep_view())
    }

    pub open spec fn spec_lines(self) -> Seq<Seq<char>> {
        self.lines.deep_view()
    }

    /// The text content and the display options are unchanged; only offsets moved.
    pub open spec fn same_content(pre: ScrollLinesState, post: ScrollLinesState) -> bool {
        &&& post.lines.deep_view() == pre.lines.deep_view()
        &&& post.max_digits == pre.max_digits
        &&& post.max_line_width == pre.max_line_width
        &&& post.options == pre.options
    }


    /// How `scroll_forward` moves the viewport: down one line, stopping at
    /// the last.
    pub open spec fn forward_rel(pre: ScrollLinesState, post: ScrollLinesState) -> bool {
        &&& Self::same_content(pre, post)
        &&& post.h_offset == pre.h_offset
        &&& post.v_offset == if pre.v_offset + 1 < pre.lines.deep_view().len() {
            pre.v_offset + 1
        } else {
            pre.v_offset as int
        }
    }

    /// How `scroll_backward` moves the viewport: up one line, stopping at
    /// the first.
    pub open spec fn backward_rel(pre: ScrollLinesState, post: ScrollLinesState) -> bool {
        &&& Self::same_content(pre, post)
        &&& post.h_offset == pre.h_offset
        &&& post.v_offset == if pre.v_offset > 0 {
            pre.v_offset - 1
        } else {
            0int
        }
    }

    /// How `scroll_to_top` moves the viewport: straight to the first line.
    pub open spec fn top_rel(pre: ScrollLinesState, post: ScrollLinesState) -> bool {
        &&& Self::same_content(pre, post)
        &&& post.h_offset == pre.h_offset
        &&& post.v_offset == 0
    }

    /// How `scroll_to_end` moves the viewport: straight to the last line.
    pub open spec fn end_rel(pre: ScrollLinesState, post: ScrollLinesState) -> bool {
        &&& Self::same_content(pre, post)
        &&& post.h_offset == pre.h_offset
        &&& post.v_offset == if pre.lines.deep_view().len() == 0 {
            0int
        } else {
            pre.lines.deep_view().len() - 1
        }
    }

    /// How `scroll_right` moves the viewport: one column right, stopping one
    /// short of the widest line's width.
    pub open spec fn right_rel(pre: ScrollLinesState, post: ScrollLinesState) -> bool {
        &&& Self::same_content(pre, post)
        &&& post.v_offset == pre.v_offset
        &&& post.h_offset == if pre.max_line_width > 0 && pre.h_offset < pre.max_line_width - 1 {
            pre.h_offset + 1
        } else {
            pre.h_offset as int
        }
    }

    /// How `scroll_left` moves the viewport: one column left, stopping at
    /// the first column.
    pub open spec fn left_rel(pre: ScrollLinesState, post: ScrollLinesState) -> bool {
        &&& Self::same_content(pre, post)
        &&& post.v_offset == pre.v_offset
        &&& post.h_offset == if pre.h_offset > 0 {
            pre.h_offset - 1
        } else {
            0int
        }
    }

    /// How `toggle_wrap` changes the state: the wrap flag flips and the
    /// horizontal offset resets, all else untouched.
    pub open spec fn toggle_wrap_rel(pre: ScrollLinesState, post: ScrollLinesState) -> bool {
        &&& post.lines.deep_view() == pre.lines.deep_view()
        &&& post.max_digits == pre.max_digits
        &&& post.max_line_width == pre.max_line_width
        &&& post.v_offset == pre.v_offset
        &&& post.h_offset == 0
        &&& post.options.wrap == !pre.options.wrap
        &&& post.options.number == pre.options.number
    }

    /// How `toggle_number` changes the state: only the gutter flag flips.
    pub open spec fn toggle_number_rel(pre: ScrollLinesState, post: ScrollLinesState) -> bool {
        &&& post.lines.deep_view() == pre.lines.deep_view()
        &&& post.max_digits == pre.max_digits
        &&& post.max_line_width == pre.max_line_width
        &&& post.v_offset == pre.v_offset
        &&& post.h_offset == pre.h_offset
        &&& post.options.number == !pre.options.number
        &&& post.options.wrap == pre.options.wrap
    }

    /// How `scroll_page_forward` moves the viewport: by the page walk over
    /// the wrapped heights of the lines ahead, monotonically, jumping to the
    /// last line when the page cannot be filled.
    pub open spec fn page_forward_rel(
        pre: ScrollLinesState,
        post: ScrollLinesState,
        width: nat,
        height: nat,
    ) -> bool {
        &&& Self::same_content(pre, post)
        &&& post.h_offset == pre.h_offset
        &&& post.v_offset >= pre.v_offset
        &&& (pre.lines.deep_view().len() == 0 || height == 0 ==> post.v_offset == pre.v_offset)
        &&& (pre.lines.deep_view().len() > 0 && height > 0 ==> {
            let ls = pre.lines.deep_view();
            let n = ls.len();
            let v = pre.v_offset as int;
            let k = if height <= n - v {
                height as int
            } else {
                n - v
            };
            let hs = Seq::new(k as nat, |i: int| line_rows(ls[v + i], pre.options.wrap, width));
            post.v_offset == match page_steps(hs, 0, height as int) {
                Some(c) => if v + c < n - 1 {
                    v + c
                } else {
                    n - 1
                },
                None => n - 1,
            }
        })
    }

    /// How `scroll_page_backward` moves the viewport: the mirror page walk
    /// over the lines above, jumping to the first line when the page cannot
    /// be filled.
    pub open spec fn page_backward_rel(
        pre: ScrollLinesState,
        post: ScrollLinesState,
        width: nat,
        height: nat,
    ) -> bool {
        &&& Self::same_content(pre, post)
        &&& post.h_offset == pre.h_offset
        &&& post.v_offset <= pre.v_offset
        &&& (height == 0 ==> post.v_offset == pre.v_offset)
        &&& (height > 0 ==> {
            let ls = pre.lines.deep_view();
            let v = pre.v_offset as int;
            let k = if height <= v {
                height as int
            } else {
                v
            };
            let hs = Seq::new(
                k as nat,
                |i: int| line_rows(ls[v - 1 - i], pre.options.wrap, width),
            );
            post.v_offset == match page_steps(hs, 0, height as int) {
                Some(c) => v - c,
                None => 0int,
            }
        })
    }

    /// Builds a fresh viewport over `lines`, measuring the widest line and the
    /// gutter width, with both offsets at the top-left corner.
    pub fn new(lines: Vec<String>, options: ScrollLinesOptions) -> (r: Self)
        ensures
            r.wf(),
            r.spec_lines() == lines.deep_view(),
            r.v_offset == 0,
            r.h_offset == 0,
            r.options == options,
    {
        let n = lines.len();
        let max_digits = digits(n);
        let mut max_line_width: usize = 0;
        let mut i: usize = 0;
        while i < n
            invariant
                n == lines@.len(),
                i <= n,
                max_line_width == max_text_width(lines.deep_view().subrange(0, i as int)),
            decreases n - i,
        {
            let w = display_width(lines[i].as_str());
            proof {
                let ls = lines.deep_view();
                assert(ls.subrange(0, i + 1).drop_last() =~= ls.subrange(0, i as int));
                assert(ls.subrange(0, i + 1).last() == ls[i as int]);
            }
            if w > max_line_width {
                max_line_width = w;
            }
            i += 1;
        }
        proof {
            assert(lines.deep_view().subrange(0, lines@.len() as int) =~= lines.deep_view());
        }
        ScrollLinesState { lines, max_digits, max_line_width, v_offset: 0, h_offset: 0, options }
    }

    /// Scrolls down a single line, stopping at the last line.
    pub fn scroll_forward(&mut self)
        requires
            old(self).wf(),
        ensures
            final(self).wf(),
            Self::forward_rel(*old(self), *final(self)),
    {
        if self.lines.len() > 0 && self.v_offset < self.lines.len() - 1 {
            self.v_offset += 1;
        }
    }

    /// Scrolls up a single line, stopping at the first line.
    pub fn scroll_backward(&mut self)
        requires
            old(self).wf(),
        ensures
            final(self).wf(),
            Self::backward_rel(*old(self), *final(self)),
    {
        if self.v_offset > 0 {
            self.v_offset -= 1;
        }
    }

    /// Jumps to the first line.
    pub fn scroll_to_top(&mut self)
        requires
            old(self).wf(),
        ensures
            final(self).wf(),
            Self::top_rel(*old(self), *final(self)),
    {
        self.v_offset = 0;
    }

    /// Jumps to the last line; an empty content stays pinned at zero.
    pub fn scroll_to_end(&mut self)
        requires
            old(self).wf(),
        ensures
            final(self).wf(),
            Self::end_rel(*old(self), *final(self)),
    {
        if self.lines.len() == 0 {
            self.v_offset = 0;
        } else {
            self.v_offset = self.lines.len() - 1;
        }
    }

    /// Scrolls one column right, stopping one short of the widest line's width.
    pub fn scroll_right(&mut self)
        requires
            old(self).wf(),
        ensures
            final(self).wf(),
            Self::right_rel(*old(self), *final(self)),
    {
        if self.max_line_width > 0 && self.h_offset < self.max_line_width - 1 {
            self.h_offset += 1;
        }
    }

    /// Scrolls one column left, stopping at the first column.
    pub fn scroll_left(&mut self)
        requires
            old(self).wf(),
        ensures
            final(self).wf(),
            Self::left_rel(*old(self), *final(self)),
    {
        if self.h_offset > 0 {
            self.h_offset -= 1;
        }
    }

    /// Flips soft-wrapping and resets the horizontal offset, which has no
    /// meaning while wrapping and must not go stale across the toggle.
    pub fn toggle_wrap(&mut self)
        requires
            old(self).wf(),
        ensures
            final(self).wf(),
            Self::toggle_wrap_rel(*old(self), *final(self)),
    {
        self.options.wrap = !self.options.wrap;
        self.h_offset = 0;
    }

    /// Flips the line-number gutter.
    pub fn toggle_number(&mut self)
        requires
            old(self).wf(),
        ensures
            final(self).wf(),
            Self::toggle_number_rel(*old(self), *final(self)),
    {
        self.options.number = !self.options.number;
    }

    pub fn current_options(&self) -> (r: ScrollLinesOptions)
        ensures
            r == self.options,
    {
        self.options
    }

    /// Full width the content wants: widest line, gutter and padding.
    pub fn max_width(&self) -> (r: usize)
        requires
            self.wf(),
            self.max_line_width + self.max_digits + 3 <= usize::MAX,
        ensures
            r == self.max_line_width + self.max_digits + 1 + 2,
    {
        self.max_line_width + self.max_digits + 1 + 2
    }

    /// Scrolls forward by one page of `height` visual rows, measured against a
    /// text pane `width` columns wide: the offset advances over the lines whose
    /// wrapped rows first fill the page, keeping a partially visible boundary
    /// line on screen, and jumps to the last line when the page cannot be filled.
    pub fn scroll_page_forward(&mut self, width: usize, height: usize)
        requires
            old(self).wf(),
        ensures
            final(self).wf(),
            Self::page_forward_rel(*old(self), *final(self), width as nat, height as nat),
    {
        let n = self.lines.len();
        if n == 0 || height == 0 {
            return;
        }
        let v = self.v_offset;
        let k: usize = if height <= n - v {
            height
        } else {
            n - v
        };
        let ghost ls = self.lines.deep_view();
        let ghost hs = Seq::new(
            k as nat,
            |i: int| line_rows(ls[v + i], self.options.wrap, width as nat),
        );
        let wrap = self.options.wrap;
        let mut i: usize = 0;
        let mut rem: usize = height;
        while i < k
            invariant
                old(self).wf(),
                self == old(self),
                n == ls.len(),
                ls == self.lines.deep_view(),
                v == self.v_offset,
                v < n,
                k == if height <= n - v { height as int } else { n - v },
                wrap == self.options.wrap,
                i <= k,
                1 <= rem <= height,
                hs == Seq::new(
                    k as nat,
                    |j: int| line_rows(ls[v + j], wrap, width as nat),
                ),
                page_steps(hs, 0, height as int) == page_steps(hs, i as int, rem as int),
            decreases k - i,
        {
            let h: usize = if wrap {
                wrapped_row_count(self.lines[v + i].as_str(), width)
            } else {
                1
            };
            assert(h == hs[i as int]);
            if h >= rem {
                let mut adv: usize = i + 1;
                if h > rem {
                    adv -= 1;
                }
                assert(page_steps(hs, i as int, rem as int) == Some(adv as int));
                if v + adv < n - 1 {
                    self.v_offset = v + adv;
                } else {
                    self.v_offset = n - 1;
                }
                proof {
                    lemma_page_steps_ge_from(hs, i as int, rem as int);
                    assert(hs =~= Seq::new(
                        k as nat,
                        |j: int| line_rows(ls[v + j], old(self).options.wrap, width as nat),
                    ));
                }
                return;
            }
            rem -= h;
            i += 1;
        }
        self.v_offset = n - 1;
        proof {
            assert(hs =~= Seq::new(
                k as nat,
                |j: int| line_rows(ls[v + j], old(self).options.wrap, width as nat),
            ));
        }
    }

    /// Scrolls backward by one page of `height` visual rows, measured against a
    /// text pane `width` columns wide: the mirror image of page-forward over the
    /// lines above the offset, jumping to the first line when the page cannot be
    /// filled.
    pub fn scroll_page_backward(&mut self, width: usize, height: usize)
        requires
            old(self).wf(),
        ensures
            final(self).wf(),
            Self::page_backward_rel(*old(self), *final(self), width as nat, height as nat),
    {
        if height == 0 {
            return;
        }
        let v = self.v_offset;
        let k: usize = if height <= v {
            height
        } else {
            v
        };
        let ghost ls = self.lines.deep_view();
        let ghost hs = Seq::new(
            k as nat,
            |i: int| line_rows(ls[v - 1 - i], self.options.wrap, width as nat),
        );
        let wrap = self.options.wrap;
        let mut i: usize = 0;
        let mut rem: usize = height;
        while i < k
            invariant
                old(self).wf(),
                self == old(self),
                ls == self.lines.deep_view(),
                v == self.v_offset,
                v <= ls.len(),
                k == if height <= v { height as int } else { v as int },
                wrap == self.options.wrap,
                i <= k,
                1 <= rem <= height,
                hs == Seq::new(
                    k as nat,
                    |j: int| line_rows(ls[v - 1 - j], wrap, width as nat),
                ),
                page_steps(hs, 0, height as int) == page_steps(hs, i as int, rem as int),
            decreases k - i,
        {
            let h: usize = if wrap {
                wrapped_row_count(self.lines[v - 1 - i].as_str(), width)
            } else {
                1
            };
            assert(h == hs[i as int]);
            if h >= rem {
                let mut adv: usize = i + 1;
                if h > rem {
                    adv -= 1;
                }
                assert(page_steps(hs, i as int, rem as int) == Some(adv as int));
                self.v_offset = v - adv;
                proof {
                    lemma_page_steps_ge_from(hs, i as int, rem as int);
                    assert(hs =~= Seq::new(
                        k as nat,
                        |j: int| line_rows(ls[v - 1 - j], old(self).options.wrap, width as nat),
                    ));
                }
                return;
            }
            rem -= h;
            i += 1;
        }
        self.v_offset = 0;
        proof {
            assert(hs =~= Seq::new(
                k as nat,
                |j: int| line_rows(ls[v - 1 - j], old(self).options.wrap, width as nat),
            ));
        }
    }

    /// The plain text of the whole content: the lines joined by newlines, the
    /// form handed to the clipboard.
    pub fn raw_content(&self) -> (r: String)
        ensures
            r@ == join_lines(self.lines.deep_view()),
    {
        let mut out = String::new();
        let n = self.lines.len();
        let mut i: usize = 0;
        while i < n
            invariant
                n == self.lines@.len(),
                i <= n,
                out@ == join_lines(self.lines.deep_view().subrange(0, i as int)),
            decreases n - i,
        {
            if i > 0 {
                out.append("\n");
            }
            out.append(self.lines[i].as_str());
            proof {
                let ls = self.lines.deep_view();
                assert(ls.subrange(0, i + 1).drop_last() =~= ls.subrange(0, i as int));
                assert(ls.subrange(0, i + 1).last() == ls[i as int]);
                reveal_strlit("\n");
                if i == 0 {
                    assert(out@ =~= ls.subrange(0, 1)[0]);
                } else {
                    assert(out@ =~= join_lines(ls.subrange(0, i as int)) + seq!['\n'] + ls[
                        i as int
                    ]);
                }
            }
            i += 1;
        }
        proof {
            assert(self.lines.deep_view().subrange(0, n as int) =~= self.lines.deep_view());
        }
        out
    }
}

/// A page-forward walk over lines that are one row each: with budget `b` left
/// and lines `from..k` ahead, it advances to `from + b` when enough lines
/// remain and fails to fill the page otherwise.
proof fn lemma_page_steps_ones(k: int, from: int, b: int)
    requires
        0 <= from <= k,
        b >= 1,
    ensures
        page_steps(Seq::new(k as nat, |i: int| 1nat), from, b) == if k - from >= b {
            Some(from + b)
        } else {
            None::<int>
        },
    decreases k - from,
{
    let hs = Seq::new(k as nat, |i: int| 1nat);
    if from < k && b > 1 {
        lemma_page_steps_ones(k, from + 1, b - 1);
    }
}

/// The offset one page-forward lands on when every line is one row tall.
pub open spec fn page_forward_no_wrap_post(n: int, h: int, v: int) -> int {
    if v + h < n - 1 {
        v + h
    } else {
        n - 1
    }
}

/// Law: with wrapping off, a page-forward from line `v` lands exactly on
/// `min(v + height, n - 1)`; this is the offset that `scroll_page_forward`'s
/// contract promises for a non-wrapping viewport.
pub proof fn lemma_page_forward_no_wrap(ls: Seq<Seq<char>>, v: int, width: nat, h: int)
    requires
        0 <= v < ls.len(),
        h >= 1,
    ensures
        ({
            let n = ls.len() as int;
            let k = if h <= n - v {
                h
            } else {
                n - v
            };
            let hs = Seq::new(k as nat, |i: int| line_rows(ls[v + i], false, width));
            (match page_steps(hs, 0, h) {
                Some(c) => if v + c < n - 1 {
                    v + c
                } else {
                    n - 1
                },
                None => n - 1,
            }) == page_forward_no_wrap_post(n, h, v)
        }),
{
    let n = ls.len() as int;
    let k = if h <= n - v {
        h
    } else {
        n - v
    };
    let hs = Seq::new(k as nat, |i: int| line_rows(ls[v + i], false, width));
    assert(hs =~= Seq::new(k as nat, |i: int| 1nat));
    lemma_page_steps_ones(k, 0, h);
}

/// The offset after `m` page-forward moves of a non-wrapping viewport.
pub open spec fn iterated_page_forward(n: int, h: int, v: int, m: nat) -> int
    decreases m,
{
    if m == 0 {
        v
    } else {
        page_forward_no_wrap_post(n, h, iterated_page_forward(n, h, v, (m - 1) as nat))
    }
}

/// Law: repeated page-forward moves of a non-wrapping viewport follow the
/// closed form `min(v + m * height, n - 1)`: the offset grows monotonically
/// and never passes the last line.
pub proof fn lemma_iterated_page_forward(n: int, h: int, v: int, m: nat)
    requires
        0 <= v <= n - 1,
        h >= 1,
    ensures
        iterated_page_forward(n, h, v, m) == if v + m * h < n - 1 {
            v + m * h
        } else {
            n - 1
        },
    decreases m,
{
    if m == 0 {
        assert(m * h == 0) by (nonlinear_arith)
            requires m == 0;
    } else {
        lemma_iterated_page_forward(n, h, v, (m - 1) as nat);
        let prev = iterated_page_forward(n, h, v, (m - 1) as nat);
        assert(m * h == (m - 1) * h + h) by (nonlinear_arith);
        assert(iterated_page_forward(n, h, v, m) == page_forward_no_wrap_post(n, h, prev));
        if v + (m - 1) * h < n - 1 {
            assert(prev == v + (m - 1) * h);
        } else {
            assert(prev == n - 1);
            assert(v + m * h >= n - 1);
        }
    }
}

/// Law: a non-wrapping viewport of `n` lines reaches the last line after any
/// `m` page-forward moves with `m * height >= n - 1 - v`, so after at most
/// `ceil(n / height)` moves, and then stays there.
pub proof fn lemma_page_forward_reaches_end(n: int, h: int, v: int, m: nat)
    requires
        0 <= v <= n - 1,
        h >= 1,
        m * h >= n - 1 - v,
    ensures
        iterated_page_forward(n, h, v, m) == n - 1,
{
    lemma_iterated_page_forward(n, h, v, m);
}

/// Law: page-forward strictly advances whenever the line at the offset fits
/// the page height, wrapped or not. (A single line wrapping to more rows than
/// the whole viewport is the one case that holds the walk in place.)
pub proof fn lemma_page_forward_progress(
    ls: Seq<Seq<char>>,
    v: int,
    wrap: bool,
    width: nat,
    h: int,
)
    requires
        0 <= v < ls.len() - 1,
        h >= 1,
        line_rows(ls[v], wrap, width) <= h,
    ensures
        ({
            let n = ls.len() as int;
            let k = if h <= n - v {
                h
            } else {
                n - v
            };
            let hs = Seq::new(k as nat, |i: int| line_rows(ls[v + i], wrap, width));
            (match page_steps(hs, 0, h) {
                Some(c) => if v + c < n - 1 {
                    v + c
                } else {
                    n - 1
                },
                None => n - 1,
            }) > v
        }),
{
    let n = ls.len() as int;
    let k = if h <= n - v {
        h
    } else {
        n - v
    };
    let hs = Seq::new(k as nat, |i: int| line_rows(ls[v + i], wrap, width));
    if hs[0] < h {
        match page_steps(hs, 1, h - hs[0]) {
            Some(c) => {
                lemma_page_steps_ge_from(hs, 1, h - hs[0]);
            },
            None => {},
        }
    }
}

} // verus!
