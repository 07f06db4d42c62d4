use vstd::prelude::*;

verus! {

/// Selection and scroll state of a single-column list: a selected index and the
/// index of the first visible row, over `total` items shown `height` rows at a time.
///
/// While `total > 0` the selection addresses a real item and never scrolls out of
/// sight above the window; on an empty list every operation leaves the state alone.
#[derive(Debug, Clone, Copy, PartialEq, Eq, Structural)]
pub struct ScrollListState {
    pub selected: usize,
    pub offset: usize,
    pub total: usize,
    pub height: usize,
}

impl ScrollListState {
    /// Well-formedness: an empty list pins both indices to zero; otherwise the
    /// selection is a valid index and the window never starts below it.
    pub open spec fn wf(self) -> bool {
        if self.total == 0 {
            self.selected == 0 && self.offset == 0
        } else {
            self.selected < self.total && self.offset <= self.selected
        }
    }

    /// The selection stays within the visible window when a height is set.
    pub open spec fn window_ok(self) -> bool {
        self.height > 0 ==> self.selected - self.offset < self.height
    }

    /// How `select_next` moves the state: down one item, wrapping from the
    /// last to the first; the offset follows off the bottom edge.
    pub open spec fn next_rel(pre: ScrollListState, post: ScrollListState) -> bool {
        &&& post.total == pre.total
        &&& post.height == pre.height
        &&& (pre.total == 0 ==> post == pre)
        &&& (pre.total > 0 && pre.selected >= pre.total - 1 ==> post.selected == 0 && post.offset
            == 0)
        &&& (pre.total > 0 && pre.selected < pre.total - 1 ==> {
            &&& post.selected == pre.selected + 1
            &&& post.offset == if pre.height > 0 && pre.selected - pre.offset == pre.height - 1 {
                pre.offset + 1
            } else {
                pre.offset as int
            }
        })
    }

    /// How `select_prev` moves the state: up one item, wrapping from the
    /// first to the last; the offset follows off the top edge.
    pub open spec fn prev_rel(pre: ScrollListState, post: ScrollListState) -> bool {
        &&& post.total == pre.total
        &&& post.height == pre.height
        &&& (pre.total == 0 ==> post == pre)
        &&& (pre.total > 0 && pre.selected == 0 ==> {
            &&& post.selected == pre.total - 1
            &&& post.offset == if 0 < pre.height < pre.total {
                pre.total - pre.height
            } else {
                pre.offset as int
            }
        })
        &&& (pre.total > 0 && pre.selected > 0 ==> {
            &&& post.selected == pre.selected - 1
            &&& post.offset == if pre.selected == pre.offset {
                pre.offset - 1
            } else {
                pre.offset as int
            }
        })
    }

    /// How `select_next_page` moves the state: one viewport height forward,
    /// clamped at the last item, the offset pinned to show a full final page.
    pub open spec fn next_page_rel(pre: ScrollListState, post: ScrollListState) -> bool {
        &&& post.total == pre.total
        &&& post.height == pre.height
        &&& (pre.total == 0 || pre.height == 0 ==> post == pre)
        &&& (pre.total > 0 && pre.height > 0 ==> {
            if pre.total < pre.height {
                post.selected == pre.total - 1 && post.offset == 0
            } else if pre.selected + pre.height < pre.total - 1 {
                &&& post.selected == pre.selected + pre.height
                &&& post.offset == if pre.selected + 2 * pre.height > pre.total - 1 {
                    pre.total - pre.height
                } else {
                    pre.selected + pre.height
                }
            } else {
                post.selected == pre.total - 1 && post.offset == pre.total - pre.height
            }
        })
    }

    /// How `select_prev_page` moves the state: one viewport height backward,
    /// clamped at the first item.
    pub open spec fn prev_page_rel(pre: ScrollListState, post: ScrollListState) -> bool {
        &&& post.total == pre.total
        &&& post.height == pre.height
        &&& (pre.total == 0 || pre.height == 0 ==> post == pre)
        &&& (pre.total > 0 && pre.height > 0 ==> {
            if pre.total < pre.height {
                post.selected == 0 && post.offset == 0
            } else if pre.selected > pre.height {
                &&& post.selected == pre.selected - pre.height
                &&& post.offset == if pre.selected < 2 * pre.height {
                    0
                } else {
                    pre.selected - 2 * pre.height + 1
                }
            } else {
                post.selected == 0 && post.offset == 0
            }
        })
    }

    /// How `select_first` moves the state: straight to the first item.
    pub open spec fn first_rel(pre: ScrollListState, post: ScrollListState) -> bool {
        &&& post.total == pre.total
        &&& post.height == pre.height
        &&& (pre.total == 0 ==> post == pre)
        &&& (pre.total > 0 ==> post.selected == 0 && post.offset == 0)
    }

    /// How `select_last` moves the state: straight to the last item, the
    /// offset showing the final full page.
    pub open spec fn last_rel(pre: ScrollListState, post: ScrollListState) -> bool {
        &&& post.total == pre.total
        &&& post.height == pre.height
        &&& (pre.total == 0 ==> post == pre)
        &&& (pre.total > 0 ==> {
            &&& post.selected == pre.total - 1
            &&& post.offset == if 0 < pre.height < pre.total {
                pre.total - pre.height
            } else {
                pre.offset as int
            }
        })
    }

    pub open spec fn spec_total(self) -> nat {
        self.total as nat
    }

    pub open spec fn spec_height(self) -> nat {
        self.height as nat
    }

    pub fn new(total: usize) -> (r: ScrollListState)
        ensures
            r.wf(),
            r.window_ok(),
            r.selected == 0,
            r.offset == 0,
            r.spec_total() == total,
            r.spec_height() == 0,
    {
        ScrollListState { selected: 0, offset: 0, total, height: 0 }
    }

    /// Rebinds the list to a new item count, resetting selection and offset.
    pub fn with_new_total(&self, total: usize) -> (r: ScrollListState)
        ensures
            r.wf(),
            r.window_ok(),
            r.selected == 0,
            r.offset == 0,
            r.spec_total() == total,
            r.spec_height() == self.spec_height(),
    {
        ScrollListState { selected: 0, offset: 0, total, height: self.height }
    }

    /// Records the number of rows the list is given on screen, scrolling just
    /// far enough to keep the selection inside a window that shrank.
    pub fn set_height(&mut self, height: usize)
        requires
            old(self).wf(),
        ensures
            final(self).wf(),
            final(self).window_ok(),
            final(self).spec_height() == height,
            final(self).selected == old(self).selected,
            final(self).spec_total() == old(self).spec_total(),
            final(self).offset == if height > 0 && old(self).selected - old(self).offset >= height {
                old(self).selected - height + 1
            } else {
                old(self).offset as int
            },
    {
        self.height = height;
        if height > 0 && self.selected - self.offset >= height {
            self.offset = self.selected - height + 1;
        }
    }

    pub fn total(&self) -> (r: usize)
        ensures
            r == self.spec_total(),
    {
        self.total
    }

    /// Moves the selection down one item, wrapping from the last item to the
    /// first; the offset follows only when the selection walks off the bottom edge.
    pub fn select_next(&mut self)
        requires
            old(self).wf(),
            old(self).window_ok(),
        ensures
            final(self).wf(),
            final(self).window_ok(),
            Self::next_rel(*old(self), *final(self)),
    {
        if self.total == 0 {
            return;
        }
        if self.selected >= self.total - 1 {
            self.select_first();
        } else {
            if self.height > 0 && self.selected - self.offset == self.height - 1 {
                self.offset += 1;
            }
            self.selected += 1;
        }
    }

    /// Moves the selection up one item, wrapping from the first item to the
    /// last; the offset follows only when the selection walks off the top edge.
    pub fn select_prev(&mut self)
        requires
            old(self).wf(),
            old(self).window_ok(),
        ensures
            final(self).wf(),
            final(self).window_ok(),
            Self::prev_rel(*old(self), *final(self)),
    {
        if self.total == 0 {
            return;
        }
        if self.selected == 0 {
            self.select_last();
        } else {
            if self.selected - self.offset == 0 {
                self.offset -= 1;
            }
            self.selected -= 1;
        }
    }

    /// Jumps the selection one viewport height forward, clamping at the last
    /// item and pinning the offset so the final page is shown in full.
    pub fn select_next_page(&mut self)
        requires
            old(self).wf(),
            old(self).window_ok(),
        ensures
            final(self).wf(),
            final(self).window_ok(),
            Self::next_page_rel(*old(self), *final(self)),
    {
        if self.total == 0 || self.height == 0 {
            return;
        }
        if self.total < self.height {
            self.selected = self.total - 1;
            self.offset = 0;
        } else if self.height < self.total - 1 - self.selected {
            self.selected += self.height;
            if self.height > self.total - 1 - self.selected {
                self.offset = self.total - self.height;
            } else {
                self.offset = self.selected;
            }
        } else {
            self.selected = self.total - 1;
            self.offset = self.total - self.height;
        }
    }

    /// Jumps the selection one viewport height backward, clamping at the first item.
    pub fn select_prev_page(&mut self)
        requires
            old(self).wf(),
            old(self).window_ok(),
        ensures
            final(self).wf(),
            final(self).window_ok(),
            Self::prev_page_rel(*old(self), *final(self)),
    {
        if self.total == 0 || self.height == 0 {
            return;
        }
        if self.total < self.height {
            self.selected = 0;
            self.offset = 0;
        } else if self.selected > self.height {
            self.selected -= self.height;
            if self.selected < self.height {
                self.offset = 0;
            } else {
                self.offset = self.selected - self.height + 1;
            }
        } else {
            self.selected = 0;
            self.offset = 0;
        }
    }

    /// Jumps directly to the first item.
    pub fn select_first(&mut self)
        requires
            old(self).wf(),
        ensures
            final(self).wf(),
            final(self).window_ok(),
            Self::first_rel(*old(self), *final(self)),
    {
        if self.total == 0 {
            return;
        }
        self.selected = 0;
        self.offset = 0;
    }

    /// Jumps directly to the last item, scrolling so the final page is shown in full.
    pub fn select_last(&mut self)
        requires
            old(self).wf(),
            old(self).window_ok(),
        ensures
            final(self).wf(),
            final(self).window_ok(),
            Self::last_rel(*old(self), *final(self)),
    {
        if self.total == 0 {
            return;
        }
        self.selected = self.total - 1;
        if 0 < self.height && self.height < self.total {
            self.offset = self.total - self.height;
        }
    }

    /// Moves the selection to `index` if it addresses an item, scrolling just
    /// far enough to keep it visible; any other index leaves the state alone.
    pub fn select_index(&mut self, index: usize)
        requires
            old(self).wf(),
            old(self).window_ok(),
        ensures
            final(self).wf(),
            final(self).window_ok(),
            final(self).spec_total() == old(self).spec_total(),
            final(self).spec_height() == old(self).spec_height(),
            index >= old(self).spec_total() ==> *final(self) == *old(self),
            index < old(self).spec_total() ==> {
                &&& final(self).selected == index
                &&& final(self).offset == if index < old(self).offset {
                    index as int
                } else if old(self).spec_height() > 0 && index - old(self).offset >= old(self).spec_height() {
                    index - old(self).spec_height() + 1
                } else {
                    old(self).offset as int
                }
            },
    {
        if index >= self.total {
            return;
        }
        self.selected = index;
        if index < self.offset {
            self.offset = index;
        } else if self.height > 0 && index - self.offset >= self.height {
            self.offset = index - self.height + 1;
        }
    }
}

} // verus!
