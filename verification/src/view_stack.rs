use vstd::prelude::*;

use crate::event::AppEvent;
use crate::event::KeyInput;
use crate::event::UserEvent;
use crate::views::HelpView;
use crate::views::InitView;
use crate::views::ItemView;
use crate::views::TableInsightView;
use crate::views::TableListView;
use crate::views::TableView;

verus! {

/// One full-screen mode of the application, with its own state.
pub enum AppView {
    Init(Box<InitView>),
    TableList(Box<TableListView>),
    Table(Box<TableView>),
    Item(Box<ItemView>),
    TableInsight(Box<TableInsightView>),
    Help(Box<HelpView>),
}

impl AppView {
    pub open spec fn wf(self) -> bool {
        match self {
            AppView::Init(_) => true,
            AppView::TableList(v) => v.wf(),
            AppView::Table(v) => v.wf(),
            AppView::Item(v) => v.wf(),
            AppView::TableInsight(v) => v.wf(),
            AppView::Help(_) => true,
        }
    }

    /// How one key press drives whichever screen this is: the screen kind is
    /// preserved and the key drives it exactly as that screen's own contract
    /// says.
    pub open spec fn handle_rel(
        pre: AppView,
        post: AppView,
        user_events: Seq<UserEvent>,
        key: KeyInput,
        r: Seq<AppEvent>,
    ) -> bool {
        match pre {
            AppView::Init(_) => post == pre && r.len() == 0,
            AppView::TableList(v) => (post matches AppView::TableList(w)
                && TableListView::handle_rel(*v, *w, user_events, key, r)),
            AppView::Table(v) => (post matches AppView::Table(w) && TableView::handle_rel(
                *v,
                *w,
                user_events,
                r,
            )),
            AppView::Item(v) => (post matches AppView::Item(w) && ItemView::handle_rel(
                *v,
                *w,
                user_events,
                r,
            )),
            AppView::TableInsight(v) => (post matches AppView::TableInsight(w)
                && TableInsightView::handle_rel(*v, *w, user_events, r)),
            AppView::Help(v) => (post matches AppView::Help(w) && HelpView::handle_rel(
                *v,
                *w,
                user_events,
                r,
            )),
        }
    }

    /// Routes one decoded key press to whichever screen this is.
    pub fn handle_user_key_event(&mut self, user_events: &Vec<UserEvent>, key: KeyInput) -> (r:
        Vec<AppEvent>)
        requires
            old(self).wf(),
        ensures
            final(self).wf(),
            Self::handle_rel(*old(self), *final(self), user_events@, key, r@),
    {
        match self {
            AppView::Init(v) => v.handle_user_key_event(user_events, key),
            AppView::TableList(v) => v.handle_user_key_event(user_events, key),
            AppView::Table(v) => v.handle_user_key_event(user_events, key),
            AppView::Item(v) => v.handle_user_key_event(user_events, key),
            AppView::TableInsight(v) => v.handle_user_key_event(user_events, key),
            AppView::Help(v) => v.handle_user_key_event(user_events, key),
        }
    }
}

/// The ordered stack of live screens. The top is the current screen; the
/// bottom screen is never discarded, so there is always one to show.
pub struct ViewStack {
    pub stack: Vec<AppView>,
}

impl ViewStack {
    /// Every screen on the stack is well-formed.
    pub open spec fn items_wf(self) -> bool {
        forall|i: int| 0 <= i < self.stack@.len() ==> (#[trigger] self.stack@[i]).wf()
    }

    pub open spec fn wf(self) -> bool {
        &&& self.stack@.len() >= 1
        &&& self.items_wf()
    }

    pub fn new(view: AppView) -> (r: ViewStack)
        requires
            view.wf(),
        ensures
            r.wf(),
            r.stack@.len() == 1,
            r.stack@[0] == view,
    {
        let mut stack: Vec<AppView> = Vec::new();
        stack.push(view);
        ViewStack { stack }
    }

    /// Appends a screen, which becomes current; the one below keeps its state,
    /// suspended, and resumes unchanged when the new one is popped.
    pub fn push(&mut self, view: AppView)
        requires
            old(self).items_wf(),
            view.wf(),
        ensures
            final(self).wf(),
            final(self).stack@ == old(self).stack@.push(view),
    {
        self.stack.push(view);
    }

    /// Drops the current screen, unless it is the only one: the root screen is
    /// a terminal element and popping it is a no-op.
    pub fn pop(&mut self)
        requires
            old(self).wf(),
        ensures
            final(self).wf(),
            old(self).stack@.len() == 1 ==> final(self).stack@ == old(self).stack@,
            old(self).stack@.len() > 1 ==> final(self).stack@ == old(self).stack@.drop_last(),
    {
        if self.stack.len() > 1 {
            self.stack.pop();
            proof {
                assert(self.stack@ =~= old(self).stack@.drop_last());
            }
        }
    }

    /// Detaches the current screen for routing; the caller puts it back.
    pub fn take_top(&mut self) -> (r: AppView)
        requires
            old(self).wf(),
        ensures
            r == old(self).stack@.last(),
            r.wf(),
            final(self).items_wf(),
            final(self).stack@ == old(self).stack@.drop_last(),
    {
        let r = self.stack.pop();
        match r {
            Some(v) => {
                proof {
                    assert(self.stack@ =~= old(self).stack@.drop_last());
                }
                v
            },
            None => {
                proof {
                    assert(false);
                }
                AppView::Init(Box::new(InitView::new()))
            },
        }
    }
}

/// Law: pushing a screen and popping it returns the stack to exactly its
/// prior state; in particular the prior top is the same screen again, its
/// internal state untouched. (Popping a single-screen stack is a no-op by
/// `pop`'s contract, so a screen always remains.)
pub proof fn lemma_push_pop(s: Seq<AppView>, v: AppView)
    requires
        s.len() >= 1,
    ensures
        s.push(v).len() > 1,
        s.push(v).drop_last() == s,
        s.push(v).drop_last().last() == s.last(),
{
    assert(s.push(v).drop_last() =~= s);
}

} // verus!
