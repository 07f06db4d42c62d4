use vstd::prelude::*;
use vstd::string::*;

use crate::config::Config;
use crate::error::AppError;
use crate::event::AppEvent;
use crate::event::Command;
use crate::event::KeyInput;
use crate::event::UserEvent;
use crate::view_stack::AppView;
use crate::view_stack::ViewStack;
use crate::views::InitView;
use crate::views::HelpView;
use crate::views::ItemView;
use crate::views::TableInsightView;
use crate::views::TableListView;
use crate::views::TableView;

verus! {

/// What the status line shows: nothing, a notification of one of three kinds,
/// or the live text-input echo with its cursor.
pub enum Status {
    Idle,
    Success(String),
    Warning(String),
    Error(String),
    Input(String, Option<usize>),
}

fn text(t: &str) -> (r: String)
    ensures
        r@ == t@,
{
    t.to_owned()
}

fn contains_event(events: &Vec<UserEvent>, wanted: UserEvent) -> (r: bool)
    ensures
        r == exists|i: int| 0 <= i < events@.len() && events@[i] == wanted,
{
    let n = events.len();
    let mut i: usize = 0;
    while i < n
        invariant
            n == events@.len(),
            i <= n,
            forall|t: int| 0 <= t < i ==> events@[t] != wanted,
        decreases n - i,
    {
        if events[i] == wanted {
            assert(events@[i as int] == wanted);
            return true;
        }
        i += 1;
    }
    false
}

/// The dispatcher's state: the screen stack, the configuration, the status
/// line and the busy flag that gates input while a remote call is in flight.
pub struct App {
    pub view_stack: ViewStack,
    pub config: Config,
    pub status: Status,
    pub loading: bool,
}

impl App {
    pub open spec fn wf(self) -> bool {
        self.view_stack.wf()
    }

    /// Starts on the loading screen, busy until the first table listing lands.
    pub fn new(config: Config) -> (r: App)
        ensures
            r.wf(),
            r.loading,
            r.status is Idle,
            r.view_stack.stack@.len() == 1,
            r.view_stack.stack@[0] is Init,
    {
        App {
            view_stack: ViewStack::new(AppView::Init(Box::new(InitView::new()))),
            config,
            status: Status::Idle,
            loading: true,
        }
    }


    /// The key press reached the current screen: the stack below it is
    /// untouched, the top screen changed exactly as its own contract says,
    /// and its intents come back as follow-up events.
    pub open spec fn routed(
        pre: App,
        post: App,
        user_events: Seq<UserEvent>,
        key: KeyInput,
        commands: Seq<Command>,
        events_out: Seq<AppEvent>,
    ) -> bool {
        &&& post.view_stack.stack@.len() == pre.view_stack.stack@.len()
        &&& post.view_stack.stack@.drop_last() == pre.view_stack.stack@.drop_last()
        &&& AppView::handle_rel(
            pre.view_stack.stack@.last(),
            post.view_stack.stack@.last(),
            user_events,
            key,
            events_out,
        )
        &&& post.loading == pre.loading
        &&& commands.len() == 0
    }

    /// Consumes one event from the single ordered stream and decides
    /// everything the caller must do for it: the outside actions to perform
    /// and the follow-up events to enqueue.
    ///
    /// A quit intent always wins; every other key press is discarded while a
    /// remote call is in flight. Success and warning notifications clear on
    /// the next key press, which then takes effect; an error notification
    /// swallows the key that acknowledges it, and on the initial loading
    /// screen an error ends the application, there being no screen behind it.
    /// A background completion that finds its screen gone is dropped silently.
    pub fn process_event(&mut self, event: AppEvent) -> (r: (Vec<Command>, Vec<AppEvent>))
        requires
            old(self).wf(),
        ensures
            final(self).wf(),
            match event {
                AppEvent::Key(user_events, k) => {
                    let quit = exists|i: int|
                        0 <= i < user_events@.len() && (#[trigger] user_events@[i]) is Quit;
                    &&& (quit ==> *final(self) == *old(self) && r.0@.len() == 1 && r.0@[0] is Quit
                        && r.1@.len() == 0)
                    &&& (!quit && old(self).loading ==> *final(self) == *old(self) && r.0@.len()
                        == 0 && r.1@.len() == 0)
                    &&& (!quit && !old(self).loading ==> match old(self).status {
                        Status::Idle => final(self).status is Idle && Self::routed(
                            *old(self),
                            *final(self),
                            user_events@,
                            k,
                            r.0@,
                            r.1@,
                        ),
                        Status::Input(_, _) => final(self).status == old(self).status
                            && Self::routed(*old(self), *final(self), user_events@, k, r.0@, r.1@),
                        Status::Success(_) => final(self).status is Idle && Self::routed(
                            *old(self),
                            *final(self),
                            user_events@,
                            k,
                            r.0@,
                            r.1@,
                        ),
                        Status::Warning(_) => final(self).status is Idle && Self::routed(
                            *old(self),
                            *final(self),
                            user_events@,
                            k,
                            r.0@,
                            r.1@,
                        ),
                        Status::Error(_) => if old(self).view_stack.stack@.last() is Init {
                            &&& final(self).view_stack.stack@ == old(self).view_stack.stack@
                            &&& r.0@.len() == 1 && r.0@[0] is Quit
                            &&& r.1@.len() == 0
                        } else {
                            &&& final(self).status is Idle
                            &&& final(self).view_stack.stack@ == old(self).view_stack.stack@
                            &&& final(self).loading == old(self).loading
                            &&& r.0@.len() == 0 && r.1@.len() == 0
                        },
                    })
                },
                AppEvent::CompleteInitialize(result) => match result {
                    Ok(tables) => if tables@.len() == 0 {
                        &&& !final(self).loading
                        &&& final(self).view_stack.stack@ == old(self).view_stack.stack@
                        &&& r.0@.len() == 0
                        &&& r.1@.len() == 1
                        &&& (r.1@[0] matches AppEvent::NotifyWarning(e) && e.msg@
                            == "No tables found."@)
                    } else {
                        &&& final(self).loading == old(self).loading
                        &&& final(self).view_stack.stack@.len() >= 1
                        &&& final(self).view_stack.stack@.drop_last() == (
                        if old(self).view_stack.stack@.len() == 1 {
                            old(self).view_stack.stack@
                        } else {
                            old(self).view_stack.stack@.drop_last()
                        })
                        &&& (final(self).view_stack.stack@.last() matches AppView::TableList(v)
                            && v.tables@ == tables@ && v.filter_state is Idle && v.focused is List
                            && TableListView::selection_events(*v, r.1@))
                        &&& r.0@.len() == 0
                    },
                    Err(e) => *final(self) == *old(self) && r.0@.len() == 0 && r.1@.len() == 1 && (
                    r.1@[0] matches AppEvent::NotifyError(err) && err == e),
                },
                AppEvent::NotifySuccess(msg) => final(self).status matches Status::Success(m) && m
                    == msg && *final(self) == App {
                    status: final(self).status,
                    ..*old(self)
                },
                AppEvent::NotifyWarning(e) => final(self).status matches Status::Warning(m) && m
                    == e.msg,
                AppEvent::NotifyError(e) => final(self).status matches Status::Error(m) && m
                    == e.msg,
                AppEvent::ClearStatus => final(self).status is Idle,
                AppEvent::UpdateStatusInput(s, c) => final(self).status matches Status::Input(
                    m,
                    mc,
                ) && m == s && mc == c,
                AppEvent::LoadTableDescription(n) => final(self).loading && r.0@.len() == 1 && (
                r.0@[0] matches Command::DescribeTable(m) && m == n),
                AppEvent::LoadTableItems(n, _) => final(self).loading && r.0@.len() == 1,
                AppEvent::BackToBeforeView => final(self).view_stack.stack@ == if old(
                    self,
                ).view_stack.stack@.len() == 1 {
                    old(self).view_stack.stack@
                } else {
                    old(self).view_stack.stack@.drop_last()
                },
                AppEvent::CompleteLoadTableItems(desc, res) => match res {
                    Ok(items) => (items@.len() == 0 && !(old(self).view_stack.stack@.last()
                        is Table)) ==> {
                        &&& final(self).view_stack.stack@ == old(self).view_stack.stack@
                        &&& !final(self).loading
                        &&& r.1@.len() == 1
                        &&& (r.1@[0] matches AppEvent::NotifyWarning(e) && e.msg@ == "Table "@
                            + desc.table_name@ + " has no items"@)
                    },
                    Err(_) => !final(self).loading && r.1@.len() == 1 && r.1@[0]
                        is NotifyError,
                },
                _ => true,
            },
    {
        let mut commands: Vec<Command> = Vec::new();
        let mut events: Vec<AppEvent> = Vec::new();
        match event {
            AppEvent::Key(user_events, key) => {
                if contains_event(&user_events, UserEvent::Quit) {
                    commands.push(Command::Quit);
                    return (commands, events);
                }
                if self.loading {
                    return (commands, events);
                }
                match &self.status {
                    Status::Idle | Status::Input(_, _) => {},
                    Status::Success(_) | Status::Warning(_) => {
                        self.status = Status::Idle;
                    },
                    Status::Error(_) => {
                        if self.stack_top_is_init() {
                            commands.push(Command::Quit);
                            return (commands, events);
                        }
                        self.status = Status::Idle;
                        return (commands, events);
                    },
                }
                let mut top = self.view_stack.take_top();
                let mut evs = top.handle_user_key_event(&user_events, key);
                self.view_stack.push(top);
                let ghost evs0 = evs@;
                events.append(&mut evs);
                proof {
                    assert(self.view_stack.stack@.drop_last() =~= old(self).view_stack.stack@.drop_last());
                    assert(events@ =~= evs0);
                }
            },
            AppEvent::Initialize => {
                self.loading = true;
                commands.push(Command::ListTables);
            },
            AppEvent::CompleteInitialize(result) => {
                match result {
                    Ok(tables) => {
                        if tables.len() == 0 {
                            self.loading = false;
                            events.push(
                                AppEvent::NotifyWarning(AppError::msg(text("No tables found."))),
                            );
                        } else {
                            let (view, mut evs) = TableListView::new(
                                tables,
                                self.config.ui.table_list,
                            );
                            self.view_stack.pop();
                            self.view_stack.push(AppView::TableList(Box::new(view)));
                            events.append(&mut evs);
                        }
                    },
                    Err(e) => {
                        events.push(AppEvent::NotifyError(e));
                    },
                }
            },
            AppEvent::LoadTableDescription(name) => {
                self.loading = true;
                commands.push(Command::DescribeTable(name));
            },
            AppEvent::CompleteLoadTableDescription(result) => {
                match result {
                    Ok(desc) => {
                        let mut top = self.view_stack.take_top();
                        match &mut top {
                            AppView::TableList(view) => {
                                let mut evs = view.set_table_description(desc);
                                events.append(&mut evs);
                            },
                            _ => {},
                        }
                        self.view_stack.push(top);
                    },
                    Err(e) => {
                        events.push(AppEvent::NotifyError(e));
                    },
                }
                self.loading = false;
            },
            AppEvent::LoadTableItems(name, schema) => {
                self.loading = true;
                commands.push(Command::ScanTableItems(name, schema));
            },
            AppEvent::CompleteLoadTableItems(desc, result) => {
                match result {
                    Ok(items) => {
                        if self.stack_top_is_table() {
                            // a reload replaces the current table screen
                            self.view_stack.pop();
                        }
                        if items.len() == 0 {
                            let mut msg = text("Table ");
                            msg.append(desc.table_name.as_str());
                            msg.append(" has no items");
                            events.push(AppEvent::NotifyWarning(AppError::msg(msg)));
                        } else {
                            let view = TableView::new(desc, items, self.config.ui.table);
                            self.view_stack.push(AppView::Table(Box::new(view)));
                        }
                    },
                    Err(e) => {
                        events.push(AppEvent::NotifyError(e));
                    },
                }
                self.loading = false;
            },
            AppEvent::OpenItem(name, schema, item) => {
                let (view, mut evs) = ItemView::new(name, schema, item);
                self.view_stack.push(AppView::Item(Box::new(view)));
                events.append(&mut evs);
            },
            AppEvent::OpenTableInsight(insight) => {
                let (view, mut evs) = TableInsightView::new(insight);
                self.view_stack.push(AppView::TableInsight(Box::new(view)));
                events.append(&mut evs);
            },
            AppEvent::OpenHelp(entries) => {
                self.view_stack.push(AppView::Help(Box::new(HelpView::new(entries))));
            },
            AppEvent::BackToBeforeView => {
                self.view_stack.pop();
            },
            AppEvent::CopyToClipboard(name, content) => {
                commands.push(Command::WriteClipboard(name, content));
            },
            AppEvent::ClearStatus => {
                self.status = Status::Idle;
            },
            AppEvent::UpdateStatusInput(msg, cursor) => {
                self.status = Status::Input(msg, cursor);
            },
            AppEvent::NotifySuccess(msg) => {
                self.status = Status::Success(msg);
            },
            AppEvent::NotifyWarning(e) => {
                self.status = Status::Warning(e.msg);
            },
            AppEvent::NotifyError(e) => {
                self.status = Status::Error(e.msg);
            },
            AppEvent::PreviewLines(lines) => {
                let mut top = self.view_stack.take_top();
                match &mut top {
                    AppView::TableList(view) => {
                        view.set_preview_lines(lines);
                    },
                    AppView::Item(view) => {
                        view.set_preview_lines(lines);
                    },
                    AppView::TableInsight(view) => {
                        view.set_preview_lines(lines);
                    },
                    _ => {},
                }
                self.view_stack.push(top);
            },
            AppEvent::ExpandLines(lines) => {
                let mut top = self.view_stack.take_top();
                match &mut top {
                    AppView::Table(view) => {
                        view.set_expanded_lines(lines);
                    },
                    _ => {},
                }
                self.view_stack.push(top);
            },
            AppEvent::RefreshPreview => {
                commands.push(Command::BuildPreview);
            },
            AppEvent::RefreshExpand(row, key) => {
                commands.push(Command::BuildExpand(row, key));
            },
            AppEvent::RequestCopyItem(row) => {
                commands.push(Command::CopyItemJson(row));
            },
            AppEvent::RequestCopyAttribute(row, key) => {
                commands.push(Command::CopyAttributeJson(row, key));
            },
        }
        (commands, events)
    }

    fn stack_top_is_init(&self) -> (r: bool)
        requires
            self.wf(),
        ensures
            r == (self.view_stack.stack@.last() is Init),
    {
        let n = self.view_stack.stack.len();
        matches!(&self.view_stack.stack[n - 1], AppView::Init(_))
    }

    fn stack_top_is_table(&self) -> (r: bool)
        requires
            self.wf(),
        ensures
            r == (self.view_stack.stack@.last() is Table),
    {
        let n = self.view_stack.stack.len();
        matches!(&self.view_stack.stack[n - 1], AppView::Table(_))
    }
}

} // verus!
