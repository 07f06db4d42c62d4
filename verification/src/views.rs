use vstd::prelude::*;
use vstd::string::*;

use crate::config::UiTableConfig;
use crate::config::UiTableListConfig;
use crate::data::Item;
use crate::data::KeySchemaType;
use crate::data::Table;
use crate::data::TableDescription;
use crate::data::TableInsight;
use crate::data::item_has_key;
use crate::data::to_key_string;
use crate::data::list_attribute_keys;
use crate::event::AppEvent;
use crate::event::KeyInput;
use crate::event::UserEvent;
use crate::filter::filter_indices;
use crate::filter::filter_view;
use crate::filter::lemma_filtered_prefix_elems;
use crate::filter::lemma_filtered_prefix_len;
use crate::scroll_lines::ScrollLinesOptions;
use crate::scroll_lines::ScrollLinesState;
use crate::scroll_list::ScrollListState;
use crate::table_state::TableState;

verus! {

/// Relies on String::from_iter: collecting characters yields exactly those
/// characters, in order.
#[verifier::external_body]
fn chars_to_string(v: &Vec<char>) -> (r: String)
    ensures
        r@ == v@,
{
    v.iter().collect()
}

fn text(t: &str) -> (r: String)
    ensures
        r@ == t@,
{
    t.to_owned()
}

/// The line-editing buffer behind the quick filter: its characters and the
/// cursor position within them.
pub struct FilterInput {
    pub chars: Vec<char>,
    pub cursor: usize,
}

impl FilterInput {
    pub open spec fn wf(self) -> bool {
        self.cursor <= self.chars@.len()
    }

    pub fn new() -> (r: Self)
        ensures
            r.wf(),
            r.chars@ == Seq::<char>::empty(),
            r.cursor == 0,
    {
        FilterInput { chars: Vec::new(), cursor: 0 }
    }

    pub fn reset(&mut self)
        ensures
            final(self).wf(),
            final(self).chars@ == Seq::<char>::empty(),
            final(self).cursor == 0,
    {
        self.chars = Vec::new();
        self.cursor = 0;
    }

    pub fn is_empty(&self) -> (r: bool)
        ensures
            r == (self.chars@.len() == 0),
    {
        self.chars.len() == 0
    }

    pub fn value(&self) -> (r: String)
        ensures
            r@ == self.chars@,
    {
        chars_to_string(&self.chars)
    }

    /// How one editing keystroke changes the buffer: insert at the cursor,
    /// delete around it, or move it; any other key leaves the buffer alone.
    pub open spec fn apply_rel(pre: FilterInput, post: FilterInput, key: KeyInput) -> bool {
        match key {
            KeyInput::Char(c) => if pre.chars@.len() < usize::MAX {
                post.chars@ == pre.chars@.insert(pre.cursor as int, c) && post.cursor == pre.cursor
                    + 1
            } else {
                post == pre
            },
            KeyInput::Backspace => if pre.cursor > 0 {
                post.chars@ == pre.chars@.remove(pre.cursor - 1) && post.cursor == pre.cursor - 1
            } else {
                post == pre
            },
            KeyInput::Delete => if pre.cursor < pre.chars@.len() {
                post.chars@ == pre.chars@.remove(pre.cursor as int) && post.cursor == pre.cursor
            } else {
                post == pre
            },
            KeyInput::Left => post.chars@ == pre.chars@ && post.cursor == if pre.cursor > 0 {
                pre.cursor - 1
            } else {
                0int
            },
            KeyInput::Right => post.chars@ == pre.chars@ && post.cursor == if pre.cursor
                < pre.chars@.len() {
                pre.cursor + 1
            } else {
                pre.cursor as int
            },
            KeyInput::Home => post.chars@ == pre.chars@ && post.cursor == 0,
            KeyInput::End => post.chars@ == pre.chars@ && post.cursor == pre.chars@.len(),
            KeyInput::Other => post == pre,
        }
    }

    /// One editing keystroke; any key the buffer does not understand leaves
    /// it alone.
    pub fn apply_key(&mut self, key: KeyInput)
        requires
            old(self).wf(),
        ensures
            final(self).wf(),
            Self::apply_rel(*old(self), *final(self), key),
    {
        match key {
            KeyInput::Char(c) => {
                if self.chars.len() < usize::MAX {
                    self.chars.insert(self.cursor, c);
                    self.cursor += 1;
                }
            },
            KeyInput::Backspace => {
                if self.cursor > 0 {
                    self.chars.remove(self.cursor - 1);
                    self.cursor -= 1;
                }
            },
            KeyInput::Delete => {
                if self.cursor < self.chars.len() {
                    self.chars.remove(self.cursor);
                }
            },
            KeyInput::Left => {
                if self.cursor > 0 {
                    self.cursor -= 1;
                }
            },
            KeyInput::Right => {
                if self.cursor < self.chars.len() {
                    self.cursor += 1;
                }
            },
            KeyInput::Home => {
                self.cursor = 0;
            },
            KeyInput::End => {
                self.cursor = self.chars.len();
            },
            KeyInput::Other => {},
        }
    }
}

/// The filtering sub-state of a list screen: no filter, the query being
/// edited, or a confirmed query applied.
#[derive(Clone, Copy, PartialEq, Eq, Structural, Debug)]
pub enum FilterState {
    Idle,
    Editing,
    Applied,
}

/// Which pane of the table list screen has focus.
#[derive(Clone, Copy, PartialEq, Eq, Structural, Debug)]
pub enum Focused {
    List,
    Detail,
}

impl Focused {
    pub fn next(self) -> (r: Focused)
        ensures
            self is List ==> r is Detail,
            self is Detail ==> r is List,
    {
        match self {
            Focused::List => Focused::Detail,
            Focused::Detail => Focused::List,
        }
    }
}

/// Which rendering the table list's detail pane shows.
#[derive(Clone, Copy, PartialEq, Eq, Structural, Debug)]
pub enum PreviewType {
    KeyValue,
    Json,
}

impl PreviewType {
    pub fn next(self) -> (r: PreviewType)
        ensures
            self is KeyValue ==> r is Json,
            self is Json ==> r is KeyValue,
    {
        match self {
            PreviewType::KeyValue => PreviewType::Json,
            PreviewType::Json => PreviewType::KeyValue,
        }
    }

    pub fn prev(self) -> (r: PreviewType)
        ensures
            self is KeyValue ==> r is Json,
            self is Json ==> r is KeyValue,
    {
        self.next()
    }
}

/// Which rendering the item screen shows.
#[derive(Clone, Copy, PartialEq, Eq, Structural, Debug)]
pub enum ItemPreviewType {
    KeyValue,
    PlainJson,
    RawJson,
}

impl ItemPreviewType {
    pub fn next(self) -> (r: ItemPreviewType)
        ensures
            self is KeyValue ==> r is PlainJson,
            self is PlainJson ==> r is RawJson,
            self is RawJson ==> r is KeyValue,
    {
        match self {
            ItemPreviewType::KeyValue => ItemPreviewType::PlainJson,
            ItemPreviewType::PlainJson => ItemPreviewType::RawJson,
            ItemPreviewType::RawJson => ItemPreviewType::KeyValue,
        }
    }

    pub fn prev(self) -> (r: ItemPreviewType)
        ensures
            self is KeyValue ==> r is RawJson,
            self is PlainJson ==> r is KeyValue,
            self is RawJson ==> r is PlainJson,
    {
        match self {
            ItemPreviewType::KeyValue => ItemPreviewType::RawJson,
            ItemPreviewType::PlainJson => ItemPreviewType::KeyValue,
            ItemPreviewType::RawJson => ItemPreviewType::PlainJson,
        }
    }
}

/// The initial loading screen; it reacts to nothing and shows nothing but a
/// frame while the first table listing is fetched.
pub struct InitView {}

impl InitView {
    pub fn new() -> Self {
        InitView {  }
    }

    pub fn handle_user_key_event(&mut self, user_events: &Vec<UserEvent>, key: KeyInput) -> (r:
        Vec<AppEvent>)
        ensures
            *final(self) == *old(self),
            r@.len() == 0,
    {
        let _ = user_events;
        let _ = key;
        Vec::new()
    }
}

/// The help screen: the full key listing of the screen it was opened from.
pub struct HelpView {
    pub entries: Vec<crate::event::HelpItem>,
}

/// A close or help intent is among the decoded ones.
pub open spec fn wants_dismiss(user_events: Seq<UserEvent>) -> bool {
    exists|i: int|
        0 <= i < user_events.len() && ((#[trigger] user_events[i]) is Close || user_events[i]
            is Help)
}

impl HelpView {
    pub fn new(entries: Vec<crate::event::HelpItem>) -> (r: Self)
        ensures
            r.entries@ == entries@,
    {
        HelpView { entries }
    }

    /// How one key press drives the screen: a close or help intent asks to
    /// navigate back, everything else is ignored.
    pub open spec fn handle_rel(
        pre: HelpView,
        post: HelpView,
        user_events: Seq<UserEvent>,
        r: Seq<AppEvent>,
    ) -> bool {
        &&& post == pre
        &&& if wants_dismiss(user_events) {
            r.len() == 1 && r[0] is BackToBeforeView
        } else {
            r.len() == 0
        }
    }

    /// Close and Help both dismiss the screen; everything else is ignored.
    pub fn handle_user_key_event(&mut self, user_events: &Vec<UserEvent>, key: KeyInput) -> (r:
        Vec<AppEvent>)
        ensures
            Self::handle_rel(*old(self), *final(self), user_events@, r@),
    {
        let _ = key;
        let n = user_events.len();
        let mut i: usize = 0;
        while i < n
            invariant
                self == old(self),
                n == user_events@.len(),
                i <= n,
                forall|t: int|
                    0 <= t < i ==> !((#[trigger] user_events@[t]) is Close) && !(user_events@[t]
                        is Help),
            decreases n - i,
        {
            match user_events[i] {
                UserEvent::Close | UserEvent::Help => {
                    let mut out: Vec<AppEvent> = Vec::new();
                    out.push(AppEvent::BackToBeforeView);
                    return out;
                },
                _ => {},
            }
            i += 1;
        }
        Vec::new()
    }
}

/// The table list screen: the fetched table names, the descriptions already
/// loaded for them, a scroll list over the filtered names, a detail preview
/// viewport and the quick-filter machine over the names.
pub struct TableListView {
    pub tables: Vec<Table>,
    pub table_descriptions: Vec<(String, TableDescription)>,
    pub config: UiTableListConfig,
    pub list_state: ScrollListState,
    pub scroll_lines_state: ScrollLinesState,
    pub filter_state: FilterState,
    pub filter_input: FilterInput,
    pub view_indices: Vec<usize>,
    pub focused: Focused,
    pub preview_type: PreviewType,
    pub detail_width: usize,
    pub detail_height: usize,
    pub list_helps: Vec<crate::event::HelpItem>,
    pub list_filtered_helps: Vec<crate::event::HelpItem>,
    pub detail_helps: Vec<crate::event::HelpItem>,
    pub list_short_helps: Vec<crate::event::ShortHelpItem>,
    pub list_filtered_short_helps: Vec<crate::event::ShortHelpItem>,
    pub detail_short_helps: Vec<crate::event::ShortHelpItem>,
}

fn table_name_strings(tables: &Vec<Table>) -> (r: Vec<String>)
    ensures
        r@.len() == tables@.len(),
        forall|i: int| 0 <= i < r@.len() ==> (#[trigger] r@[i])@ == tables@[i].name@,
{
    let n = tables.len();
    let mut out: Vec<String> = Vec::new();
    let mut i: usize = 0;
    while i < n
        invariant
            n == tables@.len(),
            i <= n,
            out@.len() == i,
            forall|t: int| 0 <= t < i ==> (#[trigger] out@[t])@ == tables@[t].name@,
        decreases n - i,
    {
        out.push(tables[i].name.clone());
        i += 1;
    }
    out
}

fn help_item(event: UserEvent, description: &str) -> (r: crate::event::HelpItem) {
    crate::event::HelpItem { event, description: text(description) }
}

fn short_single(event: UserEvent, label: &str, priority: u8) -> (r: crate::event::ShortHelpItem) {
    let mut events: Vec<UserEvent> = Vec::new();
    events.push(event);
    crate::event::ShortHelpItem { events, label: text(label), priority }
}

fn short_pair(e1: UserEvent, e2: UserEvent, label: &str, priority: u8) -> (r:
    crate::event::ShortHelpItem) {
    let mut events: Vec<UserEvent> = Vec::new();
    events.push(e1);
    events.push(e2);
    crate::event::ShortHelpItem { events, label: text(label), priority }
}

impl TableListView {
    /// The names of all tables, in their fetched order.
    pub open spec fn table_names(self) -> Seq<Seq<char>> {
        Seq::new(self.tables@.len(), |i: int| self.tables@[i].name@)
    }

    pub open spec fn wf(self) -> bool {
        &&& self.filter_input.wf()
        &&& self.list_state.wf()
        &&& self.list_state.window_ok()
        &&& self.list_state.spec_total() == self.view_indices@.len()
        &&& forall|t: int|
            0 <= t < self.view_indices@.len() ==> (#[trigger] self.view_indices@[t])
                < self.tables@.len()
        &&& self.scroll_lines_state.wf()
    }

    /// The view indices are exactly what the current filter buffer selects.
    pub open spec fn filter_current(self) -> bool {
        self.view_indices@ == filter_view(self.table_names(), self.filter_input.chars@)
    }

    /// A description for table `name` has been cached.
    pub open spec fn has_description(self, name: Seq<char>) -> bool {
        exists|i: int|
            0 <= i < self.table_descriptions@.len() && (
            #[trigger] self.table_descriptions@[i]).0@ == name
    }


    /// Everything except the list selection state is unchanged.
    pub open spec fn same_but_list(pre: TableListView, post: TableListView) -> bool {
        &&& post.tables@ == pre.tables@
        &&& post.table_descriptions@ == pre.table_descriptions@
        &&& post.view_indices@ == pre.view_indices@
        &&& post.filter_state == pre.filter_state
        &&& post.filter_input == pre.filter_input
        &&& post.focused == pre.focused
        &&& post.preview_type == pre.preview_type
        &&& post.scroll_lines_state == pre.scroll_lines_state
    }

    /// Everything except the detail viewport is unchanged.
    pub open spec fn same_but_detail(pre: TableListView, post: TableListView) -> bool {
        &&& post.tables@ == pre.tables@
        &&& post.table_descriptions@ == pre.table_descriptions@
        &&& post.view_indices@ == pre.view_indices@
        &&& post.filter_state == pre.filter_state
        &&& post.filter_input == pre.filter_input
        &&& post.focused == pre.focused
        &&& post.preview_type == pre.preview_type
        &&& post.list_state == pre.list_state
    }

    /// Everything except the focused pane is unchanged.
    pub open spec fn same_but_focus(pre: TableListView, post: TableListView) -> bool {
        &&& post.tables@ == pre.tables@
        &&& post.table_descriptions@ == pre.table_descriptions@
        &&& post.view_indices@ == pre.view_indices@
        &&& post.filter_state == pre.filter_state
        &&& post.filter_input == pre.filter_input
        &&& post.preview_type == pre.preview_type
        &&& post.list_state == pre.list_state
        &&& post.scroll_lines_state == pre.scroll_lines_state
    }

    /// Everything except the preview choice is unchanged.
    pub open spec fn same_but_preview(pre: TableListView, post: TableListView) -> bool {
        &&& post.tables@ == pre.tables@
        &&& post.table_descriptions@ == pre.table_descriptions@
        &&& post.view_indices@ == pre.view_indices@
        &&& post.filter_state == pre.filter_state
        &&& post.filter_input == pre.filter_input
        &&& post.focused == pre.focused
        &&& post.list_state == pre.list_state
        &&& post.scroll_lines_state == pre.scroll_lines_state
    }

    /// The intents a selection change emits: a description request exactly
    /// when the newly selected table has none cached, then a preview refresh.
    pub open spec fn selection_events(post: TableListView, r: Seq<AppEvent>) -> bool {
        &&& r.len() >= 1
        &&& r.last() is RefreshPreview
        &&& if post.list_state.selected < post.view_indices@.len() && !post.has_description(
            post.selected_name(),
        ) {
            r.len() == 2 && (r[0] matches AppEvent::LoadTableDescription(n) && n@
                == post.selected_name())
        } else {
            r.len() == 1
        }
    }

    /// The outcome of confirming the filter: a non-empty buffer stays
    /// applied, an empty one returns to rest, zero matches roll the filter
    /// back to the identity view, and the live query leaves the status line.
    pub open spec fn apply_outcome(pre: TableListView, post: TableListView, r: Seq<AppEvent>) -> bool {
        &&& post.tables@ == pre.tables@
        &&& post.table_descriptions@ == pre.table_descriptions@
        &&& post.filter_current()
        &&& (pre.view_indices@.len() > 0 ==> post.filter_state == (
        if pre.filter_input.chars@.len() == 0 {
            FilterState::Idle
        } else {
            FilterState::Applied
        }))
        &&& (pre.view_indices@.len() == 0 ==> {
            &&& post.filter_state is Idle
            &&& post.filter_input.chars@ == Seq::<char>::empty()
            &&& post.view_indices@ == Seq::new(pre.tables@.len(), |i: int| i as usize)
        })
        &&& r.len() == 1 && r[0] is ClearStatus
    }

    /// The outcome of cancelling the filter: the buffer cleared, the identity
    /// view restored, the previously selected row mapped back to its absolute
    /// index, and the status line cleared; at rest nothing happens.
    pub open spec fn reset_outcome(pre: TableListView, post: TableListView, r: Seq<AppEvent>) -> bool {
        if pre.filter_state is Idle {
            post == pre && r.len() == 0
        } else {
            &&& post.tables@ == pre.tables@
            &&& post.table_descriptions@ == pre.table_descriptions@
            &&& post.filter_state is Idle
            &&& post.filter_current()
            &&& post.filter_input.chars@ == Seq::<char>::empty()
            &&& post.view_indices@ == Seq::new(pre.tables@.len(), |i: int| i as usize)
            &&& (pre.list_state.selected < pre.view_indices@.len() ==> post.list_state.selected
                == pre.view_indices@[pre.list_state.selected as int])
            &&& r.len() == 1 && r[0] is ClearStatus
        }
    }

    /// Recomputes the view indices from the full table list and the current
    /// filter buffer, and rebinds the scroll list to the match count.
    fn filter_view_indices(&mut self)
        requires
            old(self).wf(),
        ensures
            final(self).wf(),
            final(self).filter_current(),
            final(self).tables@ == old(self).tables@,
            final(self).table_descriptions@ == old(self).table_descriptions@,
            final(self).filter_state == old(self).filter_state,
            final(self).filter_input == old(self).filter_input,
            final(self).focused == old(self).focused,
            final(self).preview_type == old(self).preview_type,
            final(self).scroll_lines_state == old(self).scroll_lines_state,
            final(self).list_state.selected == 0,
            final(self).list_state.offset == 0,
            final(self).list_state.spec_height() == old(self).list_state.spec_height(),
            final(self).filter_input.chars@.len() == 0 ==> final(self).view_indices@ == Seq::new(
                old(self).tables@.len(),
                |i: int| i as usize,
            ),
    {
        let names = table_name_strings(&self.tables);
        let nn = names.len();
        let q = self.filter_input.value();
        let idx = filter_indices(&names, q.as_str());
        proof {
            assert(names.deep_view() =~= self.table_names());
            lemma_filtered_prefix_len(self.table_names(), q@, self.table_names().len() as int);
            lemma_filtered_prefix_elems(self.table_names(), q@, self.table_names().len() as int);
        }
        self.view_indices = idx;
        self.list_state = self.list_state.with_new_total(self.view_indices.len());
    }

    /// Records the text pane area of the detail viewport, for page scrolling.
    pub fn set_detail_area(&mut self, width: usize, height: usize)
        requires
            old(self).wf(),
        ensures
            final(self).wf(),
            final(self).detail_width == width,
            final(self).detail_height == height,
    {
        self.detail_width = width;
        self.detail_height = height;
    }

    /// The name of the table under the selection, through the view indices.
    pub open spec fn selected_name(self) -> Seq<char> {
        self.tables@[self.view_indices@[self.list_state.selected as int] as int].name@
    }

    /// The name under the selection, through the filter's view indices.
    pub fn current_selected_table_name(&self) -> (r: Option<String>)
        requires
            self.wf(),
        ensures
            match r {
                Some(n) => self.list_state.selected < self.view_indices@.len() && n@
                    == self.selected_name(),
                None => self.list_state.selected >= self.view_indices@.len(),
            },
    {
        if self.list_state.selected < self.view_indices.len() {
            let i = self.view_indices[self.list_state.selected];
            Some(self.tables[i].name.clone())
        } else {
            None
        }
    }

    /// Asks for the selected table's description, exactly when a row is
    /// selected and its description is not already cached.
    pub fn load_table_description(&self) -> (r: Vec<AppEvent>)
        requires
            self.wf(),
        ensures
            r@.len() <= 1,
            (r@.len() == 1) == (self.list_state.selected < self.view_indices@.len()
                && !self.has_description(self.selected_name())),
            r@.len() == 1 ==> (r@[0] matches AppEvent::LoadTableDescription(n) && n@
                == self.selected_name()),
    {
        let mut out: Vec<AppEvent> = Vec::new();
        match self.current_selected_table_name() {
            Some(name) => {
                if !self.has_description_for(&name) {
                    out.push(AppEvent::LoadTableDescription(name));
                }
            },
            None => {},
        }
        out
    }

    fn has_description_for(&self, name: &String) -> (r: bool)
        ensures
            r == self.has_description(name@),
    {
        let n = self.table_descriptions.len();
        let mut i: usize = 0;
        while i < n
            invariant
                n == self.table_descriptions@.len(),
                i <= n,
                forall|t: int| 0 <= t < i ==> (#[trigger] self.table_descriptions@[t]).0@ != name@,
            decreases n - i,
        {
            if self.table_descriptions[i].0.eq(name) {
                return true;
            }
            i += 1;
        }
        false
    }

    fn find_description_index(&self, name: &String) -> (r: Option<usize>)
        ensures
            match r {
                Some(i) => i < self.table_descriptions@.len() && self.table_descriptions@[
                    i as int].0@ == name@,
                None => !self.has_description(name@),
            },
    {
        let n = self.table_descriptions.len();
        let mut i: usize = 0;
        while i < n
            invariant
                n == self.table_descriptions@.len(),
                i <= n,
                forall|t: int| 0 <= t < i ==> (#[trigger] self.table_descriptions@[t]).0@ != name@,
            decreases n - i,
        {
            if self.table_descriptions[i].0.eq(name) {
                return Some(i);
            }
            i += 1;
        }
        None
    }

    /// Caches a freshly loaded description under its table name, replacing any
    /// earlier one, and asks for the preview to be rebuilt.
    pub fn set_table_description(&mut self, desc: TableDescription) -> (r: Vec<AppEvent>)
        requires
            old(self).wf(),
        ensures
            final(self).wf(),
            final(self).has_description(desc.table_name@),
            final(self).tables@ == old(self).tables@,
            final(self).view_indices@ == old(self).view_indices@,
            final(self).list_state == old(self).list_state,
            final(self).filter_state == old(self).filter_state,
            final(self).filter_input == old(self).filter_input,
            r@.len() == 1 && r@[0] is RefreshPreview,
    {
        let name = desc.table_name.clone();
        match self.find_description_index(&name) {
            Some(i) => {
                self.table_descriptions.set(i, (name, desc));
                assert(self.table_descriptions@[i as int].0@ == desc.table_name@);
            },
            None => {
                self.table_descriptions.push((name, desc));
                assert(self.table_descriptions@[self.table_descriptions@.len() - 1].0@
                    == desc.table_name@);
            },
        }
        let mut out: Vec<AppEvent> = Vec::new();
        out.push(AppEvent::RefreshPreview);
        out
    }

    /// Installs the preview lines the caller rendered for the current
    /// selection, keeping the viewport's display options.
    pub fn set_preview_lines(&mut self, lines: Vec<String>)
        requires
            old(self).wf(),
        ensures
            final(self).wf(),
            final(self).scroll_lines_state.wf(),
            final(self).scroll_lines_state.spec_lines() == lines.deep_view(),
            final(self).scroll_lines_state.options == old(self).scroll_lines_state.options,
            final(self).tables@ == old(self).tables@,
            final(self).view_indices@ == old(self).view_indices@,
            final(self).list_state == old(self).list_state,
            final(self).filter_state == old(self).filter_state,
            final(self).filter_input == old(self).filter_input,
    {
        let options = self.scroll_lines_state.current_options();
        self.scroll_lines_state = ScrollLinesState::new(lines, options);
    }

    /// The status-line text of the live query: a slash, the buffer, and the
    /// cursor placed after the slash.
    fn update_status_input(&self) -> (r: Vec<AppEvent>)
        requires
            self.filter_input.wf(),
        ensures
            r@.len() == 1,
            r@[0] matches AppEvent::UpdateStatusInput(s, c) && s@ == "/"@
                + self.filter_input.chars@ && c == Some(
                if self.filter_input.cursor < usize::MAX {
                    (self.filter_input.cursor + 1) as usize
                } else {
                    usize::MAX
                },
            ),
    {
        let mut s = text("/");
        let v = self.filter_input.value();
        s.append(v.as_str());
        let cursor: usize = if self.filter_input.cursor < usize::MAX {
            self.filter_input.cursor + 1
        } else {
            usize::MAX
        };
        let mut out: Vec<AppEvent> = Vec::new();
        out.push(AppEvent::UpdateStatusInput(s, Some(cursor)));
        out
    }

    /// Enters filter editing from rest or from an applied filter, starting
    /// with a cleared buffer; a second activation while editing does nothing.
    pub fn start_filtering(&mut self) -> (r: Vec<AppEvent>)
        requires
            old(self).wf(),
        ensures
            final(self).wf(),
            old(self).filter_state is Editing ==> *final(self) == *old(self) && r@.len() == 0,
            !(old(self).filter_state is Editing) ==> {
                &&& final(self).filter_state is Editing
                &&& final(self).filter_input.chars@ == Seq::<char>::empty()
                &&& final(self).filter_input.cursor == 0
                &&& final(self).tables@ == old(self).tables@
                &&& final(self).table_descriptions@ == old(self).table_descriptions@
                &&& final(self).view_indices@ == old(self).view_indices@
                &&& final(self).list_state == old(self).list_state
                &&& final(self).focused == old(self).focused
                &&& final(self).preview_type == old(self).preview_type
                &&& final(self).scroll_lines_state == old(self).scroll_lines_state
                &&& r@.len() == 1 && (r@[0] matches AppEvent::UpdateStatusInput(s, c) && s@ == "/"@
                    && c == Some(1usize))
            },
    {
        match self.filter_state {
            FilterState::Editing => Vec::new(),
            _ => {
                self.filter_input.reset();
                self.filter_state = FilterState::Editing;
                proof {
                    assert("/"@ + self.filter_input.chars@ =~= "/"@);
                }
                self.update_status_input()
            },
        }
    }

    /// One filter keystroke: edits the buffer, refilters the names from
    /// scratch, rebinds the list and republishes the live query.
    pub fn update_filter(&mut self, key: KeyInput) -> (r: Vec<AppEvent>)
        requires
            old(self).wf(),
        ensures
            final(self).wf(),
            final(self).filter_current(),
            final(self).tables@ == old(self).tables@,
            final(self).table_descriptions@ == old(self).table_descriptions@,
            final(self).filter_state == old(self).filter_state,
            final(self).focused == old(self).focused,
            final(self).preview_type == old(self).preview_type,
            final(self).list_state.selected == 0,
            FilterInput::apply_rel(old(self).filter_input, final(self).filter_input, key),
            r@.len() == 1 && (r@[0] matches AppEvent::UpdateStatusInput(s, c) && s@ == "/"@
                + final(self).filter_input.chars@),
    {
        self.filter_input.apply_key(key);
        self.filter_view_indices();
        self.update_status_input()
    }

    /// Confirms the filter: a non-empty buffer stays applied, an empty buffer
    /// drops back to rest; zero matches roll the filter back entirely.
    pub fn apply_filter(&mut self) -> (r: Vec<AppEvent>)
        requires
            old(self).wf(),
        ensures
            final(self).wf(),
            Self::apply_outcome(*old(self), *final(self), r@),
    {
        if self.filter_input.is_empty() {
            self.filter_state = FilterState::Idle;
        } else {
            self.filter_state = FilterState::Applied;
        }
        if self.view_indices.len() == 0 {
            let out = self.reset_filter_force();
            return out;
        }
        self.filter_view_indices();
        let mut out: Vec<AppEvent> = Vec::new();
        out.push(AppEvent::ClearStatus);
        out
    }

    /// Cancels any filtering: clears the buffer, restores the identity view,
    /// and maps the previously selected row back to its absolute index.
    pub fn reset_filter(&mut self) -> (r: Vec<AppEvent>)
        requires
            old(self).wf(),
        ensures
            final(self).wf(),
            Self::reset_outcome(*old(self), *final(self), r@),
    {
        match self.filter_state {
            FilterState::Idle => Vec::new(),
            _ => self.reset_filter_force(),
        }
    }

    fn reset_filter_force(&mut self) -> (r: Vec<AppEvent>)
        requires
            old(self).wf(),
        ensures
            final(self).wf(),
            final(self).tables@ == old(self).tables@,
            final(self).table_descriptions@ == old(self).table_descriptions@,
            final(self).filter_state is Idle,
            final(self).filter_current(),
            final(self).filter_input.chars@ == Seq::<char>::empty(),
            final(self).view_indices@ == Seq::new(old(self).tables@.len(), |i: int| i as usize),
            old(self).list_state.selected < old(self).view_indices@.len() ==> final(self).list_state.selected == old(self).view_indices@[old(self).list_state.selected as int],
            r@.len() == 1 && r@[0] is ClearStatus,
    {
        self.filter_input.reset();
        self.filter_state = FilterState::Idle;
        let orig: Option<usize> = if self.list_state.selected < self.view_indices.len() {
            Some(self.view_indices[self.list_state.selected])
        } else {
            None
        };
        self.filter_view_indices();
        match orig {
            Some(ix) => {
                self.list_state.select_index(ix);
            },
            None => {},
        }
        let mut out: Vec<AppEvent> = Vec::new();
        out.push(AppEvent::ClearStatus);
        out
    }



    /// Intents the list pane does not react to.
    pub open spec fn list_ignores(e: UserEvent) -> bool {
        !(e is Down || e is Up || e is PageDown || e is PageUp || e is GoToBottom || e is GoToTop
            || e is QuickFilter || e is Reset || e is NextPane || e is NextPreview
            || e is PrevPreview || e is Confirm || e is CopyToClipboard || e is Help)
    }

    /// Intents the detail pane does not react to.
    pub open spec fn detail_ignores(e: UserEvent) -> bool {
        !(e is Down || e is Up || e is PageDown || e is PageUp || e is GoToTop || e is GoToBottom
            || e is Right || e is Left || e is NextPane || e is NextPreview || e is PrevPreview
            || e is ToggleWrap || e is ToggleNumber || e is CopyToClipboard || e is Help)
    }

    /// How one key press drives the screen. While the filter is being edited
    /// the raw key feeds the buffer and a lone confirm or cancel intent ends
    /// the editing; otherwise a lone intent drives the focused pane exactly
    /// as the widget operation it names, emitting the screen's intents.
    pub open spec fn handle_rel(
        pre: TableListView,
        post: TableListView,
        user_events: Seq<UserEvent>,
        key: KeyInput,
        r: Seq<AppEvent>,
    ) -> bool {
        &&& post.tables@ == pre.tables@
        &&& post.table_descriptions@ == pre.table_descriptions@
        &&& if pre.filter_state is Editing {
            &&& (user_events.len() == 1 && user_events[0] is Confirm ==> Self::apply_outcome(
                pre,
                post,
                r,
            ))
            &&& (user_events.len() == 1 && user_events[0] is Reset ==> Self::reset_outcome(
                pre,
                post,
                r,
            ))
            &&& ((forall|i: int|
                0 <= i < user_events.len() ==> !((#[trigger] user_events[i]) is Confirm) && !(
                user_events[i] is Reset)) ==> {
                &&& FilterInput::apply_rel(pre.filter_input, post.filter_input, key)
                &&& post.filter_state == pre.filter_state
                &&& post.filter_current()
                &&& post.list_state.selected == 0
                &&& r.len() >= 2
                &&& (r[0] matches AppEvent::UpdateStatusInput(st, _) && st@ == "/"@
                    + post.filter_input.chars@)
                &&& r.last() is RefreshPreview
            })
        } else {
            user_events.len() == 1 ==> if pre.focused is List {
                match user_events[0] {
                    UserEvent::Down => ScrollListState::next_rel(pre.list_state, post.list_state)
                        && Self::same_but_list(pre, post) && Self::selection_events(post, r),
                    UserEvent::Up => ScrollListState::prev_rel(pre.list_state, post.list_state)
                        && Self::same_but_list(pre, post) && Self::selection_events(post, r),
                    UserEvent::PageDown => ScrollListState::next_page_rel(
                        pre.list_state,
                        post.list_state,
                    ) && Self::same_but_list(pre, post) && Self::selection_events(post, r),
                    UserEvent::PageUp => ScrollListState::prev_page_rel(
                        pre.list_state,
                        post.list_state,
                    ) && Self::same_but_list(pre, post) && Self::selection_events(post, r),
                    UserEvent::GoToTop => ScrollListState::first_rel(
                        pre.list_state,
                        post.list_state,
                    ) && Self::same_but_list(pre, post) && Self::selection_events(post, r),
                    UserEvent::GoToBottom => ScrollListState::last_rel(
                        pre.list_state,
                        post.list_state,
                    ) && Self::same_but_list(pre, post) && Self::selection_events(post, r),
                    UserEvent::QuickFilter => {
                        &&& post.filter_state is Editing
                        &&& post.filter_input.chars@ == Seq::<char>::empty()
                        &&& post.view_indices@ == pre.view_indices@
                        &&& post.list_state == pre.list_state
                        &&& r.len() == 1
                        &&& (r[0] matches AppEvent::UpdateStatusInput(st, c) && st@ == "/"@ && c
                            == Some(1usize))
                    },
                    UserEvent::Reset => Self::reset_outcome(pre, post, r),
                    UserEvent::NextPane => post.focused is Detail && Self::same_but_focus(
                        pre,
                        post,
                    ) && r.len() == 0,
                    UserEvent::NextPreview => (pre.preview_type is KeyValue
                        <==> post.preview_type is Json) && Self::same_but_preview(pre, post)
                        && r.len() == 1 && r[0] is RefreshPreview,
                    UserEvent::PrevPreview => (pre.preview_type is KeyValue
                        <==> post.preview_type is Json) && Self::same_but_preview(pre, post)
                        && r.len() == 1 && r[0] is RefreshPreview,
                    UserEvent::Confirm => post == pre && r.len() <= 1 && (r.len() == 1) == (
                    pre.list_state.selected < pre.view_indices@.len() && pre.has_description(
                        pre.selected_name(),
                    )) && (r.len() == 1 ==> (r[0] matches AppEvent::LoadTableItems(n, _) && n@
                        == pre.selected_name())),
                    UserEvent::CopyToClipboard => post == pre && (r.len() == 1) == (
                    pre.list_state.selected < pre.view_indices@.len()) && (r.len() == 1 ==> (
                    r[0] matches AppEvent::CopyToClipboard(_, n) && n@ == pre.selected_name())),
                    UserEvent::Help => post == pre && r.len() == 1 && r[0] is OpenHelp,
                    _ => post == pre && r.len() == 0,
                }
            } else {
                match user_events[0] {
                    UserEvent::Down => ScrollLinesState::forward_rel(
                        pre.scroll_lines_state,
                        post.scroll_lines_state,
                    ) && Self::same_but_detail(pre, post) && r.len() == 0,
                    UserEvent::Up => ScrollLinesState::backward_rel(
                        pre.scroll_lines_state,
                        post.scroll_lines_state,
                    ) && Self::same_but_detail(pre, post) && r.len() == 0,
                    UserEvent::PageDown => ScrollLinesState::page_forward_rel(
                        pre.scroll_lines_state,
                        post.scroll_lines_state,
                        pre.detail_width as nat,
                        pre.detail_height as nat,
                    ) && Self::same_but_detail(pre, post) && r.len() == 0,
                    UserEvent::PageUp => ScrollLinesState::page_backward_rel(
                        pre.scroll_lines_state,
                        post.scroll_lines_state,
                        pre.detail_width as nat,
                        pre.detail_height as nat,
                    ) && Self::same_but_detail(pre, post) && r.len() == 0,
                    UserEvent::GoToTop => ScrollLinesState::top_rel(
                        pre.scroll_lines_state,
                        post.scroll_lines_state,
                    ) && Self::same_but_detail(pre, post) && r.len() == 0,
                    UserEvent::GoToBottom => ScrollLinesState::end_rel(
                        pre.scroll_lines_state,
                        post.scroll_lines_state,
                    ) && Self::same_but_detail(pre, post) && r.len() == 0,
                    UserEvent::Right => ScrollLinesState::right_rel(
                        pre.scroll_lines_state,
                        post.scroll_lines_state,
                    ) && Self::same_but_detail(pre, post) && r.len() == 0,
                    UserEvent::Left => ScrollLinesState::left_rel(
                        pre.scroll_lines_state,
                        post.scroll_lines_state,
                    ) && Self::same_but_detail(pre, post) && r.len() == 0,
                    UserEvent::ToggleWrap => ScrollLinesState::toggle_wrap_rel(
                        pre.scroll_lines_state,
                        post.scroll_lines_state,
                    ) && Self::same_but_detail(pre, post) && r.len() == 0,
                    UserEvent::ToggleNumber => ScrollLinesState::toggle_number_rel(
                        pre.scroll_lines_state,
                        post.scroll_lines_state,
                    ) && Self::same_but_detail(pre, post) && r.len() == 0,
                    UserEvent::NextPane => post.focused is List && Self::same_but_focus(pre, post)
                        && r.len() == 0,
                    UserEvent::NextPreview => (pre.preview_type is KeyValue
                        <==> post.preview_type is Json) && Self::same_but_preview(pre, post)
                        && r.len() == 1 && r[0] is RefreshPreview,
                    UserEvent::PrevPreview => (pre.preview_type is KeyValue
                        <==> post.preview_type is Json) && Self::same_but_preview(pre, post)
                        && r.len() == 1 && r[0] is RefreshPreview,
                    UserEvent::CopyToClipboard => post == pre && r.len() == 1 && (
                    r[0] matches AppEvent::CopyToClipboard(_, content) && content@
                        == crate::scroll_lines::join_lines(
                        pre.scroll_lines_state.lines.deep_view(),
                    )),
                    UserEvent::Help => post == pre && r.len() == 1 && r[0] is OpenHelp,
                    _ => post == pre && r.len() == 0,
                }
            }
        }
    }

    /// Routes one decoded key press: while editing a filter the raw key feeds
    /// the buffer, otherwise the first recognised intent drives the focused
    /// pane or the filter machine.
    pub fn handle_user_key_event(&mut self, user_events: &Vec<UserEvent>, key: KeyInput) -> (r:
        Vec<AppEvent>)
        requires
            old(self).wf(),
        ensures
            final(self).wf(),
            Self::handle_rel(*old(self), *final(self), user_events@, key, r@),
    {
        if matches!(self.filter_state, FilterState::Editing) {
            let n = user_events.len();
            let mut i: usize = 0;
            while i < n
                invariant
                    self.wf(),
                    self == old(self),
                    old(self).filter_state is Editing,
                    n == user_events@.len(),
                    i <= n,
                    forall|t: int|
                        0 <= t < i ==> !((#[trigger] user_events@[t]) is Confirm) && !(
                        user_events@[t] is Reset),
                decreases n - i,
            {
                match user_events[i] {
                    UserEvent::Confirm => {
                        return self.apply_filter();
                    },
                    UserEvent::Reset => {
                        return self.reset_filter();
                    },
                    _ => {},
                }
                i += 1;
            }
            let mut out = self.update_filter(key);
            let mut more = self.load_table_description();
            out.append(&mut more);
            out.push(AppEvent::RefreshPreview);
            return out;
        }
        let n = user_events.len();
        let mut i: usize = 0;
        while i < n
            invariant
                self.wf(),
                self == old(self),
                !(old(self).filter_state is Editing),
                n == user_events@.len(),
                i <= n,
                forall|t: int|
                    0 <= t < i ==> (old(self).focused is List ==> Self::list_ignores(
                        #[trigger] user_events@[t],
                    )) && (old(self).focused is Detail ==> Self::detail_ignores(user_events@[t])),
            decreases n - i,
        {
            match self.focused {
                Focused::List => {
                    match user_events[i] {
                        UserEvent::Down => {
                            self.list_state.select_next();
                            return self.after_selection_change();
                        },
                        UserEvent::Up => {
                            self.list_state.select_prev();
                            return self.after_selection_change();
                        },
                        UserEvent::PageDown => {
                            self.list_state.select_next_page();
                            return self.after_selection_change();
                        },
                        UserEvent::PageUp => {
                            self.list_state.select_prev_page();
                            return self.after_selection_change();
                        },
                        UserEvent::GoToBottom => {
                            self.list_state.select_last();
                            return self.after_selection_change();
                        },
                        UserEvent::GoToTop => {
                            self.list_state.select_first();
                            return self.after_selection_change();
                        },
                        UserEvent::QuickFilter => {
                            return self.start_filtering();
                        },
                        UserEvent::Reset => {
                            return self.reset_filter();
                        },
                        UserEvent::NextPane => {
                            self.focused = self.focused.next();
                            return Vec::new();
                        },
                        UserEvent::NextPreview => {
                            self.preview_type = self.preview_type.next();
                            let mut out: Vec<AppEvent> = Vec::new();
                            out.push(AppEvent::RefreshPreview);
                            return out;
                        },
                        UserEvent::PrevPreview => {
                            self.preview_type = self.preview_type.prev();
                            let mut out: Vec<AppEvent> = Vec::new();
                            out.push(AppEvent::RefreshPreview);
                            return out;
                        },
                        UserEvent::Confirm => {
                            return self.load_table_items();
                        },
                        UserEvent::CopyToClipboard => {
                            return self.copy_table_name_to_clipboard();
                        },
                        UserEvent::Help => {
                            return self.open_help();
                        },
                        _ => {},
                    }
                },
                Focused::Detail => {
                    match user_events[i] {
                        UserEvent::Down => {
                            self.scroll_lines_state.scroll_forward();
                            return Vec::new();
                        },
                        UserEvent::Up => {
                            self.scroll_lines_state.scroll_backward();
                            return Vec::new();
                        },
                        UserEvent::PageDown => {
                            let w = self.detail_width;
                            let h = self.detail_height;
                            self.scroll_lines_state.scroll_page_forward(w, h);
                            return Vec::new();
                        },
                        UserEvent::PageUp => {
                            let w = self.detail_width;
                            let h = self.detail_height;
                            self.scroll_lines_state.scroll_page_backward(w, h);
                            return Vec::new();
                        },
                        UserEvent::GoToTop => {
                            self.scroll_lines_state.scroll_to_top();
                            return Vec::new();
                        },
                        UserEvent::GoToBottom => {
                            self.scroll_lines_state.scroll_to_end();
                            return Vec::new();
                        },
                        UserEvent::Right => {
                            self.scroll_lines_state.scroll_right();
                            return Vec::new();
                        },
                        UserEvent::Left => {
                            self.scroll_lines_state.scroll_left();
                            return Vec::new();
                        },
                        UserEvent::NextPane => {
                            self.focused = self.focused.next();
                            return Vec::new();
                        },
                        UserEvent::NextPreview => {
                            self.preview_type = self.preview_type.next();
                            let mut out: Vec<AppEvent> = Vec::new();
                            out.push(AppEvent::RefreshPreview);
                            return out;
                        },
                        UserEvent::PrevPreview => {
                            self.preview_type = self.preview_type.prev();
                            let mut out: Vec<AppEvent> = Vec::new();
                            out.push(AppEvent::RefreshPreview);
                            return out;
                        },
                        UserEvent::ToggleWrap => {
                            self.scroll_lines_state.toggle_wrap();
                            return Vec::new();
                        },
                        UserEvent::ToggleNumber => {
                            self.scroll_lines_state.toggle_number();
                            return Vec::new();
                        },
                        UserEvent::CopyToClipboard => {
                            return self.copy_table_descriptions_to_clipboard();
                        },
                        UserEvent::Help => {
                            return self.open_help();
                        },
                        _ => {},
                    }
                },
            }
            i += 1;
        }
        Vec::new()
    }

    fn after_selection_change(&mut self) -> (r: Vec<AppEvent>)
        requires
            old(self).wf(),
        ensures
            final(self).wf(),
            *final(self) == *old(self),
            Self::selection_events(*final(self), r@),
    {
        let mut out = self.load_table_description();
        out.push(AppEvent::RefreshPreview);
        out
    }

    /// Asks to open the selected table, exactly when a row is selected and
    /// its description has already been cached.
    pub fn load_table_items(&self) -> (r: Vec<AppEvent>)
        requires
            self.wf(),
        ensures
            r@.len() <= 1,
            (r@.len() == 1) == (self.list_state.selected < self.view_indices@.len()
                && self.has_description(self.selected_name())),
            r@.len() == 1 ==> (r@[0] matches AppEvent::LoadTableItems(n, _) && n@
                == self.selected_name()),
    {
        let mut out: Vec<AppEvent> = Vec::new();
        match self.current_selected_table_name() {
            Some(name) => {
                match self.find_description_index(&name) {
                    Some(i) => {
                        let schema = crate::data::clone_key_schema_type(
                            &self.table_descriptions[i].1.key_schema_type,
                        );
                        out.push(AppEvent::LoadTableItems(name, schema));
                    },
                    None => {},
                }
            },
            None => {},
        }
        out
    }

    fn copy_table_name_to_clipboard(&self) -> (r: Vec<AppEvent>)
        requires
            self.wf(),
        ensures
            r@.len() <= 1,
            (r@.len() == 1) == (self.list_state.selected < self.view_indices@.len()),
            r@.len() == 1 ==> (r@[0] matches AppEvent::CopyToClipboard(label, n) && n@
                == self.selected_name()),
    {
        let mut out: Vec<AppEvent> = Vec::new();
        match self.current_selected_table_name() {
            Some(name) => {
                out.push(AppEvent::CopyToClipboard(text("table name"), name));
            },
            None => {},
        }
        out
    }

    fn copy_table_descriptions_to_clipboard(&self) -> (r: Vec<AppEvent>)
        requires
            self.wf(),
        ensures
            r@.len() == 1,
            r@[0] matches AppEvent::CopyToClipboard(n, content) && content@
                == crate::scroll_lines::join_lines(self.scroll_lines_state.spec_lines()),
    {
        let content = self.scroll_lines_state.raw_content();
        let mut out: Vec<AppEvent> = Vec::new();
        out.push(AppEvent::CopyToClipboard(text("table descriptions"), content));
        out
    }

    fn open_help(&self) -> (r: Vec<AppEvent>)
        ensures
            r@.len() == 1,
            r@[0] is OpenHelp,
    {
        let helps = match self.focused {
            Focused::List => match self.filter_state {
                FilterState::Idle => clone_help_items(&self.list_helps),
                _ => clone_help_items(&self.list_filtered_helps),
            },
            Focused::Detail => clone_help_items(&self.detail_helps),
        };
        let mut out: Vec<AppEvent> = Vec::new();
        out.push(AppEvent::OpenHelp(helps));
        out
    }

    /// The status-line hints of the current mode: filtering and plain list
    /// modes expose different actions, and so does the detail pane.
    pub fn short_helps(&self) -> (r: &Vec<crate::event::ShortHelpItem>)
        ensures
            self.focused is List && self.filter_state is Idle ==> r == &self.list_short_helps,
            self.focused is List && !(self.filter_state is Idle) ==> r
                == &self.list_filtered_short_helps,
            self.focused is Detail ==> r == &self.detail_short_helps,
    {
        match self.focused {
            Focused::List => match self.filter_state {
                FilterState::Idle => &self.list_short_helps,
                _ => &self.list_filtered_short_helps,
            },
            Focused::Detail => &self.detail_short_helps,
        }
    }

    /// Builds the screen over the fetched tables; the returned intents ask for
    /// the first selection's description and preview.
    pub fn new(tables: Vec<Table>, config: UiTableListConfig) -> (r: (TableListView, Vec<AppEvent>))
        ensures
            r.0.wf(),
            r.0.filter_current(),
            r.0.tables@ == tables@,
            r.0.list_state.selected == 0,
            r.0.list_state.offset == 0,
            r.0.filter_state is Idle,
            r.0.focused is List,
            r.0.preview_type is KeyValue,
            Self::selection_events(r.0, r.1@),
    {
        let list_state = ScrollListState::new(0);
        let scroll_lines_state = ScrollLinesState::new(Vec::new(), ScrollLinesOptions::new(false, false));
        let mut view = TableListView {
            tables,
            table_descriptions: Vec::new(),
            config,
            list_state,
            scroll_lines_state,
            filter_state: FilterState::Idle,
            filter_input: FilterInput::new(),
            view_indices: Vec::new(),
            focused: Focused::List,
            preview_type: PreviewType::KeyValue,
            detail_width: 0,
            detail_height: 0,
            list_helps: build_list_helps(),
            list_filtered_helps: build_list_filtered_helps(),
            detail_helps: build_detail_helps(),
            list_short_helps: build_list_short_helps(),
            list_filtered_short_helps: build_list_filtered_short_helps(),
            detail_short_helps: build_detail_short_helps(),
        };
        view.filter_view_indices();
        let mut events = view.load_table_description();
        events.push(AppEvent::RefreshPreview);
        (view, events)
    }
}

fn clone_help_items(items: &Vec<crate::event::HelpItem>) -> (r: Vec<crate::event::HelpItem>)
    ensures
        r@.len() == items@.len(),
{
    let n = items.len();
    let mut out: Vec<crate::event::HelpItem> = Vec::new();
    let mut i: usize = 0;
    while i < n
        invariant
            n == items@.len(),
            i <= n,
            out@.len() == i,
        decreases n - i,
    {
        out.push(crate::event::HelpItem {
            event: items[i].event,
            description: items[i].description.clone(),
        });
        i += 1;
    }
    out
}

fn build_list_helps() -> (r: Vec<crate::event::HelpItem>) {
    let mut v: Vec<crate::event::HelpItem> = Vec::new();
    v.push(help_item(UserEvent::Quit, "Quit app"));
    v.push(help_item(UserEvent::Down, "Select next item"));
    v.push(help_item(UserEvent::Up, "Select prev item"));
    v.push(help_item(UserEvent::GoToTop, "Select first item"));
    v.push(help_item(UserEvent::GoToBottom, "Select last item"));
    v.push(help_item(UserEvent::Confirm, "Open table"));
    v.push(help_item(UserEvent::QuickFilter, "Filter tables"));
    v.push(help_item(UserEvent::NextPane, "Switch to next pane"));
    v.push(help_item(UserEvent::NextPreview, "Switch to next preview"));
    v.push(help_item(UserEvent::PrevPreview, "Switch to prev preview"));
    v.push(help_item(UserEvent::CopyToClipboard, "Copy table name"));
    v
}

fn build_list_filtered_helps() -> (r: Vec<crate::event::HelpItem>) {
    let mut v: Vec<crate::event::HelpItem> = Vec::new();
    v.push(help_item(UserEvent::Quit, "Quit app"));
    v.push(help_item(UserEvent::Down, "Select next item"));
    v.push(help_item(UserEvent::Up, "Select prev item"));
    v.push(help_item(UserEvent::GoToTop, "Select first item"));
    v.push(help_item(UserEvent::GoToBottom, "Select last item"));
    v.push(help_item(UserEvent::Confirm, "Open table"));
    v.push(help_item(UserEvent::Reset, "Clear filter"));
    v.push(help_item(UserEvent::NextPane, "Switch to next pane"));
    v.push(help_item(UserEvent::NextPreview, "Switch to next preview"));
    v.push(help_item(UserEvent::PrevPreview, "Switch to prev preview"));
    v.push(help_item(UserEvent::CopyToClipboard, "Copy table name"));
    v
}

fn build_detail_helps() -> (r: Vec<crate::event::HelpItem>) {
    let mut v: Vec<crate::event::HelpItem> = Vec::new();
    v.push(help_item(UserEvent::Quit, "Quit app"));
    v.push(help_item(UserEvent::Down, "Scroll down"));
    v.push(help_item(UserEvent::Up, "Scroll up"));
    v.push(help_item(UserEvent::PageDown, "Scroll page down"));
    v.push(help_item(UserEvent::PageUp, "Scroll page up"));
    v.push(help_item(UserEvent::GoToTop, "Scroll to top"));
    v.push(help_item(UserEvent::GoToBottom, "Scroll to bottom"));
    v.push(help_item(UserEvent::Right, "Scroll right"));
    v.push(help_item(UserEvent::Left, "Scroll left"));
    v.push(help_item(UserEvent::NextPane, "Switch to next pane"));
    v.push(help_item(UserEvent::NextPreview, "Switch to next preview"));
    v.push(help_item(UserEvent::PrevPreview, "Switch to previous preview"));
    v.push(help_item(UserEvent::ToggleWrap, "Toggle wrap"));
    v.push(help_item(UserEvent::ToggleNumber, "Toggle number"));
    v.push(help_item(UserEvent::CopyToClipboard, "Copy table descriptions"));
    v
}

fn build_list_short_helps() -> (r: Vec<crate::event::ShortHelpItem>) {
    let mut v: Vec<crate::event::ShortHelpItem> = Vec::new();
    v.push(short_single(UserEvent::Quit, "Quit", 0));
    v.push(short_pair(UserEvent::Down, UserEvent::Up, "Select", 2));
    v.push(short_pair(UserEvent::GoToTop, UserEvent::GoToBottom, "Top/Bottom", 7));
    v.push(short_single(UserEvent::Confirm, "Open", 1));
    v.push(short_single(UserEvent::QuickFilter, "Filter", 3));
    v.push(short_single(UserEvent::NextPane, "Switch pane", 4));
    v.push(short_single(UserEvent::NextPreview, "Switch preview", 6));
    v.push(short_single(UserEvent::CopyToClipboard, "Copy", 5));
    v.push(short_single(UserEvent::Help, "Help", 0));
    v
}

fn build_list_filtered_short_helps() -> (r: Vec<crate::event::ShortHelpItem>) {
    let mut v: Vec<crate::event::ShortHelpItem> = Vec::new();
    v.push(short_single(UserEvent::Quit, "Quit", 0));
    v.push(short_pair(UserEvent::Down, UserEvent::Up, "Select", 2));
    v.push(short_pair(UserEvent::GoToTop, UserEvent::GoToBottom, "Top/Bottom", 7));
    v.push(short_single(UserEvent::Confirm, "Open", 1));
    v.push(short_single(UserEvent::Reset, "Clear filter", 3));
    v.push(short_single(UserEvent::NextPane, "Switch pane", 4));
    v.push(short_single(UserEvent::NextPreview, "Switch preview", 6));
    v.push(short_single(UserEvent::CopyToClipboard, "Copy", 5));
    v.push(short_single(UserEvent::Help, "Help", 0));
    v
}

fn build_detail_short_helps() -> (r: Vec<crate::event::ShortHelpItem>) {
    let mut v: Vec<crate::event::ShortHelpItem> = Vec::new();
    v.push(short_single(UserEvent::Quit, "Quit", 0));
    v.push(short_pair(UserEvent::Down, UserEvent::Up, "Scroll", 1));
    v.push(short_pair(UserEvent::GoToTop, UserEvent::GoToBottom, "Top/Bottom", 5));
    v.push(short_single(UserEvent::NextPane, "Switch pane", 2));
    v.push(short_single(UserEvent::NextPreview, "Switch preview", 4));
    v.push(short_pair(UserEvent::ToggleWrap, UserEvent::ToggleNumber, "Toggle wrap/number", 6));
    v.push(short_single(UserEvent::CopyToClipboard, "Copy", 3));
    v.push(short_single(UserEvent::Help, "Help", 0));
    v
}

/// The single-table browser: the table's description, its fully scanned
/// items, the column names in schema order, the 2-D selection state and the
/// expanded-attribute popup viewport.
pub struct TableView {
    pub table_description: TableDescription,
    pub items: Vec<Item>,
    pub attribute_keys: Vec<String>,
    pub config: UiTableConfig,
    pub table_state: TableState,
    pub attr_expanded: bool,
    pub attr_scroll_lines_state: ScrollLinesState,
    pub attr_width: usize,
    pub attr_height: usize,
    pub table_helps: Vec<crate::event::HelpItem>,
    pub attr_helps: Vec<crate::event::HelpItem>,
    pub table_short_helps: Vec<crate::event::ShortHelpItem>,
    pub attr_short_helps: Vec<crate::event::ShortHelpItem>,
}

/// Display width a cell wants: its text's width, or one cell for the
/// placeholder an absent attribute shows.
pub open spec fn cell_width(item: Item, key: Seq<char>) -> nat {
    if item_has_key(item, key) {
        crate::scroll_lines::text_width(crate::data::attr_text_of(item, key))
    } else {
        1
    }
}

/// The widest cell among the items below `upto`, starting from the header's
/// own width.
pub open spec fn col_width_upto(items: Seq<Item>, key: Seq<char>, upto: int, base: nat) -> nat
    decreases upto,
{
    if upto <= 0 {
        base
    } else {
        let prev = col_width_upto(items, key, upto - 1, base);
        let w = cell_width(items[upto - 1], key);
        if w > prev {
            w
        } else {
            prev
        }
    }
}

/// The natural width of the column for `key`: the widest among the header
/// and every cell.
pub open spec fn col_width_of(items: Seq<Item>, key: String) -> nat {
    col_width_upto(items, key@, items.len() as int, crate::scroll_lines::text_width(key@))
}

/// Widths of the table's columns: for each column the widest among the header
/// and the cell texts, capped at the configured attribute width.
fn measure_col_widths(items: &Vec<Item>, keys: &Vec<String>, max_attribute_width: usize) -> (r:
    Vec<usize>)
    ensures
        r@.len() == keys@.len(),
        forall|c: int|
            0 <= c < r@.len() ==> (#[trigger] r@[c]) == if col_width_of(items@, keys@[c])
                > max_attribute_width {
                max_attribute_width as nat
            } else {
                col_width_of(items@, keys@[c])
            },
{
    let ncols = keys.len();
    let mut widths: Vec<usize> = Vec::new();
    let mut c: usize = 0;
    while c < ncols
        invariant
            ncols == keys@.len(),
            c <= ncols,
            widths@.len() == c,
            forall|d: int|
                0 <= d < c ==> (#[trigger] widths@[d]) == if col_width_of(items@, keys@[d])
                    > max_attribute_width {
                    max_attribute_width as nat
                } else {
                    col_width_of(items@, keys@[d])
                },
        decreases ncols - c,
    {
        let mut w = crate::scroll_lines::display_width(keys[c].as_str());
        let nitems = items.len();
        let mut j: usize = 0;
        while j < nitems
            invariant
                nitems == items@.len(),
                j <= nitems,
                c < keys@.len(),
                w == col_width_upto(
                    items@,
                    keys@[c as int]@,
                    j as int,
                    crate::scroll_lines::text_width(keys@[c as int]@),
                ),
            decreases nitems - j,
        {
            match find_attr_index(&items[j], &keys[c]) {
                Some(a) => {
                    proof {
                        crate::data::lemma_attr_text_first(
                            items@[j as int].attributes@,
                            keys@[c as int]@,
                            a as int,
                            0,
                        );
                    }
                    let tw = crate::scroll_lines::display_width(
                        items[j].attributes[a].text.as_str(),
                    );
                    if tw > w {
                        w = tw;
                    }
                },
                None => {
                    if 1 > w {
                        w = 1;
                    }
                },
            }
            j += 1;
        }
        if w > max_attribute_width {
            w = max_attribute_width;
        }
        widths.push(w);
        c += 1;
    }
    widths
}

/// Index of the item's first attribute called `name`, if it carries one.
pub fn find_attr_index(item: &Item, name: &String) -> (r: Option<usize>)
    ensures
        match r {
            Some(a) => a < item.attributes@.len() && item.attributes@[a as int].name@ == name@
                && forall|t: int|
                0 <= t < a ==> (#[trigger] item.attributes@[t]).name@ != name@,
            None => !item_has_key(*item, name@),
        },
{
    let n = item.attributes.len();
    let mut i: usize = 0;
    while i < n
        invariant
            n == item.attributes@.len(),
            i <= n,
            forall|t: int| 0 <= t < i ==> (#[trigger] item.attributes@[t]).name@ != name@,
        decreases n - i,
    {
        if item.attributes[i].name.eq(name) {
            return Some(i);
        }
        i += 1;
    }
    None
}

impl TableView {
    pub open spec fn wf(self) -> bool {
        &&& self.table_state.wf()
        &&& self.table_state.window_ok()
        &&& self.table_state.spec_total_rows() == self.items@.len()
        &&& self.table_state.spec_total_cols() == self.attribute_keys@.len()
        &&& self.attr_scroll_lines_state.wf()
    }

    /// Builds the browser over a loaded table: the columns are every attribute
    /// name occurring in the items, key attributes first, and the widths are
    /// measured from the cell texts.
    pub fn new(table_description: TableDescription, items: Vec<Item>, config: UiTableConfig) -> (r:
        TableView)
        ensures
            r.wf(),
            r.items@ == items@,
            r.table_description == table_description,
            r.config == config,
            r.table_state.selected_row == 0,
            r.table_state.selected_col is None,
            r.attr_expanded == false,
            forall|x: Seq<char>| #[trigger] crate::data::has_name(r.attribute_keys@, x)
                ==> crate::data::some_item_has_key(items@, x),
            forall|x: Seq<char>| #[trigger] crate::data::some_item_has_key(items@, x)
                ==> crate::data::has_name(r.attribute_keys@, x),
            vstd::relations::sorted_by(
                r.attribute_keys@,
                crate::data::key_lt_on(table_description.key_schema_type),
            ),
            r.table_state.spec_col_widths().len() == r.attribute_keys@.len(),
            forall|c: int|
                0 <= c < r.attribute_keys@.len() ==> (#[trigger] r.table_state.spec_col_widths()[c])
                    == if col_width_of(items@, r.attribute_keys@[c]) > config.max_attribute_width {
                    config.max_attribute_width as nat
                } else {
                    col_width_of(items@, r.attribute_keys@[c])
                },
    {
        let attribute_keys = list_attribute_keys(&items, &table_description.key_schema_type);
        let col_widths = measure_col_widths(&items, &attribute_keys, config.max_attribute_width);
        let table_state = TableState::new(items.len(), attribute_keys.len(), col_widths);
        TableView {
            table_description,
            items,
            attribute_keys,
            config,
            table_state,
            attr_expanded: false,
            attr_scroll_lines_state: ScrollLinesState::new(
                Vec::new(),
                ScrollLinesOptions::new(false, false),
            ),
            attr_width: 0,
            attr_height: 0,
            table_helps: build_table_helps(),
            attr_helps: build_attr_helps(),
            table_short_helps: build_table_short_helps(),
            attr_short_helps: build_attr_short_helps(),
        }
    }

    /// Records the text pane area of the popup viewport, for page scrolling.
    pub fn set_attr_area(&mut self, width: usize, height: usize)
        requires
            old(self).wf(),
        ensures
            final(self).wf(),
            final(self).attr_width == width,
            final(self).attr_height == height,
    {
        self.attr_width = width;
        self.attr_height = height;
    }

    /// Installs the popup lines the caller rendered for the selected attribute
    /// and opens the popup.
    pub fn set_expanded_lines(&mut self, lines: Vec<String>)
        requires
            old(self).wf(),
        ensures
            final(self).wf(),
            final(self).attr_expanded,
            final(self).attr_scroll_lines_state.spec_lines() == lines.deep_view(),
            final(self).items@ == old(self).items@,
            final(self).table_state == old(self).table_state,
    {
        let options = self.attr_scroll_lines_state.current_options();
        self.attr_scroll_lines_state = ScrollLinesState::new(lines, options);
        self.attr_expanded = true;
    }


    /// Everything except the 2-D selection state is unchanged.
    pub open spec fn same_but_table(pre: TableView, post: TableView) -> bool {
        &&& post.table_description == pre.table_description
        &&& post.items@ == pre.items@
        &&& post.attribute_keys@ == pre.attribute_keys@
        &&& post.config == pre.config
        &&& post.attr_expanded == pre.attr_expanded
        &&& post.attr_scroll_lines_state == pre.attr_scroll_lines_state
        &&& post.attr_width == pre.attr_width
        &&& post.attr_height == pre.attr_height
    }

    /// Everything except the popup viewport is unchanged.
    pub open spec fn same_but_popup(pre: TableView, post: TableView) -> bool {
        &&& post.table_description == pre.table_description
        &&& post.items@ == pre.items@
        &&& post.attribute_keys@ == pre.attribute_keys@
        &&& post.config == pre.config
        &&& post.table_state == pre.table_state
        &&& post.attr_expanded == pre.attr_expanded
        &&& post.attr_width == pre.attr_width
        &&& post.attr_height == pre.attr_height
    }

    /// Intents the open popup does not react to.
    pub open spec fn popup_ignores(e: UserEvent) -> bool {
        !(e is Close || e is Expand || e is Down || e is Up || e is PageDown || e is PageUp
            || e is GoToTop || e is GoToBottom || e is Right || e is Left || e is ToggleWrap
            || e is ToggleNumber || e is CopyToClipboard || e is Help)
    }

    /// Intents the table does not react to.
    pub open spec fn table_ignores(e: UserEvent) -> bool {
        !(e is Close || e is Down || e is Up || e is PageDown || e is PageUp || e is GoToBottom
            || e is GoToTop || e is GoToLeft || e is GoToRight || e is Right || e is Left
            || e is Widen || e is Narrow || e is Confirm || e is Insight || e is Expand
            || e is CopyToClipboard || e is Help)
    }

    /// How one key press drives the screen. With the popup open, a lone
    /// close or expand intent dismisses it and navigation moves only the
    /// popup viewport, the table selection untouched; otherwise a lone intent
    /// drives the 2-D selection exactly as the widget operation it names, and
    /// close asks to navigate back.
    pub open spec fn handle_rel(
        pre: TableView,
        post: TableView,
        user_events: Seq<UserEvent>,
        r: Seq<AppEvent>,
    ) -> bool {
        &&& post.table_description == pre.table_description
        &&& post.items@ == pre.items@
        &&& post.attribute_keys@ == pre.attribute_keys@
        &&& (pre.attr_expanded ==> post.table_state == pre.table_state)
        &&& (post.attr_expanded ==> pre.attr_expanded)
        &&& (!pre.attr_expanded ==> post.attr_scroll_lines_state == pre.attr_scroll_lines_state)
        &&& (user_events.len() == 1 ==> if pre.attr_expanded {
            match user_events[0] {
                UserEvent::Close => !post.attr_expanded && post.attr_scroll_lines_state
                    == pre.attr_scroll_lines_state && r.len() == 0,
                UserEvent::Expand => !post.attr_expanded && post.attr_scroll_lines_state
                    == pre.attr_scroll_lines_state && r.len() == 0,
                UserEvent::Down => ScrollLinesState::forward_rel(
                    pre.attr_scroll_lines_state,
                    post.attr_scroll_lines_state,
                ) && Self::same_but_popup(pre, post) && r.len() == 0,
                UserEvent::Up => ScrollLinesState::backward_rel(
                    pre.attr_scroll_lines_state,
                    post.attr_scroll_lines_state,
                ) && Self::same_but_popup(pre, post) && r.len() == 0,
                UserEvent::PageDown => ScrollLinesState::page_forward_rel(
                    pre.attr_scroll_lines_state,
                    post.attr_scroll_lines_state,
                    pre.attr_width as nat,
                    pre.attr_height as nat,
                ) && Self::same_but_popup(pre, post) && r.len() == 0,
                UserEvent::PageUp => ScrollLinesState::page_backward_rel(
                    pre.attr_scroll_lines_state,
                    post.attr_scroll_lines_state,
                    pre.attr_width as nat,
                    pre.attr_height as nat,
                ) && Self::same_but_popup(pre, post) && r.len() == 0,
                UserEvent::GoToTop => ScrollLinesState::top_rel(
                    pre.attr_scroll_lines_state,
                    post.attr_scroll_lines_state,
                ) && Self::same_but_popup(pre, post) && r.len() == 0,
                UserEvent::GoToBottom => ScrollLinesState::end_rel(
                    pre.attr_scroll_lines_state,
                    post.attr_scroll_lines_state,
                ) && Self::same_but_popup(pre, post) && r.len() == 0,
                UserEvent::Right => ScrollLinesState::right_rel(
                    pre.attr_scroll_lines_state,
                    post.attr_scroll_lines_state,
                ) && Self::same_but_popup(pre, post) && r.len() == 0,
                UserEvent::Left => ScrollLinesState::left_rel(
                    pre.attr_scroll_lines_state,
                    post.attr_scroll_lines_state,
                ) && Self::same_but_popup(pre, post) && r.len() == 0,
                UserEvent::ToggleWrap => ScrollLinesState::toggle_wrap_rel(
                    pre.attr_scroll_lines_state,
                    post.attr_scroll_lines_state,
                ) && Self::same_but_popup(pre, post) && r.len() == 0,
                UserEvent::ToggleNumber => ScrollLinesState::toggle_number_rel(
                    pre.attr_scroll_lines_state,
                    post.attr_scroll_lines_state,
                ) && Self::same_but_popup(pre, post) && r.len() == 0,
                UserEvent::CopyToClipboard => post == pre && r.len() <= 1,
                UserEvent::Help => post == pre && r.len() == 1 && r[0] is OpenHelp,
                _ => post == pre && r.len() == 0,
            }
        } else {
            match user_events[0] {
                UserEvent::Close => post == pre && r.len() == 1 && r[0] is BackToBeforeView,
                UserEvent::Down => TableState::next_row_rel(pre.table_state, post.table_state)
                    && Self::same_but_table(pre, post) && r.len() == 0,
                UserEvent::Up => TableState::prev_row_rel(pre.table_state, post.table_state)
                    && Self::same_but_table(pre, post) && r.len() == 0,
                UserEvent::PageDown => TableState::next_row_page_rel(
                    pre.table_state,
                    post.table_state,
                ) && Self::same_but_table(pre, post) && r.len() == 0,
                UserEvent::PageUp => TableState::prev_row_page_rel(
                    pre.table_state,
                    post.table_state,
                ) && Self::same_but_table(pre, post) && r.len() == 0,
                UserEvent::GoToBottom => TableState::last_row_rel(
                    pre.table_state,
                    post.table_state,
                ) && Self::same_but_table(pre, post) && r.len() == 0,
                UserEvent::GoToTop => TableState::first_row_rel(
                    pre.table_state,
                    post.table_state,
                ) && Self::same_but_table(pre, post) && r.len() == 0,
                UserEvent::GoToLeft => TableState::first_col_rel(
                    pre.table_state,
                    post.table_state,
                ) && Self::same_but_table(pre, post) && r.len() == 0,
                UserEvent::GoToRight => TableState::last_col_rel(
                    pre.table_state,
                    post.table_state,
                ) && Self::same_but_table(pre, post) && r.len() == 0,
                UserEvent::Right => TableState::next_col_rel(pre.table_state, post.table_state)
                    && Self::same_but_table(pre, post) && r.len() == 0,
                UserEvent::Left => TableState::prev_col_rel(pre.table_state, post.table_state)
                    && Self::same_but_table(pre, post) && r.len() == 0,
                UserEvent::Widen => TableState::widen_rel(pre.table_state, post.table_state)
                    && Self::same_but_table(pre, post) && r.len() == 0,
                UserEvent::Narrow => TableState::narrow_rel(pre.table_state, post.table_state)
                    && Self::same_but_table(pre, post) && r.len() == 0,
                UserEvent::Confirm => post == pre && (r.len() == 1) == (pre.items@.len() > 0) && (
                r.len() == 1 ==> (r[0] matches AppEvent::OpenItem(n, _, item) && n
                    == pre.table_description.table_name && item.attributes@ == pre.items@[
                pre.table_state.selected_row as int].attributes@)),
                UserEvent::Insight => post == pre && r.len() == 1 && (
                r[0] matches AppEvent::OpenTableInsight(ins) && ins.table_name@
                    == pre.table_description.table_name@ && ins.total_items == pre.items@.len()),
                UserEvent::Expand => post == pre && r.len() <= 1 && (r.len() == 1 ==> r[0]
                    is RefreshExpand),
                UserEvent::CopyToClipboard => post == pre && r.len() <= 1,
                UserEvent::Help => post == pre && r.len() == 1 && r[0] is OpenHelp,
                _ => post == pre && r.len() == 0,
            }
        })
    }

    /// Routes one decoded key press: the expanded popup scrolls its own
    /// viewport, otherwise the intents drive the 2-D selection.
    pub fn handle_user_key_event(&mut self, user_events: &Vec<UserEvent>, key: KeyInput) -> (r:
        Vec<AppEvent>)
        requires
            old(self).wf(),
        ensures
            final(self).wf(),
            Self::handle_rel(*old(self), *final(self), user_events@, r@),
    {
        let _ = key;
        let n = user_events.len();
        let mut i: usize = 0;
        while i < n
            invariant
                self.wf(),
                self == old(self),
                n == user_events@.len(),
                i <= n,
                forall|t: int|
                    0 <= t < i ==> (old(self).attr_expanded ==> Self::popup_ignores(
                        #[trigger] user_events@[t],
                    )) && (!old(self).attr_expanded ==> Self::table_ignores(user_events@[t])),
            decreases n - i,
        {
            if self.attr_expanded {
                match user_events[i] {
                    UserEvent::Close | UserEvent::Expand => {
                        self.attr_expanded = false;
                        return Vec::new();
                    },
                    UserEvent::Down => {
                        self.attr_scroll_lines_state.scroll_forward();
                        return Vec::new();
                    },
                    UserEvent::Up => {
                        self.attr_scroll_lines_state.scroll_backward();
                        return Vec::new();
                    },
                    UserEvent::PageDown => {
                        let w = self.attr_width;
                        let h = self.attr_height;
                        self.attr_scroll_lines_state.scroll_page_forward(w, h);
                        return Vec::new();
                    },
                    UserEvent::PageUp => {
                        let w = self.attr_width;
                        let h = self.attr_height;
                        self.attr_scroll_lines_state.scroll_page_backward(w, h);
                        return Vec::new();
                    },
                    UserEvent::GoToTop => {
                        self.attr_scroll_lines_state.scroll_to_top();
                        return Vec::new();
                    },
                    UserEvent::GoToBottom => {
                        self.attr_scroll_lines_state.scroll_to_end();
                        return Vec::new();
                    },
                    UserEvent::Right => {
                        self.attr_scroll_lines_state.scroll_right();
                        return Vec::new();
                    },
                    UserEvent::Left => {
                        self.attr_scroll_lines_state.scroll_left();
                        return Vec::new();
                    },
                    UserEvent::ToggleWrap => {
                        self.attr_scroll_lines_state.toggle_wrap();
                        return Vec::new();
                    },
                    UserEvent::ToggleNumber => {
                        self.attr_scroll_lines_state.toggle_number();
                        return Vec::new();
                    },
                    UserEvent::CopyToClipboard => {
                        return self.copy_to_clipboard();
                    },
                    UserEvent::Help => {
                        return self.open_help();
                    },
                    _ => {},
                }
            } else {
                match user_events[i] {
                    UserEvent::Close => {
                        let mut out: Vec<AppEvent> = Vec::new();
                        out.push(AppEvent::BackToBeforeView);
                        return out;
                    },
                    UserEvent::Down => {
                        self.table_state.select_next_row();
                        return Vec::new();
                    },
                    UserEvent::Up => {
                        self.table_state.select_prev_row();
                        return Vec::new();
                    },
                    UserEvent::PageDown => {
                        self.table_state.select_next_row_page();
                        return Vec::new();
                    },
                    UserEvent::PageUp => {
                        self.table_state.select_prev_row_page();
                        return Vec::new();
                    },
                    UserEvent::GoToBottom => {
                        self.table_state.select_last_row();
                        return Vec::new();
                    },
                    UserEvent::GoToTop => {
                        self.table_state.select_first_row();
                        return Vec::new();
                    },
                    UserEvent::GoToLeft => {
                        self.table_state.select_first_col();
                        return Vec::new();
                    },
                    UserEvent::GoToRight => {
                        self.table_state.select_last_col();
                        return Vec::new();
                    },
                    UserEvent::Right => {
                        self.table_state.select_next_col();
                        return Vec::new();
                    },
                    UserEvent::Left => {
                        self.table_state.select_prev_col();
                        return Vec::new();
                    },
                    UserEvent::Widen => {
                        self.table_state.widen_col();
                        return Vec::new();
                    },
                    UserEvent::Narrow => {
                        self.table_state.narrow_col();
                        return Vec::new();
                    },
                    UserEvent::Confirm => {
                        return self.open_item();
                    },
                    UserEvent::Insight => {
                        return self.open_table_insight();
                    },
                    UserEvent::Expand => {
                        return self.open_expand_selected_attr();
                    },
                    UserEvent::CopyToClipboard => {
                        return self.copy_to_clipboard();
                    },
                    UserEvent::Help => {
                        return self.open_help();
                    },
                    _ => {},
                }
            }
            i += 1;
        }
        Vec::new()
    }

    /// Opens the item screen for the selected row.
    fn open_item(&self) -> (r: Vec<AppEvent>)
        requires
            self.wf(),
        ensures
            (r@.len() == 1) == (self.items@.len() > 0),
            r@.len() == 1 ==> (r@[0] matches AppEvent::OpenItem(n, _, item) && n
                == self.table_description.table_name && item.attributes@ == self.items@[
            self.table_state.selected_row as int].attributes@),
    {
        let mut out: Vec<AppEvent> = Vec::new();
        if self.table_state.selected_row < self.items.len() {
            let item = crate::data::clone_item(&self.items[self.table_state.selected_row]);
            let name = self.table_description.table_name.clone();
            let schema = crate::data::clone_key_schema_type(
                &self.table_description.key_schema_type,
            );
            out.push(AppEvent::OpenItem(name, schema, item));
        }
        out
    }

    /// Opens the aggregate insight report over the loaded items.
    fn open_table_insight(&self) -> (r: Vec<AppEvent>)
        requires
            self.wf(),
        ensures
            r@.len() == 1,
            r@[0] matches AppEvent::OpenTableInsight(ins) && ins.table_name@
                == self.table_description.table_name@ && ins.total_items == self.items@.len(),
    {
        let insight = crate::data::TableInsight::new(&self.table_description, &self.items);
        let mut out: Vec<AppEvent> = Vec::new();
        out.push(AppEvent::OpenTableInsight(insight));
        out
    }

    /// Asks for the raw rendering of the selected cell's attribute, to be
    /// shown in the popup; whole-row mode and absent attributes expand nothing.
    fn open_expand_selected_attr(&self) -> (r: Vec<AppEvent>)
        requires
            self.wf(),
        ensures
            r@.len() <= 1,
            match self.table_state.selected_col {
                Some(c) => {
                    &&& (r@.len() == 1) == (self.table_state.selected_row < self.items@.len() && c
                        < self.attribute_keys@.len() && item_has_key(
                        self.items@[self.table_state.selected_row as int],
                        self.attribute_keys@[c as int]@,
                    ))
                    &&& (r@.len() == 1 ==> (r@[0] matches AppEvent::RefreshExpand(row, k) && row
                        == self.table_state.selected_row && k@ == self.attribute_keys@[
                    c as int]@))
                },
                None => r@.len() == 0,
            },
    {
        let mut out: Vec<AppEvent> = Vec::new();
        match self.table_state.selected_col {
            Some(col) => {
                let row = self.table_state.selected_row;
                if row < self.items.len() && col < self.attribute_keys.len() {
                    let key = self.attribute_keys[col].clone();
                    match find_attr_index(&self.items[row], &key) {
                        Some(_) => {
                            out.push(AppEvent::RefreshExpand(row, key));
                        },
                        None => {},
                    }
                }
            },
            None => {},
        }
        out
    }

    /// Copies the selection: the raw attribute rendering when the popup is
    /// open, the cell's plain text in cell mode, the whole item otherwise.
    fn copy_to_clipboard(&self) -> (r: Vec<AppEvent>)
        requires
            self.wf(),
        ensures
            r@.len() <= 1,
            match self.table_state.selected_col {
                Some(c) => {
                    &&& (self.attr_expanded && r@.len() == 1 ==> r@[0] is RequestCopyAttribute)
                    &&& (!self.attr_expanded && r@.len() == 1 ==> (
                    r@[0] matches AppEvent::CopyToClipboard(_, content) && c
                        < self.attribute_keys@.len() && content@ == crate::data::attr_text_of(
                        self.items@[self.table_state.selected_row as int],
                        self.attribute_keys@[c as int]@,
                    )))
                },
                None => (r@.len() == 1) == (self.table_state.selected_row < self.items@.len()) && (
                r@.len() == 1 ==> (r@[0] matches AppEvent::RequestCopyItem(row) && row
                    == self.table_state.selected_row)),
            },
    {
        let mut out: Vec<AppEvent> = Vec::new();
        let row = self.table_state.selected_row;
        if row >= self.items.len() {
            return out;
        }
        match self.table_state.selected_col {
            Some(col) => {
                if col < self.attribute_keys.len() {
                    let key = self.attribute_keys[col].clone();
                    match find_attr_index(&self.items[row], &key) {
                        Some(a) => {
                            if self.attr_expanded {
                                out.push(AppEvent::RequestCopyAttribute(row, key));
                            } else {
                                proof {
                                    crate::data::lemma_attr_text_first(
                                        self.items@[row as int].attributes@,
                                        key@,
                                        a as int,
                                        0,
                                    );
                                }
                                out.push(
                                    AppEvent::CopyToClipboard(
                                        text("selected attribute"),
                                        self.items[row].attributes[a].text.clone(),
                                    ),
                                );
                            }
                        },
                        None => {},
                    }
                }
            },
            None => {
                out.push(AppEvent::RequestCopyItem(row));
            },
        }
        out
    }

    fn open_help(&self) -> (r: Vec<AppEvent>)
        ensures
            r@.len() == 1,
            r@[0] is OpenHelp,
    {
        let helps = if self.attr_expanded {
            clone_help_items(&self.attr_helps)
        } else {
            clone_help_items(&self.table_helps)
        };
        let mut out: Vec<AppEvent> = Vec::new();
        out.push(AppEvent::OpenHelp(helps));
        out
    }

    /// The status-line hints: the popup and the table expose different actions.
    pub fn short_helps(&self) -> (r: &Vec<crate::event::ShortHelpItem>)
        ensures
            self.attr_expanded ==> r == &self.attr_short_helps,
            !self.attr_expanded ==> r == &self.table_short_helps,
    {
        if self.attr_expanded {
            &self.attr_short_helps
        } else {
            &self.table_short_helps
        }
    }
}

fn build_table_helps() -> (r: Vec<crate::event::HelpItem>) {
    let mut v: Vec<crate::event::HelpItem> = Vec::new();
    v.push(help_item(UserEvent::Quit, "Quit app"));
    v.push(help_item(UserEvent::Close, "Back to table list"));
    v.push(help_item(UserEvent::Down, "Select next row"));
    v.push(help_item(UserEvent::Up, "Select previous row"));
    v.push(help_item(UserEvent::Right, "Select next column"));
    v.push(help_item(UserEvent::Left, "Select previous column"));
    v.push(help_item(UserEvent::PageDown, "Select next page"));
    v.push(help_item(UserEvent::PageUp, "Select previous page"));
    v.push(help_item(UserEvent::GoToTop, "Select first row"));
    v.push(help_item(UserEvent::GoToBottom, "Select last row"));
    v.push(help_item(UserEvent::GoToLeft, "Select first column"));
    v.push(help_item(UserEvent::GoToRight, "Select last column"));
    v.push(help_item(UserEvent::Confirm, "Open selected item"));
    v.push(help_item(UserEvent::Insight, "Open table insight"));
    v.push(help_item(UserEvent::CopyToClipboard, "Copy selected item"));
    v
}

fn build_attr_helps() -> (r: Vec<crate::event::HelpItem>) {
    let mut v: Vec<crate::event::HelpItem> = Vec::new();
    v.push(help_item(UserEvent::Quit, "Quit app"));
    v.push(help_item(UserEvent::Close, "Close expansion"));
    v.push(help_item(UserEvent::Down, "Scroll down"));
    v.push(help_item(UserEvent::Up, "Scroll up"));
    v.push(help_item(UserEvent::PageDown, "Scroll page down"));
    v.push(help_item(UserEvent::PageUp, "Scroll page up"));
    v.push(help_item(UserEvent::GoToTop, "Scroll to top"));
    v.push(help_item(UserEvent::GoToBottom, "Scroll to bottom"));
    v.push(help_item(UserEvent::Right, "Scroll right"));
    v.push(help_item(UserEvent::Left, "Scroll left"));
    v.push(help_item(UserEvent::ToggleWrap, "Toggle wrap"));
    v.push(help_item(UserEvent::ToggleNumber, "Toggle number"));
    v.push(help_item(UserEvent::CopyToClipboard, "Copy selected item"));
    v
}

fn build_table_short_helps() -> (r: Vec<crate::event::ShortHelpItem>) {
    let mut v: Vec<crate::event::ShortHelpItem> = Vec::new();
    v.push(short_single(UserEvent::Quit, "Quit", 0));
    v.push(short_single(UserEvent::Close, "Back", 1));
    v.push(short_pair(UserEvent::Down, UserEvent::Up, "Select row", 4));
    v.push(short_pair(UserEvent::Left, UserEvent::Right, "Select col", 5));
    v.push(short_pair(UserEvent::GoToTop, UserEvent::GoToBottom, "Top/Bottom", 7));
    v.push(short_single(UserEvent::Confirm, "Open", 2));
    v.push(short_single(UserEvent::Insight, "Insight", 3));
    v.push(short_single(UserEvent::CopyToClipboard, "Copy", 6));
    v.push(short_single(UserEvent::Help, "Help", 0));
    v
}

fn build_attr_short_helps() -> (r: Vec<crate::event::ShortHelpItem>) {
    let mut v: Vec<crate::event::ShortHelpItem> = Vec::new();
    v.push(short_single(UserEvent::Quit, "Quit", 0));
    v.push(short_single(UserEvent::Close, "Close", 1));
    v.push(short_pair(UserEvent::Down, UserEvent::Up, "Scroll", 2));
    v.push(short_pair(UserEvent::GoToTop, UserEvent::GoToBottom, "Top/Bottom", 4));
    v.push(short_pair(UserEvent::ToggleWrap, UserEvent::ToggleNumber, "Toggle wrap/number", 5));
    v.push(short_single(UserEvent::CopyToClipboard, "Copy", 3));
    v.push(short_single(UserEvent::Help, "Help", 0));
    v
}

/// The single-item inspector: one item shown as a scrollable text rendering,
/// with three switchable renderings.
pub struct ItemView {
    pub table_name: String,
    pub key_schema_type: KeySchemaType,
    pub item: Item,
    pub key_string: String,
    pub scroll_lines_state: ScrollLinesState,
    pub preview_type: ItemPreviewType,
    pub page_width: usize,
    pub page_height: usize,
    pub helps: Vec<crate::event::HelpItem>,
    pub short_helps: Vec<crate::event::ShortHelpItem>,
}

impl ItemView {
    pub open spec fn wf(self) -> bool {
        self.scroll_lines_state.wf()
    }


    /// Everything except the text viewport is unchanged.
    pub open spec fn same_but_scroll(pre: ItemView, post: ItemView) -> bool {
        &&& post.table_name == pre.table_name
        &&& post.key_schema_type == pre.key_schema_type
        &&& post.item == pre.item
        &&& post.key_string == pre.key_string
        &&& post.preview_type == pre.preview_type
        &&& post.page_width == pre.page_width
        &&& post.page_height == pre.page_height
        &&& post.helps@ == pre.helps@
        &&& post.short_helps@ == pre.short_helps@
    }

    /// Everything except the preview choice is unchanged.
    pub open spec fn same_but_preview(pre: ItemView, post: ItemView) -> bool {
        &&& post.table_name == pre.table_name
        &&& post.key_schema_type == pre.key_schema_type
        &&& post.item == pre.item
        &&& post.key_string == pre.key_string
        &&& post.scroll_lines_state == pre.scroll_lines_state
        &&& post.page_width == pre.page_width
        &&& post.page_height == pre.page_height
        &&& post.helps@ == pre.helps@
        &&& post.short_helps@ == pre.short_helps@
    }

    /// Intents the screen does not react to.
    pub open spec fn item_ignores(e: UserEvent) -> bool {
        !(e is Close || e is Down || e is Up || e is PageDown || e is PageUp || e is GoToTop
            || e is GoToBottom || e is Right || e is Left || e is NextPreview || e is PrevPreview
            || e is ToggleWrap || e is ToggleNumber || e is CopyToClipboard || e is Help)
    }

    /// How one key press drives the screen: a lone intent scrolls the
    /// rendering, switches the preview, copies the shown text or navigates
    /// back; the item itself is never touched.
    pub open spec fn handle_rel(
        pre: ItemView,
        post: ItemView,
        user_events: Seq<UserEvent>,
        r: Seq<AppEvent>,
    ) -> bool {
        &&& post.item == pre.item
        &&& post.table_name == pre.table_name
        &&& post.key_string == pre.key_string
        &&& (user_events.len() == 1 ==> match user_events[0] {
            UserEvent::Close => post == pre && r.len() == 1 && r[0] is BackToBeforeView,
            UserEvent::Down => ScrollLinesState::forward_rel(
                pre.scroll_lines_state,
                post.scroll_lines_state,
            ) && Self::same_but_scroll(pre, post) && r.len() == 0,
            UserEvent::Up => ScrollLinesState::backward_rel(
                pre.scroll_lines_state,
                post.scroll_lines_state,
            ) && Self::same_but_scroll(pre, post) && r.len() == 0,
            UserEvent::PageDown => ScrollLinesState::page_forward_rel(
                pre.scroll_lines_state,
                post.scroll_lines_state,
                pre.page_width as nat,
                pre.page_height as nat,
            ) && Self::same_but_scroll(pre, post) && r.len() == 0,
            UserEvent::PageUp => ScrollLinesState::page_backward_rel(
                pre.scroll_lines_state,
                post.scroll_lines_state,
                pre.page_width as nat,
                pre.page_height as nat,
            ) && Self::same_but_scroll(pre, post) && r.len() == 0,
            UserEvent::GoToTop => ScrollLinesState::top_rel(
                pre.scroll_lines_state,
                post.scroll_lines_state,
            ) && Self::same_but_scroll(pre, post) && r.len() == 0,
            UserEvent::GoToBottom => ScrollLinesState::end_rel(
                pre.scroll_lines_state,
                post.scroll_lines_state,
            ) && Self::same_but_scroll(pre, post) && r.len() == 0,
            UserEvent::Right => ScrollLinesState::right_rel(
                pre.scroll_lines_state,
                post.scroll_lines_state,
            ) && Self::same_but_scroll(pre, post) && r.len() == 0,
            UserEvent::Left => ScrollLinesState::left_rel(
                pre.scroll_lines_state,
                post.scroll_lines_state,
            ) && Self::same_but_scroll(pre, post) && r.len() == 0,
            UserEvent::NextPreview => Self::same_but_preview(pre, post) && (pre.preview_type
                is KeyValue ==> post.preview_type is PlainJson) && (pre.preview_type is PlainJson
                ==> post.preview_type is RawJson) && (pre.preview_type is RawJson
                ==> post.preview_type is KeyValue) && r.len() == 1 && r[0] is RefreshPreview,
            UserEvent::PrevPreview => Self::same_but_preview(pre, post) && (pre.preview_type
                is KeyValue ==> post.preview_type is RawJson) && (pre.preview_type is PlainJson
                ==> post.preview_type is KeyValue) && (pre.preview_type is RawJson
                ==> post.preview_type is PlainJson) && r.len() == 1 && r[0] is RefreshPreview,
            UserEvent::ToggleWrap => ScrollLinesState::toggle_wrap_rel(
                pre.scroll_lines_state,
                post.scroll_lines_state,
            ) && Self::same_but_scroll(pre, post) && r.len() == 0,
            UserEvent::ToggleNumber => ScrollLinesState::toggle_number_rel(
                pre.scroll_lines_state,
                post.scroll_lines_state,
            ) && Self::same_but_scroll(pre, post) && r.len() == 0,
            UserEvent::CopyToClipboard => post == pre && r.len() == 1 && (
            r[0] matches AppEvent::CopyToClipboard(_, content) && content@
                == crate::scroll_lines::join_lines(pre.scroll_lines_state.lines.deep_view())),
            UserEvent::Help => post == pre && r.len() == 1 && r[0] is OpenHelp,
            _ => post == pre && r.len() == 0,
        })
    }

    /// Builds the inspector; the key string shown in the title is the item's
    /// key attribute values, when the item carries them.
    pub fn new(table_name: String, key_schema_type: KeySchemaType, item: Item) -> (r: (
        ItemView,
        Vec<AppEvent>,
    ))
        ensures
            r.0.wf(),
            r.0.item.attributes@ == item.attributes@,
            r.0.table_name == table_name,
            r.0.key_schema_type == key_schema_type,
            r.0.preview_type is KeyValue,
            match key_schema_type {
                KeySchemaType::Hash(h) => {
                    &&& (item_has_key(item, h@) ==> r.0.key_string@ == crate::data::attr_text_of(
                        item,
                        h@,
                    ))
                    &&& (!item_has_key(item, h@) ==> r.0.key_string@ == Seq::<char>::empty())
                },
                KeySchemaType::HashRange(h, rg) => {
                    &&& (item_has_key(item, h@) && item_has_key(item, rg@) ==> r.0.key_string@
                        == crate::data::attr_text_of(item, h@) + " / "@
                        + crate::data::attr_text_of(item, rg@))
                    &&& (!(item_has_key(item, h@) && item_has_key(item, rg@))
                        ==> r.0.key_string@ == Seq::<char>::empty())
                },
            },
            r.1@.len() == 1 && r.1@[0] is RefreshPreview,
    {
        let has_keys = match &key_schema_type {
            KeySchemaType::Hash(h) => find_attr_index(&item, h).is_some(),
            KeySchemaType::HashRange(h, rg) => find_attr_index(&item, h).is_some()
                && find_attr_index(&item, rg).is_some(),
        };
        let key_string = if has_keys {
            to_key_string(&item, &key_schema_type)
        } else {
            let empty = text("");
            proof {
                reveal_strlit("");
                assert(empty@ =~= Seq::<char>::empty());
            }
            empty
        };
        let view = ItemView {
            table_name,
            key_schema_type,
            item,
            key_string,
            scroll_lines_state: ScrollLinesState::new(
                Vec::new(),
                ScrollLinesOptions::new(false, false),
            ),
            preview_type: ItemPreviewType::KeyValue,
            page_width: 0,
            page_height: 0,
            helps: build_item_helps(),
            short_helps: build_item_short_helps(),
        };
        let mut events: Vec<AppEvent> = Vec::new();
        events.push(AppEvent::RefreshPreview);
        (view, events)
    }

    /// Records the text pane area of the viewport, for page scrolling.
    pub fn set_page_area(&mut self, width: usize, height: usize)
        requires
            old(self).wf(),
        ensures
            final(self).wf(),
            final(self).page_width == width,
            final(self).page_height == height,
    {
        self.page_width = width;
        self.page_height = height;
    }

    /// Installs the lines the caller rendered for the current preview type.
    pub fn set_preview_lines(&mut self, lines: Vec<String>)
        requires
            old(self).wf(),
        ensures
            final(self).wf(),
            final(self).scroll_lines_state.spec_lines() == lines.deep_view(),
            final(self).item.attributes@ == old(self).item.attributes@,
            final(self).preview_type == old(self).preview_type,
    {
        let options = self.scroll_lines_state.current_options();
        self.scroll_lines_state = ScrollLinesState::new(lines, options);
    }

    pub fn handle_user_key_event(&mut self, user_events: &Vec<UserEvent>, key: KeyInput) -> (r:
        Vec<AppEvent>)
        requires
            old(self).wf(),
        ensures
            final(self).wf(),
            Self::handle_rel(*old(self), *final(self), user_events@, r@),
    {
        let _ = key;
        let n = user_events.len();
        let mut i: usize = 0;
        while i < n
            invariant
                self.wf(),
                self == old(self),
                n == user_events@.len(),
                i <= n,
                forall|t: int| 0 <= t < i ==> Self::item_ignores(#[trigger] user_events@[t]),
            decreases n - i,
        {
            match user_events[i] {
                UserEvent::Close => {
                    let mut out: Vec<AppEvent> = Vec::new();
                    out.push(AppEvent::BackToBeforeView);
                    return out;
                },
                UserEvent::Down => {
                    self.scroll_lines_state.scroll_forward();
                    return Vec::new();
                },
                UserEvent::Up => {
                    self.scroll_lines_state.scroll_backward();
                    return Vec::new();
                },
                UserEvent::PageDown => {
                    let w = self.page_width;
                    let h = self.page_height;
                    self.scroll_lines_state.scroll_page_forward(w, h);
                    return Vec::new();
                },
                UserEvent::PageUp => {
                    let w = self.page_width;
                    let h = self.page_height;
                    self.scroll_lines_state.scroll_page_backward(w, h);
                    return Vec::new();
                },
                UserEvent::GoToTop => {
                    self.scroll_lines_state.scroll_to_top();
                    return Vec::new();
                },
                UserEvent::GoToBottom => {
                    self.scroll_lines_state.scroll_to_end();
                    return Vec::new();
                },
                UserEvent::Right => {
                    self.scroll_lines_state.scroll_right();
                    return Vec::new();
                },
                UserEvent::Left => {
                    self.scroll_lines_state.scroll_left();
                    return Vec::new();
                },
                UserEvent::NextPreview => {
                    self.preview_type = self.preview_type.next();
                    let mut out: Vec<AppEvent> = Vec::new();
                    out.push(AppEvent::RefreshPreview);
                    return out;
                },
                UserEvent::PrevPreview => {
                    self.preview_type = self.preview_type.prev();
                    let mut out: Vec<AppEvent> = Vec::new();
                    out.push(AppEvent::RefreshPreview);
                    return out;
                },
                UserEvent::ToggleWrap => {
                    self.scroll_lines_state.toggle_wrap();
                    return Vec::new();
                },
                UserEvent::ToggleNumber => {
                    self.scroll_lines_state.toggle_number();
                    return Vec::new();
                },
                UserEvent::CopyToClipboard => {
                    let content = self.scroll_lines_state.raw_content();
                    let mut out: Vec<AppEvent> = Vec::new();
                    out.push(AppEvent::CopyToClipboard(text("item"), content));
                    return out;
                },
                UserEvent::Help => {
                    let mut out: Vec<AppEvent> = Vec::new();
                    out.push(AppEvent::OpenHelp(clone_help_items(&self.helps)));
                    return out;
                },
                _ => {},
            }
            i += 1;
        }
        Vec::new()
    }
}

fn build_item_helps() -> (r: Vec<crate::event::HelpItem>) {
    let mut v: Vec<crate::event::HelpItem> = Vec::new();
    v.push(help_item(UserEvent::Quit, "Quit app"));
    v.push(help_item(UserEvent::Close, "Back to table"));
    v.push(help_item(UserEvent::Down, "Scroll down"));
    v.push(help_item(UserEvent::Up, "Scroll up"));
    v.push(help_item(UserEvent::Right, "Scroll right"));
    v.push(help_item(UserEvent::Left, "Scroll left"));
    v.push(help_item(UserEvent::PageDown, "Scroll page down"));
    v.push(help_item(UserEvent::PageUp, "Scroll page up"));
    v.push(help_item(UserEvent::GoToTop, "Scroll to top"));
    v.push(help_item(UserEvent::GoToBottom, "Scroll to bottom"));
    v.push(help_item(UserEvent::NextPreview, "Switch to next preview"));
    v.push(help_item(UserEvent::PrevPreview, "Switch to previous preview"));
    v.push(help_item(UserEvent::ToggleWrap, "Toggle wrap"));
    v.push(help_item(UserEvent::ToggleNumber, "Toggle number"));
    v.push(help_item(UserEvent::CopyToClipboard, "Copy descriptions"));
    v
}

fn build_item_short_helps() -> (r: Vec<crate::event::ShortHelpItem>) {
    let mut v: Vec<crate::event::ShortHelpItem> = Vec::new();
    v.push(short_single(UserEvent::Quit, "Quit", 0));
    v.push(short_single(UserEvent::Close, "Back", 1));
    v.push(short_pair(UserEvent::Down, UserEvent::Up, "Scroll", 2));
    v.push(short_pair(UserEvent::GoToTop, UserEvent::GoToBottom, "Top/Bottom", 5));
    v.push(short_single(UserEvent::NextPreview, "Switch preview", 3));
    v.push(short_pair(UserEvent::ToggleWrap, UserEvent::ToggleNumber, "Toggle wrap/number", 6));
    v.push(short_single(UserEvent::CopyToClipboard, "Copy", 4));
    v.push(short_single(UserEvent::Help, "Help", 0));
    v
}

/// The aggregate-insight report screen: a scrollable text rendering of the
/// attribute type distribution of a loaded table.
pub struct TableInsightView {
    pub table_insight: TableInsight,
    pub scroll_lines_state: ScrollLinesState,
    pub page_width: usize,
    pub page_height: usize,
    pub helps: Vec<crate::event::HelpItem>,
    pub short_helps: Vec<crate::event::ShortHelpItem>,
}

impl TableInsightView {
    pub open spec fn wf(self) -> bool {
        self.scroll_lines_state.wf()
    }


    /// Everything except the text viewport is unchanged.
    pub open spec fn same_but_scroll(pre: TableInsightView, post: TableInsightView) -> bool {
        &&& post.table_insight == pre.table_insight
        &&& post.page_width == pre.page_width
        &&& post.page_height == pre.page_height
        &&& post.helps@ == pre.helps@
        &&& post.short_helps@ == pre.short_helps@
    }

    /// Intents the screen does not react to.
    pub open spec fn insight_ignores(e: UserEvent) -> bool {
        !(e is Close || e is Down || e is Up || e is PageDown || e is PageUp || e is GoToTop
            || e is GoToBottom || e is Right || e is Left || e is ToggleWrap || e is ToggleNumber
            || e is Help)
    }

    /// How one key press drives the screen: a lone intent scrolls the report
    /// or navigates back; the report itself is never touched.
    pub open spec fn handle_rel(
        pre: TableInsightView,
        post: TableInsightView,
        user_events: Seq<UserEvent>,
        r: Seq<AppEvent>,
    ) -> bool {
        &&& post.table_insight == pre.table_insight
        &&& (user_events.len() == 1 ==> match user_events[0] {
            UserEvent::Close => post == pre && r.len() == 1 && r[0] is BackToBeforeView,
            UserEvent::Down => ScrollLinesState::forward_rel(
                pre.scroll_lines_state,
                post.scroll_lines_state,
            ) && Self::same_but_scroll(pre, post) && r.len() == 0,
            UserEvent::Up => ScrollLinesState::backward_rel(
                pre.scroll_lines_state,
                post.scroll_lines_state,
            ) && Self::same_but_scroll(pre, post) && r.len() == 0,
            UserEvent::PageDown => ScrollLinesState::page_forward_rel(
                pre.scroll_lines_state,
                post.scroll_lines_state,
                pre.page_width as nat,
                pre.page_height as nat,
            ) && Self::same_but_scroll(pre, post) && r.len() == 0,
            UserEvent::PageUp => ScrollLinesState::page_backward_rel(
                pre.scroll_lines_state,
                post.scroll_lines_state,
                pre.page_width as nat,
                pre.page_height as nat,
            ) && Self::same_but_scroll(pre, post) && r.len() == 0,
            UserEvent::GoToTop => ScrollLinesState::top_rel(
                pre.scroll_lines_state,
                post.scroll_lines_state,
            ) && Self::same_but_scroll(pre, post) && r.len() == 0,
            UserEvent::GoToBottom => ScrollLinesState::end_rel(
                pre.scroll_lines_state,
                post.scroll_lines_state,
            ) && Self::same_but_scroll(pre, post) && r.len() == 0,
            UserEvent::Right => ScrollLinesState::right_rel(
                pre.scroll_lines_state,
                post.scroll_lines_state,
            ) && Self::same_but_scroll(pre, post) && r.len() == 0,
            UserEvent::Left => ScrollLinesState::left_rel(
                pre.scroll_lines_state,
                post.scroll_lines_state,
            ) && Self::same_but_scroll(pre, post) && r.len() == 0,
            UserEvent::ToggleWrap => ScrollLinesState::toggle_wrap_rel(
                pre.scroll_lines_state,
                post.scroll_lines_state,
            ) && Self::same_but_scroll(pre, post) && r.len() == 0,
            UserEvent::ToggleNumber => ScrollLinesState::toggle_number_rel(
                pre.scroll_lines_state,
                post.scroll_lines_state,
            ) && Self::same_but_scroll(pre, post) && r.len() == 0,
            UserEvent::Help => post == pre && r.len() == 1 && r[0] is OpenHelp,
            _ => post == pre && r.len() == 0,
        })
    }


    pub fn new(table_insight: TableInsight) -> (r: (TableInsightView, Vec<AppEvent>))
        ensures
            r.0.wf(),
            r.1@.len() == 1 && r.1@[0] is RefreshPreview,
    {
        let view = TableInsightView {
            table_insight,
            scroll_lines_state: ScrollLinesState::new(
                Vec::new(),
                ScrollLinesOptions::new(false, false),
            ),
            page_width: 0,
            page_height: 0,
            helps: build_insight_helps(),
            short_helps: build_insight_short_helps(),
        };
        let mut events: Vec<AppEvent> = Vec::new();
        events.push(AppEvent::RefreshPreview);
        (view, events)
    }

    /// Records the text pane area of the viewport, for page scrolling.
    pub fn set_page_area(&mut self, width: usize, height: usize)
        requires
            old(self).wf(),
        ensures
            final(self).wf(),
            final(self).page_width == width,
            final(self).page_height == height,
    {
        self.page_width = width;
        self.page_height = height;
    }

    /// Installs the report lines the caller rendered.
    pub fn set_preview_lines(&mut self, lines: Vec<String>)
        requires
            old(self).wf(),
        ensures
            final(self).wf(),
            final(self).scroll_lines_state.spec_lines() == lines.deep_view(),
    {
        let options = self.scroll_lines_state.current_options();
        self.scroll_lines_state = ScrollLinesState::new(lines, options);
    }

    pub fn handle_user_key_event(&mut self, user_events: &Vec<UserEvent>, key: KeyInput) -> (r:
        Vec<AppEvent>)
        requires
            old(self).wf(),
        ensures
            final(self).wf(),
            Self::handle_rel(*old(self), *final(self), user_events@, r@),
    {
        let _ = key;
        let n = user_events.len();
        let mut i: usize = 0;
        while i < n
            invariant
                self.wf(),
                self == old(self),
                n == user_events@.len(),
                i <= n,
                forall|t: int| 0 <= t < i ==> Self::insight_ignores(#[trigger] user_events@[t]),
            decreases n - i,
        {
            match user_events[i] {
                UserEvent::Close => {
                    let mut out: Vec<AppEvent> = Vec::new();
                    out.push(AppEvent::BackToBeforeView);
                    return out;
                },
                UserEvent::Down => {
                    self.scroll_lines_state.scroll_forward();
                    return Vec::new();
                },
                UserEvent::Up => {
                    self.scroll_lines_state.scroll_backward();
                    return Vec::new();
                },
                UserEvent::PageDown => {
                    let w = self.page_width;
                    let h = self.page_height;
                    self.scroll_lines_state.scroll_page_forward(w, h);
                    return Vec::new();
                },
                UserEvent::PageUp => {
                    let w = self.page_width;
                    let h = self.page_height;
                    self.scroll_lines_state.scroll_page_backward(w, h);
                    return Vec::new();
                },
                UserEvent::GoToTop => {
                    self.scroll_lines_state.scroll_to_top();
                    return Vec::new();
                },
                UserEvent::GoToBottom => {
                    self.scroll_lines_state.scroll_to_end();
                    return Vec::new();
                },
                UserEvent::Right => {
                    self.scroll_lines_state.scroll_right();
                    return Vec::new();
                },
                UserEvent::Left => {
                    self.scroll_lines_state.scroll_left();
                    return Vec::new();
                },
                UserEvent::ToggleWrap => {
                    self.scroll_lines_state.toggle_wrap();
                    return Vec::new();
                },
                UserEvent::ToggleNumber => {
                    self.scroll_lines_state.toggle_number();
                    return Vec::new();
                },
                UserEvent::Help => {
                    let mut out: Vec<AppEvent> = Vec::new();
                    out.push(AppEvent::OpenHelp(clone_help_items(&self.helps)));
                    return out;
                },
                _ => {},
            }
            i += 1;
        }
        Vec::new()
    }
}

fn build_insight_helps() -> (r: Vec<crate::event::HelpItem>) {
    let mut v: Vec<crate::event::HelpItem> = Vec::new();
    v.push(help_item(UserEvent::Quit, "Quit app"));
    v.push(help_item(UserEvent::Close, "Back to table"));
    v.push(help_item(UserEvent::Down, "Scroll down"));
    v.push(help_item(UserEvent::Up, "Scroll up"));
    v.push(help_item(UserEvent::Right, "Scroll right"));
    v.push(help_item(UserEvent::Left, "Scroll left"));
    v.push(help_item(UserEvent::PageDown, "Scroll page down"));
    v.push(help_item(UserEvent::PageUp, "Scroll page up"));
    v.push(help_item(UserEvent::GoToTop, "Scroll to top"));
    v.push(help_item(UserEvent::GoToBottom, "Scroll to bottom"));
    v.push(help_item(UserEvent::ToggleWrap, "Toggle wrap"));
    v.push(help_item(UserEvent::ToggleNumber, "Toggle number"));
    v
}

fn build_insight_short_helps() -> (r: Vec<crate::event::ShortHelpItem>) {
    let mut v: Vec<crate::event::ShortHelpItem> = Vec::new();
    v.push(short_single(UserEvent::Quit, "Quit", 0));
    v.push(short_single(UserEvent::Close, "Back", 1));
    v.push(short_pair(UserEvent::Down, UserEvent::Up, "Scroll", 2));
    v.push(short_pair(UserEvent::GoToTop, UserEvent::GoToBottom, "Top/Bottom", 3));
    v.push(short_pair(UserEvent::ToggleWrap, UserEvent::ToggleNumber, "Toggle wrap/number", 4));
    v.push(short_single(UserEvent::Help, "Help", 0));
    v
}

} // verus!
