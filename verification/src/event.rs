use vstd::prelude::*;

use crate::data::Item;
use crate::data::KeySchemaType;
use crate::data::Table;
use crate::data::TableDescription;
use crate::data::TableInsight;
use crate::error::AppError;
use crate::error::AppResult;

verus! {

/// A decoded input intent, after the key map has been applied.
#[derive(Clone, Copy, PartialEq, Eq, Structural, Debug)]
pub enum UserEvent {
    Quit,
    Down,
    Up,
    Left,
    Right,
    GoToTop,
    GoToBottom,
    GoToLeft,
    GoToRight,
    PageDown,
    PageUp,
    ScrollDown,
    ScrollUp,
    Confirm,
    Close,
    QuickFilter,
    Reset,
    NextPane,
    NextPreview,
    PrevPreview,
    Insight,
    Expand,
    ToggleWrap,
    ToggleNumber,
    Widen,
    Narrow,
    Reload,
    CopyToClipboard,
    Help,
}

/// The raw key behind an input, for text-entry passthrough while filtering.
#[derive(Clone, Copy, PartialEq, Eq, Structural, Debug)]
pub enum KeyInput {
    Char(char),
    Backspace,
    Delete,
    Left,
    Right,
    Home,
    End,
    Other,
}

/// One entry of the full key-to-action listing a help screen shows.
pub struct HelpItem {
    pub event: UserEvent,
    pub description: String,
}

/// One hint of the status line: the actions it groups, its label, and a
/// priority deciding which hints survive when the line runs out of width.
pub struct ShortHelpItem {
    pub events: Vec<UserEvent>,
    pub label: String,
    pub priority: u8,
}

/// Everything that can arrive on the dispatcher's single ordered event stream:
/// decoded key input, background completions and the intents the views emit.
pub enum AppEvent {
    Key(Vec<UserEvent>, KeyInput),
    Initialize,
    CompleteInitialize(AppResult<Vec<Table>>),
    LoadTableDescription(String),
    CompleteLoadTableDescription(AppResult<TableDescription>),
    LoadTableItems(String, KeySchemaType),
    CompleteLoadTableItems(TableDescription, AppResult<Vec<Item>>),
    OpenItem(String, KeySchemaType, Item),
    OpenTableInsight(TableInsight),
    OpenHelp(Vec<HelpItem>),
    BackToBeforeView,
    CopyToClipboard(String, String),
    ClearStatus,
    UpdateStatusInput(String, Option<usize>),
    NotifySuccess(String),
    NotifyWarning(AppError),
    NotifyError(AppError),
    PreviewLines(Vec<String>),
    ExpandLines(Vec<String>),
    RefreshPreview,
    RefreshExpand(usize, String),
    RequestCopyItem(usize),
    RequestCopyAttribute(usize, String),
}

/// An outside action the dispatcher asks its caller to perform: remote calls,
/// the clipboard, content rendering, or quitting.
pub enum Command {
    Quit,
    ListTables,
    DescribeTable(String),
    ScanTableItems(String, KeySchemaType),
    WriteClipboard(String, String),
    BuildPreview,
    BuildExpand(usize, String),
    CopyItemJson(usize),
    CopyAttributeJson(usize, String),
}

} // verus!
