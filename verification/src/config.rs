use vstd::prelude::*;

verus! {

/// Width of the table list pane.
#[derive(Clone, Copy, PartialEq, Eq, Structural, Debug)]
pub struct UiTableListConfig {
    pub list_width: u16,
}

impl Default for UiTableListConfig {
    fn default() -> (r: Self)
        ensures
            r.list_width == 30,
    {
        UiTableListConfig { list_width: 30 }
    }
}

/// Cell truncation width and the size limits of the expanded-attribute popup.
#[derive(Clone, Copy, PartialEq, Eq, Structural, Debug)]
pub struct UiTableConfig {
    pub max_attribute_width: usize,
    pub max_expand_width: u16,
    pub max_expand_height: u16,
}

impl Default for UiTableConfig {
    fn default() -> (r: Self)
        ensures
            r.max_attribute_width == 30,
            r.max_expand_width == 35,
            r.max_expand_height == 6,
    {
        UiTableConfig { max_attribute_width: 30, max_expand_width: 35, max_expand_height: 6 }
    }
}

#[derive(Clone, Copy, PartialEq, Eq, Structural, Debug)]
pub struct UiConfig {
    pub table_list: UiTableListConfig,
    pub table: UiTableConfig,
}

impl Default for UiConfig {
    fn default() -> (r: Self)
        ensures
            r.table_list.list_width == 30,
            r.table.max_attribute_width == 30,
            r.table.max_expand_width == 35,
            r.table.max_expand_height == 6,
    {
        UiConfig { table_list: Default::default(), table: Default::default() }
    }
}

#[derive(Clone, Copy, PartialEq, Eq, Structural, Debug)]
pub struct Config {
    pub ui: UiConfig,
}

impl Default for Config {
    fn default() -> (r: Self)
        ensures
            r.ui.table_list.list_width == 30,
            r.ui.table.max_attribute_width == 30,
            r.ui.table.max_expand_width == 35,
            r.ui.table.max_expand_height == 6,
    {
        Config { ui: Default::default() }
    }
}

} // verus!
