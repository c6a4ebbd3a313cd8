//! Forward pagination: a cursor is handed on only while there is a next page,
//! and never changed.
use vstd::prelude::*;
use crate::response::{ListModuleResponseRefsPageInfo, ListModuleResponseReleasesPageInfo,
    ListModulesResponsePageInfo};

verus! {

/// The cursor to continue after: the page's end cursor while there is a next
/// page, nothing otherwise.
pub open spec fn continuation(has_next_page: bool, end_cursor: Option<String>) -> Option<String> {
    if has_next_page {
        end_cursor
    } else {
        None
    }
}

fn copy_cursor(has_next_page: bool, end_cursor: &Option<String>) -> (r: Option<String>)
    ensures
        r == continuation(has_next_page, *end_cursor),
{
    if !has_next_page {
        return None;
    }
    match end_cursor {
        Some(c) => Some(c.clone()),
        None => None,
    }
}

impl ListModulesResponsePageInfo {
    /// The cursor for the request of the next page of modules, if there is one.
    pub fn next_cursor(&self) -> (r: Option<String>)
        ensures
            r == continuation(self.has_next_page, self.end_cursor),
    {
        copy_cursor(self.has_next_page, &self.end_cursor)
    }
}

impl ListModuleResponseReleasesPageInfo {
    /// The cursor for the request of the next page of releases, if there is one.
    pub fn next_cursor(&self) -> (r: Option<String>)
        ensures
            r == continuation(self.has_next_page, self.end_cursor),
    {
        copy_cursor(self.has_next_page, &self.end_cursor)
    }
}

impl ListModuleResponseRefsPageInfo {
    /// The cursor for the request of the next page of tags, if there is one.
    pub fn next_cursor(&self) -> (r: Option<String>)
        ensures
            r == continuation(self.has_next_page, self.end_cursor),
    {
        copy_cursor(self.has_next_page, &self.end_cursor)
    }
}

} // verus!
