//! Discovery of Terraform module repositories in a GitHub organisation: the
//! naming convention, the requests, and what their answers come to.
use vstd::prelude::*;

pub mod config;
pub mod layout;
pub mod naming;
pub mod outcome;
pub mod paging;
pub mod query;
pub mod response;
pub mod sift;

