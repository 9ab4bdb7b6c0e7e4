//! Request bodies of the publishing API.

use vstd::prelude::*;

use crate::telegraph::types::Node;

verus! {

/// Creates a page.
#[derive(Debug)]
pub struct CreatePageRequest {
    pub access_token: String,
    pub title: String,
    pub author_name: Option<String>,
    pub author_url: Option<String>,
    pub content: Vec<Node>,
    pub return_content: bool,
}

/// Edits an existing page.
#[derive(Debug)]
pub struct EditPageRequest {
    pub access_token: String,
    pub path: String,
    pub title: String,
    pub author_name: Option<String>,
    pub author_url: Option<String>,
    pub content: Vec<Node>,
    pub return_content: bool,
}

/// Fetches a page.
#[derive(Debug)]
pub struct GetPageRequest {
    pub path: String,
    pub return_content: bool,
}

} // verus!
