//! Plain data records for the API-description-to-document pipeline:
//! the fields read from an API description, and the shape handed to
//! the template renderer. The parsing, template merging and file
//! output around them are external collaborators and live outside this
//! library.
use std::collections::HashMap;

use vstd::prelude::*;

verus! {

/// Title block of an API description.
#[derive(Debug)]
pub struct Info {
    pub version: String,
    pub title: String,
}

/// One tag grouping operations of an API description.
#[derive(Debug)]
pub struct Tag {
    pub name: String,
    pub description: Option<String>,
}

/// One security definition of an API description.
#[derive(Debug)]
pub struct SecurityDefinition {
    pub type_: String,
    pub name: String,
    pub in_: String,
}

/// The whole project handed to the document template: its name and its
/// operations grouped by tag.
#[derive(Debug)]
pub struct DocxProjectInfo {
    pub name: String,
    pub apis: HashMap<String, Vec<DocxApiInfo>>,
}

/// One operation as the document template shows it.
#[derive(Debug)]
pub struct DocxApiInfo {
    pub name: String,
    pub desc: String,
    pub url: String,
    pub method: String,
    pub api_type: String,
    pub return_type: String,
    pub query_params: Vec<DocxParamInfo>,
    pub status_codes: Vec<DocxStatusCode>,
    pub return_params: Vec<DocxReturnParamInfo>,
    pub return_params_example: String,
}

/// One request parameter row of the generated document.
#[derive(Debug)]
pub struct DocxParamInfo {
    pub name: String,
    pub data_type: String,
    pub param_type: String,
    pub required: String,
    pub desc: String,
}

/// One status-code row of the generated document.
#[derive(Debug)]
pub struct DocxStatusCode {
    pub code: String,
    pub desc: String,
    pub explain: String,
}

/// One response parameter row of the generated document.
#[derive(Debug)]
pub struct DocxReturnParamInfo {
    pub name: String,
    pub data_type: String,
    pub desc: String,
}

} // verus!
