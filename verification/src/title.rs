//! The title of a page: the configured one, or else the name of the file
//! that the page is made from.

use vstd::prelude::*;
use crate::path::{file_name, final_component};

verus! {

/// The view of an optional string.
pub open spec fn text_of(value: Option<String>) -> Option<Seq<char>> {
    match value {
        Some(text) => Some(text@),
        None => None,
    }
}

/// The title that the path of an input gives its page: the file name, or
/// nothing where the path names no file.
pub open spec fn derived_title(input_path: Seq<char>) -> Seq<char> {
    match final_component(input_path) {
        Some(name) => name,
        None => Seq::empty(),
    }
}

/// The title of the page made from `input_path`: the override, verbatim, if
/// there is one and it is not empty; else the title that the path gives.
pub open spec fn resolved_title(title_override: Option<Seq<char>>, input_path: Seq<char>) -> Seq<
    char,
> {
    match title_override {
        Some(title) => if title.len() > 0 {
            title
        } else {
            derived_title(input_path)
        },
        None => derived_title(input_path),
    }
}

/// Resolves the title of the page made from `input_path`.
pub fn resolve_title(title_override: &Option<String>, input_path: &str) -> (title: String)
    ensures
        title@ == resolved_title(text_of(*title_override), input_path@),
{
    match title_override {
        Some(configured) => {
            if !configured.as_str().is_empty() {
                return configured.clone();
            }
        },
        None => {},
    }
    match file_name(input_path) {
        Some(name) => name,
        None => String::new(),
    }
}

} // verus!
