//! The safe counterparts of the records that cross the boundary, and the
//! path rewriting they share.

pub mod file_descriptor;
pub mod message;
pub mod recipient_descriptor;

pub use file_descriptor::{FileDescriptor, FileTagExtension};
pub use message::Message;
pub use recipient_descriptor::RecipientDescriptor;

use crate::file_path::{file_name_chars, join_chars, parent_chars, path_file_name, path_join,
    path_parent};
use vstd::prelude::*;

verus! {

/// What `swap_filename` returns: the directory of `file_path` joined with
/// the final component of `file_name`, or nothing when either part is
/// missing or the name would not change.
pub open spec fn swapped_filename_chars(file_path: Seq<char>, file_name: Option<Seq<char>>) -> Option<
    Seq<char>,
> {
    match file_name {
        None => None,
        Some(given) => match file_name_chars(given) {
            None => None,
            Some(name) => match file_name_chars(file_path) {
                None => None,
                Some(path_name) => match parent_chars(file_path) {
                    None => None,
                    Some(dir) => if path_name == name {
                        None
                    } else {
                        Some(join_chars(dir, name))
                    },
                },
            },
        },
    }
}

/// A path to a file in the same directory as `file_path` but named like the
/// final component of `file_name`; nothing when `file_name` is absent or has
/// no final component, when `file_path` has no final component or no parent,
/// or when the two names already agree.
pub fn swap_filename(file_path: &String, file_name: &Option<String>) -> (r: Option<String>)
    ensures
        r.deep_view() == swapped_filename_chars(file_path@, file_name.deep_view()),
{
    let name = match file_name {
        Some(given) => match path_file_name(given.as_str()) {
            Some(n) => n,
            None => {
                return None;
            },
        },
        None => {
            return None;
        },
    };
    let path_name = match path_file_name(file_path.as_str()) {
        Some(n) => n,
        None => {
            return None;
        },
    };
    let dir = match path_parent(file_path.as_str()) {
        Some(d) => d,
        None => {
            return None;
        },
    };
    if path_name == name {
        return None;
    }
    Some(path_join(dir.as_str(), name.as_str()))
}

} // verus!
