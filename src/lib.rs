//! Client-side logic of an app-distribution uploader: request validation,
//! the form fields of each API call, file pre-checks, reading of the
//! server's JSON replies and the build-status polling state machine.
use vstd::prelude::*;

pub mod config;
pub mod file;
pub mod poll;
pub mod probe;
pub mod reply;
pub mod request;

verus! {

/// The text of an optional string slice.
pub open spec fn opt_str_view(o: Option<&str>) -> Option<Seq<char>> {
    match o {
        Some(s) => Some(s@),
        None => None,
    }
}

/// The text of an optional string.
pub open spec fn opt_string_view(o: Option<String>) -> Option<Seq<char>> {
    match o {
        Some(s) => Some(s@),
        None => None,
    }
}

} // verus!
