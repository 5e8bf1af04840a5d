//! Recognising archives by their file name.
use vstd::prelude::*;
use crate::text::{ends_with, str_ends_with};

verus! {

/// Whether `path` names an archive whose contents can be listed: a `.zip` file.
pub fn is_path_supported_archive(path: &String) -> (r: bool)
    ensures
        r == ends_with(path@, seq!['.', 'z', 'i', 'p']),
{
    let r = str_ends_with(path.as_str(), ".zip");
    proof {
        reveal_strlit(".zip");
        assert(".zip"@ =~= seq!['.', 'z', 'i', 'p']);
    }
    r
}

} // verus!
