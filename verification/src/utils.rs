//! Small path-choice logic shared by the platform layer.

use vstd::prelude::*;

verus! {

/// The save path chosen where no dialog can ask the user (the web
/// target): the current path when one is known, else "file".  On
/// native targets the platform layer asks through a save dialog
/// instead.
pub fn default_save_path(current_path: Option<String>) -> (r: String)
    ensures
        current_path matches Some(p) ==> r == p,
        current_path is None ==> r@ == "file"@,
{
    match current_path {
        Some(p) => p,
        None => "file".to_owned(),
    }
}

} // verus!
