//! Reply of the folder-picking command.

use vstd::prelude::*;
use vstd::string::StringExecFns;

verus! {

/// Reply text when the user closed the folder dialog without choosing.
pub open spec fn no_selection_text() -> Seq<char> {
    "No folder selected"@
}

/// Turns what the native folder dialog returned into the command's reply:
/// the chosen path, or the "no selection" error when the dialog was
/// cancelled. The path is passed on unchecked.
pub fn folder_choice(picked: Option<String>) -> (r: Result<String, String>)
    ensures
        picked is Some <==> r is Ok,
        picked is Some ==> r->Ok_0@ == picked->Some_0@,
        picked is None ==> r->Err_0@ == no_selection_text(),
{
    match picked {
        Some(path) => Ok(path),
        None => Err(String::from_str("No folder selected")),
    }
}

} // verus!
