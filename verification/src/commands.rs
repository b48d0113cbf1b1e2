//! The reply of the file-path command the UI layer can invoke. Logging the
//! path is the shell's business; the reply is computed here.

use vstd::prelude::*;

verus! {

/// Replies to a "process this file path" request. The current behavior is a
/// fixed greeting, whatever the path.
pub fn process_file(filepath: &str) -> (r: String)
    ensures
        r@ == "Hello from Rust!"@,
{
    let r: String = "Hello from Rust!".to_owned();
    r
}

} // verus!
