//! The file relay's decisions: the argument list handed to the uploader
//! process, and the fixed message chosen from its exit status. The
//! download, the temporary file and the process itself stay with the
//! caller.

use vstd::prelude::*;

verus! {

/// The uploader's argument list: the subcommand, the temporary file's
/// path, and the attachment's original name, in that order.
pub fn upload_args(temp_path: &str, filename: &str) -> (r: Vec<String>)
    ensures
        r.deep_view() == seq!["upload"@, temp_path@, filename@],
{
    let mut args: Vec<String> = Vec::new();
    args.push("upload".to_owned());
    args.push(temp_path.to_owned());
    args.push(filename.to_owned());
    proof {
        assert(args.deep_view() =~= seq!["upload"@, temp_path@, filename@]);
    }
    args
}

/// The user-facing message for the uploader's exit status: one fixed
/// sentence for success, another for failure, and nothing of the
/// process's own output.
pub fn upload_outcome_message(success: bool) -> (r: String)
    ensures
        success ==> r@ == "File uploaded successfully"@,
        !success ==> r@ == "Failed to upload file"@,
{
    if success {
        "File uploaded successfully".to_owned()
    } else {
        "Failed to upload file".to_owned()
    }
}

} // verus!
