//! Where the driver stores its screenshot.

use vstd::prelude::*;
use vstd::string::*;

verus! {

/// File name of the screenshot inside the document directory.
pub const SCREENSHOT_FILE_NAME: &'static str = "screenshot.png";

/// `name` appended to the directory path `dir` as a path component: a `/`
/// goes between them unless `dir` is empty or already ends in `/`.
pub open spec fn join_path(dir: Seq<char>, name: Seq<char>) -> Seq<char> {
    if dir.len() == 0 || dir.last() == '/' {
        dir + name
    } else {
        dir + seq!['/'] + name
    }
}

/// The screenshot's path in the document directory `document_dir`. The
/// path depends on the directory alone, so every run writes the same file.
pub fn screenshot_path(document_dir: &str) -> (r: String)
    ensures
        r@ == join_path(document_dir@, SCREENSHOT_FILE_NAME@),
{
    let n = document_dir.unicode_len();
    let mut r = String::from_str(document_dir);
    if n > 0 && document_dir.get_char(n - 1) != '/' {
        r.append("/");
    }
    r.append(SCREENSHOT_FILE_NAME);
    proof {
        reveal_strlit("/");
        if n > 0 && document_dir@.last() != '/' {
            assert(r@ =~= document_dir@ + seq!['/'] + SCREENSHOT_FILE_NAME@);
        }
    }
    r
}

} // verus!
