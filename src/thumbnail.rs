//! Where uploaded images and their thumbnails are placed, and the size of a
//! thumbnail.

use vstd::prelude::*;
use vstd::string::StringExecFns;

verus! {

/// Width and height, in pixels, of every thumbnail.
pub const THUMBNAIL_SIZE: u32 = 100;

/// The path of `name` inside directory `dir` (just `name` where `dir` is empty).
pub open spec fn path_join(dir: Seq<char>, name: Seq<char>) -> Seq<char> {
    if dir.len() == 0 {
        name
    } else if dir.last() == '/' {
        dir + name
    } else {
        dir + "/"@ + name
    }
}

/// The name of the directory, beside the uploads, that holds thumbnails.
pub open spec fn thumbnails_name() -> Seq<char> {
    "thumbnails"@
}

/// The path of `name` inside directory `dir`.
pub fn join_path(dir: &str, name: &str) -> (r: String)
    ensures
        r@ == path_join(dir@, name@),
{
    let n = dir.unicode_len();
    if n == 0 {
        name.to_owned()
    } else if dir.get_char(n - 1) == '/' {
        let mut p = dir.to_owned();
        p.append(name);
        p
    } else {
        let mut p = dir.to_owned();
        p.append("/");
        p.append(name);
        p
    }
}

/// Where an upload named `filename` is stored under `upload_root`.
pub fn upload_path(upload_root: &str, filename: &str) -> (r: String)
    ensures
        r@ == path_join(upload_root@, filename@),
{
    join_path(upload_root, filename)
}

/// The directory of the thumbnails of the uploads stored under `upload_root`.
pub fn thumbnail_dir(upload_root: &str) -> (r: String)
    ensures
        r@ == path_join(upload_root@, thumbnails_name()),
{
    join_path(upload_root, "thumbnails")
}

/// Where the thumbnail of the upload named `filename` is stored: under the
/// same name, in the thumbnail directory beside it.
pub fn thumbnail_path(upload_root: &str, filename: &str) -> (r: String)
    ensures
        r@ == path_join(path_join(upload_root@, thumbnails_name()), filename@),
{
    let dir = thumbnail_dir(upload_root);
    join_path(dir.as_str(), filename)
}

} // verus!
