//! Filename normalization with respect to a MIME content type.

use vstd::prelude::*;
use vstd::string::StringExecFns;
use vstd::string::StrSliceExecFns;
use crate::text::{contains_char, matches_letter_ignoring_case, same_letter_ignoring_case, same_text};

verus! {

/// The content-type prefix that marks an image, compared without regard to ASCII case.
pub open spec fn image_prefix() -> Seq<char> {
    seq!['i', 'm', 'a', 'g', 'e', '/']
}

/// `s` starts with `image/`, ignoring ASCII case.
pub open spec fn has_image_prefix(s: Seq<char>) -> bool {
    &&& s.len() >= 6
    &&& forall|i: int| 0 <= i < 6 ==> same_letter_ignoring_case(#[trigger] s[i], image_prefix()[i])
}

/// What follows `image/` in a content type.
pub open spec fn subtype_of(s: Seq<char>) -> Seq<char> {
    s.subrange(6, s.len() as int)
}

/// `s` has the shape `image/<subtype>` with exactly one `/` and a non-empty
/// subtype.
pub open spec fn is_image_type(s: Seq<char>) -> bool {
    has_image_prefix(s) && subtype_of(s).len() > 0 && !subtype_of(s).contains('/')
}

/// The file extension that stands for an image subtype.
pub open spec fn extension_of_subtype(sub: Seq<char>) -> Seq<char> {
    if sub == "jpeg"@ {
        "jpg"@
    } else if sub == "pjpeg"@ {
        "jpg"@
    } else if sub == "svg+xml"@ {
        "svg"@
    } else if sub == "tiff"@ {
        "tif"@
    } else if sub == "vnd.microsoft.icon"@ {
        "ico"@
    } else if sub == "vnd.wap.wbmp"@ {
        "wbmp"@
    } else if sub == "*"@ {
        "bin"@
    } else {
        sub
    }
}

/// The file extension inferred from a content type: the remapped subtype of an
/// `image/<subtype>` type, `bin` for anything else.
pub open spec fn extension_for(content_type: Seq<char>) -> Seq<char> {
    if is_image_type(content_type) {
        extension_of_subtype(subtype_of(content_type))
    } else {
        "bin"@
    }
}

/// A content type that is empty, lacks the `image/` prefix, has an empty
/// subtype or has more than one `/` is no image type, and its extension is
/// `bin`.
pub proof fn non_image_types_map_to_bin(content_type: Seq<char>)
    requires
        content_type.len() == 0 || !has_image_prefix(content_type) || subtype_of(
            content_type,
        ).len() == 0 || subtype_of(content_type).contains('/'),
    ensures
        extension_for(content_type) == "bin"@,
{
}

/// An `image/<subtype>` type maps to the remapped subtype, whatever the case
/// of its prefix.
pub proof fn image_types_map_to_subtype(content_type: Seq<char>)
    requires
        has_image_prefix(content_type),
        subtype_of(content_type).len() > 0,
        !subtype_of(content_type).contains('/'),
    ensures
        extension_for(content_type) == extension_of_subtype(subtype_of(content_type)),
{
}

/// Whether `s` starts with `image/`, ignoring ASCII case.
pub fn starts_with_image(s: &str) -> (r: bool)
    ensures
        r == has_image_prefix(s@),
{
    if s.unicode_len() < 6 {
        return false;
    }
    let prefix: [char; 6] = ['i', 'm', 'a', 'g', 'e', '/'];
    assert(prefix@ == image_prefix());
    let mut i: usize = 0;
    while i < 6
        invariant
            s@.len() >= 6,
            prefix@ == image_prefix(),
            i <= 6,
            forall|j: int| 0 <= j < i ==> same_letter_ignoring_case(#[trigger] s@[j], image_prefix()[j]),
        decreases 6 - i,
    {
        if !matches_letter_ignoring_case(s.get_char(i), prefix[i]) {
            return false;
        }
        i = i + 1;
    }
    true
}

fn remap_subtype(sub: &str) -> (r: String)
    ensures
        r@ == extension_of_subtype(sub@),
{
    if same_text(sub, "jpeg") {
        String::from_str("jpg")
    } else if same_text(sub, "pjpeg") {
        String::from_str("jpg")
    } else if same_text(sub, "svg+xml") {
        String::from_str("svg")
    } else if same_text(sub, "tiff") {
        String::from_str("tif")
    } else if same_text(sub, "vnd.microsoft.icon") {
        String::from_str("ico")
    } else if same_text(sub, "vnd.wap.wbmp") {
        String::from_str("wbmp")
    } else if same_text(sub, "*") {
        String::from_str("bin")
    } else {
        sub.to_owned()
    }
}

/// The file extension for a content type: `image/<subtype>` (the prefix in any
/// ASCII case, one `/` only) gives its remapped subtype, anything else `bin`.
pub fn ext_for(content_type: &str) -> (r: String)
    ensures
        r@ == extension_for(content_type@),
{
    if starts_with_image(content_type) {
        let n = content_type.unicode_len();
        let sub = content_type.substring_char(6, n);
        if n > 6 && !contains_char(sub, '/') {
            return remap_subtype(sub);
        }
    }
    String::from_str("bin")
}

/// A character with the Unicode `White_Space` property.
pub open spec fn is_white_space(c: char) -> bool {
    let u = c as u32;
    ||| 0x9 <= u <= 0xd
    ||| u == 0x20
    ||| u == 0x85
    ||| u == 0xa0
    ||| u == 0x1680
    ||| 0x2000 <= u <= 0x200a
    ||| u == 0x2028
    ||| u == 0x2029
    ||| u == 0x202f
    ||| u == 0x205f
    ||| u == 0x3000
}

/// `s` is empty or made of white space only.
pub open spec fn is_blank(s: Seq<char>) -> bool {
    forall|i: int| 0 <= i < s.len() ==> is_white_space(#[trigger] s[i])
}

/// An 18-digit timestamp (`yymmddHHMMSS` and six digits of microseconds).
pub open spec fn is_timestamp(ts: Seq<char>) -> bool {
    &&& ts.len() == 18
    &&& forall|i: int| 0 <= i < 18 ==> '0' <= #[trigger] ts[i] && ts[i] <= '9'
}

/// The placeholder name given to an upload without a usable name.
pub open spec fn placeholder_name(timestamp: Seq<char>, content_type: Seq<char>) -> Seq<char> {
    "untitled@"@ + timestamp + "."@ + extension_for(content_type)
}

/// The normalized form of `filename` for `content_type`, with `timestamp`
/// used only when the name is blank.
pub open spec fn normalized_name(
    filename: Seq<char>,
    content_type: Seq<char>,
    timestamp: Seq<char>,
) -> Seq<char> {
    if is_blank(filename) {
        placeholder_name(timestamp, content_type)
    } else if !filename.contains('.') {
        filename + "."@ + extension_for(content_type)
    } else {
        filename
    }
}

/// Whether `c` has the Unicode `White_Space` property.
pub fn is_white_space_char(c: char) -> (r: bool)
    ensures
        r == is_white_space(c),
{
    let u = c as u32;
    (0x9 <= u && u <= 0xd) || u == 0x20 || u == 0x85 || u == 0xa0 || u == 0x1680 || (0x2000 <= u
        && u <= 0x200a) || u == 0x2028 || u == 0x2029 || u == 0x202f || u == 0x205f || u == 0x3000
}

/// Whether `s` is empty or white space only.
pub fn is_blank_text(s: &str) -> (r: bool)
    ensures
        r == is_blank(s@),
{
    let n = s.unicode_len();
    let mut i: usize = 0;
    while i < n
        invariant
            n == s@.len(),
            i <= n,
            forall|j: int| 0 <= j < i ==> is_white_space(#[trigger] s@[j]),
        decreases n - i,
    {
        if !is_white_space_char(s.get_char(i)) {
            return false;
        }
        i = i + 1;
    }
    true
}

/// Relies on chrono's `From<SystemTime> for DateTime<Utc>` (which, unlike
/// `Utc::now`, also accepts a clock that reads before 1970) formatted as
/// `%y%m%d%H%M%S%6f`: two zero-padded digits each for the year modulo 100
/// (`rem_euclid`), month, day, hour, minute and second, then six zero-padded
/// digits of microseconds.
#[verifier::external_body]
pub(crate) fn utc_timestamp() -> (r: String)
    ensures
        is_timestamp(r@),
{
    let now = chrono::DateTime::<chrono::Utc>::from(std::time::SystemTime::now());
    now.format("%y%m%d%H%M%S%6f").to_string()
}

/// Normalizes `filename` for `content_type`, using `timestamp` for the
/// placeholder name of a blank filename.
pub fn normalize_image_filename_at(filename: &str, content_type: &str, timestamp: &str) -> (r:
    String)
    ensures
        r@ == normalized_name(filename@, content_type@, timestamp@),
{
    if is_blank_text(filename) {
        let mut name = String::from_str("untitled@");
        name.append(timestamp);
        name.append(".");
        let ext = ext_for(content_type);
        name.append(ext.as_str());
        name
    } else if !contains_char(filename, '.') {
        let mut name = filename.to_owned();
        name.append(".");
        let ext = ext_for(content_type);
        name.append(ext.as_str());
        name
    } else {
        filename.to_owned()
    }
}

/// Normalizes an image filename with respect to its MIME type: a blank name
/// becomes `untitled@<timestamp>.<ext>` for the current UTC time, a name
/// without `.` gets `.<ext>` appended, any other name is kept as it is.
pub fn normalize_image_filename(filename: &str, content_type: &str) -> (r: String)
    ensures
        exists|ts: Seq<char>|
            is_timestamp(ts) && r@ == #[trigger] normalized_name(filename@, content_type@, ts),
        is_blank(filename@) ==> exists|ts: Seq<char>|
            is_timestamp(ts) && r@ == #[trigger] placeholder_name(ts, content_type@),
        !is_blank(filename@) && !filename@.contains('.') ==> r@ == filename@ + "."@
            + extension_for(content_type@),
        filename@.contains('.') ==> r@ == filename@,
{
    let ts = utc_timestamp();
    let r = normalize_image_filename_at(filename, content_type, ts.as_str());
    proof {
        if is_blank(filename@) {
            assert(r@ == placeholder_name(ts@, content_type@));
        }
        if filename@.contains('.') {
            let k = choose|k: int| 0 <= k < filename@.len() && filename@[k] == '.';
            assert(!is_white_space(filename@[k]));
        }
    }
    r
}

} // verus!
