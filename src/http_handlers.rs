//! Extraction of image payloads from the three submission channels and the
//! per-item outcomes of an upload batch.

use vstd::prelude::*;
use vstd::string::StringExecFns;
use vstd::string::StrSliceExecFns;
use crate::file_utils::{is_timestamp, normalize_image_filename_at, normalized_name, utc_timestamp};
use crate::text::{
    equals_ignoring_case, last_path_segment, last_segment, parse_usize, range_equals_ignoring_case,
    starts_with, starts_with_text, usize_value,
};

verus! {

/// The outcome of one upload item, reported back to the uploader.
pub struct ImageUploadResult {
    pub filename: String,
    pub content_type: String,
    pub size: u64,
    pub success: bool,
    pub reason: String,
}

impl ImageUploadResult {
    /// A success carries the reason `ok`; a failure reports no bytes written
    /// and names its cause.
    pub open spec fn wf(&self) -> bool {
        &&& self.success ==> self.reason@ == "ok"@
        &&& !self.success ==> self.size == 0 && is_failure_reason(self.reason@)
    }
}

/// A reason that names a failure: not empty, and not `ok`.
pub open spec fn is_failure_reason(reason: Seq<char>) -> bool {
    reason.len() > 0 && reason != "ok"@
}

/// A failure, if `r` is one, names its cause.
pub open spec fn err_is_failure_reason<T>(r: Result<T, String>) -> bool {
    match r {
        Ok(_) => true,
        Err(e) => is_failure_reason(e@),
    }
}

proof fn lemma_reasons_name_failures()
    ensures
        is_failure_reason("no image data"@),
        is_failure_reason("image URL not specified"@),
        is_failure_reason("not an image"@),
        is_failure_reason("invalid content length in response"@),
        is_failure_reason("nor url or data are specified"@),
        is_failure_reason("I/O error"@),
{
    reveal_strlit("ok");
    reveal_strlit("no image data");
    reveal_strlit("image URL not specified");
    reveal_strlit("not an image");
    reveal_strlit("invalid content length in response");
    reveal_strlit("nor url or data are specified");
    reveal_strlit("I/O error");
}

/// One item of a JSON upload batch.
pub struct ImageUploadRequest {
    pub filename: Option<String>,
    pub content_type: Option<String>,
    pub url: Option<String>,
    pub data: Option<String>,
}

/// The text of an optional field, empty where it is absent.
pub open spec fn text_or_empty(o: Option<String>) -> Seq<char> {
    match o {
        Some(s) => s@,
        None => Seq::empty(),
    }
}

/// The content type assumed for inline data that declares none.
pub open spec fn default_content_type() -> Seq<char> {
    "application/octet-stream"@
}

/// What `base64::decode` gives for `text`: the bytes, or the text of its error.
pub uninterp spec fn base64_decoding(text: Seq<char>) -> Result<Seq<u8>, Seq<char>>;

/// The view of a decoding result.
pub open spec fn decoded_view(r: Result<Vec<u8>, String>) -> Result<Seq<u8>, Seq<char>> {
    match r {
        Ok(b) => Ok(b@),
        Err(e) => Err(e@),
    }
}

/// Relies on `base64::decode` (standard alphabet): the decoded bytes, or the
/// `Display` text of its `DecodeError`; the result depends on the text alone.
/// Every such text is a sentence that starts `Invalid` or `Encoded`.
#[verifier::external_body]
fn decode_base64(text: &str) -> (r: Result<Vec<u8>, String>)
    ensures
        decoded_view(r) == base64_decoding(text@),
        err_is_failure_reason(r),
{
    match base64::decode(text) {
        Ok(bytes) => Ok(bytes),
        Err(e) => Err(e.to_string()),
    }
}

/// The view of an extracted image: filename, content type and payload.
pub open spec fn extracted_view(r: Result<(String, String, Vec<u8>), String>) -> Result<
    (Seq<char>, Seq<char>, Seq<u8>),
    Seq<char>,
> {
    match r {
        Ok((f, c, d)) => Ok((f@, c@, d@)),
        Err(e) => Err(e@),
    }
}

/// The image extracted from an item's inline base64 data, with `timestamp`
/// naming an item that declares no filename.
pub open spec fn base64_extraction(item: ImageUploadRequest, timestamp: Seq<char>) -> Result<
    (Seq<char>, Seq<char>, Seq<u8>),
    Seq<char>,
> {
    match item.data {
        None => Err("no image data"@),
        Some(data) => {
            let ct = match item.content_type {
                Some(c) => c@,
                None => default_content_type(),
            };
            match base64_decoding(data@) {
                Ok(bytes) => Ok((normalized_name(text_or_empty(item.filename), ct, timestamp), ct, bytes)),
                Err(msg) => Err(msg),
            }
        },
    }
}

/// Decodes an item's inline base64 data into a (filename, content type, bytes)
/// triple; the content type defaults to `application/octet-stream`.
pub fn image_from_base64_data(item: &ImageUploadRequest) -> (r: Result<
    (String, String, Vec<u8>),
    String,
>)
    ensures
        exists|ts: Seq<char>|
            is_timestamp(ts) && extracted_view(r) == #[trigger] base64_extraction(*item, ts),
        err_is_failure_reason(r),
{
    proof {
        lemma_reasons_name_failures();
    }
    match &item.data {
        None => {
            let r = Err(String::from_str("no image data"));
            proof {
                let ts = Seq::new(18, |i: int| '0');
                assert(is_timestamp(ts));
                assert(extracted_view(r) == base64_extraction(*item, ts));
            }
            r
        },
        Some(data) => {
            let content_type = match &item.content_type {
                Some(c) => c.clone(),
                None => String::from_str("application/octet-stream"),
            };
            let timestamp = utc_timestamp();
            let filename = match &item.filename {
                Some(f) => normalize_image_filename_at(f.as_str(), content_type.as_str(), timestamp.as_str()),
                None => {
                    proof {
                        reveal_strlit("");
                    }
                    normalize_image_filename_at("", content_type.as_str(), timestamp.as_str())
                },
            };
            let r = match decode_base64(data.as_str()) {
                Ok(bytes) => Ok((filename, content_type, bytes)),
                Err(e) => Err(e),
            };
            assert(extracted_view(r) == base64_extraction(*item, timestamp@));
            r
        },
    }
}

/// The view of an optional header value.
pub open spec fn header_view(h: Option<&str>) -> Option<Seq<char>> {
    match h {
        Some(v) => Some(v@),
        None => None,
    }
}

/// The view of a planned download: filename, content type and byte count.
pub open spec fn planned_view(r: Result<(String, String, usize), String>) -> Result<
    (Seq<char>, Seq<char>, usize),
    Seq<char>,
> {
    match r {
        Ok((f, c, n)) => Ok((f@, c@, n)),
        Err(e) => Err(e@),
    }
}

/// What to download for an item that names a URL, given the `Content-Type`
/// and `Content-Length` headers of the response, with `timestamp` naming an
/// image whose filename comes out blank.
pub open spec fn url_extraction(
    item: ImageUploadRequest,
    content_type_header: Option<Seq<char>>,
    content_length_header: Option<Seq<char>>,
    timestamp: Seq<char>,
) -> Result<(Seq<char>, Seq<char>, usize), Seq<char>> {
    match item.url {
        None => Err("image URL not specified"@),
        Some(url) => {
            let ct = match content_type_header {
                Some(c) => c,
                None => text_or_empty(item.content_type),
            };
            let length = match content_length_header {
                Some(l) => usize_value(l),
                None => None,
            };
            if !starts_with(ct, "image/"@) {
                Err("not an image"@)
            } else if length is None {
                Err("invalid content length in response"@)
            } else {
                let name = match item.filename {
                    Some(f) => f@,
                    None => last_segment(url@),
                };
                Ok((normalized_name(name, ct, timestamp), ct, length->Some_0))
            }
        },
    }
}

/// Decides, from the headers of the response to an item's URL, the
/// (filename, content type, byte count) of the image to read from its body.
/// The content type is the header's, else the declared one; the filename is
/// the declared one, else the URL's last path segment.
pub fn image_from_url_response(
    item: &ImageUploadRequest,
    content_type_header: Option<&str>,
    content_length_header: Option<&str>,
) -> (r: Result<(String, String, usize), String>)
    ensures
        exists|ts: Seq<char>|
            is_timestamp(ts) && planned_view(r) == #[trigger] url_extraction(
                *item,
                header_view(content_type_header),
                header_view(content_length_header),
                ts,
            ),
        err_is_failure_reason(r),
{
    proof {
        lemma_reasons_name_failures();
    }
    let ghost hc = header_view(content_type_header);
    let ghost hl = header_view(content_length_header);
    let timestamp = utc_timestamp();
    let r = match &item.url {
        None => Err(String::from_str("image URL not specified")),
        Some(url) => {
            let content_type = match content_type_header {
                Some(c) => c.to_owned(),
                None => match &item.content_type {
                    Some(c) => c.clone(),
                    None => {
                        proof {
                            reveal_strlit("");
                        }
                        String::from_str("")
                    },
                },
            };
            let length = match content_length_header {
                Some(l) => parse_usize(l),
                None => None,
            };
            let ghost ct = match hc {
                Some(c) => c,
                None => text_or_empty(item.content_type),
            };
            assert(content_type@ == ct);
            assert(length == match hl { Some(l) => usize_value(l), None => None::<usize> });
            if !starts_with_text(content_type.as_str(), "image/") {
                Err(String::from_str("not an image"))
            } else {
                match length {
                    None => Err(String::from_str("invalid content length in response")),
                    Some(n) => {
                        let filename = match &item.filename {
                            Some(f) => normalize_image_filename_at(
                                f.as_str(),
                                content_type.as_str(),
                                timestamp.as_str(),
                            ),
                            None => normalize_image_filename_at(
                                last_path_segment(url.as_str()),
                                content_type.as_str(),
                                timestamp.as_str(),
                            ),
                        };
                        Ok((filename, content_type, n))
                    },
                }
            }
        },
    };
    assert(planned_view(r) == url_extraction(*item, hc, hl, timestamp@));
    r
}

/// The view of a field's (filename, content type) pair.
pub open spec fn named_view(r: Result<(String, String), String>) -> Result<
    (Seq<char>, Seq<char>),
    Seq<char>,
> {
    match r {
        Ok((f, c)) => Ok((f@, c@)),
        Err(e) => Err(e@),
    }
}

/// The (filename, content type) of a multipart field with the given headers,
/// with `timestamp` naming a field whose filename comes out blank.
pub open spec fn multipart_extraction(
    content_type: Option<Seq<char>>,
    filename: Option<Seq<char>>,
    name: Seq<char>,
    timestamp: Seq<char>,
) -> Result<(Seq<char>, Seq<char>), Seq<char>> {
    match content_type {
        Some(c) => {
            if starts_with(c, "image/"@) {
                let given = match filename {
                    Some(f) => f,
                    None => name,
                };
                Ok((normalized_name(given, c, timestamp), c))
            } else {
                Err("no image data"@)
            }
        },
        None => Err("no image data"@),
    }
}

/// Decides from the headers of a multipart field whether it holds an image,
/// and under which filename and content type; the filename falls back on the
/// field's name.
pub fn image_from_multipart_field(
    content_type: Option<&str>,
    filename: Option<&str>,
    name: &str,
) -> (r: Result<(String, String), String>)
    ensures
        exists|ts: Seq<char>|
            is_timestamp(ts) && named_view(r) == #[trigger] multipart_extraction(
                header_view(content_type),
                header_view(filename),
                name@,
                ts,
            ),
        err_is_failure_reason(r),
{
    proof {
        lemma_reasons_name_failures();
    }
    let timestamp = utc_timestamp();
    let r = match content_type {
        Some(c) => {
            if starts_with_text(c, "image/") {
                let given = match filename {
                    Some(f) => f,
                    None => name,
                };
                Ok((normalize_image_filename_at(given, c, timestamp.as_str()), c.to_owned()))
            } else {
                Err(String::from_str("no image data"))
            }
        },
        None => Err(String::from_str("no image data")),
    };
    assert(named_view(r) == multipart_extraction(
        header_view(content_type),
        header_view(filename),
        name@,
        timestamp@,
    ));
    r
}

/// The fields of an outcome: filename, content type, size, success, reason.
pub open spec fn outcome_view(o: ImageUploadResult) -> (Seq<char>, Seq<char>, u64, bool, Seq<char>) {
    (o.filename@, o.content_type@, o.size, o.success, o.reason@)
}

/// A failed item: what it declared, no bytes written, and why.
pub open spec fn failed_view(filename: Seq<char>, content_type: Seq<char>, reason: Seq<char>) -> (
    Seq<char>,
    Seq<char>,
    u64,
    bool,
    Seq<char>,
) {
    (filename, content_type, 0, false, reason)
}

/// The outcome of a persisted image: `written` is the byte count the writer
/// reported, or `None` where the write failed.
pub open spec fn stored_view(filename: Seq<char>, content_type: Seq<char>, written: Option<u64>) -> (
    Seq<char>,
    Seq<char>,
    u64,
    bool,
    Seq<char>,
) {
    match written {
        Some(n) => (filename, content_type, n, true, "ok"@),
        None => (filename, content_type, 0, false, "I/O error"@),
    }
}

/// The outcome of an item that failed for `reason` before anything was
/// written; well formed where `reason` names a failure.
pub fn failed_upload(filename: &str, content_type: &str, reason: &str) -> (r: ImageUploadResult)
    ensures
        outcome_view(r) == failed_view(filename@, content_type@, reason@),
        is_failure_reason(reason@) ==> r.wf(),
{
    ImageUploadResult {
        filename: filename.to_owned(),
        content_type: content_type.to_owned(),
        size: 0,
        success: false,
        reason: reason.to_owned(),
    }
}

/// The outcome of a JSON item that failed for `reason`, carrying the filename
/// and content type it declared (empty where it declared none); well formed
/// where `reason` names a failure.
pub fn failed_item(item: &ImageUploadRequest, reason: &str) -> (r: ImageUploadResult)
    ensures
        outcome_view(r) == failed_view(
            text_or_empty(item.filename),
            text_or_empty(item.content_type),
            reason@,
        ),
        is_failure_reason(reason@) ==> r.wf(),
{
    proof {
        reveal_strlit("");
    }
    let filename = match &item.filename {
        Some(f) => f.as_str(),
        None => "",
    };
    let content_type = match &item.content_type {
        Some(c) => c.as_str(),
        None => "",
    };
    failed_upload(filename, content_type, reason)
}

/// The outcome of writing an image: success with the byte count, or the
/// reason `I/O error`.
pub fn stored_upload(filename: String, content_type: String, written: Option<u64>) -> (r:
    ImageUploadResult)
    ensures
        outcome_view(r) == stored_view(filename@, content_type@, written),
        r.wf(),
{
    proof {
        lemma_reasons_name_failures();
    }
    match written {
        Some(n) => ImageUploadResult {
            filename,
            content_type,
            size: n,
            success: true,
            reason: String::from_str("ok"),
        },
        None => ImageUploadResult {
            filename,
            content_type,
            size: 0,
            success: false,
            reason: String::from_str("I/O error"),
        },
    }
}

/// What a JSON item asks for first.
pub enum JsonItemStep {
    /// Write the decoded inline image.
    Store { filename: String, content_type: String, data: Vec<u8> },
    /// Fetch the image's URL.
    Fetch { url: String },
    /// Nothing to write: the item's outcome is final.
    Finish { outcome: ImageUploadResult },
}

/// The first step of a JSON item, with `timestamp` naming an inline image
/// that declares no filename: inline data takes precedence over a URL, and an
/// item with neither fails.
pub open spec fn json_item_start(
    step: JsonItemStep,
    item: ImageUploadRequest,
    timestamp: Seq<char>,
) -> bool {
    if item.data is Some {
        match base64_extraction(item, timestamp) {
            Ok((f, c, d)) => match step {
                JsonItemStep::Store { filename, content_type, data } => filename@ == f
                    && content_type@ == c && data@ == d,
                _ => false,
            },
            Err(m) => match step {
                JsonItemStep::Finish { outcome } => outcome_view(outcome) == failed_view(
                    text_or_empty(item.filename),
                    text_or_empty(item.content_type),
                    m,
                ),
                _ => false,
            },
        }
    } else if item.url is Some {
        match step {
            JsonItemStep::Fetch { url } => url@ == item.url->Some_0@,
            _ => false,
        }
    } else {
        match step {
            JsonItemStep::Finish { outcome } => outcome_view(outcome) == failed_view(
                text_or_empty(item.filename),
                text_or_empty(item.content_type),
                "nor url or data are specified"@,
            ),
            _ => false,
        }
    }
}

/// Chooses how a JSON item is handled: its inline data is decoded here, a URL
/// is handed back to be fetched, and an item with neither gets its failure.
pub fn start_json_item(item: &ImageUploadRequest) -> (r: JsonItemStep)
    ensures
        exists|ts: Seq<char>| is_timestamp(ts) && #[trigger] json_item_start(r, *item, ts),
        r matches JsonItemStep::Finish { outcome } ==> outcome.wf(),
{
    proof {
        lemma_reasons_name_failures();
    }
    if item.data.is_some() {
        let extracted = image_from_base64_data(item);
        let ghost ts = choose|ts: Seq<char>|
            is_timestamp(ts) && extracted_view(extracted) == #[trigger] base64_extraction(*item, ts);
        let r = match extracted {
            Ok((filename, content_type, data)) => JsonItemStep::Store { filename, content_type, data },
            Err(reason) => JsonItemStep::Finish { outcome: failed_item(item, reason.as_str()) },
        };
        assert(json_item_start(r, *item, ts));
        r
    } else {
        let r = match &item.url {
            Some(url) => JsonItemStep::Fetch { url: url.clone() },
            None => JsonItemStep::Finish {
                outcome: failed_item(item, "nor url or data are specified"),
            },
        };
        proof {
            let ts = Seq::new(18, |i: int| '0');
            assert(is_timestamp(ts));
            assert(json_item_start(r, *item, ts));
        }
        r
    }
}

/// How each kind of JSON item is routed: an item with neither data nor URL
/// fails at once with `nor url or data are specified`; inline data that
/// decodes is stored and data that does not fails with a named cause, before
/// anything is written; an item with only a URL is fetched. Inline data is
/// used wherever it is present, URL or not.
pub proof fn json_item_routes(item: ImageUploadRequest, step: JsonItemStep, timestamp: Seq<char>)
    requires
        json_item_start(step, item, timestamp),
    ensures
        item.data is None && item.url is None ==> (step matches JsonItemStep::Finish { outcome }
            && !outcome.success && outcome.size == 0 && outcome.reason@
            == "nor url or data are specified"@),
        item.data is None && item.url is Some ==> step is Fetch,
        item.data is Some && base64_decoding(item.data->Some_0@) is Ok ==> step is Store,
        item.data is Some && base64_decoding(item.data->Some_0@) is Err ==> (
        step matches JsonItemStep::Finish { outcome } && !outcome.success && outcome.size == 0),
{
}

/// How a POST to the image collection is handled, by its `Content-Type`.
#[derive(PartialEq, Eq, Structural, Debug, Clone, Copy)]
pub enum PostBody {
    /// A JSON batch of inline or remote images.
    Json,
    /// A multipart form with binary image fields.
    Multipart,
    /// Another content type: answered with 406 Not Acceptable.
    NotAcceptable,
    /// No content type: answered with 400 Bad Request.
    Missing,
}

/// The media type of a `Content-Type` value: what comes before its first `;`.
pub open spec fn media_type(s: Seq<char>) -> Seq<char>
    decreases s.len(),
{
    if s.len() == 0 {
        s
    } else if s[0] == ';' {
        Seq::empty()
    } else {
        seq![s[0]] + media_type(s.drop_first())
    }
}

/// The handling of a POST whose `Content-Type` header is `header`.
pub open spec fn post_body_of(header: Option<Seq<char>>) -> PostBody {
    match header {
        None => PostBody::Missing,
        Some(h) => if equals_ignoring_case(media_type(h), "application/json"@) {
            PostBody::Json
        } else if equals_ignoring_case(media_type(h), "multipart/form-data"@) {
            PostBody::Multipart
        } else {
            PostBody::NotAcceptable
        },
    }
}

proof fn lemma_media_type_prefix(s: Seq<char>, i: int)
    requires
        0 <= i <= s.len(),
        forall|j: int| 0 <= j < i ==> s[j] != ';',
    ensures
        i < s.len() && s[i] == ';' ==> media_type(s) =~= s.subrange(0, i),
        i == s.len() ==> media_type(s) =~= s,
    decreases i,
{
    if i > 0 {
        lemma_media_type_prefix(s.drop_first(), i - 1);
        assert(s.drop_first().subrange(0, i - 1) =~= s.subrange(1, i));
        assert(seq![s[0]] + s.subrange(1, i) =~= s.subrange(0, i));
        assert(seq![s[0]] + s.drop_first() =~= s);
    }
}

/// Routes a POST by its `Content-Type`: the media type before any `;`,
/// compared without regard to ASCII case, selects JSON or multipart handling.
pub fn post_body_for(content_type: Option<&str>) -> (r: PostBody)
    ensures
        r == post_body_of(header_view(content_type)),
{
    match content_type {
        None => PostBody::Missing,
        Some(h) => {
            let n = h.unicode_len();
            let mut i: usize = 0;
            while i < n && h.get_char(i) != ';'
                invariant
                    n == h@.len(),
                    i <= n,
                    forall|j: int| 0 <= j < i ==> h@[j] != ';',
                decreases n - i,
            {
                i = i + 1;
            }
            proof {
                lemma_media_type_prefix(h@, i as int);
                if i == n {
                    assert(h@.subrange(0, n as int) =~= h@);
                }
            }
            if range_equals_ignoring_case(h, 0, i, "application/json") {
                PostBody::Json
            } else if range_equals_ignoring_case(h, 0, i, "multipart/form-data") {
                PostBody::Multipart
            } else {
                PostBody::NotAcceptable
            }
        },
    }
}

} // verus!
