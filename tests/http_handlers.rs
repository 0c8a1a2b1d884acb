use image_upload::http_handlers::{
    failed_item, failed_upload, image_from_base64_data, image_from_multipart_field,
    image_from_url_response, post_body_for, start_json_item,
    stored_upload, ImageUploadRequest, ImageUploadResult, JsonItemStep, PostBody,
};
use rouille::input::multipart::get_multipart_input;
use std::io::Read;

fn multipart_formdata_request() -> rouille::Request {
    let body = "\
                --boundary-guard-abcdef123456\r\n\
                Content-Disposition: form-data; name=\"file\"; filename=\"sample.jpg\"\r\n\
                Content-Type: image/jpeg\r\n\
                \r\n\
                JPEG IMAGE DATA\r\n\
                --boundary-guard-abcdef123456\r\n\
                Content-Disposition: form-data; name=\"file-from-name\"\r\n\
                Content-Type: image/PNG\r\n\
                \r\n\
                PNG IMAGE DATA\r\n\
                --boundary-guard-abcdef123456\r\n\
                Content-Disposition: form-data; name=\"not-an-image\"\r\n\
                Content-Type: text/plain\r\n\
                \r\n\
                Some text.\r\n\
                --boundary-guard-abcdef123456--";

    let headers = [
        (
            String::from("Content-Type"),
            String::from("multipart/form-data; boundary=boundary-guard-abcdef123456"),
        ),
        (String::from("Content-Length"), body.as_bytes().len().to_string()),
    ];

    rouille::Request::fake_http("POST", "/images", headers.to_vec(), body.as_bytes().to_vec())
}

fn empty_request() -> ImageUploadRequest {
    ImageUploadRequest { content_type: None, data: None, filename: None, url: None }
}

#[test]
fn test_image_from_multipart_field() {
    let http_rq = multipart_formdata_request();
    let mut multipart_items = get_multipart_input(&http_rq).unwrap();

    let mut item = multipart_items.next().unwrap();
    let ct = item.headers.content_type.as_ref().map(|m| m.to_string());
    let (filename, content_type) = image_from_multipart_field(
        ct.as_deref(),
        item.headers.filename.as_deref(),
        &item.headers.name,
    )
    .unwrap();
    assert_eq!(filename, "sample.jpg");
    assert_eq!(content_type, "image/jpeg");
    let mut buffer = [0u8; 15];
    item.data.read_exact(&mut buffer).unwrap();
    assert_eq!(&buffer, b"JPEG IMAGE DATA");

    let mut item = multipart_items.next().unwrap();
    let ct = item.headers.content_type.as_ref().map(|m| m.to_string());
    let (filename, content_type) = image_from_multipart_field(
        ct.as_deref(),
        item.headers.filename.as_deref(),
        &item.headers.name,
    )
    .unwrap();
    assert_eq!(filename, "file-from-name.png");
    assert_eq!(content_type, "image/png");
    let mut buffer = [0u8; 14];
    item.data.read_exact(&mut buffer).unwrap();
    assert_eq!(&buffer, b"PNG IMAGE DATA");

    let item = multipart_items.next().unwrap();
    let ct = item.headers.content_type.as_ref().map(|m| m.to_string());
    match image_from_multipart_field(ct.as_deref(), item.headers.filename.as_deref(), &item.headers.name) {
        Err(msg) => assert_eq!(msg, "no image data"),
        _ => panic!("text/plain is not an image!"),
    }
}

#[test]
fn test_image_from_base64_data() {
    let mut uprq = ImageUploadRequest { content_type: None, data: None, filename: None, url: None };

    match image_from_base64_data(&mut uprq) {
        Err(e) => assert_eq!(e, "no image data"),
        _ => panic!("data == None isn't an image!"),
    }

    uprq.data = Some(String::from("VEVTVCBKUEVHIERBVEE="));

    let (filename, content_type, data) = image_from_base64_data(&mut uprq).unwrap();
    assert_eq!(data, b"TEST JPEG DATA".to_vec());
    assert!(filename.starts_with("untitled@") && filename.ends_with(".bin"));
    assert_eq!(content_type, "application/octet-stream");

    uprq.filename = Some(String::from("test.jpg"));

    let (filename, content_type, data) = image_from_base64_data(&mut uprq).unwrap();
    assert_eq!(data, b"TEST JPEG DATA".to_vec());
    assert_eq!(filename, "test.jpg");
    assert_eq!(content_type, "application/octet-stream");

    uprq.content_type = Some(String::from("image/jpeg"));

    let (filename, content_type, data) = image_from_base64_data(&mut uprq).unwrap();
    assert_eq!(data, b"TEST JPEG DATA".to_vec());
    assert_eq!(filename, "test.jpg");
    assert_eq!(content_type, "image/jpeg");
}

#[test]
fn base64_decode_error_text_is_the_reason() {
    let mut item = empty_request();
    item.data = Some(String::from("errorneus data sdgfsdfgs5tegdsgd"));
    let e = image_from_base64_data(&item).unwrap_err();
    assert!(e.starts_with("Invalid byte"), "{}", e);
    item.data = Some(String::from("QUJD"));
    item.filename = Some(String::from("abc"));
    assert_eq!(image_from_base64_data(&item).unwrap(), (String::from("abc.bin"), String::from("application/octet-stream"), b"ABC".to_vec()));
}

fn url_item(url: &str) -> ImageUploadRequest {
    let mut item = empty_request();
    item.url = Some(String::from(url));
    item
}

#[test]
fn url_response_without_url_is_refused() {
    assert_eq!(
        image_from_url_response(&empty_request(), Some("image/png"), Some("3")).unwrap_err(),
        "image URL not specified"
    );
}

#[test]
fn url_response_that_is_not_an_image() {
    let item = url_item("http://localhost:8888/");
    assert_eq!(
        image_from_url_response(&item, Some("text/plain; charset=utf8"), Some("6")).unwrap_err(),
        "not an image"
    );
    let item = url_item("http://localhost:8888/unknown-content-type");
    assert_eq!(image_from_url_response(&item, None, Some("6")).unwrap_err(), "not an image");
    // The prefix test of a response is exact in case.
    assert_eq!(image_from_url_response(&item, Some("Image/png"), Some("6")).unwrap_err(), "not an image");
}

#[test]
fn url_response_falls_back_on_declared_type() {
    let mut item = url_item("http://localhost:8888/unknown-content-type");
    item.content_type = Some(String::from("image/jpeg"));
    assert_eq!(
        image_from_url_response(&item, None, Some("6")).unwrap(),
        (String::from("unknown-content-type.jpg"), String::from("image/jpeg"), 6)
    );
    // The header wins over the declared type.
    assert_eq!(
        image_from_url_response(&item, Some("image/png"), Some("6")).unwrap(),
        (String::from("unknown-content-type.png"), String::from("image/png"), 6)
    );
}

#[test]
fn url_response_needs_a_valid_length() {
    let item = url_item("http://localhost:8888/image");
    for len in [None, Some(""), Some("abc"), Some("-1"), Some("+"), Some("1 "), Some("99999999999999999999999")] {
        assert_eq!(
            image_from_url_response(&item, Some("image/jpeg"), len).unwrap_err(),
            "invalid content length in response"
        );
    }
}

#[test]
fn url_response_names_the_image() {
    let mut item = url_item("http://localhost:8888/image");
    assert_eq!(
        image_from_url_response(&item, Some("image/jpeg"), Some("14")).unwrap(),
        (String::from("image.jpg"), String::from("image/jpeg"), 14)
    );
    item.filename = Some(String::from("testfile"));
    assert_eq!(image_from_url_response(&item, Some("image/jpeg"), Some("14")).unwrap().0, "testfile.jpg");
    item.filename = Some(String::from("testfile.jpeg"));
    assert_eq!(image_from_url_response(&item, Some("image/jpeg"), Some("14")).unwrap().0, "testfile.jpeg");
    let item = url_item("https://placehold.co/321/png");
    assert_eq!(image_from_url_response(&item, Some("image/png"), Some("+10")).unwrap().0, "png.png");
    let item = url_item("http://host/dir/");
    let (name, _, _) = image_from_url_response(&item, Some("image/gif"), Some("0")).unwrap();
    assert!(name.starts_with("untitled@") && name.ends_with(".gif"), "{}", name);
}

fn outcome_fields(o: &ImageUploadResult) -> (String, String, u64, bool, String) {
    (o.filename.clone(), o.content_type.clone(), o.size, o.success, o.reason.clone())
}

#[test]
fn outcomes_of_writes() {
    let ok = stored_upload(String::from("a.jpg"), String::from("image/jpeg"), Some(42));
    assert_eq!(outcome_fields(&ok), (String::from("a.jpg"), String::from("image/jpeg"), 42, true, String::from("ok")));
    let failed = stored_upload(String::from("a.jpg"), String::from("image/jpeg"), None);
    assert_eq!(
        outcome_fields(&failed),
        (String::from("a.jpg"), String::from("image/jpeg"), 0, false, String::from("I/O error"))
    );
    let f = failed_upload("not-an-image", "text/plain", "no image data");
    assert_eq!(
        outcome_fields(&f),
        (String::from("not-an-image"), String::from("text/plain"), 0, false, String::from("no image data"))
    );
}

#[test]
fn failed_items_carry_what_they_declared() {
    let mut item = url_item("http://x/y");
    let o = failed_item(&item, "boom");
    assert_eq!(outcome_fields(&o), (String::new(), String::new(), 0, false, String::from("boom")));
    item.filename = Some(String::from("f"));
    item.content_type = Some(String::from("image/png"));
    let o = failed_item(&item, "boom");
    assert_eq!(outcome_fields(&o), (String::from("f"), String::from("image/png"), 0, false, String::from("boom")));
}

#[test]
fn inline_data_takes_precedence_over_url() {
    let mut item = url_item("http://x/y.png");
    item.data = Some(String::from("QUJD"));
    item.filename = Some(String::from("z.bin"));
    match start_json_item(&item) {
        JsonItemStep::Store { filename, content_type, data } => {
            assert_eq!(filename, "z.bin");
            assert_eq!(content_type, "application/octet-stream");
            assert_eq!(data, b"ABC".to_vec());
        }
        _ => panic!("inline data must be stored"),
    }
    item.data = Some(String::from("not base64!"));
    match start_json_item(&item) {
        JsonItemStep::Finish { outcome } => {
            assert!(!outcome.success);
            assert_eq!(outcome.size, 0);
            assert_eq!(outcome.filename, "z.bin");
            assert!(outcome.reason.starts_with("Invalid byte"), "{}", outcome.reason);
        }
        _ => panic!("bad inline data fails the item"),
    }
}

/// One JSON batch driven through the item steps, with the fetch of the
/// unreachable URL failing and the write of the inline image succeeding.
#[test]
fn json_batch_scenario() {
    let mut items = vec![url_item("http://not-existent-server-a3bc8def"), empty_request(), empty_request()];
    items[1].data = Some(String::from("VEVTVCBKUEVHIERBVEE="));
    items[1].filename = Some(String::from("valid_base64"));
    let mut results = Vec::new();
    for item in &items {
        let outcome = match start_json_item(item) {
            JsonItemStep::Finish { outcome } => outcome,
            JsonItemStep::Fetch { url } => {
                assert_eq!(url, "http://not-existent-server-a3bc8def");
                failed_item(item, "failed to lookup address information")
            }
            JsonItemStep::Store { filename, content_type, data } => {
                assert_eq!(data, b"TEST JPEG DATA".to_vec());
                stored_upload(filename, content_type, Some(data.len() as u64))
            }
        };
        results.push(outcome);
    }
    let flags: Vec<bool> = results.iter().map(|o| o.success).collect();
    assert_eq!(flags, vec![false, true, false]);
    assert_eq!(results[1].filename, "valid_base64.bin");
    assert_eq!(results[1].size, 14);
    assert_eq!(results[1].reason, "ok");
    assert_eq!(results[2].reason, "nor url or data are specified");
    assert_eq!(results[2].size, 0);
}

/// A multipart body with a JPEG, a PNG without filename and a text field.
#[test]
fn multipart_batch_scenario() {
    let http_rq = multipart_formdata_request();
    let mut fields = get_multipart_input(&http_rq).unwrap();
    let mut results = Vec::new();
    while let Some(mut field) = fields.next() {
        let ct = field.headers.content_type.as_ref().map(|m| m.to_string());
        let outcome = match image_from_multipart_field(ct.as_deref(), field.headers.filename.as_deref(), &field.headers.name) {
            Ok((filename, content_type)) => {
                let mut data = Vec::new();
                let n = field.data.read_to_end(&mut data).unwrap();
                stored_upload(filename, content_type, Some(n as u64))
            }
            Err(reason) => failed_upload(&field.headers.name, ct.as_deref().unwrap_or(""), &reason),
        };
        results.push(outcome);
    }
    assert_eq!(results.len(), 3);
    assert!(results[0].success && results[1].success && !results[2].success);
    assert_eq!(results[0].filename, "sample.jpg");
    assert_eq!(results[1].filename, "file-from-name.png");
    assert_eq!(results[1].size, 14);
    assert_eq!(results[2].reason, "no image data");
    assert_eq!(results[2].filename, "not-an-image");
}

#[test]
fn posts_are_routed_by_media_type() {
    assert_eq!(post_body_for(Some("application/json")), PostBody::Json);
    assert_eq!(post_body_for(Some("Application/JSON; charset=utf-8")), PostBody::Json);
    assert_eq!(
        post_body_for(Some("multipart/form-data; boundary=boundary-guard-abcdef123456")),
        PostBody::Multipart
    );
    assert_eq!(post_body_for(Some("text/plain")), PostBody::NotAcceptable);
    assert_eq!(post_body_for(Some("application/json ; x")), PostBody::NotAcceptable);
    assert_eq!(post_body_for(Some("")), PostBody::NotAcceptable);
    assert_eq!(post_body_for(None), PostBody::Missing);
}
