use image_proxy::fetch::FetchError;
use image_proxy::media::{extension_of_path, subtype_of_mime, DecodeFailure};
use image_proxy::pipeline::{
    begin, decode_fallback, finish, plan_request, raster_fits, respond, target_dimensions,
    transcode, Begin, Failure, Job, Outcome, Reply, Step, DECODE_CEILING, DEFAULT_MAX_AGE,
};
use image_proxy::policy::AppState;
use image_proxy::request_context::RequestContext;
use image_proxy::text::decimal_string;

fn ctx(url: &str, format: Option<&str>, width: Option<u32>, height: Option<u32>) -> RequestContext {
    RequestContext {
        url: url.to_string(),
        width,
        height,
        format: format.map(|f| f.to_string()),
        cache_max_age: None,
    }
}

fn open_policy() -> AppState {
    AppState::new(Some("blacklist"), None)
}

fn png_source(width: u32, height: u32) -> Vec<u8> {
    let img = image::RgbImage::from_fn(width, height, |x, y| image::Rgb([x as u8 * 40, y as u8 * 60, 7]));
    let mut out = std::io::Cursor::new(Vec::new());
    image::DynamicImage::ImageRgb8(img).write_to(&mut out, image::ImageFormat::Png).unwrap();
    out.into_inner()
}

fn job_for(c: &RequestContext) -> Job {
    match begin(&open_policy(), c) {
        Begin::Fetch(job) => job,
        Begin::Reply(r) => panic!("expected a fetch, got {:?}", r),
    }
}

fn image_reply(r: Reply) -> (String, String, Vec<u8>) {
    match r {
        Reply::Image { content_type, cache_control, body } => (content_type, cache_control, body),
        other => panic!("expected an image, got {:?}", other),
    }
}

#[test]
fn plan_refuses_bad_url_first() {
    let r = plan_request(&AppState::new(None, None), &ctx("::not a url", Some("png"), None, None));
    assert!(matches!(r, Err(Failure::BadUrl)));
}

#[test]
fn plan_refuses_denied_domain() {
    let r = plan_request(&AppState::new(None, None), &ctx("https://a.com/x.png", None, None, None));
    assert!(matches!(r, Err(Failure::Denied)));
}

#[test]
fn plan_refuses_unknown_format() {
    let r = plan_request(&open_policy(), &ctx("https://a.com/x.png", Some("xyz"), None, None));
    assert!(matches!(r, Err(Failure::UnsupportedFormat)));
}

#[test]
fn plan_refuses_zero_dimension() {
    let r = plan_request(&open_policy(), &ctx("https://a.com/x.png", None, Some(0), None));
    assert!(matches!(r, Err(Failure::BadDimension)));
    let r = plan_request(&open_policy(), &ctx("https://a.com/x.png", None, None, Some(0)));
    assert!(matches!(r, Err(Failure::BadDimension)));
}

#[test]
fn plan_redirects_svg() {
    let r = plan_request(&open_policy(), &ctx("https://a.com/logo.svg", Some("png"), None, None));
    assert!(matches!(r, Ok(Step::Redirect)));
}

#[test]
fn plan_fetches_raster_with_default_webp() {
    match plan_request(&open_policy(), &ctx("https://a.com/x.jpg", None, Some(5), None)) {
        Ok(Step::Fetch(job)) => {
            assert_eq!(job.content_type, "image/webp");
            assert_eq!(job.width, Some(5));
            assert_eq!(job.height, None);
        }
        _ => panic!("expected a fetch"),
    }
    match plan_request(&open_policy(), &ctx("https://a.com/x", Some("PNG"), None, None)) {
        Ok(Step::Fetch(job)) => assert_eq!(job.content_type, "image/png"),
        _ => panic!("expected a fetch"),
    }
}

#[test]
fn svg_test_reads_the_url_path_only() {
    let r = plan_request(&open_policy(), &ctx("https://a.com/pic.svg?v=1#top", Some("png"), None, None));
    assert!(matches!(r, Ok(Step::Redirect)));
    let r = plan_request(&open_policy(), &ctx("https://a.com/x.png?f=a.svg", Some("png"), None, None));
    assert!(matches!(r, Ok(Step::Fetch(_))));
}

#[test]
fn svg_redirect_comes_before_dimension_check() {
    let r = plan_request(&open_policy(), &ctx("https://a.com/pic.svg", Some("png"), Some(0), None));
    assert!(matches!(r, Ok(Step::Redirect)));
}

#[test]
fn svg_extension_of_last_segment_only() {
    let r = plan_request(&open_policy(), &ctx("foo://h/a\\.svg", Some("png"), None, None));
    assert!(matches!(r, Ok(Step::Redirect)));
    let r = plan_request(&open_policy(), &ctx("https://a.com/.svg", Some("png"), None, None));
    assert!(matches!(r, Ok(Step::Fetch(_))));
    let r = plan_request(&open_policy(), &ctx("https://a.com/dir.svg/x", Some("png"), None, None));
    assert!(matches!(r, Ok(Step::Fetch(_))));
    let r = plan_request(&open_policy(), &ctx("https://a.com/a.b.svg", Some("png"), None, None));
    assert!(matches!(r, Ok(Step::Redirect)));
}

#[test]
fn path_extensions() {
    let ext = |p: &str| extension_of_path(&p.chars().collect()).map(|e| e.into_iter().collect::<String>());
    assert_eq!(ext("/a/b.png"), Some("png".to_string()));
    assert_eq!(ext("/a/b.tar.gz"), Some("gz".to_string()));
    assert_eq!(ext("/a.d/b"), None);
    assert_eq!(ext("/a/.hidden"), None);
    assert_eq!(ext("/a/b."), Some("".to_string()));
    assert_eq!(ext(""), None);
    assert_eq!(ext("/x/"), None);
}

#[test]
fn mime_subtypes() {
    let sub = |m: &str| subtype_of_mime(&m.chars().collect()).into_iter().collect::<String>();
    assert_eq!(sub("image/svg+xml"), "svg");
    assert_eq!(sub("image/png"), "png");
    assert_eq!(sub("text/plain; charset=utf-8"), "plain");
    assert_eq!(sub("noslash"), "");
}

#[test]
fn svg_redirect_reply_keeps_url_and_cache_header() {
    let mut c = ctx("https://a.com/pic.svg", None, None, None);
    match begin(&open_policy(), &c) {
        Begin::Reply(Reply::Redirect { location, cache_control }) => {
            assert_eq!(location, "https://a.com/pic.svg");
            assert_eq!(cache_control, "max-age=31536000");
        }
        _ => panic!("unexpected reply"),
    }
    c.cache_max_age = Some(60);
    match begin(&open_policy(), &c) {
        Begin::Reply(Reply::Redirect { cache_control, .. }) => assert_eq!(cache_control, "max-age=60"),
        _ => panic!("unexpected reply"),
    }
}

#[test]
fn error_replies_carry_status_and_reason() {
    match begin(&AppState::new(None, None), &ctx("https://a.com/x.png", None, None, None)) {
        Begin::Reply(Reply::Error { status, message }) => {
            assert_eq!(status, 401);
            assert_eq!(message, "Domain is not whitelisted");
        }
        _ => panic!("unexpected reply"),
    }
    match begin(&open_policy(), &ctx("https://a.com/x.png", Some("doc"), None, None)) {
        Begin::Reply(Reply::Error { status, message }) => {
            assert_eq!(status, 400);
            assert_eq!(message, "Format doc not supported");
        }
        _ => panic!("unexpected reply"),
    }
    match begin(&open_policy(), &ctx("nope", None, None, None)) {
        Begin::Reply(Reply::Error { status, message }) => {
            assert_eq!(status, 400);
            assert_eq!(message, "Invalid URL");
        }
        _ => panic!("unexpected reply"),
    }
}

#[test]
fn respond_maps_each_failure() {
    let c = ctx("https://a.com/x.png", None, None, None);
    let cases = [
        (Failure::BadDimension, 400, "Width and height must be positive"),
        (Failure::Fetch(FetchError::TooLarge), 413, "Response Body Exceeded the maximum of 104857600 bytes"),
        (Failure::Fetch(FetchError::SendError), 500, "Error Sending Request"),
        (Failure::Fetch(FetchError::ChunkError), 500, "Error Decoding Response"),
        (Failure::Undetectable, 500, "Unable to determine Image format"),
        (Failure::DecodeFailed, 500, "Unable to decode image"),
        (Failure::EncodeFailed, 500, "Error Converting to requested format"),
        (Failure::UnsupportedFormat, 400, "Format webp not supported"),
    ];
    for (f, want_status, want_message) in cases {
        match respond(Err(f), &c) {
            Reply::Error { status, message } => {
                assert_eq!(status, want_status);
                assert_eq!(message, want_message);
            }
            other => panic!("unexpected {:?}", other),
        }
    }
}

#[test]
fn respond_success_has_cache_header() {
    let mut c = ctx("https://a.com/x.png", None, None, None);
    c.cache_max_age = Some(0);
    let out = Outcome::Encoded { content_type: "image/png".to_string(), bytes: vec![1, 2] };
    let (ct, cc, body) = image_reply(respond(Ok(out), &c));
    assert_eq!(ct, "image/png");
    assert_eq!(cc, "max-age=0");
    assert_eq!(body, vec![1, 2]);
}

#[test]
fn finish_reports_fetch_errors() {
    let c = ctx("https://a.com/x.png", Some("png"), None, None);
    let job = job_for(&c);
    match finish(&job, Err(FetchError::TooLarge), &c) {
        Reply::Error { status, .. } => assert_eq!(status, 413),
        other => panic!("unexpected {:?}", other),
    }
}

#[test]
fn finish_rejects_unknown_bytes() {
    let c = ctx("https://a.com/x.png", Some("png"), None, None);
    let job = job_for(&c);
    match finish(&job, Ok(b"hello, not an image".to_vec()), &c) {
        Reply::Error { status, message } => {
            assert_eq!(status, 500);
            assert_eq!(message, "Unable to determine Image format");
        }
        other => panic!("unexpected {:?}", other),
    }
}

#[test]
fn corrupt_png_is_a_decode_error() {
    let c = ctx("https://a.com/x.png", Some("png"), None, None);
    let job = job_for(&c);
    let mut bytes = png_source(4, 3);
    bytes.truncate(20);
    assert_eq!(transcode(&job, &bytes, &c.url).unwrap_err(), Failure::DecodeFailed);
}

#[test]
fn png_without_dimensions_keeps_size() {
    let c = ctx("https://a.com/x.png", Some("png"), None, None);
    let job = job_for(&c);
    let (ct, cc, body) = image_reply(finish(&job, Ok(png_source(4, 3)), &c));
    assert_eq!(ct, "image/png");
    assert_eq!(cc, format!("max-age={}", DEFAULT_MAX_AGE));
    assert_eq!(image::guess_format(&body).unwrap(), image::ImageFormat::Png);
    let out = image::load_from_memory(&body).unwrap();
    assert_eq!((out.width(), out.height()), (4, 3));
}

#[test]
fn width_only_keeps_source_height() {
    let c = ctx("https://a.com/x.png", Some("png"), Some(10), None);
    let job = job_for(&c);
    let (_, _, body) = image_reply(finish(&job, Ok(png_source(4, 3)), &c));
    let out = image::load_from_memory(&body).unwrap();
    assert_eq!((out.width(), out.height()), (10, 3));
}

#[test]
fn both_dimensions_resize_exactly() {
    let c = ctx("https://a.com/x.png", Some("jpeg"), Some(2), Some(9));
    let job = job_for(&c);
    let (ct, _, body) = image_reply(finish(&job, Ok(png_source(4, 3)), &c));
    assert_eq!(ct, "image/jpeg");
    assert_eq!(image::guess_format(&body).unwrap(), image::ImageFormat::Jpeg);
    let out = image::load_from_memory(&body).unwrap();
    assert_eq!((out.width(), out.height()), (2, 9));
}

#[test]
fn webp_output_by_default() {
    let c = ctx("https://a.com/x.png", None, None, None);
    let job = job_for(&c);
    let (ct, _, body) = image_reply(finish(&job, Ok(png_source(3, 3)), &c));
    assert_eq!(ct, "image/webp");
    assert_eq!(image::guess_format(&body).unwrap(), image::ImageFormat::WebP);
}

#[test]
fn same_request_same_bytes() {
    let c = ctx("https://a.com/x.png", Some("png"), Some(7), Some(5));
    let source = png_source(4, 3);
    let (_, _, first) = image_reply(finish(&job_for(&c), Ok(source.clone()), &c));
    let (_, _, second) = image_reply(finish(&job_for(&c), Ok(source), &c));
    assert_eq!(first, second);
}

#[test]
fn oversized_target_falls_back_to_redirect() {
    let c = ctx("https://a.com/x.png", Some("png"), Some(100_000), Some(100_000));
    let job = job_for(&c);
    match finish(&job, Ok(png_source(2, 2)), &c) {
        Reply::Redirect { location, cache_control } => {
            assert_eq!(location, "https://a.com/x.png");
            assert_eq!(cache_control, "max-age=31536000");
        }
        other => panic!("unexpected {:?}", other),
    }
}

#[test]
fn decode_limit_falls_back_to_redirect() {
    let url = "https://a.com/x.png".to_string();
    match decode_fallback(DecodeFailure::Limit, &url) {
        Ok(Outcome::Redirect(u)) => assert_eq!(u, url),
        other => panic!("unexpected {:?}", other),
    }
    assert_eq!(decode_fallback(DecodeFailure::Other, &url).unwrap_err(), Failure::DecodeFailed);
}

#[test]
fn dimensions_default_to_source() {
    assert_eq!(target_dimensions(4, 3, None, None), (4, 3));
    assert_eq!(target_dimensions(4, 3, Some(8), None), (8, 3));
    assert_eq!(target_dimensions(4, 3, None, Some(1)), (4, 1));
    assert_eq!(target_dimensions(4, 3, Some(2), Some(2)), (2, 2));
}

#[test]
fn raster_ceiling() {
    assert!(raster_fits(8192, 8192));
    assert!(!raster_fits(8192, 8193));
    assert!(raster_fits(0, u32::MAX));
    assert!(!raster_fits(u32::MAX, u32::MAX));
    assert_eq!(DECODE_CEILING, 1 << 30);
}

#[test]
fn decimal_numerals() {
    assert_eq!(decimal_string(0), "0");
    assert_eq!(decimal_string(7), "7");
    assert_eq!(decimal_string(10), "10");
    assert_eq!(decimal_string(31536000), "31536000");
    assert_eq!(decimal_string(u32::MAX), "4294967295");
}
