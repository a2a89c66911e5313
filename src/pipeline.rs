//! One request end to end, apart from the network: the checks before the fetch,
//! the decode / resize / encode pipeline after it, and the response.
use vstd::prelude::*;

use crate::fetch::{fetch_error_message, fetch_error_status, FetchError};
use crate::media::{
    ascii_lower, decode_limited, decode_outcome, encode, encoded, extension_mime,
    format_from_extension, is_sniffable, known_image_extension, mime_from_extension,
    extension_of_path, mime_subtype, opt_string_view, path_extension, raster_height, raster_width,
    subtype_of_mime,
    resize_nearest, sniffable, to_rgba8, DecodeFailure, OutputFormat, Provenance,
};
use crate::policy::{allowed_for, parse_url, parsed_url, target_view, AppState, UrlTarget};
use crate::request_context::RequestContext;
use crate::text::{chars_equal, decimal, decimal_string, to_chars};

verus! {

/// Output format used when the request names none.
pub const DEFAULT_FORMAT: &'static str = "webp";

/// Cache lifetime, in seconds, used when the request names none (one year).
pub const DEFAULT_MAX_AGE: u32 = 31536000;

/// Most bytes of pixel memory that decoding, or the resized RGBA raster, may take (1 GiB).
pub const DECODE_CEILING: u64 = 1024 * 1024 * 1024;

/// Why a request failed.
#[derive(Clone, Copy, Debug, PartialEq, Eq, Structural)]
pub enum Failure {
    /// The URL does not parse.
    BadUrl,
    /// The policy refuses the URL.
    Denied,
    /// The requested output format has no encoder or no MIME type.
    UnsupportedFormat,
    /// A requested width or height is zero.
    BadDimension,
    /// The fetch failed.
    Fetch(FetchError),
    /// The fetched bytes match no known raster signature.
    Undetectable,
    /// Decoding failed for a reason other than the memory ceiling.
    DecodeFailed,
    /// Encoding into the requested format failed.
    EncodeFailed,
}

/// What the raster work needs once the checks before the fetch have passed.
pub struct Job {
    pub format: OutputFormat,
    pub content_type: String,
    pub width: Option<u32>,
    pub height: Option<u32>,
}

/// What to do after the checks before the fetch.
pub enum Step {
    /// Send the client to the source itself (a vector image).
    Redirect,
    /// Fetch the source and transcode it.
    Fetch(Job),
}

/// A successful resolution of a request.
#[derive(Clone, Debug)]
pub enum Outcome {
    /// Bytes in the requested format, with their content type.
    Encoded { content_type: String, bytes: Vec<u8> },
    /// A temporary redirect to the given URL, the source itself.
    Redirect(String),
}

/// The response to send.
#[derive(Clone, Debug)]
pub enum Reply {
    /// Status 200 with an image body.
    Image { content_type: String, cache_control: String, body: Vec<u8> },
    /// Status 307 to `location`.
    Redirect { location: String, cache_control: String },
    /// An error status with a short plain-text reason, and no cache header.
    Error { status: u16, message: String },
}

/// The extension of the requested output format.
pub open spec fn requested_ext(ctx: RequestContext) -> Seq<char> {
    match ctx.format {
        Some(f) => f@,
        None => "webp"@,
    }
}

/// The checks before the fetch, in order: the URL parses, the policy allows it,
/// the format is known to both the codec and the MIME table; then a path whose
/// MIME subtype is "svg" is redirected (`Ok(true)`); otherwise the dimensions must
/// be positive, and the source is fetched (`Ok(false)`).
pub open spec fn plan_decision(
    state: AppState,
    ctx: RequestContext,
    target: Option<(Option<Seq<char>>, Seq<char>)>,
    format_known: bool,
    mime: Option<Seq<char>>,
    subtype: Option<Seq<char>>,
) -> Result<bool, Failure> {
    if target is None {
        Err(Failure::BadUrl)
    } else if !allowed_for(state.rules(), state.mode, target) {
        Err(Failure::Denied)
    } else if !format_known || mime is None {
        Err(Failure::UnsupportedFormat)
    } else if subtype == Some("svg"@) {
        Ok(true)
    } else if ctx.width == Some(0u32) || ctx.height == Some(0u32) {
        Err(Failure::BadDimension)
    } else {
        Ok(false)
    }
}

/// `r` carries out decision `d`; a job carries the request's dimensions, the
/// format found, and `mime` as its content type.
pub open spec fn step_follows(
    r: Result<Step, Failure>,
    d: Result<bool, Failure>,
    ctx: RequestContext,
    mime: Option<Seq<char>>,
) -> bool {
    match d {
        Err(f) => r == Err::<Step, Failure>(f),
        Ok(true) => r matches Ok(Step::Redirect),
        Ok(false) => r matches Ok(Step::Fetch(job)) && Some(job.content_type@) == mime
            && job.width == ctx.width && job.height == ctx.height,
    }
}

/// The checks before the fetch, given what the URL parser, the format table, the
/// MIME table and the path's MIME subtype gave.
pub fn plan_with(
    state: &AppState,
    ctx: &RequestContext,
    target: &Option<UrlTarget>,
    format: Option<OutputFormat>,
    mime: Option<String>,
    subtype: Option<Vec<char>>,
) -> (r: Result<Step, Failure>)
    ensures
        step_follows(
            r,
            plan_decision(
                *state,
                *ctx,
                target_view(*target),
                format is Some,
                opt_string_view(mime),
                opt_chars_view(subtype),
            ),
            *ctx,
            opt_string_view(mime),
        ),
        r matches Ok(Step::Fetch(job)) ==> format == Some(job.format),
{
    if target.is_none() {
        return Err(Failure::BadUrl);
    }
    if !state.decide(target) {
        return Err(Failure::Denied);
    }
    let (fmt, content_type) = match (format, mime) {
        (Some(f), Some(m)) => (f, m),
        _ => {
            return Err(Failure::UnsupportedFormat);
        },
    };
    let svg = match subtype {
        Some(s) => {
            let word = to_chars("svg");
            chars_equal(&s, &word)
        },
        None => false,
    };
    if svg {
        return Ok(Step::Redirect);
    }
    if ctx.width == Some(0u32) || ctx.height == Some(0u32) {
        Err(Failure::BadDimension)
    } else {
        Ok(Step::Fetch(Job { format: fmt, content_type, width: ctx.width, height: ctx.height }))
    }
}

pub open spec fn opt_chars_view(v: Option<Vec<char>>) -> Option<Seq<char>> {
    match v {
        Some(c) => Some(c@),
        None => None,
    }
}

/// The MIME subtype that the extension of a parsed URL's path shows: the subtype
/// of the first MIME type listed for that extension.
pub open spec fn url_path_subtype(target: Option<(Option<Seq<char>>, Seq<char>)>) -> Option<
    Seq<char>,
> {
    match target {
        Some((_, path)) => match path_extension(path) {
            Some(e) => match extension_mime(e) {
                Some(m) => Some(mime_subtype(m)),
                None => None,
            },
            None => None,
        },
        None => None,
    }
}

/// The MIME subtype for the extension of a path, as `url_path_subtype` gives it.
fn subtype_for_path(path: &String) -> (r: Option<Vec<char>>)
    ensures
        opt_chars_view(r) == url_path_subtype(Some((None, path@))),
{
    let chars = to_chars(path.as_str());
    match extension_of_path(&chars) {
        Some(e) => match mime_from_extension(&e) {
            Some(m) => Some(subtype_of_mime(&to_chars(m.as_str()))),
            None => None,
        },
        None => None,
    }
}

/// The checks before the fetch, for a request against a policy.
pub fn plan_request(state: &AppState, ctx: &RequestContext) -> (r: Result<Step, Failure>)
    ensures
        step_follows(
            r,
            plan_decision(
                *state,
                *ctx,
                parsed_url(ctx.url@),
                known_image_extension(ascii_lower(requested_ext(*ctx))),
                extension_mime(requested_ext(*ctx)),
                url_path_subtype(parsed_url(ctx.url@)),
            ),
            *ctx,
            extension_mime(requested_ext(*ctx)),
        ),
        r matches Ok(Step::Fetch(job)) ==> job.format.ext() == requested_ext(*ctx),
{
    let target = parse_url(ctx.url.as_str());
    let ext: &str = match &ctx.format {
        Some(f) => f.as_str(),
        None => {
            proof {
                reveal_strlit("webp");
            }
            DEFAULT_FORMAT
        },
    };
    assert(ext@ == requested_ext(*ctx));
    let format = format_from_extension(ext);
    let mime = mime_from_extension(&to_chars(ext));
    let subtype = match &target {
        Some(t) => subtype_for_path(&t.path),
        None => None,
    };
    plan_with(state, ctx, &target, format, mime, subtype)
}

/// The output dimensions: each requested one, else the source's own. Width and
/// height are chosen apart; the aspect ratio is not kept.
pub open spec fn target_of(
    src_width: u32,
    src_height: u32,
    width: Option<u32>,
    height: Option<u32>,
) -> (u32, u32) {
    (
        match width {
            Some(w) => w,
            None => src_width,
        },
        match height {
            Some(h) => h,
            None => src_height,
        },
    )
}

/// With no dimensions requested, the output keeps the source's dimensions.
pub proof fn lemma_no_resize_keeps_dimensions(src_width: u32, src_height: u32)
    ensures
        target_of(src_width, src_height, None, None) == (src_width, src_height),
{
}

/// Requesting only a width changes only the width: the height stays the source's,
/// whatever the aspect ratio.
pub proof fn lemma_width_only(src_width: u32, src_height: u32, width: u32)
    ensures
        target_of(src_width, src_height, Some(width), None) == (width, src_height),
{
}

/// Computes `target_of`.
pub fn target_dimensions(
    src_width: u32,
    src_height: u32,
    width: Option<u32>,
    height: Option<u32>,
) -> (r: (u32, u32))
    ensures
        r == target_of(src_width, src_height, width, height),
{
    let w = match width {
        Some(w) => w,
        None => src_width,
    };
    let h = match height {
        Some(h) => h,
        None => src_height,
    };
    (w, h)
}

/// Whether a raster `width` by `height` fits in the ceiling at 16 bytes a pixel,
/// the widest pixel a decoded image can have (four 32-bit float channels).
pub fn raster_fits(width: u32, height: u32) -> (r: bool)
    ensures
        r == (width as int * height as int * 16 <= DECODE_CEILING as int),
{
    proof {
        assert(width as int * height as int <= 0xffff_ffff * 0xffff_ffffint) by (nonlinear_arith)
            requires
                width <= 0xffff_ffff,
                height <= 0xffff_ffff,
        ;
    }
    let pixels: u64 = width as u64 * height as u64;
    pixels <= DECODE_CEILING / 16
}

/// The fallback for a failed decode: past the memory ceiling the client is sent to
/// the source URL; any other failure is an error.
pub fn decode_fallback(failure: DecodeFailure, url: &String) -> (r: Result<Outcome, Failure>)
    ensures
        failure == DecodeFailure::Limit ==> (r matches Ok(Outcome::Redirect(u)) && u@ == url@),
        failure == DecodeFailure::Other ==> r == Err::<Outcome, Failure>(Failure::DecodeFailed),
{
    match failure {
        DecodeFailure::Limit => Ok(Outcome::Redirect(url.clone())),
        DecodeFailure::Other => Err(Failure::DecodeFailed),
    }
}

/// The bytes that decoding `bytes` under the ceiling, resizing to `width` by
/// `height`, converting to 8-bit RGBA and encoding in the format of `ext` give.
pub open spec fn transcoded(bytes: Seq<u8>, width: u32, height: u32, ext: Seq<char>) -> Option<
    Seq<u8>,
> {
    encoded(
        Provenance::Rgba {
            from: Box::new(
                Provenance::Resized {
                    from: Box::new(Provenance::Decoded { bytes, max_alloc: DECODE_CEILING }),
                    width,
                    height,
                },
            ),
        },
        ext,
    )
}

/// The result of the raster work on fetched bytes: `Ok(Some(out))` for encoded
/// bytes, `Ok(None)` for the redirect to the source, or the failure. Bytes without
/// a known signature are undetectable; past the decoder's memory ceiling, or when
/// the target raster would not fit in it, the client is redirected; an empty
/// decoded raster, or any other decode failure, is a decode error.
pub open spec fn expected_transcode(
    bytes: Seq<u8>,
    width: Option<u32>,
    height: Option<u32>,
    ext: Seq<char>,
) -> Result<Option<Seq<u8>>, Failure> {
    if !sniffable(bytes) {
        Err(Failure::Undetectable)
    } else {
        match decode_outcome(bytes, DECODE_CEILING) {
            Err(DecodeFailure::Limit) => Ok(None),
            Err(DecodeFailure::Other) => Err(Failure::DecodeFailed),
            Ok((sw, sh)) => if sw == 0 || sh == 0 {
                Err(Failure::DecodeFailed)
            } else {
                let (w, h) = target_of(sw, sh, width, height);
                if w == 0 || h == 0 {
                    Err(Failure::BadDimension)
                } else if w as int * h as int * 16 > DECODE_CEILING as int {
                    Ok(None)
                } else {
                    match transcoded(bytes, w, h, ext) {
                        Some(out) => Ok(Some(out)),
                        None => Err(Failure::EncodeFailed),
                    }
                }
            },
        }
    }
}

/// With no dimensions requested, a source that decodes to a non-empty raster that
/// fits the ceiling comes out encoded at its own size: the bytes are those of
/// encoding the source resized to its own width and height.
pub proof fn lemma_no_dimensions_keep_source_size(bytes: Seq<u8>, ext: Seq<char>, sw: u32, sh: u32)
    requires
        sniffable(bytes),
        decode_outcome(bytes, DECODE_CEILING) == Ok::<(u32, u32), DecodeFailure>((sw, sh)),
        sw > 0,
        sh > 0,
        sw as int * sh as int * 16 <= DECODE_CEILING as int,
        transcoded(bytes, sw, sh, ext) is Some,
    ensures
        expected_transcode(bytes, None, None, ext) == Ok::<Option<Seq<u8>>, Failure>(
            transcoded(bytes, sw, sh, ext),
        ),
{
}

/// `r` is the outcome that `e` describes, redirecting to `url` and labelling
/// encoded bytes with `content_type`.
pub open spec fn outcome_follows(
    r: Result<Outcome, Failure>,
    e: Result<Option<Seq<u8>>, Failure>,
    url: Seq<char>,
    content_type: Seq<char>,
) -> bool {
    match e {
        Err(f) => r == Err::<Outcome, Failure>(f),
        Ok(None) => r matches Ok(Outcome::Redirect(u)) && u@ == url,
        Ok(Some(out)) => r matches Ok(Outcome::Encoded { content_type: ct, bytes }) && ct@
            == content_type && bytes@ == out,
    }
}

/// Decodes the fetched bytes as the format their signature shows, under the memory
/// ceiling; resizes to the target dimensions with the nearest-neighbour filter;
/// converts to 8-bit RGBA; encodes in the job's format.
pub fn transcode(job: &Job, bytes: &Vec<u8>, url: &String) -> (r: Result<Outcome, Failure>)
    ensures
        outcome_follows(
            r,
            expected_transcode(bytes@, job.width, job.height, job.format.ext()),
            url@,
            job.content_type@,
        ),
{
    if !is_sniffable(bytes.as_slice()) {
        return Err(Failure::Undetectable);
    }
    let img = match decode_limited(bytes.as_slice(), DECODE_CEILING) {
        Ok(img) => img,
        Err(failure) => {
            return decode_fallback(failure, url);
        },
    };
    let sw = raster_width(&img);
    let sh = raster_height(&img);
    if sw == 0 || sh == 0 {
        return Err(Failure::DecodeFailed);
    }
    let (w, h) = target_dimensions(sw, sh, job.width, job.height);
    if w == 0 || h == 0 {
        return Err(Failure::BadDimension);
    }
    if !raster_fits(w, h) {
        return Ok(Outcome::Redirect(url.clone()));
    }
    let resized = resize_nearest(&img, w, h);
    let rgba = to_rgba8(&resized);
    match encode(&rgba, &job.format) {
        Some(out) => Ok(Outcome::Encoded { content_type: job.content_type.clone(), bytes: out }),
        None => Err(Failure::EncodeFailed),
    }
}

/// A path whose MIME subtype is "svg" is redirected once the URL has passed the
/// policy and the requested format is valid, whatever dimensions were asked for:
/// it is never fetched or decoded.
pub proof fn lemma_svg_redirects(
    state: AppState,
    ctx: RequestContext,
    target: Option<(Option<Seq<char>>, Seq<char>)>,
    format_known: bool,
    mime: Option<Seq<char>>,
)
    requires
        target is Some,
        allowed_for(state.rules(), state.mode, target),
        format_known,
        mime is Some,
    ensures
        plan_decision(state, ctx, target, format_known, mime, Some("svg"@)) == Ok::<
            bool,
            Failure,
        >(true),
{
}

/// The status of a failure.
pub open spec fn failure_status(f: Failure) -> u16 {
    match f {
        Failure::BadUrl => 400,
        Failure::Denied => 401,
        Failure::UnsupportedFormat => 400,
        Failure::BadDimension => 400,
        Failure::Fetch(e) => fetch_error_status(e),
        _ => 500,
    }
}

/// The reason given for a failure; `ext` is the requested format.
pub open spec fn failure_message(f: Failure, ext: Seq<char>) -> Seq<char> {
    match f {
        Failure::BadUrl => "Invalid URL"@,
        Failure::Denied => "Domain is not whitelisted"@,
        Failure::UnsupportedFormat => "Format "@ + ext + " not supported"@,
        Failure::BadDimension => "Width and height must be positive"@,
        Failure::Fetch(e) => fetch_error_message(e),
        Failure::Undetectable => "Unable to determine Image format"@,
        Failure::DecodeFailed => "Unable to decode image"@,
        Failure::EncodeFailed => "Error Converting to requested format"@,
    }
}

/// The Cache-Control value: the requested lifetime, else one year.
pub open spec fn cache_header(max_age: Option<u32>) -> Seq<char> {
    "max-age="@ + decimal(
        match max_age {
            Some(a) => a,
            None => 31536000u32,
        } as nat,
    )
}

fn failure_reply(f: Failure, ctx: &RequestContext) -> (r: Reply)
    ensures
        r matches Reply::Error { status, message } && status == failure_status(f) && message@
            == failure_message(f, requested_ext(*ctx)),
{
    let (status, text): (u16, &str) = match f {
        Failure::BadUrl => {
            proof {
                reveal_strlit("Invalid URL");
            }
            (400, "Invalid URL")
        },
        Failure::Denied => {
            proof {
                reveal_strlit("Domain is not whitelisted");
            }
            (401, "Domain is not whitelisted")
        },
        Failure::UnsupportedFormat => {
            let mut m = String::from_str("Format ");
            match &ctx.format {
                Some(e) => m.append(e.as_str()),
                None => m.append(DEFAULT_FORMAT),
            }
            m.append(" not supported");
            proof {
                reveal_strlit("webp");
            }
            return Reply::Error { status: 400, message: m };
        },
        Failure::BadDimension => {
            proof {
                reveal_strlit("Width and height must be positive");
            }
            (400, "Width and height must be positive")
        },
        Failure::Fetch(e) => {
            let (status, message) = e.to_http_error();
            return Reply::Error { status, message };
        },
        Failure::Undetectable => {
            proof {
                reveal_strlit("Unable to determine Image format");
            }
            (500, "Unable to determine Image format")
        },
        Failure::DecodeFailed => {
            proof {
                reveal_strlit("Unable to decode image");
            }
            (500, "Unable to decode image")
        },
        Failure::EncodeFailed => {
            proof {
                reveal_strlit("Error Converting to requested format");
            }
            (500, "Error Converting to requested format")
        },
    };
    Reply::Error { status, message: String::from_str(text) }
}

/// The response for a request's result: an image or a redirect, each with the
/// Cache-Control value of `cache_header`; or an error status and reason, which
/// carry no cache header.
pub fn respond(result: Result<Outcome, Failure>, ctx: &RequestContext) -> (r: Reply)
    ensures
        match result {
            Ok(Outcome::Encoded { content_type, bytes }) => r matches Reply::Image {
                content_type: ct,
                cache_control,
                body,
            } && ct@ == content_type@ && body@ == bytes@ && cache_control@ == cache_header(
                ctx.cache_max_age,
            ),
            Ok(Outcome::Redirect(u)) => r matches Reply::Redirect { location, cache_control }
                && location@ == u@ && cache_control@ == cache_header(ctx.cache_max_age),
            Err(f) => r matches Reply::Error { status, message } && status == failure_status(f)
                && message@ == failure_message(f, requested_ext(*ctx)),
        },
{
    match result {
        Ok(outcome) => {
            let age: u32 = match ctx.cache_max_age {
                Some(a) => a,
                None => DEFAULT_MAX_AGE,
            };
            let mut cache_control = String::from_str("max-age=");
            let digits = decimal_string(age);
            cache_control.append(digits.as_str());
            proof {
                reveal_strlit("max-age=");
            }
            match outcome {
                Outcome::Encoded { content_type, bytes } => Reply::Image {
                    content_type,
                    cache_control,
                    body: bytes,
                },
                Outcome::Redirect(location) => Reply::Redirect { location, cache_control },
            }
        },
        Err(f) => failure_reply(f, ctx),
    }
}

/// Where a request stands after the checks before the fetch.
pub enum Begin {
    /// Nothing is to be fetched: send this.
    Reply(Reply),
    /// Fetch the source, then call `finish` with this job.
    Fetch(Job),
}

/// The checks before the fetch, with their response where no fetch follows.
pub fn begin(state: &AppState, ctx: &RequestContext) -> (r: Begin)
    ensures
        ({
            let mime = extension_mime(requested_ext(*ctx));
            match plan_decision(
                *state,
                *ctx,
                parsed_url(ctx.url@),
                known_image_extension(ascii_lower(requested_ext(*ctx))),
                mime,
                url_path_subtype(parsed_url(ctx.url@)),
            ) {
                Err(f) => r matches Begin::Reply(Reply::Error { status, message }) && status
                    == failure_status(f) && message@ == failure_message(f, requested_ext(*ctx)),
                Ok(true) => r matches Begin::Reply(Reply::Redirect { location, cache_control })
                    && location@ == ctx.url@ && cache_control@ == cache_header(ctx.cache_max_age),
                Ok(false) => r matches Begin::Fetch(job) && Some(job.content_type@) == mime
                    && job.width == ctx.width && job.height == ctx.height && job.format.ext()
                    == requested_ext(*ctx),
            }
        }),
{
    match plan_request(state, ctx) {
        Err(f) => Begin::Reply(respond(Err(f), ctx)),
        Ok(Step::Redirect) => Begin::Reply(respond(Ok(Outcome::Redirect(ctx.url.clone())), ctx)),
        Ok(Step::Fetch(job)) => Begin::Fetch(job),
    }
}

/// `r` is the response for the result `e` of a request, with `content_type` for
/// encoded bytes.
pub open spec fn reply_follows(
    r: Reply,
    e: Result<Option<Seq<u8>>, Failure>,
    ctx: RequestContext,
    content_type: Seq<char>,
) -> bool {
    match e {
        Err(f) => r matches Reply::Error { status, message } && status == failure_status(f)
            && message@ == failure_message(f, requested_ext(ctx)),
        Ok(None) => r matches Reply::Redirect { location, cache_control } && location@
            == ctx.url@ && cache_control@ == cache_header(ctx.cache_max_age),
        Ok(Some(out)) => r matches Reply::Image { content_type: ct, cache_control, body } && ct@
            == content_type && body@ == out && cache_control@ == cache_header(ctx.cache_max_age),
    }
}

/// The status, the main text (content type, location or reason), the Cache-Control
/// value and the body of a reply.
pub open spec fn reply_view(r: Reply) -> (u16, Seq<char>, Seq<char>, Seq<u8>) {
    match r {
        Reply::Image { content_type, cache_control, body } => (
            200u16,
            content_type@,
            cache_control@,
            body@,
        ),
        Reply::Redirect { location, cache_control } => (
            307u16,
            location@,
            cache_control@,
            Seq::empty(),
        ),
        Reply::Error { status, message } => (status, message@, Seq::empty(), Seq::empty()),
    }
}

/// The response once the fetch is over: its error, or the transcoded image, or
/// the redirect to the source when decoding passed the memory ceiling.
pub fn finish(job: &Job, fetched: Result<Vec<u8>, FetchError>, ctx: &RequestContext) -> (r: Reply)
    ensures
        fetched matches Err(e) ==> reply_follows(
            r,
            Err(Failure::Fetch(e)),
            *ctx,
            job.content_type@,
        ),
        fetched matches Ok(b) ==> reply_follows(
            r,
            expected_transcode(b@, job.width, job.height, job.format.ext()),
            *ctx,
            job.content_type@,
        ),
{
    let result = match fetched {
        Err(e) => Err(Failure::Fetch(e)),
        Ok(bytes) => transcode(job, &bytes, &ctx.url),
    };
    respond(result, ctx)
}

/// Two responses to the same request over the same fetched bytes are identical:
/// same status, same headers, byte for byte the same body.
pub proof fn lemma_same_request_same_reply(
    r1: Reply,
    r2: Reply,
    e: Result<Option<Seq<u8>>, Failure>,
    ctx: RequestContext,
    content_type: Seq<char>,
)
    requires
        reply_follows(r1, e, ctx, content_type),
        reply_follows(r2, e, ctx, content_type),
    ensures
        reply_view(r1) == reply_view(r2),
{
}

} // verus!
