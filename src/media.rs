//! Format and MIME lookups, sniffing, and the raster codec operations the
//! pipeline hands off to the image and mime_guess crates.
use vstd::prelude::*;

verus! {

#[verifier::external_type_specification]
#[verifier::external_body]
pub struct ExImageFormat(image::ImageFormat);

#[verifier::external_type_specification]
#[verifier::external_body]
pub struct ExDynamicImage(image::DynamicImage);

/// `s` with ASCII capitals turned to lower case.
pub open spec fn ascii_lower(s: Seq<char>) -> Seq<char> {
    s.map_values(|c: char| if 'A' <= c && c <= 'Z' { ((c as u32) + 32) as char } else { c })
}

/// The lower-case extensions that name a raster format of the codec.
pub open spec fn known_image_extension(e: Seq<char>) -> bool {
    ||| e == "avif"@ ||| e == "jpg"@ ||| e == "jpeg"@ ||| e == "png"@ ||| e == "gif"@
    ||| e == "webp"@ ||| e == "tif"@ ||| e == "tiff"@ ||| e == "tga"@ ||| e == "dds"@
    ||| e == "bmp"@ ||| e == "ico"@ ||| e == "hdr"@ ||| e == "exr"@ ||| e == "pbm"@
    ||| e == "pam"@ ||| e == "ppm"@ ||| e == "pgm"@ ||| e == "ff"@ ||| e == "farbfeld"@
    ||| e == "qoi"@
}

/// An output format of the codec, with the extension it was looked up by.
pub struct OutputFormat {
    format: image::ImageFormat,
    ext: Ghost<Seq<char>>,
}

impl OutputFormat {
    /// The extension this format was looked up by.
    pub closed spec fn ext(&self) -> Seq<char> {
        self.ext@
    }
}

/// Relies on `image::ImageFormat::from_extension`: it lower-cases the ASCII letters
/// of the extension and looks it up in a fixed table.
#[verifier::external_body]
pub(crate) fn format_from_extension(ext: &str) -> (r: Option<OutputFormat>)
    ensures
        r is Some <==> known_image_extension(ascii_lower(ext@)),
        r matches Some(f) ==> f.ext() == ext@,
{
    match image::ImageFormat::from_extension(ext) {
        Some(format) => Some(OutputFormat { format, ext: Ghost(ext@) }),
        None => None,
    }
}

pub open spec fn opt_string_view(s: Option<String>) -> Option<Seq<char>> {
    match s {
        Some(v) => Some(v@),
        None => None,
    }
}

/// The first MIME type that mime_guess lists for an extension, as "type/subtype".
pub uninterp spec fn extension_mime(ext: Seq<char>) -> Option<Seq<char>>;

/// Relies on `mime_guess::from_ext(..).first()` and the MIME type's `Display`:
/// a lookup in a fixed table, a function of the extension alone.
#[verifier::external_body]
pub(crate) fn mime_from_extension(ext: &Vec<char>) -> (r: Option<String>)
    ensures
        opt_string_view(r) == extension_mime(ext@),
{
    let ext: String = ext.iter().collect();
    mime_guess::from_ext(&ext).first().map(|m| m.to_string())
}

/// The last segment of a path: what follows its last `/`.
pub open spec fn last_segment(p: Seq<char>) -> Seq<char>
    decreases p.len(),
{
    if p.len() == 0 {
        Seq::empty()
    } else if p.last() == '/' {
        Seq::empty()
    } else {
        last_segment(p.drop_last()).push(p.last())
    }
}

/// The extension of a path: the text after the last `.` of its last segment,
/// where that `.` is not the segment's first character; `None` where there is no such `.`.
pub open spec fn path_extension(p: Seq<char>) -> Option<Seq<char>>
    decreases p.len(),
{
    if p.len() == 0 {
        None
    } else if p.last() == '/' {
        None
    } else if p.last() == '.' {
        if last_segment(p.drop_last()).len() == 0 {
            None
        } else {
            Some(Seq::empty())
        }
    } else {
        match path_extension(p.drop_last()) {
            Some(e) => Some(e.push(p.last())),
            None => None,
        }
    }
}

/// Computes `path_extension`.
pub fn extension_of_path(path: &Vec<char>) -> (r: Option<Vec<char>>)
    ensures
        match r {
            Some(e) => path_extension(path@) == Some(e@),
            None => path_extension(path@) is None,
        },
{
    let mut seg: usize = 0;
    let mut ext: Option<Vec<char>> = None;
    let mut i: usize = 0;
    proof {
        assert(path@.subrange(0, 0) =~= Seq::<char>::empty());
    }
    while i < path.len()
        invariant
            i <= path@.len(),
            seg <= i,
            seg == last_segment(path@.subrange(0, i as int)).len(),
            match ext {
                Some(e) => path_extension(path@.subrange(0, i as int)) == Some(e@),
                None => path_extension(path@.subrange(0, i as int)) is None,
            },
        decreases path@.len() - i,
    {
        let c = path[i];
        let ghost before = path@.subrange(0, i as int);
        let ghost after = path@.subrange(0, i + 1);
        proof {
            assert(after.drop_last() =~= before);
            assert(after.last() == c);
        }
        if c == '/' {
            seg = 0;
            ext = None;
        } else if c == '.' {
            if seg == 0 {
                ext = None;
            } else {
                let fresh: Vec<char> = Vec::new();
                assert(fresh@ =~= Seq::<char>::empty());
                ext = Some(fresh);
            }
            seg = seg + 1;
        } else {
            ext = match ext {
                Some(e) => {
                    let mut e = e;
                    e.push(c);
                    Some(e)
                },
                None => None,
            };
            seg = seg + 1;
        }
        i = i + 1;
    }
    proof {
        assert(path@.subrange(0, path@.len() as int) =~= path@);
    }
    ext
}

/// The text after the first `c` of `s` (empty where there is none).
pub open spec fn after_first(s: Seq<char>, c: char) -> Seq<char>
    decreases s.len(),
{
    if s.len() == 0 {
        Seq::empty()
    } else if s[0] == c {
        s.drop_first()
    } else {
        after_first(s.drop_first(), c)
    }
}

/// The text of `s` before its first `+` or `;`.
pub open spec fn before_suffix(s: Seq<char>) -> Seq<char>
    decreases s.len(),
{
    if s.len() == 0 || s[0] == '+' || s[0] == ';' {
        Seq::empty()
    } else {
        seq![s[0]] + before_suffix(s.drop_first())
    }
}

/// The subtype of a MIME type written "type/subtype+suffix; params": the text
/// between the `/` and the first `+` or `;`.
pub open spec fn mime_subtype(m: Seq<char>) -> Seq<char> {
    before_suffix(after_first(m, '/'))
}

proof fn lemma_rest_step(s: Seq<char>, i: int)
    requires
        0 <= i < s.len(),
    ensures
        s.subrange(i, s.len() as int).drop_first() == s.subrange(i + 1, s.len() as int),
        s.subrange(i, s.len() as int)[0] == s[i],
        s.subrange(i, s.len() as int).len() > 0,
{
    assert(s.subrange(i, s.len() as int).drop_first() =~= s.subrange(i + 1, s.len() as int));
}

fn skip_past_slash(m: &Vec<char>, i: usize) -> (r: usize)
    requires
        i <= m@.len(),
    ensures
        r <= m@.len(),
        m@.subrange(r as int, m@.len() as int) == after_first(
            m@.subrange(i as int, m@.len() as int),
            '/',
        ),
    decreases m@.len() - i,
{
    if i == m.len() {
        proof {
            assert(m@.subrange(i as int, m@.len() as int).len() == 0);
        }
        i
    } else {
        proof {
            lemma_rest_step(m@, i as int);
        }
        if m[i] == '/' {
            i + 1
        } else {
            skip_past_slash(m, i + 1)
        }
    }
}

fn take_before_suffix(m: &Vec<char>, i: usize) -> (r: Vec<char>)
    requires
        i <= m@.len(),
    ensures
        r@ == before_suffix(m@.subrange(i as int, m@.len() as int)),
    decreases m@.len() - i,
{
    if i == m.len() {
        proof {
            assert(m@.subrange(i as int, m@.len() as int).len() == 0);
        }
        Vec::new()
    } else {
        proof {
            lemma_rest_step(m@, i as int);
        }
        let c = m[i];
        if c == '+' || c == ';' {
            Vec::new()
        } else {
            let mut rest = take_before_suffix(m, i + 1);
            rest.insert(0, c);
            proof {
                assert(rest@ =~= seq![c] + before_suffix(m@.subrange(i + 1, m@.len() as int)));
            }
            rest
        }
    }
}

/// Computes `mime_subtype`.
pub fn subtype_of_mime(m: &Vec<char>) -> (r: Vec<char>)
    ensures
        r@ == mime_subtype(m@),
{
    proof {
        assert(m@.subrange(0, m@.len() as int) =~= m@);
    }
    let start = skip_past_slash(m, 0);
    take_before_suffix(m, start)
}

/// Whether the codec recognises the leading magic bytes of a buffer.
pub uninterp spec fn sniffable(bytes: Seq<u8>) -> bool;

/// Relies on `image::guess_format`: it compares the start of the buffer with a
/// fixed table of signatures, a function of the bytes alone.
#[verifier::external_body]
pub(crate) fn is_sniffable(bytes: &[u8]) -> (r: bool)
    ensures
        r == sniffable(bytes@),
{
    image::guess_format(bytes).is_ok()
}

/// How decoding failed.
#[derive(Clone, Copy, Debug, PartialEq, Eq, Structural)]
pub enum DecodeFailure {
    /// The decoder refused to pass its memory ceiling.
    Limit,
    /// Corrupt data, an unsupported variant, or any other reason.
    Other,
}

/// How a raster in memory was made: decoded from bytes, then resized or
/// converted to 8-bit RGBA, each step a function of what it was given.
pub enum Provenance {
    Decoded { bytes: Seq<u8>, max_alloc: u64 },
    Resized { from: Box<Provenance>, width: u32, height: u32 },
    Rgba { from: Box<Provenance> },
}

/// What decoding `bytes`, in the format their signature shows, with the decoder's
/// allocation ceiling at `max_alloc`, gives: the image's width and height, or how it failed.
pub uninterp spec fn decode_outcome(bytes: Seq<u8>, max_alloc: u64) -> Result<(u32, u32), DecodeFailure>;

/// The bytes that encoding the raster made by `origin` in the format looked up by
/// `ext` gives, or `None` where the encoder fails.
pub uninterp spec fn encoded(origin: Provenance, ext: Seq<char>) -> Option<Seq<u8>>;

/// Width and height of the raster that `origin` makes.
pub open spec fn dims_of(origin: Provenance) -> (u32, u32)
    decreases origin,
{
    match origin {
        Provenance::Decoded { bytes, max_alloc } => match decode_outcome(bytes, max_alloc) {
            Ok(d) => d,
            Err(_) => (0u32, 0u32),
        },
        Provenance::Resized { from: _, width, height } => (width, height),
        Provenance::Rgba { from } => dims_of(*from),
    }
}

/// A decoded raster, with how it was made.
pub struct Raster {
    image: image::DynamicImage,
    origin: Ghost<Provenance>,
}

impl Raster {
    /// How this raster was made.
    pub closed spec fn origin(&self) -> Provenance {
        self.origin@
    }
}

/// Relies on `image::io::Reader` over the bytes, with `with_guessed_format` (the
/// signature table of `guess_format`), `Limits::max_alloc` set to `max_alloc`,
/// and `decode`; `ImageError::Limits` is told apart from the other errors.
#[verifier::external_body]
pub(crate) fn decode_limited(bytes: &[u8], max_alloc: u64) -> (r: Result<Raster, DecodeFailure>)
    ensures
        match decode_outcome(bytes@, max_alloc) {
            Ok(_) => r matches Ok(img) && img.origin() == (Provenance::Decoded { bytes: bytes@, max_alloc }),
            Err(f) => r matches Err(g) && g == f,
        },
{
    let reader = match image::io::Reader::new(std::io::Cursor::new(bytes)).with_guessed_format() {
        Ok(reader) => reader,
        Err(_) => return Err(DecodeFailure::Other),
    };
    let mut reader = reader;
    let mut limits = image::io::Limits::no_limits();
    limits.max_alloc = Some(max_alloc);
    reader.limits(limits);
    match reader.decode() {
        Ok(image) => Ok(Raster { image, origin: Ghost(Provenance::Decoded { bytes: bytes@, max_alloc }) }),
        Err(image::ImageError::Limits(_)) => Err(DecodeFailure::Limit),
        Err(_) => Err(DecodeFailure::Other),
    }
}

/// Relies on `DynamicImage::width`.
#[verifier::external_body]
pub(crate) fn raster_width(img: &Raster) -> (r: u32)
    ensures
        r == dims_of(img.origin()).0,
{
    img.image.width()
}

/// Relies on `DynamicImage::height`.
#[verifier::external_body]
pub(crate) fn raster_height(img: &Raster) -> (r: u32)
    ensures
        r == dims_of(img.origin()).1,
{
    img.image.height()
}

/// Relies on `DynamicImage::resize_exact` with the nearest-neighbour filter: the
/// result is `width` by `height`, aspect ratio not kept. Only non-empty rasters
/// and sizes are handed to it.
#[verifier::external_body]
pub(crate) fn resize_nearest(img: &Raster, width: u32, height: u32) -> (r: Raster)
    requires
        dims_of(img.origin()).0 > 0,
        dims_of(img.origin()).1 > 0,
        width > 0,
        height > 0,
    ensures
        r.origin() == (Provenance::Resized { from: Box::new(img.origin()), width, height }),
{
    Raster {
        image: img.image.resize_exact(width, height, image::imageops::FilterType::Nearest),
        origin: Ghost(Provenance::Resized { from: Box::new(img.origin@), width, height }),
    }
}

/// Relies on `DynamicImage::to_rgba8`: the same pixels as 8-bit RGBA.
#[verifier::external_body]
pub(crate) fn to_rgba8(img: &Raster) -> (r: Raster)
    ensures
        r.origin() == (Provenance::Rgba { from: Box::new(img.origin()) }),
{
    Raster {
        image: image::DynamicImage::ImageRgba8(img.image.to_rgba8()),
        origin: Ghost(Provenance::Rgba { from: Box::new(img.origin@) }),
    }
}

pub open spec fn opt_bytes_view(v: Option<Vec<u8>>) -> Option<Seq<u8>> {
    match v {
        Some(b) => Some(b@),
        None => None,
    }
}

/// Relies on `DynamicImage::write_to` into an in-memory cursor: the encoded bytes,
/// or `None` when the encoder fails.
#[verifier::external_body]
pub(crate) fn encode(img: &Raster, format: &OutputFormat) -> (r: Option<Vec<u8>>)
    ensures
        opt_bytes_view(r) == encoded(img.origin(), format.ext()),
{
    let mut out = std::io::Cursor::new(Vec::new());
    match img.image.write_to(&mut out, format.format) {
        Ok(()) => Some(out.into_inner()),
        Err(_) => None,
    }
}

} // verus!
