//! Site-icon engine: selects an icon among the candidates discovered on a
//! website, normalises it (resize, optional contrast inversion), and embeds
//! it as a base64 data-URL inside a CSS rule, backed by the TTL-expiring
//! icon cache.
//!
//! Fetching the page and downloading the icon bytes are I/O and stay outside
//! the library; they hand candidate lists and raw bytes in, and take CSS
//! rules back.

use vstd::prelude::*;

verus! {

use vstd::string::*;

use crate::cache::{SiteIconCache, spec_expired};
use crate::util::{identity_chars, sha1_base32};

/// Errors that may occur when fetching or building site icons.  Each variant
/// carries the offending URL or cache path.
#[derive(Debug, Clone)]
pub enum SiteIconError {
    /// No usable cache directory could be located or created.
    CacheDir,
    /// Writing an icon to the cache failed; holds the cache path.
    CacheWrite(String),
    /// Reading a cached icon failed; holds the cache path.
    CacheRead(String),
    /// Decoding a cached icon failed; holds the cache path.
    CacheDecode(String),
    /// Loading the website failed; holds the URL.
    UrlLoad(String),
    /// No suitable icon was found on the website; holds the URL.
    IconNotFound(String),
    /// Downloading the icon failed; holds the URL.
    IconRequest(String),
    /// Decoding the downloaded icon failed; holds the URL.
    IconDecode(String),
    /// Re-encoding the processed icon failed; holds the URL.
    IconEncode(String),
}

/// Declared format of a discovered icon candidate.
#[derive(Debug, Clone, Copy, PartialEq, Eq, Structural)]
pub enum IconFormat {
    /// A PNG raster image.
    Png,
    /// A JPEG raster image.
    Jpeg,
    /// An ICO container.
    Ico,
    /// An SVG vector image; never decoded.
    Svg,
}

/// An icon candidate discovered on a website: where to download it, the path
/// component of that URL, and its declared format.
#[derive(Debug, Clone)]
pub struct IconCandidate {
    /// Full URL of the icon, used to download it.
    pub url: String,
    /// Path component of the icon URL.
    pub path: String,
    /// Declared format of the icon.
    pub format: IconFormat,
}

/// Whether `needle` occurs as a contiguous subsequence of `hay`.
pub open spec fn contains_seq(hay: Seq<char>, needle: Seq<char>) -> bool {
    exists|i: int|
        0 <= i <= hay.len() - needle.len() && #[trigger] hay.subrange(i, i + needle.len())
            == needle
}

/// Whether a candidate is a favicon: its URL path mentions `favicon.ico`.
pub open spec fn is_favicon(c: IconCandidate) -> bool {
    contains_seq(c.path@, "favicon.ico"@)
}

/// Whether `needle` occurs as a substring of `hay`.
fn str_contains(hay: &str, needle: &str) -> (r: bool)
    ensures
        r == contains_seq(hay@, needle@),
{
    let hn = hay.unicode_len();
    let nn = needle.unicode_len();
    if nn > hn {
        return false;
    }
    let end = hn - nn;
    let mut i: usize = 0;
    loop
        invariant
            hn == hay@.len(),
            nn == needle@.len(),
            nn <= hn,
            end == hn - nn,
            0 <= i <= end,
            forall|j: int| 0 <= j < i ==> #[trigger] hay@.subrange(j, j + nn) != needle@,
        decreases end - i,
    {
        let mut j: usize = 0;
        let mut matches = true;
        while j < nn
            invariant
                hn == hay@.len(),
                nn == needle@.len(),
                0 <= i <= end,
                end == hn - nn,
                0 <= j <= nn,
                matches ==> forall|t: int| 0 <= t < j ==> hay@[i + t] == needle@[t],
                !matches ==> hay@.subrange(i as int, i + nn) != needle@,
            decreases nn - j,
        {
            if matches {
                let hc = hay.get_char(i + j);
                let nc = needle.get_char(j);
                if hc != nc {
                    assert(hay@.subrange(i as int, i + nn)[j as int] != needle@[j as int]);
                    matches = false;
                }
            }
            j = j + 1;
        }
        if matches {
            assert(hay@.subrange(i as int, i + nn) =~= needle@);
            return true;
        }
        if i == end {
            assert(forall|j: int|
                0 <= j <= end ==> #[trigger] hay@.subrange(j, j + nn) != needle@);
            return false;
        }
        i = i + 1;
    }
}

/// Selects the icon to use among the candidates discovered on a website:
/// the first candidate whose URL path mentions `favicon.ico` is preferred;
/// otherwise the first candidate whose declared format is not SVG; if no
/// candidate survives (an all-SVG page), no icon is selected.
pub fn select_icon(entries: &Vec<IconCandidate>) -> (r: Option<usize>)
    ensures
        r matches Some(i) ==> i < entries@.len(),
        (exists|j: int| 0 <= j < entries@.len() && is_favicon(entries@[j])) ==> (r matches Some(i)
            && is_favicon(entries@[i as int]) && forall|j: int|
            0 <= j < i ==> !is_favicon(entries@[j])),
        (forall|j: int| 0 <= j < entries@.len() ==> !is_favicon(entries@[j])) && (exists|j: int|
            0 <= j < entries@.len() && entries@[j].format != IconFormat::Svg) ==> (r matches Some(i)
            && entries@[i as int].format != IconFormat::Svg && forall|j: int|
            0 <= j < i ==> entries@[j].format == IconFormat::Svg),
        (forall|j: int| 0 <= j < entries@.len() ==> !is_favicon(entries@[j])) && (forall|j: int|
            0 <= j < entries@.len() ==> entries@[j].format == IconFormat::Svg) ==> r is None,
{
    let n = entries.len();
    for i in 0..n
        invariant
            n == entries@.len(),
            forall|j: int| 0 <= j < i ==> !is_favicon(entries@[j]),
    {
        if str_contains(entries[i].path.as_str(), "favicon.ico") {
            return Some(i);
        }
    }
    for i in 0..n
        invariant
            n == entries@.len(),
            forall|j: int| 0 <= j < entries@.len() ==> !is_favicon(entries@[j]),
            forall|j: int| 0 <= j < i ==> entries@[j].format == IconFormat::Svg,
    {
        match entries[i].format {
            IconFormat::Svg => {},
            _ => {
                return Some(i);
            },
        }
    }
    None
}

/// Resolves the icon to use for a website: applies the selection rule to
/// the discovered candidates and fails with `IconNotFound` for the URL
/// exactly when no candidate survives it (an all-SVG page qualifies as not
/// found).
pub fn resolve_icon(url: &str, entries: &Vec<IconCandidate>) -> (r: Result<
    usize,
    SiteIconError,
>)
    ensures
        r matches Ok(i) ==> i < entries@.len(),
        (exists|j: int| 0 <= j < entries@.len() && is_favicon(entries@[j])) ==> (r matches Ok(i)
            && is_favicon(entries@[i as int]) && forall|j: int|
            0 <= j < i ==> !is_favicon(entries@[j])),
        (forall|j: int| 0 <= j < entries@.len() ==> !is_favicon(entries@[j])) && (exists|j: int|
            0 <= j < entries@.len() && entries@[j].format != IconFormat::Svg) ==> (r matches Ok(i)
            && entries@[i as int].format != IconFormat::Svg && forall|j: int|
            0 <= j < i ==> entries@[j].format == IconFormat::Svg),
        r is Err <==> ((forall|j: int| 0 <= j < entries@.len() ==> !is_favicon(entries@[j])) && (
        forall|j: int| 0 <= j < entries@.len() ==> entries@[j].format == IconFormat::Svg)),
        r matches Err(e) ==> e matches SiteIconError::IconNotFound(u) && u@ == url@,
{
    match select_icon(entries) {
        Some(i) => Ok(i),
        None => Err(SiteIconError::IconNotFound(url.to_owned())),
    }
}

/// The CSS class of a site icon: `ico-` followed by the identity of the URL.
pub open spec fn spec_site_icon_class(url_bytes: Seq<u8>) -> Seq<char> {
    "ico-"@ + identity_chars(url_bytes)
}

/// Generates the unique CSS class for a site icon, based on the website URL.
pub fn site_icon_class(url: &str) -> (r: String)
    ensures
        r@ == spec_site_icon_class(url.spec_bytes()),
{
    let id = sha1_base32(url.as_bytes());
    let mut s = String::from_str("ico-");
    s.append(id.as_str());
    s
}

/// Whether the pixel at index `k` is visible: its alpha channel exceeds the
/// visibility threshold of 32.
pub open spec fn pixel_visible(pixels: Seq<u8>, k: int) -> bool {
    pixels[4 * k + 3] > 32
}

/// The brightness contribution of the pixel at index `k`: the exact sum of
/// its red, green and blue values, out of 765.
pub open spec fn pixel_value(pixels: Seq<u8>, k: int) -> int {
    pixels[4 * k] as int + pixels[4 * k + 1] as int + pixels[4 * k + 2] as int
}

/// Sum of the brightness contributions of the visible pixels among the first
/// `n` pixels.
pub open spec fn brightness_sum(pixels: Seq<u8>, n: int) -> int
    decreases n,
{
    if n <= 0 {
        0
    } else {
        brightness_sum(pixels, n - 1) + if pixel_visible(pixels, n - 1) {
            pixel_value(pixels, n - 1)
        } else {
            0
        }
    }
}

/// Number of visible pixels among the first `n` pixels.
pub open spec fn visible_count(pixels: Seq<u8>, n: int) -> int
    decreases n,
{
    if n <= 0 {
        0
    } else {
        visible_count(pixels, n - 1) + if pixel_visible(pixels, n - 1) {
            1int
        } else {
            0int
        }
    }
}

/// Average brightness lies in `[0, 1]`: the visible-pixel sum is between `0`
/// and `255` times the visible-pixel count; an image without visible pixels
/// contributes nothing, so its brightness is `0` by convention.
pub proof fn lemma_brightness_in_range(pixels: Seq<u8>, n: int)
    requires
        0 <= n,
        4 * n <= pixels.len(),
    ensures
        0 <= visible_count(pixels, n) <= n,
        0 <= brightness_sum(pixels, n) <= 765 * visible_count(pixels, n),
        (forall|k: int| 0 <= k < n ==> !pixel_visible(pixels, k)) ==> visible_count(pixels, n) == 0
            && brightness_sum(pixels, n) == 0,
    decreases n,
{
    if n > 0 {
        lemma_brightness_in_range(pixels, n - 1);
        assert(pixel_value(pixels, n - 1) <= 765);
    }
}

/// Computes the average brightness of the visible pixels of an RGBA image,
/// as the exact rational `sum / (765 * count)` — the mean over visible
/// pixels of `(R + G + B) / (3 * 255)`: returns the sum of the visible
/// pixels' channel sums and the number of visible pixels.  An
/// all-transparent image yields `(0, 0)`, read as brightness `0`.
pub fn avg_brightness(pixels: &Vec<u8>) -> (r: (u128, usize))
    ensures
        r.0 == brightness_sum(pixels@, pixels@.len() as int / 4),
        r.1 == visible_count(pixels@, pixels@.len() as int / 4),
        r.0 <= 765 * r.1,
        r.1 <= pixels@.len() / 4,
{
    let len = pixels.len();
    let n = len / 4;
    let mut sum: u128 = 0;
    let mut count: usize = 0;
    for k in 0..n
        invariant
            len == pixels@.len(),
            n == pixels@.len() as int / 4,
            4 * n <= pixels@.len(),
            sum == brightness_sum(pixels@, k as int),
            count == visible_count(pixels@, k as int),
            sum <= 765 * count,
            count <= k,
    {
        proof {
            lemma_brightness_in_range(pixels@, k + 1);
        }
        assert(4 * k + 3 < pixels@.len());
        let a = pixels[4 * k + 3];
        if a > 32 {
            let v = pixels[4 * k] as u128 + pixels[4 * k + 1] as u128 + pixels[4 * k + 2] as u128;
            sum = sum + v;
            count = count + 1;
        }
    }
    (sum, count)
}

/// Whether the average brightness `sum / (765 * count)` is strictly below
/// one quarter.  An image without visible pixels has brightness `0`, which
/// is below the threshold.
pub open spec fn spec_brightness_below_quarter(sum: int, count: int) -> bool {
    count == 0 || 4 * sum < 765 * count
}

/// Whether the average brightness `sum / (765 * count)` is strictly above
/// three quarters.
pub open spec fn spec_brightness_above_three_quarters(sum: int, count: int) -> bool {
    count > 0 && 4 * sum > 3 * 765 * count
}

/// Whether a processed icon is inverted: under a dark theme an icon with
/// brightness strictly below `0.25` is inverted; under a light theme an icon
/// with brightness strictly above `0.75` is inverted.
pub open spec fn spec_should_invert(dark: bool, sum: int, count: int) -> bool {
    (dark && spec_brightness_below_quarter(sum, count)) || (!dark
        && spec_brightness_above_three_quarters(sum, count))
}

/// Decides whether an icon with the given brightness is inverted.
pub fn should_invert(dark: bool, sum: u128, count: usize) -> (r: bool)
    requires
        sum <= 765 * count,
    ensures
        r == spec_should_invert(dark, sum as int, count as int),
{
    proof {
        assert(sum <= 765 * (usize::MAX as int) && 3 * 765 * (count as int) <= 2295 * (
        usize::MAX as int)) by (nonlinear_arith)
            requires
                sum <= 765 * count,
                count <= usize::MAX,
        ;
    }
    let c = count as u128;
    if dark {
        count == 0 || 4 * sum < 765 * c
    } else {
        count > 0 && 4 * sum > 2295 * c
    }
}

/// The inversion thresholds are exclusive: an icon whose brightness is
/// exactly one quarter is not inverted under a dark theme, and one whose
/// brightness is exactly three quarters is not inverted under a light theme.
pub proof fn lemma_invert_boundary_exclusive(sum: int, count: int)
    requires
        count > 0,
    ensures
        4 * sum == 765 * count ==> !spec_should_invert(true, sum, count),
        4 * sum == 3 * 765 * count ==> !spec_should_invert(false, sum, count),
{
}

/// RGBA pixel data with the red, green and blue channels inverted and the
/// alpha channel kept.
pub open spec fn spec_invert_rgba(pixels: Seq<u8>) -> Seq<u8> {
    pixels.map(
        |i: int, b: u8|
            if i % 4 == 3 {
                b
            } else {
                (255 - b) as u8
            },
    )
}

/// Inverts the red, green and blue channels of RGBA pixel data, keeping the
/// alpha channel.
pub fn invert_rgba(pixels: &Vec<u8>) -> (r: Vec<u8>)
    ensures
        r@ == spec_invert_rgba(pixels@),
{
    let n = pixels.len();
    let mut out: Vec<u8> = Vec::new();
    for i in 0..n
        invariant
            n == pixels@.len(),
            out@ =~= spec_invert_rgba(pixels@).take(i as int),
    {
        let b = pixels[i];
        if i % 4 == 3 {
            out.push(b);
        } else {
            out.push(255 - b);
        }
        assert(out@ =~= spec_invert_rgba(pixels@).take(i + 1));
    }
    assert(out@ =~= spec_invert_rgba(pixels@));
    out
}

/// The PNG encoding of RGBA pixel data, as produced by the `image` crate at
/// its fixed default settings: `None` exactly when the encoder rejects the
/// image (a dimension of zero), the encoded bytes otherwise.
pub uninterp spec fn png_of(width: int, height: int, pixels: Seq<u8>) -> Option<Seq<u8>>;

/// Base64 encoding (RFC 4648, with padding) of a byte sequence, as computed
/// by `data_encoding::BASE64`.
pub uninterp spec fn base64_of(bytes: Seq<u8>) -> Seq<char>;

/// A plain key for a declared raster format, used to index the decoder's
/// named result.
pub open spec fn spec_format_code(format: IconFormat) -> int {
    match format {
        IconFormat::Png => 0,
        IconFormat::Jpeg => 1,
        IconFormat::Ico => 2,
        IconFormat::Svg => 3,
    }
}

/// The decoded and resized RGBA image of icon bytes: `None` exactly when
/// the bytes do not decode in the declared format; otherwise the result's
/// dimensions and pixel data.
pub uninterp spec fn rgba_of(bytes: Seq<u8>, format: int, size: int) -> Option<
    (int, int, Seq<u8>),
>;

/// Relies on `image::load_from_memory_with_format` (decoding succeeds or
/// fails depending on the bytes and the declared format alone),
/// `DynamicImage::resize` (the result fits within the `size`×`size` box,
/// preserving the aspect ratio, with the limiting dimension equal to
/// `size`), and `DynamicImage::into_rgba8` (the buffer holds exactly
/// `width * height` four-byte pixels).  SVG is not a raster format the
/// decoder accepts, so it is excluded; a zero-pixel box has no fitting
/// image.
#[verifier::external_body]
fn decode_rgba(bytes: &Vec<u8>, format: IconFormat, size: u32) -> (r: Option<(u32, u32, Vec<u8>)>)
    requires
        format != IconFormat::Svg,
        size >= 1,
    ensures
        r is Some <==> rgba_of(bytes@, spec_format_code(format), size as int) is Some,
        r matches Some(p) ==> ({
            let d = rgba_of(bytes@, spec_format_code(format), size as int).unwrap();
            &&& p.0 as int == d.0
            &&& p.1 as int == d.1
            &&& p.2@ == d.2
            &&& p.2@.len() == 4 * (p.0 as int) * (p.1 as int)
            &&& p.0 <= size
            &&& p.1 <= size
            &&& (p.0 == size || p.1 == size)
        }),
{
    let fmt = match format {
        IconFormat::Png => image::ImageFormat::Png,
        IconFormat::Jpeg => image::ImageFormat::Jpeg,
        IconFormat::Ico => image::ImageFormat::Ico,
        IconFormat::Svg => return None,
    };
    let img = image::load_from_memory_with_format(bytes.as_slice(), fmt).ok()?;
    let buf = img.resize(size, size, image::imageops::FilterType::Lanczos3).into_rgba8();
    let width = buf.width();
    let height = buf.height();
    Some((width, height, buf.into_raw()))
}

/// Relies on `image::RgbaImage::write_to` with PNG output: whether encoding
/// succeeds and what bytes it yields are a function of the dimensions and
/// the pixel data alone at the fixed default settings.
#[verifier::external_body]
fn encode_png(width: u32, height: u32, pixels: &Vec<u8>) -> (r: Result<Vec<u8>, ()>)
    requires
        pixels@.len() == 4 * (width as int) * (height as int),
    ensures
        r is Ok <==> png_of(width as int, height as int, pixels@) is Some,
        r matches Ok(b) ==> Some(b@) == png_of(width as int, height as int, pixels@),
{
    let img = match image::RgbaImage::from_raw(width, height, pixels.clone()) {
        Some(i) => i,
        None => return Err(()),
    };
    let mut cursor = std::io::Cursor::new(Vec::new());
    match img.write_to(&mut cursor, image::ImageOutputFormat::Png) {
        Ok(()) => Ok(cursor.into_inner()),
        Err(_) => Err(()),
    }
}

/// Relies on `data_encoding::BASE64.encode`: RFC 4648 base64 with padding;
/// the output is a function of the input bytes alone and is `4 * ceil(n/3)`
/// characters long.  The encoder panics above `usize::MAX / 512` input
/// bytes, so such inputs are excluded.
#[verifier::external_body]
fn base64_encode(bytes: &Vec<u8>) -> (r: String)
    requires
        bytes@.len() <= usize::MAX / 512,
    ensures
        r@ == base64_of(bytes@),
        r@.len() == 4 * ((bytes@.len() + 2) / 3),
{
    data_encoding::BASE64.encode(bytes.as_slice())
}

/// A site-icon CSS rule: a class selector with a base64 PNG data-URL
/// background image.
pub open spec fn spec_css_rule(class: Seq<char>, data: Seq<char>) -> Seq<char> {
    "."@ + class + "{background-image:url(data:image/png;base64,"@ + data + ")}"@
}

/// Renders the CSS rule that embeds the base64 icon `data` under `class`.
fn css_rule(class: &str, data: &str) -> (r: String)
    ensures
        r@ == spec_css_rule(class@, data@),
{
    let mut s = String::from_str(".");
    s.append(class);
    s.append("{background-image:url(data:image/png;base64,");
    s.append(data);
    s.append(")}");
    s
}

/// The pixel data that is encoded: inverted when inversion is enabled and
/// the brightness decision triggers, unchanged otherwise.
pub open spec fn spec_final_pixels(pixels: Seq<u8>, dark: bool, invert_enabled: bool) -> Seq<u8> {
    if invert_enabled && spec_should_invert(
        dark,
        brightness_sum(pixels, pixels.len() as int / 4),
        visible_count(pixels, pixels.len() as int / 4),
    ) {
        spec_invert_rgba(pixels)
    } else {
        pixels
    }
}

/// Normalises decoded RGBA pixel data into the PNG bytes that are cached and
/// the CSS rule that embeds them: inverts the image when the theme asks for
/// it, re-encodes it as PNG, and wraps the base64 data-URL in the URL's icon
/// class.  It succeeds exactly when the final pixels encode as PNG and the
/// encoding fits the base64 encoder's input bound.
pub fn render_icon_css(
    url: &str,
    width: u32,
    height: u32,
    pixels: Vec<u8>,
    dark: bool,
    invert_enabled: bool,
) -> (r: Result<(String, Vec<u8>), SiteIconError>)
    requires
        pixels@.len() == 4 * (width as int) * (height as int),
    ensures
        r is Ok <==> ({
            let png = png_of(
                width as int,
                height as int,
                spec_final_pixels(pixels@, dark, invert_enabled),
            );
            png matches Some(b) && b.len() <= usize::MAX / 512
        }),
        r matches Ok(p) ==> Some(p.1@) == png_of(
            width as int,
            height as int,
            spec_final_pixels(pixels@, dark, invert_enabled),
        ) && p.0@ == spec_css_rule(spec_site_icon_class(url.spec_bytes()), base64_of(p.1@)),
        r matches Err(e) ==> e matches SiteIconError::IconEncode(u) && u@ == url@,
{
    let ghost orig = pixels@;
    let final_pixels = if invert_enabled {
        let (sum, count) = avg_brightness(&pixels);
        if should_invert(dark, sum, count) {
            invert_rgba(&pixels)
        } else {
            pixels
        }
    } else {
        pixels
    };
    assert(final_pixels@ == spec_final_pixels(orig, dark, invert_enabled));
    assert(final_pixels@.len() == orig.len());
    match encode_png(width, height, &final_pixels) {
        Err(_) => Err(SiteIconError::IconEncode(url.to_owned())),
        Ok(png) => {
            if png.len() <= usize::MAX / 512 {
                let data = base64_encode(&png);
                let class = site_icon_class(url);
                let css = css_rule(class.as_str(), data.as_str());
                Ok((css, png))
            } else {
                Err(SiteIconError::IconEncode(url.to_owned()))
            }
        },
    }
}

/// What `process_site_icon` embeds and caches for given inputs: the PNG
/// encoding of the decoded, resized and possibly inverted icon, provided
/// the bytes decode, the result encodes, and the encoding fits the base64
/// encoder's input bound.
pub open spec fn spec_processed_png(
    bytes: Seq<u8>,
    format: IconFormat,
    size: u32,
    dark: bool,
    invert_enabled: bool,
) -> Option<Seq<u8>> {
    match rgba_of(bytes, spec_format_code(format), size as int) {
        Some(d) => png_of(d.0, d.1, spec_final_pixels(d.2, dark, invert_enabled)),
        None => None,
    }
}

/// Processes a downloaded site icon through the full pipeline: decode in the
/// declared format, resize to fit `size`×`size`, invert when the theme asks
/// for it, re-encode as PNG, embed as a CSS rule, and write the normalised
/// PNG bytes back to the cache under the URL's identity with creation time
/// `now`.
///
/// It fails with `IconDecode` exactly when the bytes do not decode in the
/// declared format, and with `IconEncode` exactly when the decoded image
/// does not re-encode (or its encoding exceeds the base64 encoder's input
/// bound); on success the cache holds the embedded PNG.
pub fn process_site_icon(
    cache: &mut SiteIconCache,
    url: &str,
    bytes: &Vec<u8>,
    format: IconFormat,
    size: u32,
    dark: bool,
    invert_enabled: bool,
    now: u64,
) -> (r: Result<String, SiteIconError>)
    requires
        old(cache).wf(),
        format != IconFormat::Svg,
        size >= 1,
    ensures
        final(cache).wf(),
        (r matches Err(e) && e matches SiteIconError::IconDecode(u) && u@ == url@) <==> rgba_of(
            bytes@,
            spec_format_code(format),
            size as int,
        ) is None,
        r is Ok <==> ({
            let png = spec_processed_png(bytes@, format, size, dark, invert_enabled);
            png matches Some(b) && b.len() <= usize::MAX / 512
        }),
        r matches Ok(css) ==> ({
            let k = identity_chars(url.spec_bytes());
            &&& final(cache).contains_key(k)
            &&& final(cache).entry_created(k) == now
            &&& Some(final(cache).entry_bytes(k)) == spec_processed_png(
                bytes@,
                format,
                size,
                dark,
                invert_enabled,
            )
            &&& css@ == spec_css_rule(
                spec_site_icon_class(url.spec_bytes()),
                base64_of(final(cache).entry_bytes(k)),
            )
        }),
        r matches Err(e) ==> *final(cache) == *old(cache) && ((e
            matches SiteIconError::IconDecode(u) && u@ == url@) || (e
            matches SiteIconError::IconEncode(u) && u@ == url@)),
{
    let decoded = match decode_rgba(bytes, format, size) {
        Some(d) => d,
        None => {
            return Err(SiteIconError::IconDecode(url.to_owned()));
        },
    };
    let (width, height, pixels) = decoded;
    match render_icon_css(url, width, height, pixels, dark, invert_enabled) {
        Ok((css, png)) => {
            let key = sha1_base32(url.as_bytes());
            cache.insert(&key, png, now);
            Ok(css)
        },
        Err(e) => Err(e),
    }
}

/// Serves a site icon from the cache: a fresh entry's stored PNG bytes are
/// embedded as a CSS rule without touching the network; an expired entry is
/// purged and reported as a miss, as is an absent key.  An entry too large
/// for the base64 encoder is reported as a miss as well.
pub fn cached_icon_css(cache: &mut SiteIconCache, url: &str, now: u64) -> (r: Option<String>)
    requires
        old(cache).wf(),
    ensures
        final(cache).wf(),
        ({
            let k = identity_chars(url.spec_bytes());
            &&& (old(cache).contains_key(k) && !spec_expired(old(cache).entry_created(k), now)
                && old(cache).entry_bytes(k).len() <= usize::MAX / 512) ==> (r matches Some(css)
                && css@ == spec_css_rule(
                spec_site_icon_class(url.spec_bytes()),
                base64_of(old(cache).entry_bytes(k)),
            ) && *final(cache) == *old(cache))
            &&& (old(cache).contains_key(k) && spec_expired(old(cache).entry_created(k), now))
                ==> (r is None && !final(cache).contains_key(k))
            &&& (old(cache).contains_key(k) && !spec_expired(old(cache).entry_created(k), now)
                && old(cache).entry_bytes(k).len() > usize::MAX / 512) ==> (r is None
                && *final(cache) == *old(cache))
            &&& !old(cache).contains_key(k) ==> (r is None && *final(cache) == *old(cache))
        }),
{
    let key = sha1_base32(url.as_bytes());
    match cache.lookup(&key, now) {
        None => None,
        Some(bytes) => {
            if bytes.len() <= usize::MAX / 512 {
                let data = base64_encode(&bytes);
                let class = site_icon_class(url);
                Some(css_rule(class.as_str(), data.as_str()))
            } else {
                None
            }
        },
    }
}

} // verus!
