//! Reseller branding: logo, colours and names.

use vstd::prelude::*;
use vstd::string::StringSliceAdditionalSpecFns;
use crate::patterns::{regex_is_match, regex_matches};
use crate::text::{
    all_hex, all_hex_chars, chars_of, contains_chars, contains_seq, lower_case, replace_all, replace_str,
    slice_chars, str_eq, to_lowercase, trim, trim_chars,
};

verus! {

#[derive(Debug)]
pub struct UpdateBrandingRequest {
    pub logo_url:      Option<String>,
    pub primary_color: Option<String>,
    pub panel_name:    Option<String>,
    pub support_url:   Option<String>,
    pub custom_domain: Option<String>,
}


/// The data starts like a PNG, JPEG or WebP file.
pub open spec fn looks_like_image(data: Seq<u8>) -> bool {
    (data.len() >= 4 && data[0] == 0x89 && data[1] == 0x50 && data[2] == 0x4E && data[3] == 0x47)
        || (data.len() >= 3 && data[0] == 0xFF && data[1] == 0xD8 && data[2] == 0xFF) || (data.len()
        >= 12 && data[0] == 0x52 && data[1] == 0x49 && data[2] == 0x46 && data[3] == 0x46 && data[8]
        == 0x57 && data[9] == 0x45 && data[10] == 0x42 && data[11] == 0x50)
}

/// Whether uploaded data is a PNG (`89 50 4E 47`), a JPEG (`FF D8 FF`) or a
/// WebP (`RIFF....WEBP`) image, by its magic bytes.
pub fn is_image_bytes(data: &[u8]) -> (r: bool)
    ensures
        r == looks_like_image(data@),
{
    let n = data.len();
    if n >= 4 && data[0] == 0x89 && data[1] == 0x50 && data[2] == 0x4E && data[3] == 0x47 {
        return true;
    }
    if n >= 3 && data[0] == 0xFF && data[1] == 0xD8 && data[2] == 0xFF {
        return true;
    }
    if n >= 12 && data[0] == 0x52 && data[1] == 0x49 && data[2] == 0x46 && data[3] == 0x46
        && data[8] == 0x57 && data[9] == 0x45 && data[10] == 0x42 && data[11] == 0x50 {
        return true;
    }
    false
}

/// A colour `#rgb` or `#rrggbb` in hexadecimal, once trimmed.
pub open spec fn valid_hex_color(color: Seq<char>) -> bool {
    let s = trim(color);
    s.len() > 0 && s[0] == '#' && (s.len() == 7 || s.len() == 4) && all_hex(s.drop_first())
}

/// Whether a brand colour is `#rgb` or `#rrggbb`.
pub fn is_valid_hex_color(color: &str) -> (r: bool)
    ensures
        r == valid_hex_color(color@),
{
    let v = chars_of(color);
    let s = trim_chars(&v);
    if s.len() == 0 || s[0] != '#' {
        return false;
    }
    let hex = slice_chars(&s, 1, s.len());
    assert(hex@ =~= s@.drop_first());
    (hex.len() == 6 || hex.len() == 3) && all_hex_chars(&hex)
}

/// The URL a stored logo is served under: its path with the branding
/// directory replaced by the static route.
pub open spec fn logo_url_of(path: Seq<char>) -> Seq<char> {
    replace_all(path, "/etc/jottiecp/branding/"@, "/api/v1/static/branding/"@)
}

/// Converts a stored logo's path into the URL it is served under.
pub fn logo_path_to_url(path: &str) -> (r: String)
    ensures
        r@ == logo_url_of(path@),
{
    proof {
        reveal_strlit("/etc/jottiecp/branding/");
    }
    replace_str(path, "/etc/jottiecp/branding/", "/api/v1/static/branding/")
}

/// The pattern custom domains must match.
pub const DOMAIN_PATTERN: &'static str = "^(?:[a-z0-9](?:[a-z0-9\\-]{0,61}[a-z0-9])?\\.)+[a-z]{2,}$";

/// A custom domain the branding accepts: its lower-cased form matches the
/// domain pattern and it is at most 253 bytes.
pub open spec fn valid_brand_domain(domain: &str) -> bool {
    regex_is_match(DOMAIN_PATTERN@, lower_case(domain@)) && domain.len() <= 253
}

/// Whether a custom domain is acceptable for branding.
pub fn is_valid_domain(domain: &str) -> (r: bool)
    ensures
        r == valid_brand_domain(domain),
{
    let lower = to_lowercase(domain);
    let m = regex_matches(DOMAIN_PATTERN, lower.as_str());
    m && domain.len() <= 253
}


/// Largest logo upload, in bytes (1 MiB).
pub const MAX_LOGO_BYTES: usize = 1048576;

/// Width a logo is scaled to fit.
pub const LOGO_TARGET_W: u32 = 200;

/// Height a logo is scaled to fit.
pub const LOGO_TARGET_H: u32 = 60;

/// The content type names a PNG, WebP or JPEG image.
pub open spec fn image_content_type(content_type: Seq<char>) -> bool {
    contains_seq(content_type, "png"@) || contains_seq(content_type, "webp"@) || contains_seq(
        content_type,
        "jpeg"@,
    ) || contains_seq(content_type, "jpg"@)
}

/// What a multipart field of a logo upload is: refused when it exceeds
/// 1 MiB; the logo when named `logo` or `file`, which must then be a PNG,
/// WebP or JPEG by its content type or else by its magic bytes; another
/// field otherwise.
pub open spec fn logo_field_check(name: Seq<char>, content_type: Seq<char>, data: Seq<u8>) -> Result<bool, Seq<char>> {
    if data.len() > 1048576 {
        Err("Logo must be 1MB or smaller"@)
    } else if name == "logo"@ || name == "file"@ {
        if image_content_type(content_type) || looks_like_image(data) {
            Ok(true)
        } else {
            Err("Logo must be PNG, WebP, or JPEG"@)
        }
    } else {
        Ok(false)
    }
}

fn contains_str(s: &str, pat: &str) -> (r: bool)
    requires
        pat@.len() > 0,
    ensures
        r == contains_seq(s@, pat@),
{
    let sv = chars_of(s);
    let pv = chars_of(pat);
    contains_chars(&sv, &pv)
}

/// Checks one multipart field of a logo upload: `Ok(true)` for the logo,
/// `Ok(false)` for another field.
pub fn check_logo_field(name: &str, content_type: &str, data: &[u8]) -> (r: Result<bool, String>)
    ensures
        match logo_field_check(name@, content_type@, data@) {
            Ok(b) => r == Ok::<bool, String>(b),
            Err(m) => r matches Err(e) && e@ == m,
        },
{
    proof {
        reveal_strlit("png");
        reveal_strlit("webp");
        reveal_strlit("jpeg");
        reveal_strlit("jpg");
    }
    if data.len() > MAX_LOGO_BYTES {
        return Err(String::from_str("Logo must be 1MB or smaller"));
    }
    if str_eq(name, "logo") || str_eq(name, "file") {
        let typed = contains_str(content_type, "png") || contains_str(content_type, "webp")
            || contains_str(content_type, "jpeg") || contains_str(content_type, "jpg");
        if typed || is_image_bytes(data) {
            Ok(true)
        } else {
            Err(String::from_str("Logo must be PNG, WebP, or JPEG"))
        }
    } else {
        Ok(false)
    }
}

/// The step of logo processing that failed.
#[derive(Debug, Clone, Copy, PartialEq, Eq)]
pub enum ImageStep {
    /// Guessing the format from the bytes.
    Read,
    /// Decoding the image.
    Decode,
    /// Encoding the result as PNG.
    Encode,
}

/// The eight bytes every PNG file starts with.
pub open spec fn png_signature() -> Seq<u8> {
    seq![137u8, 80, 78, 71, 13, 10, 26, 10]
}

/// `ImageReader::new(..).with_guessed_format()`, `decode`, `resize` with
/// Lanczos3 and `write_to` as PNG, on bytes in memory: the PNG bytes, or the
/// failing step and its error's text. Resizing runs floating-point filters
/// whose last bits may differ between machines, so the bytes are not named;
/// what is stated is that a result is a PNG file: the `png` encoder writes
/// the PNG signature first.
#[verifier::external_body]
fn png_resized(data: &[u8], width: u32, height: u32) -> (r: Result<Vec<u8>, (ImageStep, String)>)
    ensures
        r matches Ok(b) ==> b@.len() >= 8 && b@.take(8) == png_signature(),
{
    let reader = match image::ImageReader::new(std::io::Cursor::new(data)).with_guessed_format() {
        Ok(x) => x,
        Err(e) => return Err((ImageStep::Read, e.to_string())),
    };
    let img = match reader.decode() {
        Ok(x) => x,
        Err(e) => return Err((ImageStep::Decode, e.to_string())),
    };
    let mut out = Vec::new();
    let w = std::io::Cursor::new(&mut out);
    match img.resize(width, height, image::imageops::FilterType::Lanczos3).write_to(w, image::ImageFormat::Png) {
        Ok(()) => Ok(out),
        Err(e) => Err((ImageStep::Encode, e.to_string())),
    }
}

/// The message a failed logo step is reported with, before the error text.
pub open spec fn image_step_prefix(step: ImageStep) -> Seq<char> {
    match step {
        ImageStep::Read => "Cannot read image: "@,
        ImageStep::Decode => "Cannot decode image: "@,
        ImageStep::Encode => "Cannot encode PNG: "@,
    }
}

/// The answer for what the image pipeline returned: the PNG bytes as they
/// are, or the failing step's message followed by the error's text.
pub fn resize_answer(res: Result<Vec<u8>, (ImageStep, String)>) -> (r: Result<Vec<u8>, String>)
    ensures
        match res {
            Ok(b) => r == Ok::<Vec<u8>, String>(b),
            Err((st, e)) => r matches Err(m) && m@ == image_step_prefix(st) + e@,
        },
{
    match res {
        Ok(v) => Ok(v),
        Err((st, e)) => {
            let prefix = match st {
                ImageStep::Read => "Cannot read image: ",
                ImageStep::Decode => "Cannot decode image: ",
                ImageStep::Encode => "Cannot encode PNG: ",
            };
            Err(crate::text::concat2(prefix, e.as_str()))
        },
    }
}

/// Scales a logo to fit within `width`×`height`, keeping its aspect ratio,
/// and encodes it as PNG; a failure names its step.
pub fn resize_logo(data: &[u8], width: u32, height: u32) -> (r: Result<Vec<u8>, String>)
    ensures
        r matches Ok(b) ==> b@.len() >= 8 && b@.take(8) == png_signature(),
        r matches Err(m) ==> exists|st: ImageStep, e: Seq<char>| m@ == image_step_prefix(st) + e,
{
    let res = png_resized(data, width, height);
    let ghost g = res;
    let r = resize_answer(res);
    proof {
        if r is Err {
            let st = g->Err_0.0;
            let e = g->Err_0.1@;
            assert(r->Err_0@ == image_step_prefix(st) + e);
        }
    }
    r
}

/// Where an uploaded logo goes: its extension (`webp` for a WebP content
/// type, else `png`), directory, file path and URL.
pub open spec fn logo_ext_of(content_type: Seq<char>) -> Seq<char> {
    if contains_seq(content_type, "webp"@) {
        "webp"@
    } else {
        "png"@
    }
}

/// The stored locations of an uploaded logo.
#[derive(Debug)]
pub struct LogoTarget {
    pub dir: String,
    pub path: String,
    pub url: String,
}

/// The directory, file and URL of the logo of a branding owner (a reseller,
/// or the nil id for the admin).
pub fn logo_target(lookup_id: &str, content_type: &str) -> (r: LogoTarget)
    ensures
        r.dir@ == "/etc/jottiecp/branding/"@ + lookup_id@,
        r.path@ == "/etc/jottiecp/branding/"@ + lookup_id@ + "/logo."@ + logo_ext_of(content_type@),
        r.url@ == "/api/v1/static/branding/"@ + lookup_id@ + "/logo."@ + logo_ext_of(content_type@),
{
    proof {
        reveal_strlit("webp");
    }
    let ext = if contains_str(content_type, "webp") { "webp" } else { "png" };
    let mut dir = String::from_str("/etc/jottiecp/branding/");
    dir.append(lookup_id);
    let mut path = String::from_str("/etc/jottiecp/branding/");
    path.append(lookup_id);
    path.append("/logo.");
    path.append(ext);
    let mut url = String::from_str("/api/v1/static/branding/");
    url.append(lookup_id);
    url.append("/logo.");
    url.append(ext);
    LogoTarget { dir, path, url }
}

} // verus!
