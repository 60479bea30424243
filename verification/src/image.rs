//! Image generation: the data URLs of reference images, and the files that the
//! returned images are saved to. Requests, responses and the disk are the caller's.
use vstd::prelude::*;
use vstd::string::StringExecFns;

use crate::assembler::opt_view;
use crate::b64::{base64_decode, base64_encode, base64_standard, base64_standard_decoded};
use crate::text::{decimal, decimal_two, join, join_path, push_decimal, push_decimal_two, str_eq};

verus! {

/// The extension of a path, as `Path::extension` gives it: what follows the last dot of
/// the file name, when the name has a dot that does not start it.
pub uninterp spec fn path_extension(path: Seq<char>) -> Option<Seq<char>>;

/// Calls `Path::new(path).extension()`, as text: the extension of the path's file name.
/// A function of the path alone.
#[verifier::external_body]
fn extension_of(path: &str) -> (res: Option<String>)
    ensures
        opt_view(res) == path_extension(path@),
{
    std::path::Path::new(path).extension().and_then(|e| e.to_str()).map(|e| e.to_string())
}

/// The lowercase form of `s`, as `str::to_lowercase` gives it.
pub uninterp spec fn lowercase(s: Seq<char>) -> Seq<char>;

/// Calls `str::to_lowercase`: the Unicode lowercase mapping of each character.
/// A function of `s` alone.
#[verifier::external_body]
fn to_lowercase(s: &str) -> (res: String)
    ensures
        res@ == lowercase(s@),
{
    s.to_lowercase()
}

/// Tells whether a path names something on disk, by `Path::exists`. The answer
/// depends on the disk at the time of the call, and nothing is stated of it.
#[verifier::external_body]
fn path_exists(path: &str) -> (res: bool) {
    std::path::Path::new(path).exists()
}

/// The media type of a reference image, by its lowercased extension.
pub open spec fn mime_for_extension(ext: Option<Seq<char>>) -> Seq<char> {
    match ext {
        Some(e) => if e == "png"@ {
            "image/png"@
        } else if e == "jpg"@ || e == "jpeg"@ {
            "image/jpeg"@
        } else if e == "webp"@ {
            "image/webp"@
        } else if e == "gif"@ {
            "image/gif"@
        } else if e == "svg"@ {
            "image/svg+xml"@
        } else {
            "application/octet-stream"@
        },
        None => "application/octet-stream"@,
    }
}

/// The lowercased extension of `path`.
pub open spec fn lower_extension(path: Seq<char>) -> Option<Seq<char>> {
    match path_extension(path) {
        Some(e) => Some(lowercase(e)),
        None => None,
    }
}

/// The media type of the reference image at `path`.
pub fn reference_mime(path: &str) -> (res: &'static str)
    ensures
        res@ == mime_for_extension(lower_extension(path@)),
{
    match extension_of(path) {
        Some(e) => {
            let l = to_lowercase(e.as_str());
            if str_eq(l.as_str(), "png") {
                "image/png"
            } else if str_eq(l.as_str(), "jpg") || str_eq(l.as_str(), "jpeg") {
                "image/jpeg"
            } else if str_eq(l.as_str(), "webp") {
                "image/webp"
            } else if str_eq(l.as_str(), "gif") {
                "image/gif"
            } else if str_eq(l.as_str(), "svg") {
                "image/svg+xml"
            } else {
                "application/octet-stream"
            }
        },
        None => "application/octet-stream",
    }
}

/// The data URL of a reference image read from `path`.
pub open spec fn data_url(path: Seq<char>, bytes: Seq<u8>) -> Seq<char> {
    "data:"@ + mime_for_extension(lower_extension(path)) + ";base64,"@ + base64_standard(bytes)
}

/// The data URL that carries the reference image read from `path`.
pub fn reference_data_url(path: &str, bytes: &[u8]) -> (res: String)
    requires
        bytes@.len() / 3 * 4 + 4 <= usize::MAX,
    ensures
        res@ == data_url(path@, bytes@),
{
    let mime = reference_mime(path);
    let b64 = base64_encode(bytes);
    let mut res = String::from_str("data:");
    res.append(mime);
    res.append(";base64,");
    res.append(b64.as_str());
    res
}

/// The file extension for a returned image of media type `media_type`.
pub open spec fn extension_for_media(media_type: Seq<char>) -> Seq<char> {
    if media_type == "image/png"@ {
        "png"@
    } else if media_type == "image/jpeg"@ {
        "jpg"@
    } else if media_type == "image/webp"@ {
        "webp"@
    } else if media_type == "image/gif"@ {
        "gif"@
    } else {
        "bin"@
    }
}

/// The file extension for a returned image.
pub fn media_extension(media_type: &str) -> (res: &'static str)
    ensures
        res@ == extension_for_media(media_type@),
{
    if str_eq(media_type, "image/png") {
        "png"
    } else if str_eq(media_type, "image/jpeg") {
        "jpg"
    } else if str_eq(media_type, "image/webp") {
        "webp"
    } else if str_eq(media_type, "image/gif") {
        "gif"
    } else {
        "bin"
    }
}

/// The file stem of image `i` of `count`: `generated` for a lone image, otherwise
/// `generated_` and its number from 1, on at least two digits.
pub open spec fn stem_for(count: nat, i: nat) -> Seq<char> {
    if count == 1 {
        "generated"@
    } else {
        "generated_"@ + decimal_two(i + 1)
    }
}

/// The file stem of image `i` of `count`.
pub fn image_stem(count: usize, i: usize) -> (res: String)
    requires
        i < count,
    ensures
        res@ == stem_for(count as nat, i as nat),
{
    if count == 1 {
        String::from_str("generated")
    } else {
        let mut res = String::from_str("generated_");
        push_decimal_two(&mut res, (i + 1) as u64);
        res
    }
}

/// The `k`-th file name tried for a stem and extension: `stem.ext`, then `stem_k.ext`.
pub open spec fn candidate_name(stem: Seq<char>, ext: Seq<char>, k: nat) -> Seq<char> {
    if k == 0 {
        stem + "."@ + ext
    } else {
        stem + "_"@ + decimal(k) + "."@ + ext
    }
}

fn candidate(dir: &str, stem: &str, ext: &str, k: u32) -> (res: String)
    ensures
        res@ == join_path(dir@, candidate_name(stem@, ext@, k as nat)),
{
    let mut name = String::from_str(stem);
    if k > 0 {
        name.append("_");
        push_decimal(&mut name, k as u64);
    }
    name.append(".");
    name.append(ext);
    join(dir, name.as_str())
}

/// The candidate path `k` for a stem and extension under `dir`.
pub open spec fn candidate_path(dir: Seq<char>, stem: Seq<char>, ext: Seq<char>, k: nat) -> Seq<char> {
    join_path(dir, candidate_name(stem, ext, k))
}

/// Whether `taken`, asked about `path`, may have answered `answer`.
pub open spec fn answered<F: Fn(&str) -> bool>(taken: F, path: Seq<char>, answer: bool) -> bool {
    exists|s: &str| s@ == path && #[trigger] call_ensures(taken, (s,), answer)
}

/// Whether `Path::exists`, asked about `path`, may have answered `answer`.
pub closed spec fn disk_answered(path: Seq<char>, answer: bool) -> bool {
    answered(path_exists, path, answer)
}

/// Whether the candidates before `k` were all reported taken.
pub open spec fn all_taken_before(
    answers: spec_fn(Seq<char>, bool) -> bool,
    dir: Seq<char>,
    stem: Seq<char>,
    ext: Seq<char>,
    k: nat,
) -> bool {
    forall|j: nat| j < k ==> #[trigger] answers(candidate_path(dir, stem, ext, j), true)
}

/// What a search for a free path returns, given the answers it got: the first candidate
/// reported free, every earlier one having been reported taken; `None` only when every
/// candidate up to `u32::MAX` was reported taken.
pub open spec fn free_path_result(
    answers: spec_fn(Seq<char>, bool) -> bool,
    dir: Seq<char>,
    stem: Seq<char>,
    ext: Seq<char>,
    res: Option<Seq<char>>,
) -> bool {
    match res {
        Some(p) => exists|k: nat|
            k <= u32::MAX && p == #[trigger] candidate_path(dir, stem, ext, k) && answers(p, false)
                && all_taken_before(answers, dir, stem, ext, k),
        None => all_taken_before(answers, dir, stem, ext, u32::MAX as nat + 1),
    }
}

/// The first path under `dir` among `stem.ext`, `stem_1.ext`, `stem_2.ext`, … that
/// `taken` reports free, asking about them in that order.
pub fn first_free_path<F: Fn(&str) -> bool>(dir: &str, stem: &str, ext: &str, taken: &F) -> (res:
    Option<String>)
    requires
        forall|s: &str| #[trigger] taken.requires((s,)),
    ensures
        free_path_result(|p: Seq<char>, b: bool| answered(*taken, p, b), dir@, stem@, ext@, opt_view(res)),
{
    let ghost answers = |p: Seq<char>, b: bool| answered(*taken, p, b);
    let mut k: u32 = 0;
    loop
        invariant
            k <= u32::MAX,
            forall|s: &str| #[trigger] taken.requires((s,)),
            answers == (|p: Seq<char>, b: bool| answered(*taken, p, b)),
            all_taken_before(answers, dir@, stem@, ext@, k as nat),
        decreases u32::MAX - k,
    {
        let c = candidate(dir, stem, ext, k);
        let s = c.as_str();
        let t = taken(s);
        assert(answers(candidate_path(dir@, stem@, ext@, k as nat), t));
        if !t {
            assert(free_path_result(answers, dir@, stem@, ext@, Some(c@)));
            return Some(c);
        }
        assert(all_taken_before(answers, dir@, stem@, ext@, k as nat + 1)) by {
            assert forall|j: nat| j < k as nat + 1 implies #[trigger] answers(
                candidate_path(dir@, stem@, ext@, j),
                true,
            ) by {
                if j < k as nat {
                    assert(all_taken_before(answers, dir@, stem@, ext@, k as nat));
                }
            }
        }
        if k == u32::MAX {
            return None;
        }
        k = k + 1;
    }
}

/// The first path under `dir` among `stem.ext`, `stem_1.ext`, `stem_2.ext`, … that names
/// nothing on disk, by the answers of `Path::exists` asked in that order; `None` when every
/// name up to `u32::MAX` was reported taken.
pub fn unique_path(dir: &str, stem: &str, ext: &str) -> (res: Option<String>)
    ensures
        free_path_result(|p: Seq<char>, b: bool| disk_answered(p, b), dir@, stem@, ext@, opt_view(res)),
{
    let res = first_free_path(dir, stem, ext, &path_exists);
    assert((|p: Seq<char>, b: bool| disk_answered(p, b)) =~= (|p: Seq<char>, b: bool| answered(
        path_exists,
        p,
        b,
    )));
    res
}

/// One image of a response: its base64 data and its media type, when given.
pub struct ImageItem {
    pub b64_json: Option<String>,
    pub media_type: Option<String>,
}

/// A returned image, decoded, with the stem and extension of its file.
pub struct DecodedImage {
    pub stem: String,
    pub ext: &'static str,
    pub media_type: String,
    pub bytes: Vec<u8>,
}

/// Why a returned image cannot be saved.
pub enum ImageError {
    /// Image `i` carries no base64 data.
    MissingB64(usize),
    /// The base64 data does not decode.
    Decode(base64::DecodeError),
}

/// The message for an image that carries no base64 data.
pub open spec fn missing_b64_text(i: nat) -> Seq<char> {
    "missing b64_json in data["@ + decimal(i) + "]"@
}

/// The message for image `i` that carries no base64 data.
pub fn missing_b64_message(i: usize) -> (res: String)
    ensures
        res@ == missing_b64_text(i as nat),
{
    let mut res = String::from_str("missing b64_json in data[");
    push_decimal(&mut res, i as u64);
    res.append("]");
    res
}

/// The media type of a returned image: as given, `image/jpeg` when not.
pub open spec fn media_or_default(m: Option<Seq<char>>) -> Seq<char> {
    match m {
        Some(t) => t,
        None => "image/jpeg"@,
    }
}

/// Image `i` of `count` decoded: its data must be there and decode.
pub fn decode_image(item: &ImageItem, i: usize, count: usize) -> (res: Result<
    DecodedImage,
    ImageError,
>)
    requires
        i < count,
    ensures
        match item.b64_json {
            None => res matches Err(ImageError::MissingB64(k)) && k == i,
            Some(b) => match base64_standard_decoded(vstd::utf8::encode_utf8(b@)) {
                None => res matches Err(ImageError::Decode(_)),
                Some(bytes) => res matches Ok(d) && {
                    let media = media_or_default(opt_view(item.media_type));
                    &&& d.stem@ == stem_for(count as nat, i as nat)
                    &&& d.media_type@ == media
                    &&& d.ext@ == extension_for_media(media)
                    &&& d.bytes@ == bytes
                },
            },
        },
{
    let b64 = match &item.b64_json {
        Some(b) => b,
        None => {
            return Err(ImageError::MissingB64(i));
        },
    };
    let media_type = match &item.media_type {
        Some(m) => m.clone(),
        None => String::from_str("image/jpeg"),
    };
    let ext = media_extension(media_type.as_str());
    let stem = image_stem(count, i);
    match base64_decode(b64.as_str()) {
        Ok(bytes) => Ok(DecodedImage { stem, ext, media_type, bytes }),
        Err(e) => Err(ImageError::Decode(e)),
    }
}

} // verus!
