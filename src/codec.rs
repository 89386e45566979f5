use vstd::prelude::*;

use crate::types::{validate_capture_request, ConfigError, VideoFormat, offers_mode, offers_size};

verus! {

/// The lower-case form of a string, as `str::to_lowercase` gives it.
pub uninterp spec fn lower_of(s: Seq<char>) -> Seq<char>;

/// Relies on `str::to_lowercase`: the result depends on the characters alone.
#[verifier::external_body]
fn lowercase(s: &str) -> (r: String)
    ensures
        r@ == lower_of(s@),
{
    s.to_lowercase()
}

/// How the capture backend is told to read the device.
#[derive(Debug, Clone, PartialEq)]
pub enum CodecPath {
    /// Uncompressed frames in the named pixel format.
    RawVideo { pixel_format: String },
    /// Motion-JPEG compressed frames.
    Mjpeg,
}

/// `s` without the NUL characters at its end.
pub open spec fn without_trailing_nuls(s: Seq<char>) -> Seq<char>
    decreases s.len(),
{
    if s.len() > 0 && s.last() == '\0' {
        without_trailing_nuls(s.drop_last())
    } else {
        s
    }
}

/// Whether a lower-cased tag names the motion-JPEG path.
pub open spec fn is_mjpeg_tag(t: Seq<char>) -> bool {
    t == "mjpg"@ || t == "mjpeg"@
}

/// The pixel-format hint for a lower-cased raw tag: the packed-YUV vendor tag
/// becomes its standard name, anything else is passed on as it is.
pub open spec fn raw_pixel_format(t: Seq<char>) -> Seq<char> {
    if t == "yuyv"@ {
        "yuyv422"@
    } else {
        t
    }
}

/// Whether `p` is the codec path for the lower-cased tag `t`.
pub open spec fn is_path_for(p: CodecPath, t: Seq<char>) -> bool {
    match p {
        CodecPath::Mjpeg => is_mjpeg_tag(t),
        CodecPath::RawVideo { pixel_format } => !is_mjpeg_tag(t) && pixel_format@ == raw_pixel_format(
            t,
        ),
    }
}

/// Whether two strings hold the same characters.
pub fn same_text(a: &str, b: &str) -> (r: bool)
    ensures
        r == (a@ == b@),
{
    let n = a.unicode_len();
    if n != b.unicode_len() {
        return false;
    }
    let mut i: usize = 0;
    while i < n
        invariant
            n == a@.len(),
            n == b@.len(),
            i <= n,
            forall|j: int| 0 <= j < i ==> a@[j] == b@[j],
        decreases n - i,
    {
        if a.get_char(i) != b.get_char(i) {
            return false;
        }
        i = i + 1;
    }
    assert(a@ =~= b@);
    true
}

/// The codec path for a tag that is already lower-cased.
pub fn codec_path_for_lowered(lowered: &str) -> (r: CodecPath)
    ensures
        is_path_for(r, lowered@),
{
    if same_text(lowered, "mjpg") || same_text(lowered, "mjpeg") {
        CodecPath::Mjpeg
    } else if same_text(lowered, "yuyv") {
        CodecPath::RawVideo { pixel_format: String::from_str("yuyv422") }
    } else {
        CodecPath::RawVideo { pixel_format: String::from_str(lowered) }
    }
}

/// The tag with its trailing NUL padding removed.
pub fn trim_trailing_nuls(tag: &str) -> (r: String)
    ensures
        r@ == without_trailing_nuls(tag@),
{
    let mut n = tag.unicode_len();
    assert(tag@.subrange(0, n as int) =~= tag@);
    while n > 0 && tag.get_char(n - 1) == '\0'
        invariant
            n <= tag@.len(),
            without_trailing_nuls(tag@) == without_trailing_nuls(tag@.subrange(0, n as int)),
        decreases n,
    {
        proof {
            let s = tag@.subrange(0, n as int);
            assert(s.drop_last() =~= tag@.subrange(0, n - 1));
        }
        n = n - 1;
    }
    proof {
        let s = tag@.subrange(0, n as int);
        if n == tag@.len() {
            assert(s =~= tag@);
        }
    }
    String::from_str(tag.substring_char(0, n))
}

/// Normalises a device's format tag: trailing NUL padding is dropped, the tag is
/// lower-cased, the vendor packed-YUV tag maps to `yuyv422` and both JPEG tags to
/// the motion-JPEG path. Other tags pass through unchanged for the backend to
/// judge.
pub fn normalize_format_tag(tag: &str) -> (r: CodecPath)
    ensures
        is_path_for(r, lower_of(without_trailing_nuls(tag@))),
{
    let trimmed = trim_trailing_nuls(tag);
    let lowered = lowercase(trimmed.as_str());
    codec_path_for_lowered(lowered.as_str())
}

/// The decimal digit character for `d < 10`.
pub open spec fn digit_char(d: nat) -> char {
    if d == 0 { '0' } else if d == 1 { '1' } else if d == 2 { '2' } else if d == 3 { '3' }
    else if d == 4 { '4' } else if d == 5 { '5' } else if d == 6 { '6' } else if d == 7 { '7' }
    else if d == 8 { '8' } else { '9' }
}

/// The decimal numeral of `n`, without leading zeros.
pub open spec fn decimal_of(n: nat) -> Seq<char>
    decreases n,
{
    if n < 10 {
        seq![digit_char(n)]
    } else {
        decimal_of(n / 10).push(digit_char(n % 10))
    }
}

fn digit_str(d: u32) -> (r: &'static str)
    requires
        d < 10,
    ensures
        r@ == seq![digit_char(d as nat)],
{
    proof {
        reveal_strlit("0");
        reveal_strlit("1");
        reveal_strlit("2");
        reveal_strlit("3");
        reveal_strlit("4");
        reveal_strlit("5");
        reveal_strlit("6");
        reveal_strlit("7");
        reveal_strlit("8");
        reveal_strlit("9");
    }
    let r = if d == 0 { "0" } else if d == 1 { "1" } else if d == 2 { "2" } else if d == 3 { "3" }
    else if d == 4 { "4" } else if d == 5 { "5" } else if d == 6 { "6" } else if d == 7 { "7" }
    else if d == 8 { "8" } else { "9" };
    assert(r@ =~= seq![digit_char(d as nat)]);
    r
}

/// The decimal numeral of `n`.
pub fn decimal_string(n: u32) -> (r: String)
    ensures
        r@ == decimal_of(n as nat),
    decreases n,
{
    if n < 10 {
        String::from_str(digit_str(n))
    } else {
        let mut s = decimal_string(n / 10);
        s.append(digit_str(n % 10));
        s
    }
}

/// The options the capture backend is opened with: the requested size and rate,
/// the device kind, the low-latency flags (no read-ahead buffering, drop corrupt
/// input, minimal probing), then the codec hint.
pub open spec fn capture_option_list(path: CodecPath, width: u32, height: u32, fps: u32) -> Seq<
    (Seq<char>, Seq<char>),
> {
    seq![
        ("video_size"@, decimal_of(width as nat) + "x"@ + decimal_of(height as nat)),
        ("framerate"@, decimal_of(fps as nat)),
        ("f"@, "v4l2"@),
        ("fflags"@, "nobuffer+discardcorrupt"@),
        ("probesize"@, "32"@),
        ("analyzeduration"@, "100000"@),
    ] + match path {
        CodecPath::Mjpeg => seq![("input_format"@, "mjpeg"@)],
        CodecPath::RawVideo { pixel_format } => seq![
            ("input_format"@, "rawvideo"@),
            ("pixel_format"@, pixel_format@),
        ],
    }
}

/// Whether the list of string pairs `v` holds exactly the pairs of `s`.
pub open spec fn pairs_are(v: Seq<(String, String)>, s: Seq<(Seq<char>, Seq<char>)>) -> bool {
    &&& v.len() == s.len()
    &&& forall|i: int| 0 <= i < v.len() ==> (#[trigger] v[i]).0@ == s[i].0 && v[i].1@ == s[i].1
}

fn pair(k: &str, v: String) -> (r: (String, String))
    ensures
        r.0@ == k@,
        r.1@ == v@,
{
    (String::from_str(k), v)
}

/// The backend options for opening the device in `path` at `width` x `height` and
/// `fps` frames per second.
pub fn capture_options(path: &CodecPath, width: u32, height: u32, fps: u32) -> (r: Vec<
    (String, String),
>)
    ensures
        pairs_are(r@, capture_option_list(*path, width, height, fps)),
{
    let mut size = decimal_string(width);
    size.append("x");
    let h = decimal_string(height);
    size.append(h.as_str());
    let mut r: Vec<(String, String)> = Vec::new();
    r.push(pair("video_size", size));
    r.push(pair("framerate", decimal_string(fps)));
    r.push(pair("f", String::from_str("v4l2")));
    r.push(pair("fflags", String::from_str("nobuffer+discardcorrupt")));
    r.push(pair("probesize", String::from_str("32")));
    r.push(pair("analyzeduration", String::from_str("100000")));
    match path {
        CodecPath::Mjpeg => {
            r.push(pair("input_format", String::from_str("mjpeg")));
        },
        CodecPath::RawVideo { pixel_format } => {
            r.push(pair("input_format", String::from_str("rawvideo")));
            r.push(pair("pixel_format", pixel_format.clone()));
        },
    }
    proof {
        let s = capture_option_list(*path, width, height, fps);
        assert(r@.len() == s.len());
        assert forall|i: int| 0 <= i < r@.len() implies (#[trigger] r@[i]).0@ == s[i].0 && r@[i].1@
            == s[i].1 by {}
    }
    r
}

/// Validates the requested mode against the format and, when it is offered,
/// gives the backend options for it. An unsupported size or frame rate is
/// refused here rather than handed to the backend.
pub fn prepare_capture(format: &VideoFormat, width: u32, height: u32, fps: u32) -> (r: Result<
    (CodecPath, Vec<(String, String)>),
    ConfigError,
>)
    ensures
        r is Ok <==> offers_mode(*format, width, height, fps),
        r matches Err(e) ==> (e == ConfigError::UnsupportedResolution <==> !offers_size(
            *format,
            width,
            height,
        )),
        r matches Ok((path, opts)) ==> is_path_for(
            path,
            lower_of(without_trailing_nuls(format.fourcc@)),
        ) && pairs_are(opts@, capture_option_list(path, width, height, fps)),
{
    match validate_capture_request(format, width, height, fps) {
        Err(e) => Err(e),
        Ok(()) => {
            let path = normalize_format_tag(format.fourcc.as_str());
            let opts = capture_options(&path, width, height, fps);
            Ok((path, opts))
        },
    }
}

} // verus!
