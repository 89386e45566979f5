use vstd::prelude::*;

verus! {

/// One frame size a capture format offers, with the frame rates offered for it.
#[derive(Debug, Clone, PartialEq)]
pub struct Resolution {
    pub width: u32,
    pub height: u32,
    pub framerates: Vec<u32>,
}

/// A pixel encoding of a capture device: its four-character tag, a description
/// and the frame sizes it offers.
#[derive(Debug, Clone, PartialEq)]
pub struct VideoFormat {
    pub fourcc: String,
    pub description: String,
    pub resolutions: Vec<Resolution>,
}

/// Why a requested capture configuration was turned down.
#[derive(Debug, Clone, Copy, PartialEq, Eq, Structural)]
pub enum ConfigError {
    /// The format offers no frame size of the requested width and height.
    UnsupportedResolution,
    /// The frame size is offered, but never at the requested frame rate.
    UnsupportedFramerate,
}

/// The format, frame size and frame rate chosen for capture.
#[derive(Debug, Clone, Copy)]
pub struct CaptureSelection {
    pub format_index: usize,
    pub resolution: (u32, u32),
    pub framerate: u32,
}

/// Whether `r` is a frame size of `width` x `height`.
pub open spec fn is_size(r: Resolution, width: u32, height: u32) -> bool {
    r.width == width && r.height == height
}

/// Whether the format offers a frame size of `width` x `height`.
pub open spec fn offers_size(f: VideoFormat, width: u32, height: u32) -> bool {
    exists|i: int| 0 <= i < f.resolutions@.len() && is_size(#[trigger] f.resolutions@[i], width, height)
}

/// Whether the format offers `width` x `height` at `fps` frames per second.
pub open spec fn offers_mode(f: VideoFormat, width: u32, height: u32, fps: u32) -> bool {
    exists|i: int|
        0 <= i < f.resolutions@.len() && is_size(#[trigger] f.resolutions@[i], width, height)
            && f.resolutions@[i].framerates@.contains(fps)
}

/// `i` is the first position in `formats` whose tag is `fourcc`.
pub open spec fn first_with_tag(formats: Seq<VideoFormat>, fourcc: Seq<char>, i: int) -> bool {
    &&& 0 <= i < formats.len()
    &&& formats[i].fourcc@ == fourcc
    &&& forall|j: int| 0 <= j < i ==> (#[trigger] formats[j]).fourcc@ != fourcc
}

/// `i` is the first position in `rs` of a frame size `width` x `height`.
pub open spec fn first_with_size(rs: Seq<Resolution>, width: u32, height: u32, i: int) -> bool {
    &&& 0 <= i < rs.len()
    &&& is_size(rs[i], width, height)
    &&& forall|j: int| 0 <= j < i ==> !is_size(#[trigger] rs[j], width, height)
}

impl Default for VideoFormat {
    /// The placeholder format shown before a device was queried.
    fn default() -> (r: Self)
        ensures
            r.fourcc@ == "0000"@,
            r.description@ == "None"@,
            r.resolutions@.len() == 0,
    {
        VideoFormat {
            fourcc: String::from_str("0000"),
            description: String::from_str("None"),
            resolutions: Vec::new(),
        }
    }
}

/// Whether `v` holds `x`.
pub fn contains_u32(v: &Vec<u32>, x: u32) -> (r: bool)
    ensures
        r == v@.contains(x),
{
    let mut i: usize = 0;
    while i < v.len()
        invariant
            i <= v@.len(),
            forall|j: int| 0 <= j < i ==> v@[j] != x,
        decreases v@.len() - i,
    {
        if v[i] == x {
            return true;
        }
        i = i + 1;
    }
    false
}

/// The position of the first frame size `width` x `height` of `rs`, if any.
pub fn find_size(rs: &Vec<Resolution>, width: u32, height: u32) -> (r: Option<usize>)
    ensures
        r matches Some(i) ==> first_with_size(rs@, width, height, i as int),
        r is None <==> forall|j: int| 0 <= j < rs@.len() ==> !is_size(#[trigger] rs@[j], width, height),
{
    let mut i: usize = 0;
    while i < rs.len()
        invariant
            i <= rs@.len(),
            forall|j: int| 0 <= j < i ==> !is_size(#[trigger] rs@[j], width, height),
        decreases rs@.len() - i,
    {
        if rs[i].width == width && rs[i].height == height {
            return Some(i);
        }
        i = i + 1;
    }
    None
}

/// The position of the first format tagged `tag`, if any.
pub fn find_tag(formats: &Vec<VideoFormat>, tag: &String) -> (r: Option<usize>)
    ensures
        r matches Some(i) ==> first_with_tag(formats@, tag@, i as int),
        r is None <==> forall|j: int| 0 <= j < formats@.len() ==> (#[trigger] formats@[j]).fourcc@ != tag@,
{
    let mut i: usize = 0;
    while i < formats.len()
        invariant
            i <= formats@.len(),
            forall|j: int| 0 <= j < i ==> (#[trigger] formats@[j]).fourcc@ != tag@,
        decreases formats@.len() - i,
    {
        if formats[i].fourcc == *tag {
            return Some(i);
        }
        i = i + 1;
    }
    None
}

/// Checks a requested capture mode against what the format offers: it is accepted
/// exactly when some frame size of the format matches and lists the frame rate.
pub fn validate_capture_request(format: &VideoFormat, width: u32, height: u32, framerate: u32) -> (r:
    Result<(), ConfigError>)
    ensures
        r is Ok <==> offers_mode(*format, width, height, framerate),
        r == Err::<(), ConfigError>(ConfigError::UnsupportedResolution) <==> !offers_size(
            *format,
            width,
            height,
        ),
        r == Err::<(), ConfigError>(ConfigError::UnsupportedFramerate) <==> offers_size(
            *format,
            width,
            height,
        ) && !offers_mode(*format, width, height, framerate),
{
    let rs = &format.resolutions;
    let mut seen_size = false;
    let mut i: usize = 0;
    while i < rs.len()
        invariant
            rs == &format.resolutions,
            i <= rs@.len(),
            seen_size <==> exists|j: int| 0 <= j < i && is_size(#[trigger] rs@[j], width, height),
            forall|j: int|
                0 <= j < i && is_size(#[trigger] rs@[j], width, height) ==> !rs@[j].framerates@.contains(
                    framerate,
                ),
        decreases rs@.len() - i,
    {
        if rs[i].width == width && rs[i].height == height {
            seen_size = true;
            if contains_u32(&rs[i].framerates, framerate) {
                assert(is_size(rs@[i as int], width, height));
                return Ok(());
            }
        }
        i = i + 1;
    }
    if seen_size {
        Err(ConfigError::UnsupportedFramerate)
    } else {
        Err(ConfigError::UnsupportedResolution)
    }
}

/// The selection after restoring a saved format, frame size and frame rate: the
/// format is the first one tagged `saved_fourcc`; the saved size is taken only if
/// that format offers it, and the saved rate only if the first matching size
/// lists it. Whatever cannot be restored keeps its current value.
pub open spec fn restored_selection(
    cur: CaptureSelection,
    formats: Seq<VideoFormat>,
    saved_fourcc: Option<Seq<char>>,
    saved_resolution: Option<(u32, u32)>,
    saved_framerate: Option<u32>,
) -> CaptureSelection {
    match saved_fourcc {
        None => cur,
        Some(tag) => {
            if exists|i: int| first_with_tag(formats, tag, i) {
                let idx = choose|i: int| first_with_tag(formats, tag, i);
                let f = formats[idx];
                let with_index = CaptureSelection { format_index: idx as usize, ..cur };
                match saved_resolution {
                    Some(res) if offers_size(f, res.0, res.1) => {
                        let ri = choose|k: int| first_with_size(f.resolutions@, res.0, res.1, k);
                        let with_res = CaptureSelection { resolution: res, ..with_index };
                        match saved_framerate {
                            Some(fps) if f.resolutions@[ri].framerates@.contains(fps) => {
                                CaptureSelection { framerate: fps, ..with_res }
                            },
                            _ => with_res,
                        }
                    },
                    _ => with_index,
                }
            } else {
                cur
            }
        },
    }
}

/// Restores a saved capture choice against the formats the device reports now.
pub fn apply_saved_format_config(
    selection: &mut CaptureSelection,
    formats: &Vec<VideoFormat>,
    saved_fourcc: &Option<String>,
    saved_resolution: Option<(u32, u32)>,
    saved_framerate: Option<u32>,
)
    ensures
        *final(selection) == restored_selection(
            *old(selection),
            formats@,
            match saved_fourcc {
                Some(s) => Some(s@),
                None => None,
            },
            saved_resolution,
            saved_framerate,
        ),
{
    let tag = match saved_fourcc {
        Some(t) => t,
        None => {
            return;
        },
    };
    let idx = match find_tag(formats, tag) {
        Some(k) => k,
        None => {
            return;
        },
    };
    assert(first_with_tag(formats@, tag@, idx as int));
    let ghost chosen = choose|i: int| first_with_tag(formats@, tag@, i);
    assert(chosen == idx) by {
        if chosen < idx {
            assert(formats@[chosen].fourcc@ != tag@);
        } else if chosen > idx {
            assert(formats@[idx as int].fourcc@ != tag@);
        }
    }
    selection.format_index = idx;
    let res = match saved_resolution {
        Some(r) => r,
        None => {
            return;
        },
    };
    let rs = &formats[idx].resolutions;
    let ri = match find_size(rs, res.0, res.1) {
        Some(k) => k,
        None => {
            return;
        },
    };
    assert(offers_size(formats@[idx as int], res.0, res.1)) by {
        assert(is_size(rs@[ri as int], res.0, res.1));
    }
    let ghost chosen_res = choose|k: int| first_with_size(rs@, res.0, res.1, k);
    assert(chosen_res == ri) by {
        if chosen_res < ri {
            assert(!is_size(rs@[chosen_res], res.0, res.1));
        } else if chosen_res > ri {
            assert(!is_size(rs@[ri as int], res.0, res.1));
        }
    }
    selection.resolution = res;
    if let Some(fps) = saved_framerate {
        if contains_u32(&rs[ri].framerates, fps) {
            selection.framerate = fps;
        }
    }
}

} // verus!
