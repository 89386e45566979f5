use vstd::prelude::*;

use crate::text::{
    all_digits, capped, capped_digits, digits_value, find_delim, find_from, has_delim, is_delim,
    lemma_find_from_bounds, parse_u32, parsed_u32, second_field, second_field_exec, split_words,
    starts_with, starts_with_exec, trim, trimmed, words, Delim,
};
use crate::types::{Resolution, VideoFormat};

verus! {

/// A frame size as plain values: width, height, frame rates in listing order.
pub type ResolutionModel = (u32, u32, Seq<u32>);

/// A format as plain values: tag, description, frame sizes in listing order.
pub type FormatModel = (Seq<char>, Seq<char>, Seq<ResolutionModel>);

pub open spec fn res_model(r: Resolution) -> ResolutionModel {
    (r.width, r.height, r.framerates@)
}

pub open spec fn fmt_model(f: VideoFormat) -> FormatModel {
    (f.fourcc@, f.description@, f.resolutions@.map_values(|r: Resolution| res_model(r)))
}

/// A format header such as `[0]: 'YUYV' (YUYV 4:2:2)`: it starts with `[` and
/// holds a `:` and a quote. The tag is the text after the first quote, up to the
/// next one; the description is the text after the first parenthesis, up to the
/// next one, or empty when there is none.
pub open spec fn format_line(s: Seq<char>) -> Option<(Seq<char>, Seq<char>)> {
    if s.len() > 0 && s[0] == '[' && has_delim(s, Delim::Colon) && has_delim(s, Delim::Quote) {
        let desc = match second_field(s, Delim::Paren) {
            Some(d) => d,
            None => seq![],
        };
        Some((second_field(s, Delim::Quote)->Some_0, desc))
    } else {
        None
    }
}

/// A frame size line such as `Size: Discrete 1920x1080`: its third word is two
/// unsigned numbers joined by a single `x`.
pub open spec fn resolution_line(s: Seq<char>) -> Option<(u32, u32)> {
    if starts_with(s, "Size: Discrete"@) && words(s).len() >= 3 {
        let w = words(s)[2];
        let a = find_from(w, 0, Delim::LetterX);
        if a < w.len() && find_from(w, a + 1, Delim::LetterX) == w.len() {
            match (parsed_u32(w.subrange(0, a)), parsed_u32(w.subrange(a + 1, w.len() as int))) {
                (Some(x), Some(y)) => Some((x, y)),
                _ => None,
            }
        } else {
            None
        }
    } else {
        None
    }
}

/// The frame rate a decimal such as `30.000` or `7.5` stands for: an optional
/// sign, digits, and an optional fraction after a `.`, with at least one digit in
/// all. It is rounded to the nearest integer, halves away from zero; a negative
/// value gives 0 and a value past `u32::MAX` gives `u32::MAX`.
pub open spec fn parsed_rate(w: Seq<char>) -> Option<u32> {
    let signed = w.len() > 0 && (w[0] == '+' || w[0] == '-');
    let from: int = if signed {
        1
    } else {
        0
    };
    let dot = find_from(w, from, Delim::Dot);
    let int_part = w.subrange(from, dot);
    let frac = if dot < w.len() {
        w.subrange(dot + 1, w.len() as int)
    } else {
        seq![]
    };
    if int_part.len() + frac.len() > 0 && all_digits(int_part) && all_digits(frac) {
        if signed && w[0] == '-' {
            Some(0)
        } else {
            let up: nat = if frac.len() > 0 && frac[0] >= '5' {
                1
            } else {
                0
            };
            Some(capped(digits_value(int_part) + up, u32::MAX as nat) as u32)
        }
    } else {
        None
    }
}

/// A frame interval line such as `Interval: Discrete 0.033s (30.000 fps)`: the
/// rate is the first word inside the parentheses.
pub open spec fn framerate_line(s: Seq<char>) -> Option<u32> {
    if starts_with(s, "Interval: Discrete"@) {
        match second_field(s, Delim::Paren) {
            Some(f) => if words(f).len() > 0 {
                parsed_rate(words(f)[0])
            } else {
                None
            },
            None => None,
        }
    } else {
        None
    }
}

/// The rates after adding `fps`, when there is one and it is not listed yet.
pub open spec fn with_rate(rates: Seq<u32>, fps: Option<u32>) -> Seq<u32> {
    match fps {
        Some(f) => if rates.contains(f) {
            rates
        } else {
            rates.push(f)
        },
        None => rates,
    }
}

/// Reads a format header line.
pub fn parse_format_line(line: &str) -> (r: Option<VideoFormat>)
    ensures
        r is None <==> format_line(line@) is None,
        r matches Some(f) ==> format_line(line@) == Some((f.fourcc@, f.description@))
            && f.resolutions@.len() == 0,
{
    let n = line.unicode_len();
    if n == 0 || line.get_char(0) != '[' {
        return None;
    }
    if find_delim(line, 0, Delim::Colon) >= n || find_delim(line, 0, Delim::Quote) >= n {
        return None;
    }
    let fourcc = match second_field_exec(line, Delim::Quote) {
        Some(t) => String::from_str(t),
        None => {
            return None;
        },
    };
    let description = match second_field_exec(line, Delim::Paren) {
        Some(t) => String::from_str(t),
        None => String::new(),
    };
    Some(VideoFormat { fourcc, description, resolutions: Vec::new() })
}

/// Reads a frame size line.
pub fn parse_resolution_line(line: &str) -> (r: Option<Resolution>)
    ensures
        r is None <==> resolution_line(line@) is None,
        r matches Some(res) ==> resolution_line(line@) == Some((res.width, res.height))
            && res.framerates@.len() == 0,
{
    if !starts_with_exec(line, "Size: Discrete") {
        return None;
    }
    let parts = split_words(line);
    if parts.len() < 3 {
        return None;
    }
    let w = parts[2].as_str();
    let n = w.unicode_len();
    let a = find_delim(w, 0, Delim::LetterX);
    if a >= n {
        return None;
    }
    if find_delim(w, a + 1, Delim::LetterX) != n {
        return None;
    }
    let x = parse_u32(w.substring_char(0, a));
    let y = parse_u32(w.substring_char(a + 1, n));
    match (x, y) {
        (Some(width), Some(height)) => Some(Resolution { width, height, framerates: Vec::new() }),
        _ => None,
    }
}

/// Reads a rate word as `parsed_rate` describes.
pub fn parse_rate(w: &str) -> (r: Option<u32>)
    ensures
        r == parsed_rate(w@),
{
    let n = w.unicode_len();
    let c0 = if n > 0 {
        w.get_char(0)
    } else {
        ' '
    };
    let signed = n > 0 && (c0 == '+' || c0 == '-');
    let from: usize = if signed {
        1
    } else {
        0
    };
    let dot = find_delim(w, from, Delim::Dot);
    proof {
        lemma_find_from_bounds(w@, from as int, Delim::Dot);
    }
    let int_value = match capped_digits(w, from, dot) {
        Some(v) => v,
        None => {
            return None;
        },
    };
    let frac_end = if dot < n {
        dot + 1
    } else {
        dot
    };
    let frac_digits = capped_digits(w, frac_end, n);
    proof {
        if dot < n {
        } else {
            assert(w@.subrange(frac_end as int, n as int) =~= seq![]);
        }
    }
    if frac_digits.is_none() {
        return None;
    }
    if dot - from + (n - frac_end) == 0 {
        proof {
            assert(w@.subrange(from as int, dot as int).len() == 0);
        }
        return None;
    }
    if signed && c0 == '-' {
        return Some(0);
    }
    let up: u64 = if frac_end < n && w.get_char(frac_end) >= '5' {
        1
    } else {
        0
    };
    proof {
        if frac_end < n {
            assert(w@.subrange(frac_end as int, n as int)[0] == w@[frac_end as int]);
        }
    }
    let total = int_value + up;
    if total > u32::MAX as u64 {
        Some(u32::MAX)
    } else {
        Some(total as u32)
    }
}

/// Reads a frame interval line into `resolution`, adding its rate if it is new.
pub fn parse_framerate_line(line: &str, resolution: &mut Resolution)
    ensures
        final(resolution).width == old(resolution).width,
        final(resolution).height == old(resolution).height,
        final(resolution).framerates@ == with_rate(old(resolution).framerates@, framerate_line(line@)),
{
    if !starts_with_exec(line, "Interval: Discrete") {
        return;
    }
    let field = match second_field_exec(line, Delim::Paren) {
        Some(f) => f,
        None => {
            return;
        },
    };
    let ws = split_words(field);
    if ws.len() == 0 {
        return;
    }
    match parse_rate(ws[0].as_str()) {
        Some(fps) => {
            if !crate::types::contains_u32(&resolution.framerates, fps) {
                resolution.framerates.push(fps);
            }
        },
        None => {},
    }
}


/// The parser's state between lines: finished formats, the format being read
/// and the frame size being read.
pub type ListingState = (Seq<FormatModel>, Option<FormatModel>, Option<ResolutionModel>);

/// The format with the size being read appended, if that size got any rate.
pub open spec fn close_resolution(f: FormatModel, res: Option<ResolutionModel>) -> FormatModel {
    match res {
        Some(r) => if r.2.len() > 0 {
            (f.0, f.1, f.2.push(r))
        } else {
            f
        },
        None => f,
    }
}

/// The finished formats with the format being read appended, if it ends up with
/// any frame size.
pub open spec fn close_format(
    done: Seq<FormatModel>,
    fmt: Option<FormatModel>,
    res: Option<ResolutionModel>,
) -> Seq<FormatModel> {
    match fmt {
        Some(f) => {
            let g = close_resolution(f, res);
            if g.2.len() > 0 {
                done.push(g)
            } else {
                done
            }
        },
        None => done,
    }
}

/// One trimmed line of the listing. A format header closes the current format
/// and opens a new one; a frame size line (inside a format) closes the current
/// size and opens a new one; any other line may add a rate to the current size.
pub open spec fn listing_step(st: ListingState, line: Seq<char>) -> ListingState {
    match format_line(line) {
        Some((tag, desc)) => (close_format(st.0, st.1, st.2), Some((tag, desc, seq![])), None),
        None => match resolution_line(line) {
            Some((w, h)) => match st.1 {
                Some(f) => (st.0, Some(close_resolution(f, st.2)), Some((w, h, seq![]))),
                None => st,
            },
            None => match st.2 {
                Some(r) => (st.0, st.1, Some((r.0, r.1, with_rate(r.2, framerate_line(line))))),
                None => st,
            },
        },
    }
}

/// The state after reading `lines` in order, each trimmed, starting from `st`.
pub open spec fn run_lines(st: ListingState, lines: Seq<Seq<char>>) -> ListingState
    decreases lines.len(),
{
    if lines.len() == 0 {
        st
    } else {
        run_lines(listing_step(st, trimmed(lines[0])), lines.drop_first())
    }
}

/// The lines of `s` from position `i` on, the current line having begun at
/// `start`; the text after the last line break is a line too.
pub open spec fn lines_from(s: Seq<char>, i: int, start: int) -> Seq<Seq<char>>
    decreases s.len() - i,
{
    if i >= s.len() {
        seq![s.subrange(start, s.len() as int)]
    } else if s[i] == '\n' {
        seq![s.subrange(start, i)] + lines_from(s, i + 1, i + 1)
    } else {
        lines_from(s, i + 1, start)
    }
}

/// The formats described by a device's format listing: every format that ends up
/// with a frame size, every frame size that ends up with a rate.
pub open spec fn listed_formats(text: Seq<char>) -> Seq<FormatModel> {
    let st = run_lines((seq![], None, None), lines_from(text, 0, 0));
    close_format(st.0, st.1, st.2)
}

pub open spec fn opt_fmt_model(f: Option<VideoFormat>) -> Option<FormatModel> {
    match f {
        Some(g) => Some(fmt_model(g)),
        None => None,
    }
}

pub open spec fn opt_res_model(r: Option<Resolution>) -> Option<ResolutionModel> {
    match r {
        Some(x) => Some(res_model(x)),
        None => None,
    }
}

pub open spec fn formats_model(v: Seq<VideoFormat>) -> Seq<FormatModel> {
    v.map_values(|f: VideoFormat| fmt_model(f))
}

fn close_resolution_exec(f: VideoFormat, res: Option<Resolution>) -> (r: VideoFormat)
    ensures
        fmt_model(r) == close_resolution(fmt_model(f), opt_res_model(res)),
{
    let mut f = f;
    match res {
        Some(x) => {
            if x.framerates.len() > 0 {
                let ghost before = f.resolutions@;
                f.resolutions.push(x);
                proof {
                    assert(f.resolutions@.map_values(|r: Resolution| res_model(r)) =~= before.map_values(
                        |r: Resolution| res_model(r),
                    ).push(res_model(x)));
                }
            }
        },
        None => {},
    }
    f
}

fn close_format_exec(formats: &mut Vec<VideoFormat>, fmt: Option<VideoFormat>, res: Option<Resolution>)
    ensures
        formats_model(final(formats)@) == close_format(
            formats_model(old(formats)@),
            opt_fmt_model(fmt),
            opt_res_model(res),
        ),
{
    match fmt {
        Some(f) => {
            let g = close_resolution_exec(f, res);
            if g.resolutions.len() > 0 {
                let ghost before = formats@;
                formats.push(g);
                proof {
                    assert(formats_model(formats@) =~= formats_model(before).push(fmt_model(g)));
                }
            }
        },
        None => {},
    }
}

fn step_exec(
    formats: &mut Vec<VideoFormat>,
    fmt: &mut Option<VideoFormat>,
    res: &mut Option<Resolution>,
    line: &str,
)
    ensures
        (formats_model(final(formats)@), opt_fmt_model(*final(fmt)), opt_res_model(*final(res)))
            == listing_step(
            (formats_model(old(formats)@), opt_fmt_model(*old(fmt)), opt_res_model(*old(res))),
            line@,
        ),
{
    if let Some(new_fmt) = parse_format_line(line) {
        let f = fmt.take();
        let r = res.take();
        close_format_exec(formats, f, r);
        proof {
            assert(fmt_model(new_fmt).2 =~= seq![]);
        }
        *fmt = Some(new_fmt);
        return;
    }
    if let Some(new_res) = parse_resolution_line(line) {
        if fmt.is_some() {
            let f = fmt.take().unwrap();
            let r = res.take();
            let g = close_resolution_exec(f, r);
            *fmt = Some(g);
            proof {
                assert(new_res.framerates@ =~= seq![]);
            }
            *res = Some(new_res);
        }
        return;
    }
    if res.is_some() {
        let mut r = res.take().unwrap();
        parse_framerate_line(line, &mut r);
        *res = Some(r);
    }
}

/// Reads a device's format listing (the text `v4l2-ctl --list-formats-ext`
/// prints) into formats, each with its frame sizes and their frame rates.
pub fn parse_format_listing(text: &str) -> (r: Vec<VideoFormat>)
    ensures
        formats_model(r@) == listed_formats(text@),
{
    let n = text.unicode_len();
    let mut formats: Vec<VideoFormat> = Vec::new();
    let mut fmt: Option<VideoFormat> = None;
    let mut res: Option<Resolution> = None;
    let ghost init: ListingState = (seq![], None, None);
    proof {
        assert(formats_model(formats@) =~= seq![]);
    }
    let mut start: usize = 0;
    let mut i: usize = 0;
    while i < n
        invariant
            n == text@.len(),
            start <= i <= n,
            run_lines(init, lines_from(text@, 0, 0)) == run_lines(
                (formats_model(formats@), opt_fmt_model(fmt), opt_res_model(res)),
                lines_from(text@, i as int, start as int),
            ),
        decreases n - i,
    {
        if text.get_char(i) == '\n' {
            let line = trim(text.substring_char(start, i));
            let ghost st = (formats_model(formats@), opt_fmt_model(fmt), opt_res_model(res));
            let ghost piece = text@.subrange(start as int, i as int);
            let ghost rest = lines_from(text@, i + 1, i + 1);
            step_exec(&mut formats, &mut fmt, &mut res, line);
            proof {
                let ls = seq![piece] + rest;
                assert(lines_from(text@, i as int, start as int) == ls);
                assert(ls.drop_first() =~= rest);
                assert(ls[0] == piece);
            }
            start = i + 1;
        }
        i = i + 1;
    }
    let line = trim(text.substring_char(start, n));
    let ghost piece = text@.subrange(start as int, n as int);
    let ghost st = (formats_model(formats@), opt_fmt_model(fmt), opt_res_model(res));
    step_exec(&mut formats, &mut fmt, &mut res, line);
    proof {
        let ls = seq![piece];
        assert(lines_from(text@, n as int, start as int) == ls);
        assert(ls.drop_first() =~= Seq::<Seq<char>>::empty());
        let after = listing_step(st, trimmed(piece));
        assert(run_lines(st, ls) == run_lines(after, ls.drop_first()));
        assert(run_lines(after, Seq::<Seq<char>>::empty()) == after);
    }
    let f = fmt.take();
    let r = res.take();
    close_format_exec(&mut formats, f, r);
    formats
}

} // verus!
