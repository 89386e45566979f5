use vstd::prelude::*;

use crate::codec::same_text;
use crate::listing::lines_from;
use crate::text::{split_words, words};

verus! {

/// `ws` joined with single spaces.
pub open spec fn joined(ws: Seq<Seq<char>>) -> Seq<char>
    decreases ws.len(),
{
    if ws.len() == 0 {
        seq![]
    } else if ws.len() == 1 {
        ws[0]
    } else {
        joined(ws.drop_last()) + " "@ + ws.last()
    }
}

/// A device line of `lsusb`, such as
/// `Bus 001 Device 004: ID 534d:2109 MacroSilicon USB Video`: more than six
/// words, the fifth of which is `ID`. The device is the sixth word (its
/// `vendor:product` id) and the remaining words joined by spaces (its name).
pub open spec fn usb_line(s: Seq<char>) -> Option<(Seq<char>, Seq<char>)> {
    let w = words(s);
    if w.len() > 6 && w[4] == "ID"@ {
        Some((w[5], joined(w.subrange(6, w.len() as int))))
    } else {
        None
    }
}

/// The devices of the lines `lines`, in order.
pub open spec fn usb_devices_in(lines: Seq<Seq<char>>) -> Seq<(Seq<char>, Seq<char>)>
    decreases lines.len(),
{
    if lines.len() == 0 {
        seq![]
    } else {
        (match usb_line(lines[0]) {
            Some(d) => seq![d],
            None => seq![],
        }) + usb_devices_in(lines.drop_first())
    }
}

/// Reads one `lsusb` line.
pub fn parse_usb_line(line: &str) -> (r: Option<(String, String)>)
    ensures
        r is None <==> usb_line(line@) is None,
        r matches Some(d) ==> usb_line(line@) == Some((d.0@, d.1@)),
{
    let ws = split_words(line);
    let ghost w = words(line@);
    if ws.len() <= 6 || !same_text(ws[4].as_str(), "ID") {
        return None;
    }
    let id = ws[5].clone();
    let mut name = ws[6].clone();
    let mut k: usize = 7;
    proof {
        assert(w.subrange(6, 7) =~= seq![w[6]]);
    }
    while k < ws.len()
        invariant
            ws@.len() == w.len(),
            forall|j: int| 0 <= j < ws@.len() ==> (#[trigger] ws@[j])@ == w[j],
            7 <= k <= ws@.len(),
            name@ == joined(w.subrange(6, k as int)),
        decreases ws@.len() - k,
    {
        let ghost before = name@;
        name.append(" ");
        name.append(ws[k].as_str());
        proof {
            let part = w.subrange(6, k + 1);
            assert(part.drop_last() =~= w.subrange(6, k as int));
            assert(part.last() == w[k as int]);
        }
        k = k + 1;
    }
    Some((id, name))
}

/// Reads the output of `lsusb` into (`vendor:product`, name) pairs, one per
/// device line, in order.
pub fn parse_usb_listing(text: &str) -> (r: Vec<(String, String)>)
    ensures
        r@.len() == usb_devices_in(lines_from(text@, 0, 0)).len(),
        forall|k: int|
            0 <= k < r@.len() ==> ((#[trigger] r@[k]).0@, r@[k].1@) == usb_devices_in(
                lines_from(text@, 0, 0),
            )[k],
{
    let n = text.unicode_len();
    let mut out: Vec<(String, String)> = Vec::new();
    let ghost done: Seq<(Seq<char>, Seq<char>)> = seq![];
    let mut start: usize = 0;
    let mut i: usize = 0;
    while i < n
        invariant
            n == text@.len(),
            start <= i <= n,
            usb_devices_in(lines_from(text@, 0, 0)) == done + usb_devices_in(
                lines_from(text@, i as int, start as int),
            ),
            out@.len() == done.len(),
            forall|k: int| 0 <= k < out@.len() ==> ((#[trigger] out@[k]).0@, out@[k].1@) == done[k],
        decreases n - i,
    {
        if text.get_char(i) == '\n' {
            let ghost piece = text@.subrange(start as int, i as int);
            let ghost ls = lines_from(text@, i as int, start as int);
            let ghost rest = lines_from(text@, i + 1, i + 1);
            proof {
                assert(ls == seq![piece] + rest);
                assert(ls.drop_first() =~= rest);
                assert(ls[0] == piece);
            }
            let ghost found = match usb_line(piece) {
                Some(d) => seq![d],
                None => Seq::<(Seq<char>, Seq<char>)>::empty(),
            };
            match parse_usb_line(text.substring_char(start, i)) {
                Some(d) => {
                    out.push(d);
                },
                None => {},
            }
            proof {
                assert(usb_devices_in(ls) == found + usb_devices_in(rest));
                assert(done + (found + usb_devices_in(rest)) =~= (done + found) + usb_devices_in(
                    rest,
                ));
                done = done + found;
            }
            start = i + 1;
        }
        i = i + 1;
    }
    let ghost piece = text@.subrange(start as int, n as int);
    let ghost ls = lines_from(text@, n as int, start as int);
    proof {
        assert(ls == seq![piece]);
        assert(ls.drop_first() =~= Seq::<Seq<char>>::empty());
        assert(ls[0] == piece);
    }
    let ghost found = match usb_line(piece) {
        Some(d) => seq![d],
        None => Seq::<(Seq<char>, Seq<char>)>::empty(),
    };
    match parse_usb_line(text.substring_char(start, n)) {
        Some(d) => {
            out.push(d);
        },
        None => {},
    }
    proof {
        assert(usb_devices_in(ls) == found + usb_devices_in(Seq::<Seq<char>>::empty()));
        assert(done + usb_devices_in(ls) =~= done + found);
        done = done + found;
    }
    out
}

} // verus!
