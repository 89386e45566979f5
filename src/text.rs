use vstd::prelude::*;

verus! {

/// Whether `c` is white space in the Unicode sense that `char::is_whitespace`
/// uses.
pub open spec fn is_space(c: char) -> bool {
    let u = c as u32;
    ||| u == 0x20
    ||| 0x09 <= u <= 0x0d
    ||| u == 0x85
    ||| u == 0xa0
    ||| u == 0x1680
    ||| 0x2000 <= u <= 0x200a
    ||| u == 0x2028
    ||| u == 0x2029
    ||| u == 0x202f
    ||| u == 0x205f
    ||| u == 0x3000
}

pub fn is_space_exec(c: char) -> (r: bool)
    ensures
        r == is_space(c),
{
    let u = c as u32;
    u == 0x20 || (0x09 <= u && u <= 0x0d) || u == 0x85 || u == 0xa0 || u == 0x1680 || (0x2000 <= u
        && u <= 0x200a) || u == 0x2028 || u == 0x2029 || u == 0x202f || u == 0x205f || u == 0x3000
}

/// `s` without white space at its start.
pub open spec fn trim_start(s: Seq<char>) -> Seq<char>
    decreases s.len(),
{
    if s.len() > 0 && is_space(s[0]) {
        trim_start(s.drop_first())
    } else {
        s
    }
}

/// `s` without white space at its end.
pub open spec fn trim_end(s: Seq<char>) -> Seq<char>
    decreases s.len(),
{
    if s.len() > 0 && is_space(s.last()) {
        trim_end(s.drop_last())
    } else {
        s
    }
}

/// `s` without white space at either end.
pub open spec fn trimmed(s: Seq<char>) -> Seq<char> {
    trim_end(trim_start(s))
}

/// The white-space trimmed text of `s`.
pub fn trim<'a>(s: &'a str) -> (r: &'a str)
    ensures
        r@ == trimmed(s@),
{
    let n = s.unicode_len();
    let mut a: usize = 0;
    assert(s@.subrange(0, n as int) =~= s@);
    while a < n && is_space_exec(s.get_char(a))
        invariant
            n == s@.len(),
            a <= n,
            trim_start(s@) == trim_start(s@.subrange(a as int, n as int)),
        decreases n - a,
    {
        proof {
            assert(s@.subrange(a as int, n as int).drop_first() =~= s@.subrange(a + 1, n as int));
        }
        a = a + 1;
    }
    let ghost front = s@.subrange(a as int, n as int);
    assert(trim_start(s@) == front);
    let mut b: usize = n;
    assert(front.subrange(0, (b - a) as int) =~= front);
    while b > a && is_space_exec(s.get_char(b - 1))
        invariant
            n == s@.len(),
            a <= b <= n,
            front == s@.subrange(a as int, n as int),
            trim_end(front) == trim_end(s@.subrange(a as int, b as int)),
        decreases b,
    {
        proof {
            assert(s@.subrange(a as int, b as int).drop_last() =~= s@.subrange(a as int, b - 1));
        }
        b = b - 1;
    }
    s.substring_char(a, b)
}

/// Whether `s` begins with `p`.
pub open spec fn starts_with(s: Seq<char>, p: Seq<char>) -> bool {
    p.len() <= s.len() && s.subrange(0, p.len() as int) == p
}

pub fn starts_with_exec(s: &str, p: &str) -> (r: bool)
    ensures
        r == starts_with(s@, p@),
{
    let n = p.unicode_len();
    if n > s.unicode_len() {
        return false;
    }
    let mut i: usize = 0;
    while i < n
        invariant
            n == p@.len(),
            n <= s@.len(),
            i <= n,
            forall|j: int| 0 <= j < i ==> s@[j] == p@[j],
        decreases n - i,
    {
        if s.get_char(i) != p.get_char(i) {
            assert(s@.subrange(0, n as int)[i as int] != p@[i as int]);
            return false;
        }
        i = i + 1;
    }
    assert(s@.subrange(0, n as int) =~= p@);
    true
}

/// The separators that fields are cut at.
#[derive(Debug, Clone, Copy, PartialEq, Eq, Structural)]
pub enum Delim {
    /// `'`
    Quote,
    /// `(` or `)`
    Paren,
    /// `:`
    Colon,
    /// `x`
    LetterX,
    /// A line break.
    Newline,
    /// `.`
    Dot,
}

pub open spec fn is_delim(d: Delim, c: char) -> bool {
    match d {
        Delim::Quote => c == '\'',
        Delim::Paren => c == '(' || c == ')',
        Delim::Colon => c == ':',
        Delim::LetterX => c == 'x',
        Delim::Newline => c == '\n',
        Delim::Dot => c == '.',
    }
}

/// The first position at or after `i` that holds `d`, or the length of `s`.
pub open spec fn find_from(s: Seq<char>, i: int, d: Delim) -> int
    decreases s.len() - i,
{
    if i >= s.len() {
        s.len() as int
    } else if i >= 0 && is_delim(d, s[i]) {
        i
    } else {
        find_from(s, i + 1, d)
    }
}

pub proof fn lemma_find_from_bounds(s: Seq<char>, i: int, d: Delim)
    requires
        0 <= i <= s.len(),
    ensures
        i <= find_from(s, i, d) <= s.len(),
        find_from(s, i, d) < s.len() ==> is_delim(d, s[find_from(s, i, d)]),
        forall|j: int| i <= j < find_from(s, i, d) ==> !is_delim(d, #[trigger] s[j]),
    decreases s.len() - i,
{
    if i < s.len() && !is_delim(d, s[i]) {
        lemma_find_from_bounds(s, i + 1, d);
    }
}

pub fn find_delim(s: &str, from: usize, d: Delim) -> (r: usize)
    requires
        from <= s@.len(),
    ensures
        r == find_from(s@, from as int, d),
{
    let n = s.unicode_len();
    let mut i = from;
    while i < n
        invariant
            n == s@.len(),
            from <= i <= n,
            find_from(s@, from as int, d) == find_from(s@, i as int, d),
        decreases n - i,
    {
        let c = s.get_char(i);
        let hit = match d {
            Delim::Quote => c == '\'',
            Delim::Paren => c == '(' || c == ')',
            Delim::Colon => c == ':',
            Delim::LetterX => c == 'x',
            Delim::Newline => c == '\n',
            Delim::Dot => c == '.',
        };
        if hit {
            return i;
        }
        i = i + 1;
    }
    i
}

/// Whether `s` holds a `d`.
pub open spec fn has_delim(s: Seq<char>, d: Delim) -> bool {
    find_from(s, 0, d) < s.len()
}

/// The second field of `s` cut at `d`: what lies between the first `d` and the
/// next one (or the end). `None` when `s` holds no `d`.
pub open spec fn second_field(s: Seq<char>, d: Delim) -> Option<Seq<char>> {
    let a = find_from(s, 0, d);
    if a >= s.len() {
        None
    } else {
        Some(s.subrange(a + 1, find_from(s, a + 1, d)))
    }
}

pub fn second_field_exec<'a>(s: &'a str, d: Delim) -> (r: Option<&'a str>)
    ensures
        r matches Some(t) ==> second_field(s@, d) == Some(t@),
        r is None ==> second_field(s@, d) is None,
{
    let n = s.unicode_len();
    let a = find_delim(s, 0, d);
    if a >= n {
        return None;
    }
    let b = find_delim(s, a + 1, d);
    proof {
        lemma_find_from_bounds(s@, a + 1, d);
    }
    Some(s.substring_char(a + 1, b))
}

/// The words of `s` from position `i` on, the current word having begun at
/// `start`: maximal runs of characters that are not white space.
pub open spec fn words_from(s: Seq<char>, i: int, start: int) -> Seq<Seq<char>>
    decreases s.len() - i,
{
    if i >= s.len() {
        if start < s.len() {
            seq![s.subrange(start, s.len() as int)]
        } else {
            seq![]
        }
    } else if is_space(s[i]) {
        (if start < i {
            seq![s.subrange(start, i)]
        } else {
            seq![]
        }) + words_from(s, i + 1, i + 1)
    } else {
        words_from(s, i + 1, start)
    }
}

/// The white-space separated words of `s`, as `str::split_whitespace` gives them.
pub open spec fn words(s: Seq<char>) -> Seq<Seq<char>> {
    words_from(s, 0, 0)
}

pub fn split_words(s: &str) -> (r: Vec<String>)
    ensures
        r@.len() == words(s@).len(),
        forall|k: int| 0 <= k < r@.len() ==> (#[trigger] r@[k])@ == words(s@)[k],
{
    let n = s.unicode_len();
    let mut out: Vec<String> = Vec::new();
    let ghost done: Seq<Seq<char>> = seq![];
    let mut i: usize = 0;
    let mut start: usize = 0;
    while i < n
        invariant
            n == s@.len(),
            start <= i <= n,
            out@.len() == done.len(),
            forall|k: int| 0 <= k < out@.len() ==> (#[trigger] out@[k])@ == done[k],
            words(s@) == done + words_from(s@, i as int, start as int),
        decreases n - i,
    {
        if is_space_exec(s.get_char(i)) {
            if start < i {
                let w = String::from_str(s.substring_char(start, i));
                out.push(w);
                proof {
                    let piece = s@.subrange(start as int, i as int);
                    assert(words_from(s@, i as int, start as int) == seq![piece] + words_from(
                        s@,
                        i + 1,
                        i + 1,
                    ));
                    assert(done + words_from(s@, i as int, start as int) =~= done.push(piece)
                        + words_from(s@, i + 1, i + 1));
                    done = done.push(piece);
                }
            } else {
                proof {
                    assert(words_from(s@, i as int, start as int) =~= words_from(s@, i + 1, i + 1));
                }
            }
            i = i + 1;
            start = i;
        } else {
            i = i + 1;
        }
    }
    if start < n {
        out.push(String::from_str(s.substring_char(start, n)));
        proof {
            done = done.push(s@.subrange(start as int, n as int));
        }
    } else {
        proof {
            assert(done + words_from(s@, i as int, start as int) =~= done);
        }
    }
    out
}

/// The value of a string of decimal digits.
pub open spec fn digits_value(s: Seq<char>) -> nat
    decreases s.len(),
{
    if s.len() == 0 {
        0
    } else {
        digits_value(s.drop_last()) * 10 + ((s.last() as u32) - ('0' as u32)) as nat
    }
}

pub open spec fn all_digits(s: Seq<char>) -> bool {
    forall|i: int| 0 <= i < s.len() ==> '0' <= #[trigger] s[i] <= '9'
}

/// `s` without one leading `+`, as unsigned integer parsing allows.
pub open spec fn without_plus(s: Seq<char>) -> Seq<char> {
    if s.len() > 0 && s[0] == '+' {
        s.drop_first()
    } else {
        s
    }
}

/// The number a string denotes under `u32`'s `FromStr`: an optional `+`, then one
/// or more decimal digits, of a value that fits.
pub open spec fn parsed_u32(s: Seq<char>) -> Option<u32> {
    let d = without_plus(s);
    if d.len() > 0 && all_digits(d) && digits_value(d) <= u32::MAX {
        Some(digits_value(d) as u32)
    } else {
        None
    }
}

pub open spec fn capped(v: nat, cap: nat) -> nat {
    if v <= cap {
        v
    } else {
        cap
    }
}

/// The value of the digits of `s` between `from` and `to`, capped at
/// `u32::MAX + 1`; `None` if a character there is not a digit.
pub fn capped_digits(s: &str, from: usize, to: usize) -> (r: Option<u64>)
    requires
        from <= to <= s@.len(),
    ensures
        r is Some <==> all_digits(s@.subrange(from as int, to as int)),
        r matches Some(v) ==> v == capped(
            digits_value(s@.subrange(from as int, to as int)),
            u32::MAX as nat + 1,
        ),
{
    let cap: u64 = 0x1_0000_0000;
    let mut acc: u64 = 0;
    let mut i = from;
    assert(s@.subrange(from as int, from as int) =~= seq![]);
    while i < to
        invariant
            from <= i <= to <= s@.len(),
            cap == u32::MAX as nat + 1,
            all_digits(s@.subrange(from as int, i as int)),
            acc == capped(digits_value(s@.subrange(from as int, i as int)), cap as nat),
        decreases to - i,
    {
        let c = s.get_char(i);
        let ghost prev = s@.subrange(from as int, i as int);
        let ghost next = s@.subrange(from as int, i + 1);
        assert(next.drop_last() =~= prev);
        if c < '0' || c > '9' {
            assert(!('0' <= next[(i - from) as int] <= '9'));
            return None;
        }
        let d = (c as u32 - '0' as u32) as u64;
        assert(digits_value(next) == digits_value(prev) * 10 + d);
        acc = if acc * 10 + d <= cap {
            acc * 10 + d
        } else {
            cap
        };
        i = i + 1;
        assert(all_digits(next)) by {
            assert forall|k: int| 0 <= k < next.len() implies '0' <= #[trigger] next[k] <= '9' by {
                if k < prev.len() {
                    assert(next[k] == prev[k]);
                }
            }
        }
    }
    Some(acc)
}

/// Parses `s` as `u32`'s `FromStr` does for decimal text.
pub fn parse_u32(s: &str) -> (r: Option<u32>)
    ensures
        r == parsed_u32(s@),
{
    let n = s.unicode_len();
    let from: usize = if n > 0 && s.get_char(0) == '+' {
        1
    } else {
        0
    };
    proof {
        assert(without_plus(s@) =~= s@.subrange(from as int, n as int));
    }
    if from == n {
        return None;
    }
    match capped_digits(s, from, n) {
        None => None,
        Some(v) => if v <= u32::MAX as u64 {
            Some(v as u32)
        } else {
            None
        },
    }
}

} // verus!
