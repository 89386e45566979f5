use vstd::prelude::*;

verus! {

/// The CPU/GPU post-processing filter selected for the video window.
#[derive(Debug, Clone, Copy, PartialEq, Eq, Structural)]
pub enum CrtFilter {
    Off,
    Scanlines,
    Lottes,
}

/// The stored code of a filter: `Off` is 0, `Scanlines` 1, `Lottes` 2.
pub open spec fn filter_code(f: CrtFilter) -> u8 {
    match f {
        CrtFilter::Off => 0,
        CrtFilter::Scanlines => 1,
        CrtFilter::Lottes => 2,
    }
}

/// The filter that a stored code stands for; unknown codes mean `Off`.
pub open spec fn filter_of_code(v: u8) -> CrtFilter {
    if v == 1 {
        CrtFilter::Scanlines
    } else if v == 2 {
        CrtFilter::Lottes
    } else {
        CrtFilter::Off
    }
}

/// The cycle Off -> Scanlines -> Lottes -> Off.
pub open spec fn filter_after(f: CrtFilter) -> CrtFilter {
    match f {
        CrtFilter::Off => CrtFilter::Scanlines,
        CrtFilter::Scanlines => CrtFilter::Lottes,
        CrtFilter::Lottes => CrtFilter::Off,
    }
}

/// The label shown to the user for a filter.
pub open spec fn filter_label(f: CrtFilter) -> Seq<char> {
    match f {
        CrtFilter::Off => "Off"@,
        CrtFilter::Scanlines => "Scanlines"@,
        CrtFilter::Lottes => "Lottes (Advanced)"@,
    }
}

impl CrtFilter {
    pub fn from_u8(value: u8) -> (r: Self)
        ensures
            r == filter_of_code(value),
    {
        match value {
            1 => CrtFilter::Scanlines,
            2 => CrtFilter::Lottes,
            _ => CrtFilter::Off,
        }
    }

    pub fn to_u8(&self) -> (r: u8)
        ensures
            r == filter_code(*self),
    {
        match self {
            CrtFilter::Off => 0,
            CrtFilter::Scanlines => 1,
            CrtFilter::Lottes => 2,
        }
    }

    pub fn next(&self) -> (r: Self)
        ensures
            r == filter_after(*self),
    {
        match self {
            CrtFilter::Off => CrtFilter::Scanlines,
            CrtFilter::Scanlines => CrtFilter::Lottes,
            CrtFilter::Lottes => CrtFilter::Off,
        }
    }

    pub fn to_string(&self) -> (r: &'static str)
        ensures
            r@ == filter_label(*self),
    {
        match self {
            CrtFilter::Off => "Off",
            CrtFilter::Scanlines => "Scanlines",
            CrtFilter::Lottes => "Lottes (Advanced)",
        }
    }
}

} // verus!
