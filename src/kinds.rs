use vstd::prelude::*;

verus! {

/// The ten responses a band of the parametric equalizer can take.
#[derive(PartialEq, Eq, Structural, Debug, Clone, Copy)]
pub enum FilterKind {
    Bell,
    LowPass,
    HighPass,
    LowShelf,
    HighShelf,
    Notch,
    BandPass,
    Tilt,
    Mesa,
    AllPass,
}

/// The parameter code of each kind: `Bell` is 1, ..., `AllPass` is 10.
pub open spec fn kind_code(k: FilterKind) -> u32 {
    match k {
        FilterKind::Bell => 1,
        FilterKind::LowPass => 2,
        FilterKind::HighPass => 3,
        FilterKind::LowShelf => 4,
        FilterKind::HighShelf => 5,
        FilterKind::Notch => 6,
        FilterKind::BandPass => 7,
        FilterKind::Tilt => 8,
        FilterKind::Mesa => 9,
        FilterKind::AllPass => 10,
    }
}

impl FilterKind {
    /// The kind whose parameter code is `value`; codes run from 1 to 10.
    pub fn from_u32(value: u32) -> (r: FilterKind)
        requires
            1 <= value <= 10,
        ensures
            kind_code(r) == value,
    {
        match value {
            1 => FilterKind::Bell,
            2 => FilterKind::LowPass,
            3 => FilterKind::HighPass,
            4 => FilterKind::LowShelf,
            5 => FilterKind::HighShelf,
            6 => FilterKind::Notch,
            7 => FilterKind::BandPass,
            8 => FilterKind::Tilt,
            9 => FilterKind::Mesa,
            _ => FilterKind::AllPass,
        }
    }

    /// The parameter code of this kind.
    pub fn code(&self) -> (r: u32)
        ensures
            r == kind_code(*self),
            1 <= r <= 10,
    {
        match self {
            FilterKind::Bell => 1,
            FilterKind::LowPass => 2,
            FilterKind::HighPass => 3,
            FilterKind::LowShelf => 4,
            FilterKind::HighShelf => 5,
            FilterKind::Notch => 6,
            FilterKind::BandPass => 7,
            FilterKind::Tilt => 8,
            FilterKind::Mesa => 9,
            FilterKind::AllPass => 10,
        }
    }
}

/// The slopes offered for the low-pass and high-pass bands of the fixed
/// equalizer: one pole, or 2, 4, 6 or 8 poles as second-order sections.
#[derive(PartialEq, Eq, Structural, Debug, Clone, Copy, Hash)]
pub enum FilterOrder {
    X1,
    X2,
    X4,
    X6,
    X8,
}

/// The number of poles of an order.
pub open spec fn order_poles(o: FilterOrder) -> nat {
    match o {
        FilterOrder::X1 => 1,
        FilterOrder::X2 => 2,
        FilterOrder::X4 => 4,
        FilterOrder::X6 => 6,
        FilterOrder::X8 => 8,
    }
}

/// The order a parameter code selects: 0 to 3 name the four lowest orders,
/// every larger code the eight-pole order.
pub open spec fn order_of_code(v: u32) -> FilterOrder {
    if v == 0 {
        FilterOrder::X1
    } else if v == 1 {
        FilterOrder::X2
    } else if v == 2 {
        FilterOrder::X4
    } else if v == 3 {
        FilterOrder::X6
    } else {
        FilterOrder::X8
    }
}

impl FilterOrder {
    pub fn from_u32(v: u32) -> (r: Self)
        ensures
            r == order_of_code(v),
    {
        match v {
            0 => Self::X1,
            1 => Self::X2,
            2 => Self::X4,
            3 => Self::X6,
            _ => Self::X8,
        }
    }

    /// The number of poles, 1 to 8.
    pub fn poles(&self) -> (r: u32)
        ensures
            r == order_poles(*self),
    {
        match self {
            Self::X1 => 1,
            Self::X2 => 2,
            Self::X4 => 4,
            Self::X6 => 6,
            Self::X8 => 8,
        }
    }
}

/// The responses of the fixed equalizer's peaking bands.
#[derive(PartialEq, Eq, Structural, Debug, Clone, Copy, Hash)]
pub enum BandType {
    Bell,
    LowShelf,
    HighShelf,
    Notch,
    Allpass,
}

/// The band type a parameter code selects: 0 to 3 in declaration order, every
/// larger code the all-pass.
pub open spec fn band_type_of_code(v: u32) -> BandType {
    if v == 0 {
        BandType::Bell
    } else if v == 1 {
        BandType::LowShelf
    } else if v == 2 {
        BandType::HighShelf
    } else if v == 3 {
        BandType::Notch
    } else {
        BandType::Allpass
    }
}

impl BandType {
    pub fn from_u32(v: u32) -> (r: Self)
        ensures
            r == band_type_of_code(v),
    {
        match v {
            0 => Self::Bell,
            1 => Self::LowShelf,
            2 => Self::HighShelf,
            3 => Self::Notch,
            _ => Self::Allpass,
        }
    }
}

/// The spectra of the noise generator.
#[derive(PartialEq, Eq, Structural, Debug, Clone, Copy)]
pub enum NoiseColor {
    White,
    Pink,
    Brown,
}

/// The integer code of each color.
pub open spec fn color_code(c: NoiseColor) -> i32 {
    match c {
        NoiseColor::White => 0,
        NoiseColor::Pink => 1,
        NoiseColor::Brown => 2,
    }
}

impl NoiseColor {
    pub const MIN_I32: i32 = 0;
    pub const MAX_I32: i32 = 2;
    pub const DEFAULT_I32: i32 = 0;

    /// The color whose code is `val`, or `Err(())` for a code outside 0 to 2.
    pub fn from_i32(val: i32) -> (r: Result<Self, ()>)
        ensures
            (0 <= val <= 2) <==> r is Ok,
            r is Ok ==> color_code(r->Ok_0) == val,
    {
        match val {
            0 => Ok(NoiseColor::White),
            1 => Ok(NoiseColor::Pink),
            2 => Ok(NoiseColor::Brown),
            _ => Err(()),
        }
    }

    pub fn as_i32(&self) -> (r: i32)
        ensures
            r == color_code(*self),
    {
        match self {
            NoiseColor::White => 0,
            NoiseColor::Pink => 1,
            NoiseColor::Brown => 2,
        }
    }
}

/// Why a coefficient set could not be derived from its parameters.
#[derive(PartialEq, Eq, Structural, Debug, Clone, Copy)]
pub enum Errors {
    /// The cutoff lies above half the sample rate.
    OutsideNyquist,
    /// The quality factor is zero or negative.
    NonPositiveQ,
    /// The cutoff is zero or negative.
    NonPositiveFrequency,
}

/// The response shape of one second-order section; the shelving and peaking
/// shapes carry a gain of type `G`.
#[derive(PartialEq, Eq, Structural, Debug, Clone, Copy)]
pub enum Type<G> {
    LowPass,
    HighPass,
    BandPass,
    Notch,
    AllPass,
    LowShelf(G),
    HighShelf(G),
    PeakingEQ(G),
}

} // verus!
