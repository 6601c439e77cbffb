//! Unit-typed physical quantities, the spectral classifier, and colors.

use vstd::prelude::*;

verus! {

/// Shared behaviour of the physical quantity types: each kind of quantity
/// carries a fixed display symbol and a fixed human-readable name.
pub trait Unit {
    /// The display symbol, as a sequence of characters.
    spec fn spec_symbol() -> Seq<char>;

    /// The human-readable name, as a sequence of characters.
    spec fn spec_name() -> Seq<char>;

    /// The display symbol of this kind of quantity, e.g. `"K"` for kelvin.
    fn symbol() -> (s: &'static str)
        ensures
            s@ == Self::spec_symbol(),
    ;

    /// The human-readable name of this kind of quantity, e.g. `"kelvin"`.
    fn name() -> (s: &'static str)
        ensures
            s@ == Self::spec_name(),
    ;
}

/// Stellar mass in solar masses (M☉ = 1.98847 * 10^30 kg; the Sun is 1).
///
/// The magnitude type is a parameter so that the wrapper logic can be
/// verified for any scalar; callers instantiate it with their number type.
#[derive(Clone, Copy)]
pub struct SolarMass<T>(T);

impl<T> SolarMass<T> {
    /// The raw magnitude held by the wrapper, as a mathematical value.
    pub closed spec fn spec_magnitude(self) -> T {
        self.0
    }

    /// Wraps a raw magnitude, exactly as given.
    pub fn new(mass: T) -> (s: Self)
        ensures
            s.spec_magnitude() == mass,
    {
        SolarMass(mass)
    }

    /// Converts back to the raw magnitude, exactly as it was wrapped.
    pub fn magnitude(self) -> (m: T)
        ensures
            m == self.spec_magnitude(),
    {
        self.0
    }
}

impl<T> Unit for SolarMass<T> {
    open spec fn spec_symbol() -> Seq<char> {
        "M☉"@
    }

    open spec fn spec_name() -> Seq<char> {
        "solar mass"@
    }

    fn symbol() -> (s: &'static str) {
        "M☉"
    }

    fn name() -> (s: &'static str) {
        "solar mass"
    }
}

/// Stellar radius in solar radii (the Sun is 1).
#[derive(Clone, Copy)]
pub struct SolarRadius<T>(T);

impl<T> SolarRadius<T> {
    /// The raw magnitude held by the wrapper, as a mathematical value.
    pub closed spec fn spec_magnitude(self) -> T {
        self.0
    }

    /// Wraps a raw magnitude, exactly as given.
    pub fn new(radius: T) -> (s: Self)
        ensures
            s.spec_magnitude() == radius,
    {
        SolarRadius(radius)
    }

    /// Converts back to the raw magnitude, exactly as it was wrapped.
    pub fn magnitude(self) -> (m: T)
        ensures
            m == self.spec_magnitude(),
    {
        self.0
    }
}

impl<T> Unit for SolarRadius<T> {
    open spec fn spec_symbol() -> Seq<char> {
        "R☉"@
    }

    open spec fn spec_name() -> Seq<char> {
        "solar radius"@
    }

    fn symbol() -> (s: &'static str) {
        "R☉"
    }

    fn name() -> (s: &'static str) {
        "solar radius"
    }
}

/// Stellar luminosity in solar luminosities (the Sun is 1).
///
/// Luminosity additionally supports ordered comparison of magnitudes, which
/// display code uses to pick a precision threshold; the derived comparison
/// delegates to the magnitude type and carries no verified contract.
#[derive(Clone, Copy, PartialEq, PartialOrd)]
pub struct SolarLuminosity<T>(T);

impl<T> SolarLuminosity<T> {
    /// The raw magnitude held by the wrapper, as a mathematical value.
    pub closed spec fn spec_magnitude(self) -> T {
        self.0
    }

    /// Wraps a raw magnitude, exactly as given.
    pub fn new(luminosity: T) -> (s: Self)
        ensures
            s.spec_magnitude() == luminosity,
    {
        SolarLuminosity(luminosity)
    }

    /// Converts back to the raw magnitude, exactly as it was wrapped.
    pub fn magnitude(self) -> (m: T)
        ensures
            m == self.spec_magnitude(),
    {
        self.0
    }
}

impl<T> Unit for SolarLuminosity<T> {
    open spec fn spec_symbol() -> Seq<char> {
        "L☉"@
    }

    open spec fn spec_name() -> Seq<char> {
        "solar luminosity"@
    }

    fn symbol() -> (s: &'static str) {
        "L☉"
    }

    fn name() -> (s: &'static str) {
        "solar luminosity"
    }
}

/// Mean stellar density in solar-density units (the Sun is 1).
#[derive(Clone, Copy)]
pub struct SolarDensity<T>(T);

impl<T> SolarDensity<T> {
    /// The raw magnitude held by the wrapper, as a mathematical value.
    pub closed spec fn spec_magnitude(self) -> T {
        self.0
    }

    /// Wraps a raw magnitude, exactly as given.
    pub fn new(density: T) -> (s: Self)
        ensures
            s.spec_magnitude() == density,
    {
        SolarDensity(density)
    }

    /// Converts back to the raw magnitude, exactly as it was wrapped.
    pub fn magnitude(self) -> (m: T)
        ensures
            m == self.spec_magnitude(),
    {
        self.0
    }
}

impl<T> Unit for SolarDensity<T> {
    open spec fn spec_symbol() -> Seq<char> {
        "D☉"@
    }

    open spec fn spec_name() -> Seq<char> {
        "solar density"@
    }

    fn symbol() -> (s: &'static str) {
        "D☉"
    }

    fn name() -> (s: &'static str) {
        "solar density"
    }
}

/// Effective surface temperature in kelvin.
#[derive(Clone, Copy)]
pub struct Kelvin<T>(T);

impl<T> Kelvin<T> {
    /// The raw magnitude held by the wrapper, as a mathematical value.
    pub closed spec fn spec_magnitude(self) -> T {
        self.0
    }

    /// Wraps a raw magnitude, exactly as given.
    pub fn new(temperature: T) -> (s: Self)
        ensures
            s.spec_magnitude() == temperature,
    {
        Kelvin(temperature)
    }

    /// Converts back to the raw magnitude, exactly as it was wrapped.
    pub fn magnitude(self) -> (m: T)
        ensures
            m == self.spec_magnitude(),
    {
        self.0
    }
}

impl<T> Unit for Kelvin<T> {
    open spec fn spec_symbol() -> Seq<char> {
        "K"@
    }

    open spec fn spec_name() -> Seq<char> {
        "kelvin"@
    }

    fn symbol() -> (s: &'static str) {
        "K"
    }

    fn name() -> (s: &'static str) {
        "kelvin"
    }
}

/// Highest temperature, in kelvin, that classifies as M class.
pub const M_CLASS_MAX_KELVIN: u32 = 3700;

/// Highest temperature, in kelvin, that classifies as K class.
pub const K_CLASS_MAX_KELVIN: u32 = 5200;

/// Highest temperature, in kelvin, that classifies as G class.
pub const G_CLASS_MAX_KELVIN: u32 = 6000;

/// Highest temperature, in kelvin, that classifies as F class.
pub const F_CLASS_MAX_KELVIN: u32 = 7500;

/// Highest temperature, in kelvin, that classifies as A class.
pub const A_CLASS_MAX_KELVIN: u32 = 10000;

/// Highest temperature, in kelvin, that classifies as B class; anything
/// hotter is O class.
pub const B_CLASS_MAX_KELVIN: u32 = 30000;

/// Temperature, in kelvin, at which the M-class sub-division band is
/// anchored. Temperatures below it still classify as M (the classifier has
/// no lower bound), so their sub-division values run past the nominal band.
pub const M_SUBDIVISION_LOWER_KELVIN: u32 = 2000;

/// One of the seven spectral classes of the main sequence, ordered hottest
/// (O) to coolest (M).
#[derive(Clone, Debug, PartialEq, Eq, Structural)]
pub enum SpectralClass {
    O,
    B,
    A,
    F,
    G,
    K,
    M,
}

impl SpectralClass {
    /// The class a whole-kelvin temperature falls in: the boundary table has
    /// non-overlapping bands with inclusive upper bounds, so exactly one
    /// class holds each temperature.
    pub open spec fn spec_calculate(kelvin: u32) -> SpectralClass {
        if kelvin <= M_CLASS_MAX_KELVIN {
            SpectralClass::M
        } else if kelvin <= K_CLASS_MAX_KELVIN {
            SpectralClass::K
        } else if kelvin <= G_CLASS_MAX_KELVIN {
            SpectralClass::G
        } else if kelvin <= F_CLASS_MAX_KELVIN {
            SpectralClass::F
        } else if kelvin <= A_CLASS_MAX_KELVIN {
            SpectralClass::A
        } else if kelvin <= B_CLASS_MAX_KELVIN {
            SpectralClass::B
        } else {
            SpectralClass::O
        }
    }

    /// Classifies a surface temperature against the boundary table.
    ///
    /// The table has no lower bound: everything at or below the M-class
    /// upper bound classifies as M, including temperatures below 2400 K
    /// where real M dwarfs are not well defined — an accepted
    /// domain-boundary approximation. Callers holding a fractional or
    /// non-finite temperature are expected to saturate it into a whole
    /// kelvin count first, so that an undefined physical result lands
    /// deterministically in the coolest class.
    pub fn calculate(temperature: Kelvin<u32>) -> (class: Self)
        ensures
            class == SpectralClass::spec_calculate(temperature.spec_magnitude()),
    {
        let kelvin = temperature.magnitude();
        if kelvin <= M_CLASS_MAX_KELVIN {
            SpectralClass::M
        } else if kelvin <= K_CLASS_MAX_KELVIN {
            SpectralClass::K
        } else if kelvin <= G_CLASS_MAX_KELVIN {
            SpectralClass::G
        } else if kelvin <= F_CLASS_MAX_KELVIN {
            SpectralClass::F
        } else if kelvin <= A_CLASS_MAX_KELVIN {
            SpectralClass::A
        } else if kelvin <= B_CLASS_MAX_KELVIN {
            SpectralClass::B
        } else {
            SpectralClass::O
        }
    }

    /// The class letter, as a sequence of characters.
    pub open spec fn spec_letter(self) -> Seq<char> {
        match self {
            SpectralClass::O => "O"@,
            SpectralClass::B => "B"@,
            SpectralClass::A => "A"@,
            SpectralClass::F => "F"@,
            SpectralClass::G => "G"@,
            SpectralClass::K => "K"@,
            SpectralClass::M => "M"@,
        }
    }

    /// The letter naming this class, for display.
    pub fn letter(&self) -> (s: &'static str)
        ensures
            s@ == self.spec_letter(),
    {
        match self {
            SpectralClass::O => "O",
            SpectralClass::B => "B",
            SpectralClass::A => "A",
            SpectralClass::F => "F",
            SpectralClass::G => "G",
            SpectralClass::K => "K",
            SpectralClass::M => "M",
        }
    }

    /// The cold edge, in kelvin, of the class's sub-division band: the
    /// temperature at which the sub-division value is exactly 10.
    pub open spec fn spec_band_lower(self) -> u32 {
        match self {
            SpectralClass::O => B_CLASS_MAX_KELVIN,
            SpectralClass::B => A_CLASS_MAX_KELVIN,
            SpectralClass::A => F_CLASS_MAX_KELVIN,
            SpectralClass::F => G_CLASS_MAX_KELVIN,
            SpectralClass::G => K_CLASS_MAX_KELVIN,
            SpectralClass::K => M_CLASS_MAX_KELVIN,
            SpectralClass::M => M_SUBDIVISION_LOWER_KELVIN,
        }
    }

    /// The width, in kelvin, of the class's sub-division band: the
    /// temperature span over which the sub-division value falls linearly
    /// from 10 to 0.
    pub open spec fn spec_band_width(self) -> u32 {
        match self {
            SpectralClass::O => 62000,
            SpectralClass::B => 20000,
            SpectralClass::A => 2500,
            SpectralClass::F => 1500,
            SpectralClass::G => 800,
            SpectralClass::K => 1500,
            SpectralClass::M => 1700,
        }
    }

    /// The cold edge of this class's sub-division band, in kelvin.
    pub fn band_lower_kelvin(&self) -> (lower: u32)
        ensures
            lower == self.spec_band_lower(),
    {
        match self {
            SpectralClass::O => B_CLASS_MAX_KELVIN,
            SpectralClass::B => A_CLASS_MAX_KELVIN,
            SpectralClass::A => F_CLASS_MAX_KELVIN,
            SpectralClass::F => G_CLASS_MAX_KELVIN,
            SpectralClass::G => K_CLASS_MAX_KELVIN,
            SpectralClass::K => M_CLASS_MAX_KELVIN,
            SpectralClass::M => M_SUBDIVISION_LOWER_KELVIN,
        }
    }

    /// The width of this class's sub-division band, in kelvin.
    pub fn band_width_kelvin(&self) -> (width: u32)
        ensures
            width == self.spec_band_width(),
    {
        match self {
            SpectralClass::O => 62000,
            SpectralClass::B => 20000,
            SpectralClass::A => 2500,
            SpectralClass::F => 1500,
            SpectralClass::G => 800,
            SpectralClass::K => 1500,
            SpectralClass::M => 1700,
        }
    }

    /// The fixed palette entry for the class, as (red, green, blue)
    /// channels — a representative color, not what the eye would see.
    pub open spec fn spec_palette(self) -> (u8, u8, u8) {
        match self {
            SpectralClass::M => (255u8, 204u8, 111u8),
            SpectralClass::K => (255u8, 210u8, 161u8),
            SpectralClass::G => (255u8, 244u8, 234u8),
            SpectralClass::F => (248u8, 247u8, 255u8),
            SpectralClass::A => (202u8, 215u8, 255u8),
            SpectralClass::B => (170u8, 191u8, 255u8),
            SpectralClass::O => (155u8, 176u8, 255u8),
        }
    }

    /// Position of the class on the temperature scale: 0 for the coolest
    /// class (M) up to 6 for the hottest (O).
    pub open spec fn spec_hotness(self) -> int {
        match self {
            SpectralClass::M => 0,
            SpectralClass::K => 1,
            SpectralClass::G => 2,
            SpectralClass::F => 3,
            SpectralClass::A => 4,
            SpectralClass::B => 5,
            SpectralClass::O => 6,
        }
    }
}

/// The classes are ordered by temperature: a hotter temperature never
/// classifies into a cooler class.
pub proof fn lemma_classification_monotone(kelvin1: u32, kelvin2: u32)
    requires
        kelvin1 <= kelvin2,
    ensures
        SpectralClass::spec_calculate(kelvin1).spec_hotness() <= SpectralClass::spec_calculate(
            kelvin2,
        ).spec_hotness(),
{
}

/// The sub-division bands align with the classifier's boundary table. The
/// hot edge of every band below O — cold edge plus width, where the
/// sub-division reaches 0 — is the class's own inclusive upper bound, so
/// it still classifies as the class itself. The cold edge of every band
/// above M — where the sub-division reaches 10 — is the upper bound of the
/// next cooler class. M is the one exception: its band is anchored at
/// 2000 K although the classifier puts every colder temperature in M as
/// well, so sub-division values there run beyond the nominal band — a
/// documented mismatch between the two empirical tables.
pub proof fn lemma_subdivision_bands_align(class: SpectralClass)
    ensures
        class != SpectralClass::O ==> SpectralClass::spec_calculate(
            (class.spec_band_lower() + class.spec_band_width()) as u32,
        ) == class,
        class != SpectralClass::M ==> SpectralClass::spec_calculate(
            class.spec_band_lower(),
        ).spec_hotness() == class.spec_hotness() - 1,
{
}

/// A representative color for a star, as one 8-bit value per RGB channel.
#[derive(Clone)]
pub struct ColorRgb(u8, u8, u8);

impl ColorRgb {
    /// The red channel, as a mathematical value.
    pub closed spec fn spec_r(self) -> u8 {
        self.0
    }

    /// The green channel, as a mathematical value.
    pub closed spec fn spec_g(self) -> u8 {
        self.1
    }

    /// The blue channel, as a mathematical value.
    pub closed spec fn spec_b(self) -> u8 {
        self.2
    }

    pub fn new(r: u8, g: u8, b: u8) -> (color: Self)
        ensures
            color.spec_r() == r,
            color.spec_g() == g,
            color.spec_b() == b,
    {
        ColorRgb(r, g, b)
    }

    pub fn r(&self) -> (r: u8)
        ensures
            r == self.spec_r(),
    {
        self.0
    }

    pub fn g(&self) -> (g: u8)
        ensures
            g == self.spec_g(),
    {
        self.1
    }

    pub fn b(&self) -> (b: u8)
        ensures
            b == self.spec_b(),
    {
        self.2
    }
}

} // verus!
