//! Physical parameters of main-sequence stars, derived from stellar mass by
//! closed-form empirical approximations.
//!
//! The verified core holds the unit-typed quantity wrappers, the spectral
//! classifier with its boundary and sub-division tables, and the palette of
//! representative colors, together with the snapshot type that gathers one
//! calculation's results. The floating-point power laws that produce the
//! magnitudes live with the caller; every rule about classification,
//! boundaries, bands, colors and assembly is stated and proved here.

use vstd::prelude::*;

pub mod units;

verus! {

use crate::units::ColorRgb;
use crate::units::Kelvin;
use crate::units::SolarDensity;
use crate::units::SolarLuminosity;
use crate::units::SolarMass;
use crate::units::SolarRadius;
use crate::units::SpectralClass;

/// A spectral class refined by a continuous sub-division.
///
/// The sub-division is a linear remap of the temperature within the class's
/// band: 10 at the band's cold edge, falling to 0 at its hot edge, and not
/// clamped, so it can leave the nominal [0, 10) range near band boundaries.
/// Its scalar type is a parameter so that the classification logic can be
/// verified independently of the caller's number type.
#[derive(Clone)]
pub struct MainSequenceStellarClass<T> {
    /// One of the seven spectral classes.
    pub spectral_class: SpectralClass,
    /// Sub-division within the class: lower is hotter, higher is cooler.
    pub subdivision: T,
}

impl<T> MainSequenceStellarClass<T> {
    /// Pairs a spectral class with its sub-division value, exactly as given.
    pub fn new(spectral_class: SpectralClass, subdivision: T) -> (class: Self)
        ensures
            class.spectral_class == spectral_class,
            class.subdivision == subdivision,
    {
        MainSequenceStellarClass { spectral_class, subdivision }
    }

    /// The representative color of the star, looked up from the spectral
    /// class in a fixed palette — one entry per class, no interpolation.
    pub fn color(&self) -> (color: ColorRgb)
        ensures
            color.spec_r() == self.spectral_class.spec_palette().0,
            color.spec_g() == self.spectral_class.spec_palette().1,
            color.spec_b() == self.spectral_class.spec_palette().2,
    {
        match self.spectral_class {
            SpectralClass::M => ColorRgb::new(255, 204, 111),
            SpectralClass::K => ColorRgb::new(255, 210, 161),
            SpectralClass::G => ColorRgb::new(255, 244, 234),
            SpectralClass::F => ColorRgb::new(248, 247, 255),
            SpectralClass::A => ColorRgb::new(202, 215, 255),
            SpectralClass::B => ColorRgb::new(170, 191, 255),
            SpectralClass::O => ColorRgb::new(155, 176, 255),
        }
    }
}

/// One immutable snapshot of all quantities derived from a stellar mass.
///
/// A snapshot is fully determined by the input mass (an age parameter is
/// accepted by the calculation but currently inert); it owns its
/// constituent quantities and is never mutated after construction.
#[derive(Clone)]
pub struct MainSequenceStar<T> {
    /// Spectral class and sub-division, classified from the temperature.
    pub class: MainSequenceStellarClass<T>,
    /// The input mass, in solar masses.
    pub mass: SolarMass<T>,
    /// Maximum lifetime on the main sequence, in gigayears.
    pub max_age_gigayears: T,
    /// Radius, in solar radii.
    pub radius: SolarRadius<T>,
    /// Luminosity, in solar luminosities.
    pub luminosity: SolarLuminosity<T>,
    /// Mean density, in solar-density units.
    pub density: SolarDensity<T>,
    /// Effective surface temperature, in kelvin.
    pub temperature: Kelvin<T>,
    /// Representative color, looked up from the spectral class.
    pub color: ColorRgb,
}

impl<T> MainSequenceStar<T> {
    /// Gathers the results of one calculation into a snapshot, keeping each
    /// quantity exactly as derived; the representative color is looked up
    /// from the spectral class, so it always matches the classification.
    pub fn assemble(
        class: MainSequenceStellarClass<T>,
        mass: SolarMass<T>,
        max_age_gigayears: T,
        radius: SolarRadius<T>,
        luminosity: SolarLuminosity<T>,
        density: SolarDensity<T>,
        temperature: Kelvin<T>,
    ) -> (star: Self)
        ensures
            star.class == class,
            star.mass == mass,
            star.max_age_gigayears == max_age_gigayears,
            star.radius == radius,
            star.luminosity == luminosity,
            star.density == density,
            star.temperature == temperature,
            star.color.spec_r() == class.spectral_class.spec_palette().0,
            star.color.spec_g() == class.spectral_class.spec_palette().1,
            star.color.spec_b() == class.spectral_class.spec_palette().2,
    {
        let color = class.color();
        MainSequenceStar { class, mass, max_age_gigayears, radius, luminosity, density, temperature, color }
    }
}

} // verus!
