use worldsmith_lib::units::Kelvin;
use worldsmith_lib::units::SolarDensity;
use worldsmith_lib::units::SolarLuminosity;
use worldsmith_lib::units::SolarMass;
use worldsmith_lib::units::SolarRadius;
use worldsmith_lib::units::SpectralClass;
use worldsmith_lib::units::A_CLASS_MAX_KELVIN;
use worldsmith_lib::units::B_CLASS_MAX_KELVIN;
use worldsmith_lib::units::F_CLASS_MAX_KELVIN;
use worldsmith_lib::units::G_CLASS_MAX_KELVIN;
use worldsmith_lib::units::K_CLASS_MAX_KELVIN;
use worldsmith_lib::units::M_CLASS_MAX_KELVIN;
use worldsmith_lib::units::M_SUBDIVISION_LOWER_KELVIN;
use worldsmith_lib::MainSequenceStar;
use worldsmith_lib::MainSequenceStellarClass;

fn classify(kelvin: u32) -> SpectralClass {
    SpectralClass::calculate(Kelvin::new(kelvin))
}

#[test]
fn classification_boundaries_are_inclusive_upper_bounds() {
    assert_eq!(classify(3700), SpectralClass::M);
    assert_eq!(classify(3701), SpectralClass::K);
    assert_eq!(classify(5200), SpectralClass::K);
    assert_eq!(classify(5201), SpectralClass::G);
    assert_eq!(classify(6000), SpectralClass::G);
    assert_eq!(classify(6001), SpectralClass::F);
    assert_eq!(classify(7500), SpectralClass::F);
    assert_eq!(classify(7501), SpectralClass::A);
    assert_eq!(classify(10000), SpectralClass::A);
    assert_eq!(classify(10001), SpectralClass::B);
    assert_eq!(classify(30000), SpectralClass::B);
    assert_eq!(classify(30001), SpectralClass::O);
}

#[test]
fn cold_temperatures_classify_as_m() {
    // Objects below 2400 K are not real M dwarfs, but the table has no
    // lower bound: they classify as M all the same.
    assert_eq!(classify(0), SpectralClass::M);
    assert_eq!(classify(2400), SpectralClass::M);
}

#[test]
fn extreme_heat_classifies_as_o() {
    assert_eq!(classify(u32::MAX), SpectralClass::O);
}

#[test]
fn sun_temperature_classifies_as_g() {
    assert_eq!(classify(5776), SpectralClass::G);
}

#[test]
fn classification_is_reproducible() {
    // No hidden state: repeated calls with the same input agree.
    for kelvin in [0u32, 2400, 3700, 5200, 5776, 30001, u32::MAX] {
        assert_eq!(classify(kelvin), classify(kelvin));
    }
}

#[test]
fn class_letters() {
    assert_eq!(SpectralClass::O.letter(), "O");
    assert_eq!(SpectralClass::B.letter(), "B");
    assert_eq!(SpectralClass::A.letter(), "A");
    assert_eq!(SpectralClass::F.letter(), "F");
    assert_eq!(SpectralClass::G.letter(), "G");
    assert_eq!(SpectralClass::K.letter(), "K");
    assert_eq!(SpectralClass::M.letter(), "M");
}

#[test]
fn classification_constants() {
    assert_eq!(M_CLASS_MAX_KELVIN, 3700);
    assert_eq!(K_CLASS_MAX_KELVIN, 5200);
    assert_eq!(G_CLASS_MAX_KELVIN, 6000);
    assert_eq!(F_CLASS_MAX_KELVIN, 7500);
    assert_eq!(A_CLASS_MAX_KELVIN, 10000);
    assert_eq!(B_CLASS_MAX_KELVIN, 30000);
    assert_eq!(M_SUBDIVISION_LOWER_KELVIN, 2000);
}

#[test]
fn subdivision_band_table() {
    assert_eq!(SpectralClass::M.band_lower_kelvin(), 2000);
    assert_eq!(SpectralClass::M.band_width_kelvin(), 1700);
    assert_eq!(SpectralClass::K.band_lower_kelvin(), 3700);
    assert_eq!(SpectralClass::K.band_width_kelvin(), 1500);
    assert_eq!(SpectralClass::G.band_lower_kelvin(), 5200);
    assert_eq!(SpectralClass::G.band_width_kelvin(), 800);
    assert_eq!(SpectralClass::F.band_lower_kelvin(), 6000);
    assert_eq!(SpectralClass::F.band_width_kelvin(), 1500);
    assert_eq!(SpectralClass::A.band_lower_kelvin(), 7500);
    assert_eq!(SpectralClass::A.band_width_kelvin(), 2500);
    assert_eq!(SpectralClass::B.band_lower_kelvin(), 10000);
    assert_eq!(SpectralClass::B.band_width_kelvin(), 20000);
    assert_eq!(SpectralClass::O.band_lower_kelvin(), 30000);
    assert_eq!(SpectralClass::O.band_width_kelvin(), 62000);
}

#[test]
fn subdivision_bands_meet_class_boundaries() {
    // The hot edge of each band below O is the class's own upper bound.
    assert_eq!(classify(2000 + 1700), SpectralClass::M);
    assert_eq!(classify(3700 + 1500), SpectralClass::K);
    assert_eq!(classify(5200 + 800), SpectralClass::G);
    assert_eq!(classify(6000 + 1500), SpectralClass::F);
    assert_eq!(classify(7500 + 2500), SpectralClass::A);
    assert_eq!(classify(10000 + 20000), SpectralClass::B);
}

#[test]
fn palette_has_one_fixed_entry_per_class() {
    let cases = vec![
        (SpectralClass::M, (255u8, 204u8, 111u8)),
        (SpectralClass::K, (255u8, 210u8, 161u8)),
        (SpectralClass::G, (255u8, 244u8, 234u8)),
        (SpectralClass::F, (248u8, 247u8, 255u8)),
        (SpectralClass::A, (202u8, 215u8, 255u8)),
        (SpectralClass::B, (170u8, 191u8, 255u8)),
        (SpectralClass::O, (155u8, 176u8, 255u8)),
    ];
    for (spectral_class, (r, g, b)) in cases {
        let class = MainSequenceStellarClass::new(spectral_class, 0.0f32);
        let color = class.color();
        assert_eq!(color.r(), r);
        assert_eq!(color.g(), g);
        assert_eq!(color.b(), b);
    }
}

#[test]
fn stellar_class_keeps_its_parts() {
    let class = MainSequenceStellarClass::new(SpectralClass::G, 2.3f32);
    assert_eq!(class.spectral_class, SpectralClass::G);
    assert_eq!(class.subdivision, 2.3f32);
}

#[test]
fn assembled_snapshot_keeps_quantities_and_colors_by_class() {
    // A sun-like snapshot: every quantity 1 in solar units, 5776 K, G class.
    let class = MainSequenceStellarClass::new(SpectralClass::G, 2.8f32);
    let star = MainSequenceStar::assemble(
        class,
        SolarMass::new(1.0f32),
        10.0f32,
        SolarRadius::new(1.0f32),
        SolarLuminosity::new(1.0f32),
        SolarDensity::new(1.0f32),
        Kelvin::new(5776.0f32),
    );
    assert_eq!(star.class.spectral_class, SpectralClass::G);
    assert_eq!(star.class.subdivision, 2.8f32);
    assert_eq!(star.mass.magnitude(), 1.0f32);
    assert_eq!(star.max_age_gigayears, 10.0f32);
    assert_eq!(star.radius.magnitude(), 1.0f32);
    assert_eq!(star.luminosity.magnitude(), 1.0f32);
    assert_eq!(star.density.magnitude(), 1.0f32);
    assert_eq!(star.temperature.magnitude(), 5776.0f32);
    // The color is not free: it is the G-class palette entry.
    assert_eq!(star.color.r(), 255);
    assert_eq!(star.color.g(), 244);
    assert_eq!(star.color.b(), 234);
}
