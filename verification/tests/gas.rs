use cobalt::gas::{GasComposition, PPM_WHOLE};

fn zero_composition() -> GasComposition {
    GasComposition {
        methane: 0,
        nitrogen: 0,
        carbon_dioxide: 0,
        ethane: 0,
        propane: 0,
        isobutane: 0,
        n_butane: 0,
        isopentane: 0,
        n_pentane: 0,
        hexane: 0,
        heptane: 0,
        octane: 0,
        nonane: 0,
        decane: 0,
        hydrogen: 0,
        oxygen: 0,
        carbon_monoxide: 0,
        water: 0,
        hydrogen_sulfide: 0,
        helium: 0,
        argon: 0,
    }
}

#[test]
fn bridge_default_is_normalized() {
    let c = GasComposition::bridge_default();
    assert!(c.is_normalized());
    assert_eq!(c.total(), PPM_WHOLE);
    assert_eq!(c.methane, 790_000);
    assert_eq!(c.nitrogen, 40_000);
    assert_eq!(c.carbon_dioxide, 40_000);
    assert_eq!(c.propane, 130_000);
    assert_eq!(c.ethane, 0);
    assert_eq!(c.argon, 0);
}

#[test]
fn total_adds_all_fractions() {
    let mut c = zero_composition();
    c.methane = 500_000;
    c.ethane = 250_000;
    c.argon = 125_000;
    assert_eq!(c.total(), 875_000);
    assert!(!c.is_normalized());
}

#[test]
fn unnormalized_composition_is_rejected() {
    let mut c = GasComposition::bridge_default();
    c.propane = 130_001;
    assert!(!c.is_normalized());
    let empty = zero_composition();
    assert!(!empty.is_normalized());
}
