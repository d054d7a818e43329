use astronomy::{
    CelestialKind, PlanetType, Rgba, StarType, Temperature, TextureSlot, UnknownPlanetType, FULL,
};

fn rgba(red: u16, green: u16, blue: u16, alpha: u16) -> Rgba {
    Rgba { red, green, blue, alpha }
}

#[test]
fn planet_type_parses_known_names() {
    assert_eq!(PlanetType::from("terrestrial"), Ok(PlanetType::Terrestrial));
    assert_eq!(PlanetType::from("gasgiant"), Ok(PlanetType::GasGiant));
    assert_eq!(PlanetType::from("satellite"), Ok(PlanetType::Satellite));
}

#[test]
fn planet_type_ignores_case_and_spaces() {
    assert_eq!(PlanetType::from("Gas Giant"), Ok(PlanetType::GasGiant));
    assert_eq!(PlanetType::from("TERRESTRIAL"), Ok(PlanetType::Terrestrial));
    assert_eq!(PlanetType::from(" Sat ellite "), Ok(PlanetType::Satellite));
}

#[test]
fn planet_type_rejects_unknown_names() {
    assert_eq!(PlanetType::from("moon"), Err(UnknownPlanetType));
    assert_eq!(PlanetType::from(""), Err(UnknownPlanetType));
    assert_eq!(PlanetType::from("gas-giant"), Err(UnknownPlanetType));
}

#[test]
fn planet_type_from_lowercase_does_not_fold_case() {
    assert_eq!(PlanetType::from_lowercase("gas giant"), Ok(PlanetType::GasGiant));
    assert_eq!(PlanetType::from_lowercase("Gas Giant"), Err(UnknownPlanetType));
}

#[test]
fn planet_type_names() {
    assert_eq!(PlanetType::Terrestrial.to_string(), "Terrestrial");
    assert_eq!(PlanetType::GasGiant.to_string(), "Gas Giant");
    assert_eq!(PlanetType::Satellite.to_string(), "Satellite");
}

#[test]
fn planet_colors() {
    let grey = rgba(200, 200, 200, FULL);
    assert_eq!(PlanetType::Terrestrial.color(), grey);
    assert_eq!(PlanetType::Satellite.color(), grey);
    assert_eq!(PlanetType::GasGiant.color(), rgba(500, 500, 800, 1000));
}

#[test]
fn star_color_buckets() {
    let k = |t: i64| Temperature::Kelvin(t).star_color();
    let deep_red = rgba(471, 35, 20, 1000);
    let yellow = rgba(1000, 804, 0, 1000);
    let white = rgba(1000, 1000, 1000, 1000);
    let cyan = rgba(0, 1000, 1000, 1000);
    let violet = rgba(350, 200, 350, 1000);
    assert_eq!(k(i64::MIN), deep_red);
    assert_eq!(k(0), deep_red);
    assert_eq!(k(3499), deep_red);
    assert_eq!(k(3500), yellow);
    assert_eq!(k(5778), yellow);
    assert_eq!(k(5999), yellow);
    assert_eq!(k(6000), white);
    assert_eq!(k(9999), white);
    assert_eq!(k(10000), cyan);
    assert_eq!(k(24999), cyan);
    assert_eq!(k(25000), violet);
    assert_eq!(k(i64::MAX), violet);
    assert_eq!(Temperature::Undefined.star_color(), rgba(1000, 0, 0, 1000));
}

#[test]
fn spectral_type_buckets() {
    let k = |t: i64| Temperature::Kelvin(t).star_type();
    assert_eq!(k(-5), StarType::M);
    assert_eq!(k(3699), StarType::M);
    assert_eq!(k(3700), StarType::K);
    assert_eq!(k(5199), StarType::K);
    assert_eq!(k(5200), StarType::G);
    assert_eq!(k(5778), StarType::G);
    assert_eq!(k(6000), StarType::F);
    assert_eq!(k(7499), StarType::F);
    assert_eq!(k(7500), StarType::A);
    assert_eq!(k(9999), StarType::A);
    assert_eq!(k(10000), StarType::B);
    assert_eq!(k(29999), StarType::B);
    assert_eq!(k(30000), StarType::O);
    assert_eq!(Temperature::Undefined.star_type(), StarType::M);
}

#[test]
fn stars_with_equal_temperature_classify_alike() {
    let a = CelestialKind::Star { temperature: Temperature::Kelvin(5778) };
    let b = CelestialKind::Star { temperature: Temperature::Kelvin(5778) };
    assert_eq!(a.get_color(), b.get_color());
    assert_eq!(a.star_type(), b.star_type());
    assert_eq!(a.star_type(), Some(StarType::G));
}

#[test]
fn celestial_kind_predicates() {
    let star = CelestialKind::Star { temperature: Temperature::Kelvin(40000) };
    let planet = CelestialKind::Planet { planet_type: PlanetType::GasGiant };
    assert!(star.is_star());
    assert!(!star.is_planet());
    assert!(planet.is_planet());
    assert!(!planet.is_star());
    assert_eq!(star.planet_type(), None);
    assert_eq!(planet.planet_type(), Some(PlanetType::GasGiant));
    assert_eq!(star.star_type(), Some(StarType::O));
    assert_eq!(planet.star_type(), None);
    assert_eq!(star.get_color(), rgba(350, 200, 350, 1000));
    assert_eq!(planet.get_color(), rgba(500, 500, 800, 1000));
}

#[test]
fn textures_by_kind_and_name() {
    let star = CelestialKind::Star { temperature: Temperature::Kelvin(5778) };
    let planet = CelestialKind::Planet { planet_type: PlanetType::Terrestrial };
    assert_eq!(star.texture("Earth"), TextureSlot::Star);
    assert_eq!(planet.texture("Earth"), TextureSlot::Earth);
    assert_eq!(planet.texture("EARTH"), TextureSlot::Earth);
    assert_eq!(planet.texture("Mars"), TextureSlot::Terrestrial);
    assert_eq!(planet.texture("Earth 2"), TextureSlot::Terrestrial);
    assert_eq!(planet.texture_lowercase("earth"), TextureSlot::Earth);
    assert_eq!(planet.texture_lowercase("Earth"), TextureSlot::Terrestrial);
}
