use vstd::prelude::*;
use crate::text::{lower_of, lowercase, same_text, spells, strip_spaces, without_spaces};

verus! {

/// The kind of a planet.
#[derive(Clone, Copy, Debug, PartialEq, Eq, Structural)]
pub enum PlanetType {
    Terrestrial,
    GasGiant,
    Satellite,
}

/// A planet-type name that names none of the known kinds.
#[derive(Clone, Copy, Debug, PartialEq, Eq, Structural)]
pub struct UnknownPlanetType;

/// The planet type that a lower-case name stands for once its spaces are
/// taken out, if any.
pub open spec fn planet_type_named(name: Seq<char>) -> Option<PlanetType> {
    if name == "terrestrial"@ {
        Some(PlanetType::Terrestrial)
    } else if name == "gasgiant"@ {
        Some(PlanetType::GasGiant)
    } else if name == "satellite"@ {
        Some(PlanetType::Satellite)
    } else {
        None
    }
}

/// The result of parsing `lowered`, a name already in lower case.
pub open spec fn parsed_planet_type(lowered: Seq<char>) -> Result<PlanetType, UnknownPlanetType> {
    match planet_type_named(without_spaces(lowered)) {
        Some(t) => Ok(t),
        None => Err(UnknownPlanetType),
    }
}

impl PlanetType {
    /// Parses a planet type from a name that is already in lower case,
    /// ignoring spaces: `"gas giant"` is a gas giant.
    pub fn from_lowercase(lowered: &str) -> (r: Result<PlanetType, UnknownPlanetType>)
        ensures
            r == parsed_planet_type(lowered@),
    {
        let word = strip_spaces(lowered);
        if spells(&word, "terrestrial") {
            Ok(PlanetType::Terrestrial)
        } else if spells(&word, "gasgiant") {
            Ok(PlanetType::GasGiant)
        } else if spells(&word, "satellite") {
            Ok(PlanetType::Satellite)
        } else {
            Err(UnknownPlanetType)
        }
    }

    /// Parses a planet type from its name, ignoring case and spaces.
    pub fn from(name: &str) -> (r: Result<PlanetType, UnknownPlanetType>)
        ensures
            r == parsed_planet_type(lower_of(name@)),
    {
        let lowered = lowercase(name);
        PlanetType::from_lowercase(lowered.as_str())
    }
}

/// A colour with red, green, blue and alpha channels, each in thousandths
/// of full intensity (`1000` is full).
#[derive(Clone, Copy, Debug, PartialEq, Eq, Structural)]
pub struct Rgba {
    pub red: u16,
    pub green: u16,
    pub blue: u16,
    pub alpha: u16,
}

/// Full intensity of a colour channel.
pub const FULL: u16 = 1000;

pub open spec fn rgba(red: u16, green: u16, blue: u16, alpha: u16) -> Rgba {
    Rgba { red, green, blue, alpha }
}

/// The colour drawn for a planet of type `t`: rocky bodies and satellites
/// share a dark grey, gas giants are pale blue.
pub open spec fn planet_color_of(t: PlanetType) -> Rgba {
    match t {
        PlanetType::GasGiant => rgba(500, 500, 800, 1000),
        _ => rgba(200, 200, 200, 1000),
    }
}

impl PlanetType {
    /// The display name of the planet type.
    pub fn to_string(&self) -> (r: &'static str)
        ensures
            r@ == (match *self {
                PlanetType::Terrestrial => "Terrestrial"@,
                PlanetType::GasGiant => "Gas Giant"@,
                PlanetType::Satellite => "Satellite"@,
            }),
    {
        match *self {
            PlanetType::Terrestrial => "Terrestrial",
            PlanetType::GasGiant => "Gas Giant",
            PlanetType::Satellite => "Satellite",
        }
    }

    /// The colour in which a planet of this type is drawn.
    pub fn color(&self) -> (r: Rgba)
        ensures
            r == planet_color_of(*self),
    {
        match *self {
            PlanetType::GasGiant => Rgba { red: 500, green: 500, blue: 800, alpha: FULL },
            _ => Rgba { red: 200, green: 200, blue: 200, alpha: FULL },
        }
    }
}

/// A surface temperature as the classification reads it.
///
/// `Kelvin(k)` holds a temperature `t` with `k <= t < k + 1`, that is `t`
/// rounded down to whole kelvins (and held at the bounds of `i64` beyond
/// them). Every bucket bound is a whole number of kelvins, so `t < b`
/// exactly when `k < b`. `Undefined` is a temperature that is not a
/// number, as the stellar formulas give for a degenerate mass or radius.
#[derive(Clone, Copy, Debug, PartialEq, Eq, Structural)]
pub enum Temperature {
    Kelvin(i64),
    Undefined,
}

/// The spectral class of a star.
#[derive(Clone, Copy, Debug, PartialEq, Eq, Structural)]
pub enum StarType {
    O,
    B,
    A,
    F,
    G,
    K,
    M,
}

/// The spectral class of a star with surface temperature `t`.
pub open spec fn star_type_of(t: Temperature) -> StarType {
    match t {
        Temperature::Kelvin(k) => {
            if k < 3700 {
                StarType::M
            } else if k < 5200 {
                StarType::K
            } else if k < 6000 {
                StarType::G
            } else if k < 7500 {
                StarType::F
            } else if k < 10000 {
                StarType::A
            } else if k < 30000 {
                StarType::B
            } else {
                StarType::O
            }
        },
        Temperature::Undefined => StarType::M,
    }
}

/// The colour of a star with surface temperature `t`: deep red, yellow,
/// white, cyan and violet from the coolest to the hottest, plain red for a
/// temperature that is not a number.
pub open spec fn star_color_of(t: Temperature) -> Rgba {
    match t {
        Temperature::Kelvin(k) => {
            if k < 3500 {
                rgba(471, 35, 20, 1000)
            } else if k < 6000 {
                rgba(1000, 804, 0, 1000)
            } else if k < 10000 {
                rgba(1000, 1000, 1000, 1000)
            } else if k < 25000 {
                rgba(0, 1000, 1000, 1000)
            } else {
                rgba(350, 200, 350, 1000)
            }
        },
        Temperature::Undefined => rgba(1000, 0, 0, 1000),
    }
}

impl Temperature {
    /// The spectral class of a star with this surface temperature.
    pub fn star_type(&self) -> (r: StarType)
        ensures
            r == star_type_of(*self),
    {
        match *self {
            Temperature::Kelvin(k) => {
                if k < 3700 {
                    StarType::M
                } else if k < 5200 {
                    StarType::K
                } else if k < 6000 {
                    StarType::G
                } else if k < 7500 {
                    StarType::F
                } else if k < 10000 {
                    StarType::A
                } else if k < 30000 {
                    StarType::B
                } else {
                    StarType::O
                }
            },
            Temperature::Undefined => StarType::M,
        }
    }

    /// The colour of a star with this surface temperature.
    pub fn star_color(&self) -> (r: Rgba)
        ensures
            r == star_color_of(*self),
    {
        match *self {
            Temperature::Kelvin(k) => {
                if k < 3500 {
                    Rgba { red: 471, green: 35, blue: 20, alpha: FULL }
                } else if k < 6000 {
                    Rgba { red: FULL, green: 804, blue: 0, alpha: FULL }
                } else if k < 10000 {
                    Rgba { red: FULL, green: FULL, blue: FULL, alpha: FULL }
                } else if k < 25000 {
                    Rgba { red: 0, green: FULL, blue: FULL, alpha: FULL }
                } else {
                    Rgba { red: 350, green: 200, blue: 350, alpha: FULL }
                }
            },
            Temperature::Undefined => Rgba { red: FULL, green: 0, blue: 0, alpha: FULL },
        }
    }
}

/// What sets one simulated body apart from another beyond its mechanics:
/// a star with the surface temperature fixed when it was made, or a
/// planet of some type.
#[derive(Clone, Copy, Debug, PartialEq, Eq, Structural)]
pub enum CelestialKind {
    Star { temperature: Temperature },
    Planet { planet_type: PlanetType },
}

/// The colour in which a body of kind `k` is drawn.
pub open spec fn kind_color_of(k: CelestialKind) -> Rgba {
    match k {
        CelestialKind::Star { temperature } => star_color_of(temperature),
        CelestialKind::Planet { planet_type } => planet_color_of(planet_type),
    }
}

impl CelestialKind {
    pub fn is_star(&self) -> (r: bool)
        ensures
            r == (*self is Star),
    {
        match *self {
            CelestialKind::Star { .. } => true,
            CelestialKind::Planet { .. } => false,
        }
    }

    pub fn is_planet(&self) -> (r: bool)
        ensures
            r == (*self is Planet),
    {
        match *self {
            CelestialKind::Star { .. } => false,
            CelestialKind::Planet { .. } => true,
        }
    }

    /// The planet's type; none for a star.
    pub fn planet_type(&self) -> (r: Option<PlanetType>)
        ensures
            r == (match *self {
                CelestialKind::Star { .. } => None,
                CelestialKind::Planet { planet_type } => Some(planet_type),
            }),
    {
        match *self {
            CelestialKind::Star { .. } => None,
            CelestialKind::Planet { planet_type } => Some(planet_type),
        }
    }

    /// The star's spectral class; none for a planet.
    pub fn star_type(&self) -> (r: Option<StarType>)
        ensures
            r == (match *self {
                CelestialKind::Star { temperature } => Some(star_type_of(temperature)),
                CelestialKind::Planet { .. } => None,
            }),
    {
        match *self {
            CelestialKind::Star { temperature } => Some(temperature.star_type()),
            CelestialKind::Planet { .. } => None,
        }
    }

    /// The colour in which the body is drawn.
    pub fn get_color(&self) -> (r: Rgba)
        ensures
            r == kind_color_of(*self),
    {
        match *self {
            CelestialKind::Star { temperature } => temperature.star_color(),
            CelestialKind::Planet { planet_type } => planet_type.color(),
        }
    }
}

/// The texture wrapped around a drawn body.
#[derive(Clone, Copy, Debug, PartialEq, Eq, Structural)]
pub enum TextureSlot {
    Star,
    Earth,
    Terrestrial,
}

/// The texture of a body of kind `k` whose name, in lower case, is
/// `lowered`: stars share one, the planet named "earth" has its own, and
/// every other planet wears the terrestrial one.
pub open spec fn texture_of(k: CelestialKind, lowered: Seq<char>) -> TextureSlot {
    match k {
        CelestialKind::Star { .. } => TextureSlot::Star,
        CelestialKind::Planet { .. } => if lowered == "earth"@ {
            TextureSlot::Earth
        } else {
            TextureSlot::Terrestrial
        },
    }
}

impl CelestialKind {
    /// The texture of a body of this kind whose name, already in lower
    /// case, is `lowered_name`.
    pub fn texture_lowercase(&self, lowered_name: &str) -> (r: TextureSlot)
        ensures
            r == texture_of(*self, lowered_name@),
    {
        match *self {
            CelestialKind::Star { .. } => TextureSlot::Star,
            CelestialKind::Planet { .. } => if same_text(lowered_name, "earth") {
                TextureSlot::Earth
            } else {
                TextureSlot::Terrestrial
            },
        }
    }

    /// The texture of a body of this kind named `name`, whatever its case.
    pub fn texture(&self, name: &str) -> (r: TextureSlot)
        ensures
            r == texture_of(*self, lower_of(name@)),
    {
        let lowered = lowercase(name);
        self.texture_lowercase(lowered.as_str())
    }
}

/// Two stars made with the same surface temperature, as two stars of the
/// same mass and radius are, have the same colour and spectral class.
pub proof fn lemma_star_classification_deterministic(a: Temperature, b: Temperature)
    requires
        a == b,
    ensures
        kind_color_of(CelestialKind::Star { temperature: a }) == kind_color_of(
            CelestialKind::Star { temperature: b },
        ),
        star_type_of(a) == star_type_of(b),
{
}

} // verus!
