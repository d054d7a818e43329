//! Discrete rules of a small Newtonian n-body simulation: angle
//! decomposition, body classification and colours, time control, the
//! frame schedule, input commands and the force-phase index plan.

pub mod celestial;
pub mod clock;
pub mod degree;
pub mod engine;
pub mod input;
pub mod text;

pub use celestial::{
    CelestialKind, PlanetType, Rgba, StarType, Temperature, TextureSlot, UnknownPlanetType, FULL,
};
pub use clock::{FrameAction, SimulationClock, REDRAW_AMOUNT};
pub use degree::Degree;
pub use engine::interaction_partners;
pub use input::{command_for, Command, InputEvent, Key, KeyAction};
pub use text::{same_text, spells, strip_spaces};
