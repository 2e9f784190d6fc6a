//! A small frame-driven engine for 2D applications: entities that carry
//! tags and hooks, an environment that keeps them in registration order, and
//! a scheduler that starts a session, runs it frame by frame and stops it
//! when its running flag is cleared.
//!
//! The engine does no input or output of its own. Whoever runs a session
//! polls the input source, hands the events to [`eventloop::eventloop`],
//! carries out the display commands that the session queued, and sleeps for
//! as long as [`eventloop::maintain_framerate`] says.

pub mod entity;
pub mod environment;
pub mod eventloop;
pub mod instance;
pub mod keys;
pub mod render;
pub mod screen;
pub mod sdl2_renderer;
pub mod tags;

pub use entity::{Entity, EntityView};
pub use environment::{Environment, NamedScript, NoSuchEntity, Script, ScriptEntry};
pub use eventloop::{
    eventloop, frame_duration, maintain_framerate, settle_framerate, LoopAction, LoopState, Phase,
    Transition,
};
pub use instance::{EngineSettings2D, EngineSettingsView, Instance2D};
pub use keys::{InputEvent, Key, Keys};
pub use render::{Color, RenderingEngine2D, RenderingEnvironment, Vec2, VisualRect};
pub use screen::Screen;
pub use tags::{Tag, TagStore, TagValue, TagValueView};
