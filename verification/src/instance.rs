use crate::entity::Entity;
use crate::environment::{builtin_update_scripts, Environment, ScriptEntry};
use crate::keys::Keys;
use crate::render::{
    draw_rect, new_2D_window, take_commands, update_display, RenderingEngine2D,
    RenderingEnvironment, VisualRect,
};
use crate::screen::{Screen, ScreenView};
use crate::sdl2_renderer::{fill_command, DisplayView, DrawCommand, SizeReport};
use vstd::prelude::*;

verus! {

/// The state that every behaviour of a session can see and change: the
/// running flag, the live input snapshot and the display.
#[derive(Debug)]
pub struct EngineSettings2D {
    pub use_delta_time: bool,
    pub engine_env: RenderingEnvironment,
    /// The one signal that ends the session: the scheduler stops at the top
    /// of the first frame that finds it cleared.
    pub is_running: bool,
    pub keys: Keys,
}

/// What an `EngineSettings2D` holds, as plain mathematical values.
pub struct EngineSettingsView {
    pub use_delta_time: bool,
    pub display: DisplayView,
    pub is_running: bool,
    pub keys: Keys,
}

impl View for EngineSettings2D {
    type V = EngineSettingsView;

    open spec fn view(&self) -> EngineSettingsView {
        EngineSettingsView {
            use_delta_time: self.use_delta_time,
            display: self.engine_env@,
            is_running: self.is_running,
            keys: self.keys,
        }
    }
}

impl EngineSettingsView {
    /// The settings that a session starts with: running, nothing held, and a
    /// window asked for with the initial caption and size.
    pub open spec fn initial() -> EngineSettingsView {
        EngineSettingsView {
            use_delta_time: true,
            display: DisplayView {
                caption: ScreenView::initial().caption,
                window_size: ScreenView::initial().window_size,
                commands: Seq::empty(),
            },
            is_running: true,
            keys: Keys::all_released(),
        }
    }

    /// These settings with one more command queued on the display.
    pub open spec fn with_command(self, command: DrawCommand) -> EngineSettingsView {
        EngineSettingsView {
            display: DisplayView { commands: self.display.commands.push(command), ..self.display },
            ..self
        }
    }
}

impl EngineSettings2D {
    pub fn new() -> (settings: Self)
        ensures
            settings@ == EngineSettingsView::initial(),
    {
        let engine = RenderingEngine2D::Sdl2;
        EngineSettings2D {
            engine_env: new_2D_window(engine, Screen::new()),
            use_delta_time: true,
            is_running: true,
            keys: Keys::new(),
        }
    }

    /// Queues the flushing of the frame to the display.
    pub fn update_display(&mut self)
        ensures
            final(self)@ == old(self)@.with_command(DrawCommand::Present),
    {
        update_display(&mut self.engine_env)
    }

    /// Queues the filling of `rect`; a negative side is drawn as zero and reported.
    pub fn draw_rect(&mut self, rect: VisualRect) -> (report: SizeReport)
        ensures
            final(self)@ == old(self)@.with_command(fill_command(rect)),
            report == (SizeReport {
                width_was_negative: rect.size.x < 0,
                length_was_negative: rect.size.y < 0,
            }),
    {
        draw_rect(rect, &mut self.engine_env)
    }

    /// Hands out the commands queued on the display, oldest first, for whoever
    /// carries them out, and leaves the queue empty.
    pub fn take_commands(&mut self) -> (commands: Vec<DrawCommand>)
        ensures
            commands@ == old(self)@.display.commands,
            final(self)@ == (EngineSettingsView {
                display: DisplayView { commands: Seq::empty(), ..old(self)@.display },
                ..old(self)@
            }),
    {
        take_commands(&mut self.engine_env)
    }
}

/// A session: the window it asks for, the state its behaviours share, and
/// its entities and scripts.
pub struct Instance2D<H, S> {
    pub screen: Screen,
    pub engine_settings: EngineSettings2D,
    pub environment: Environment<H, S>,
}

impl<H, S> Instance2D<H, S> {
    /// A fresh session whose environment holds the built-in update scripts.
    pub fn new() -> (instance: Self)
        ensures
            instance.screen@ == ScreenView::initial(),
            instance.engine_settings@ == EngineSettingsView::initial(),
            instance.environment.entities() == Seq::<Entity<H>>::empty(),
            instance.environment.update_scripts() == builtin_update_scripts::<S>(),
            instance.environment.start_scripts() == Seq::<ScriptEntry<S>>::empty(),
    {
        Instance2D {
            screen: Screen::new(),
            engine_settings: EngineSettings2D::new(),
            environment: Environment::new(),
        }
    }

    /// A fresh session without any script, not even the built-in ones.
    pub fn new_skeleton() -> (instance: Self)
        ensures
            instance.screen@ == ScreenView::initial(),
            instance.engine_settings@ == EngineSettingsView::initial(),
            instance.environment.entities() == Seq::<Entity<H>>::empty(),
            instance.environment.update_scripts() == Seq::<ScriptEntry<S>>::empty(),
            instance.environment.start_scripts() == Seq::<ScriptEntry<S>>::empty(),
    {
        Instance2D {
            screen: Screen::new(),
            engine_settings: EngineSettings2D::new(),
            environment: Environment::new_skeleton(),
        }
    }

    /// Clears the running flag. The frame in progress is still finished; the
    /// scheduler stops at the top of the next one.
    pub fn quit(&mut self)
        ensures
            final(self).engine_settings.is_running == false,
            final(self).engine_settings.use_delta_time == old(self).engine_settings.use_delta_time,
            final(self).engine_settings.keys == old(self).engine_settings.keys,
            final(self).engine_settings.engine_env == old(self).engine_settings.engine_env,
            final(self).screen == old(self).screen,
            final(self).environment == old(self).environment,
    {
        self.engine_settings.is_running = false
    }

    /// The live input snapshot.
    pub fn get_pressed(&self) -> (keys: &Keys)
        ensures
            *keys == self.engine_settings.keys,
    {
        &self.engine_settings.keys
    }

    /// Reserved for handlers of tag changes: for now it does nothing.
    pub fn add_tag_handler() {
    }
}

} // verus!
