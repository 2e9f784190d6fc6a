use crate::render::{Color, VisualRect};
use crate::screen::Screen;
use vstd::prelude::*;

verus! {

/// One instruction for the window's canvas, ready to be carried out: sizes
/// are no longer negative.
#[derive(Debug, Clone, Copy, PartialEq, Eq, Structural)]
pub enum DrawCommand {
    FillRect { x: i32, y: i32, width: u32, height: u32, color: Color },
    Present,
}

/// Which sides of a rectangle were negative and were drawn as zero.
#[derive(Debug, Clone, Copy, PartialEq, Eq, Structural)]
pub struct SizeReport {
    pub width_was_negative: bool,
    pub length_was_negative: bool,
}

/// The window that a session asked for and the commands issued for it that
/// nobody has carried out yet, oldest first.
#[derive(Debug)]
pub struct Sdl2Env {
    pub caption: String,
    pub window_size: (u32, u32),
    pub commands: Vec<DrawCommand>,
}

/// What a display holds, as plain mathematical values.
pub struct DisplayView {
    pub caption: Seq<char>,
    pub window_size: (u32, u32),
    pub commands: Seq<DrawCommand>,
}

impl View for Sdl2Env {
    type V = DisplayView;

    open spec fn view(&self) -> DisplayView {
        DisplayView {
            caption: self.caption@,
            window_size: self.window_size,
            commands: self.commands@,
        }
    }
}

/// A side of a rectangle as the canvas takes it: a negative one counts as zero.
pub open spec fn extent(side: i32) -> u32 {
    if side < 0 {
        0
    } else {
        side as u32
    }
}

/// The command that fills `rect`.
pub open spec fn fill_command(rect: VisualRect) -> DrawCommand {
    DrawCommand::FillRect {
        x: rect.location.x,
        y: rect.location.y,
        width: extent(rect.size.x),
        height: extent(rect.size.y),
        color: rect.color,
    }
}

impl SizeReport {
    /// The complaint about a negative width, where there is one to make.
    pub fn width_message(&self) -> (message: Option<&'static str>)
        ensures
            message is Some <==> self.width_was_negative,
            message is Some ==> message->0@
                == "Error: Width cannot be negitive - setting Width to 0"@,
    {
        if self.width_was_negative {
            Some("Error: Width cannot be negitive - setting Width to 0")
        } else {
            None
        }
    }

    /// The complaint about a negative length, where there is one to make.
    pub fn length_message(&self) -> (message: Option<&'static str>)
        ensures
            message is Some <==> self.length_was_negative,
            message is Some ==> message->0@
                == "Error: Length cannot be negitive - setting Length to 0"@,
    {
        if self.length_was_negative {
            Some("Error: Length cannot be negitive - setting Length to 0")
        } else {
            None
        }
    }
}

/// Asks for a window with the caption and size of `screen`; nothing is drawn yet.
pub fn new_window(screen: Screen) -> (env: Sdl2Env)
    ensures
        env@ == (DisplayView {
            caption: screen@.caption,
            window_size: screen@.window_size,
            commands: Seq::empty(),
        }),
{
    let size = screen.get_window_size();
    Sdl2Env {
        caption: screen.get_caption().clone(),
        window_size: (size.0, size.1),
        commands: Vec::new(),
    }
}

/// Queues the filling of `rect`. A negative width or length is no failure: it
/// is drawn as zero, and the report says so.
pub fn sdl2_draw_rect(sdl2_env: &mut Sdl2Env, rect: VisualRect) -> (report: SizeReport)
    ensures
        final(sdl2_env)@ == (DisplayView {
            commands: old(sdl2_env)@.commands.push(fill_command(rect)),
            ..old(sdl2_env)@
        }),
        report == (SizeReport {
            width_was_negative: rect.size.x < 0,
            length_was_negative: rect.size.y < 0,
        }),
{
    let width_was_negative = rect.size.x < 0;
    let width: u32 = if width_was_negative {
        0
    } else {
        rect.size.x as u32
    };
    let length_was_negative = rect.size.y < 0;
    let length: u32 = if length_was_negative {
        0
    } else {
        rect.size.y as u32
    };
    sdl2_env.commands.push(
        DrawCommand::FillRect {
            x: rect.location.x,
            y: rect.location.y,
            width,
            height: length,
            color: rect.color,
        },
    );
    SizeReport { width_was_negative, length_was_negative }
}

/// Queues the flushing of the frame to the window.
pub fn sdl2_update_display(sdl2_env: &mut Sdl2Env)
    ensures
        final(sdl2_env)@ == (DisplayView {
            commands: old(sdl2_env)@.commands.push(DrawCommand::Present),
            ..old(sdl2_env)@
        }),
{
    sdl2_env.commands.push(DrawCommand::Present);
}

/// Hands out the queued commands, oldest first, and leaves the queue empty.
pub fn sdl2_take_commands(sdl2_env: &mut Sdl2Env) -> (commands: Vec<DrawCommand>)
    ensures
        commands@ == old(sdl2_env)@.commands,
        final(sdl2_env)@ == (DisplayView { commands: Seq::empty(), ..old(sdl2_env)@ }),
{
    let mut commands: Vec<DrawCommand> = Vec::new();
    core::mem::swap(&mut sdl2_env.commands, &mut commands);
    commands
}

} // verus!
