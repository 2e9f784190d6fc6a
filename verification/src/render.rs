use crate::screen::Screen;
use crate::sdl2_renderer::{
    fill_command, new_window, sdl2_draw_rect, sdl2_take_commands, sdl2_update_display, DisplayView,
    DrawCommand, Sdl2Env, SizeReport,
};
use vstd::prelude::*;

verus! {

/// A point or an extent on the integer pixel grid.
#[derive(Debug, Clone, Copy, PartialEq, Eq, Structural)]
pub struct Vec2 {
    pub x: i32,
    pub y: i32,
}

/// An opaque colour with one byte per channel.
#[derive(Debug, Clone, Copy, PartialEq, Eq, Structural)]
pub struct Color {
    pub r: u8,
    pub g: u8,
    pub b: u8,
}

impl Color {
    pub fn white() -> (c: Self)
        ensures
            c == (Color { r: 255, g: 255, b: 255 }),
    {
        Color { r: 255, g: 255, b: 255 }
    }

    pub fn black() -> (c: Self)
        ensures
            c == (Color { r: 0, g: 0, b: 0 }),
    {
        Color { r: 0, g: 0, b: 0 }
    }
}

impl Vec2 {
    pub fn new(x: i32, y: i32) -> (v: Self)
        ensures
            v == (Vec2 { x, y }),
    {
        Vec2 { x, y }
    }
}

/// A filled rectangle as a caller asks for it: the size may still be negative.
#[derive(Debug, Clone, Copy, PartialEq, Eq, Structural)]
pub struct VisualRect {
    pub location: Vec2,
    pub size: Vec2,
    pub color: Color,
}

impl VisualRect {
    pub fn new(location: Vec2, size: Vec2, color: Color) -> (rect: Self)
        ensures
            rect == (VisualRect { location, size, color }),
    {
        VisualRect { location, size, color }
    }
}

/// The rendering back ends that a session can be given.
#[derive(Debug, Clone, Copy, PartialEq, Eq, Structural)]
pub enum RenderingEngine2D {
    Sdl2,
}

/// The display of a session, under the back end that was chosen for it.
#[derive(Debug)]
pub enum RenderingEnvironment {
    Sdl2(Sdl2Env),
}

impl View for RenderingEnvironment {
    type V = DisplayView;

    open spec fn view(&self) -> DisplayView {
        match self {
            RenderingEnvironment::Sdl2(sdl2_env) => sdl2_env@,
        }
    }
}

/// Asks `engine` for a window with the caption and size of `screen`.
#[allow(non_snake_case)]
pub fn new_2D_window(engine: RenderingEngine2D, screen: Screen) -> (env: RenderingEnvironment)
    ensures
        env@ == (DisplayView {
            caption: screen@.caption,
            window_size: screen@.window_size,
            commands: Seq::empty(),
        }),
{
    match engine {
        RenderingEngine2D::Sdl2 => RenderingEnvironment::Sdl2(new_window(screen)),
    }
}

/// Queues the filling of `rect` on the display, whatever its back end.
pub fn draw_rect(rect: VisualRect, env: &mut RenderingEnvironment) -> (report: SizeReport)
    ensures
        final(env)@ == (DisplayView {
            commands: old(env)@.commands.push(fill_command(rect)),
            ..old(env)@
        }),
        report == (SizeReport {
            width_was_negative: rect.size.x < 0,
            length_was_negative: rect.size.y < 0,
        }),
{
    match env {
        RenderingEnvironment::Sdl2(sdl2_env) => sdl2_draw_rect(sdl2_env, rect),
    }
}

/// Queues the flushing of the frame to the display.
pub fn update_display(env: &mut RenderingEnvironment)
    ensures
        final(env)@ == (DisplayView {
            commands: old(env)@.commands.push(DrawCommand::Present),
            ..old(env)@
        }),
{
    match env {
        RenderingEnvironment::Sdl2(sdl2_env) => sdl2_update_display(sdl2_env),
    }
}

/// Hands out the commands queued on the display, oldest first, and leaves the
/// queue empty.
pub fn take_commands(env: &mut RenderingEnvironment) -> (commands: Vec<DrawCommand>)
    ensures
        commands@ == old(env)@.commands,
        final(env)@ == (DisplayView { commands: Seq::empty(), ..old(env)@ }),
{
    match env {
        RenderingEnvironment::Sdl2(sdl2_env) => sdl2_take_commands(sdl2_env),
    }
}

} // verus!
