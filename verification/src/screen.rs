use vstd::prelude::*;

verus! {

/// Caption, frame-rate target and size of the window a session asks for.
pub struct Screen {
    caption: String,
    framerate_cap: u32,
    window_size: (u32, u32),
}

/// What a `Screen` holds, as plain mathematical values.
pub struct ScreenView {
    pub caption: Seq<char>,
    pub framerate_cap: u32,
    pub window_size: (u32, u32),
}

impl ScreenView {
    /// The screen that a session starts with.
    pub open spec fn initial() -> ScreenView {
        ScreenView {
            caption: "Zenith Game Window"@,
            framerate_cap: 60,
            window_size: (600u32, 400u32),
        }
    }
}

impl View for Screen {
    type V = ScreenView;

    closed spec fn view(&self) -> ScreenView {
        ScreenView {
            caption: self.caption@,
            framerate_cap: self.framerate_cap,
            window_size: self.window_size,
        }
    }
}

impl Clone for Screen {
    fn clone(&self) -> (copy: Self)
        ensures
            copy@ == self@,
    {
        Screen {
            caption: self.caption.clone(),
            framerate_cap: self.framerate_cap,
            window_size: (self.window_size.0, self.window_size.1),
        }
    }
}

impl Screen {
    pub fn new() -> (screen: Self)
        ensures
            screen@ == ScreenView::initial(),
    {
        Screen {
            caption: "Zenith Game Window".to_owned(),
            framerate_cap: 60,
            window_size: (600, 400),
        }
    }

    pub fn set_caption(&mut self, caption: &str)
        ensures
            final(self)@ == (ScreenView { caption: caption@, ..old(self)@ }),
    {
        self.caption = caption.to_owned();
    }

    pub fn set_framerate_cap(&mut self, cap: u32)
        ensures
            final(self)@ == (ScreenView { framerate_cap: cap, ..old(self)@ }),
    {
        self.framerate_cap = cap;
    }

    pub fn set_window_size(&mut self, size: (u32, u32))
        ensures
            final(self)@ == (ScreenView { window_size: size, ..old(self)@ }),
    {
        self.window_size = size;
    }

    pub fn get_caption(&self) -> (caption: &String)
        ensures
            caption@ == self@.caption,
    {
        &self.caption
    }

    pub fn get_framerate_cap(&self) -> (cap: u32)
        ensures
            cap == self@.framerate_cap,
    {
        self.framerate_cap
    }

    pub fn get_window_size(&self) -> (size: &(u32, u32))
        ensures
            *size == self@.window_size,
    {
        &self.window_size
    }
}

} // verus!
