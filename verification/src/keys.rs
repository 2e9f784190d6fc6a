use vstd::prelude::*;

verus! {

/// A key whose state the input adapter reports.
#[derive(Debug, Clone, Copy, PartialEq, Eq, Structural)]
pub enum Key {
    Escape,
    Space,
    LShift,
    RShift,
    A,
    B,
    C,
    D,
    E,
    F,
    G,
    H,
    I,
    J,
    K,
    L,
    M,
    N,
    O,
    P,
    Q,
    R,
    S,
    T,
    U,
    V,
    W,
    X,
    Y,
    Z,
}

/// One signal from the input source.
#[derive(Debug, Clone, Copy, PartialEq, Eq, Structural)]
pub enum InputEvent {
    /// The user asked to close the session.
    Quit,
    KeyDown(Key),
    KeyUp(Key),
    /// Anything else; it leaves the snapshot as it is.
    Other,
}

/// The live input snapshot: which keys are held down, and whether a quit was
/// requested. The digit flags are part of the snapshot but no input event
/// changes them.
#[allow(non_snake_case)]
#[derive(Debug, Clone, Copy, PartialEq, Eq, Structural)]
pub struct Keys {
    pub A: bool,
    pub B: bool,
    pub C: bool,
    pub D: bool,
    pub E: bool,
    pub F: bool,
    pub G: bool,
    pub H: bool,
    pub I: bool,
    pub J: bool,
    pub K: bool,
    pub L: bool,
    pub M: bool,
    pub N: bool,
    pub O: bool,
    pub P: bool,
    pub Q: bool,
    pub R: bool,
    pub S: bool,
    pub T: bool,
    pub U: bool,
    pub V: bool,
    pub W: bool,
    pub X: bool,
    pub Y: bool,
    pub Z: bool,
    pub SPACE: bool,
    pub QUIT: bool,
    pub RSHIFT: bool,
    pub LSHIFT: bool,
    pub ESCAPE: bool,
    pub NUM_1: bool,
    pub NUM_2: bool,
    pub NUM_3: bool,
    pub NUM_4: bool,
    pub NUM_5: bool,
    pub NUM_6: bool,
    pub NUM_7: bool,
    pub NUM_8: bool,
    pub NUM_9: bool,
    pub NUM_0: bool,
}

impl Key {
    /// The lower-case name under which a held key is listed.
    pub open spec fn label(self) -> Seq<char> {
        match self {
            Key::Escape => "escape"@,
            Key::Space => "space"@,
            Key::LShift => "lshift"@,
            Key::RShift => "rshift"@,
            Key::A => "a"@,
            Key::B => "b"@,
            Key::C => "c"@,
            Key::D => "d"@,
            Key::E => "e"@,
            Key::F => "f"@,
            Key::G => "g"@,
            Key::H => "h"@,
            Key::I => "i"@,
            Key::J => "j"@,
            Key::K => "k"@,
            Key::L => "l"@,
            Key::M => "m"@,
            Key::N => "n"@,
            Key::O => "o"@,
            Key::P => "p"@,
            Key::Q => "q"@,
            Key::R => "r"@,
            Key::S => "s"@,
            Key::T => "t"@,
            Key::U => "u"@,
            Key::V => "v"@,
            Key::W => "w"@,
            Key::X => "x"@,
            Key::Y => "y"@,
            Key::Z => "z"@,
        }
    }

    /// Every key, in the order in which held keys are listed: the four named
    /// keys first, then the letters.
    pub open spec fn listing_order() -> Seq<Key> {
        seq![
            Key::Escape,
            Key::Space,
            Key::LShift,
            Key::RShift,
            Key::A,
            Key::B,
            Key::C,
            Key::D,
            Key::E,
            Key::F,
            Key::G,
            Key::H,
            Key::I,
            Key::J,
            Key::K,
            Key::L,
            Key::M,
            Key::N,
            Key::O,
            Key::P,
            Key::Q,
            Key::R,
            Key::S,
            Key::T,
            Key::U,
            Key::V,
            Key::W,
            Key::X,
            Key::Y,
            Key::Z,
        ]
    }

    pub fn name(self) -> (name: &'static str)
        ensures
            name@ == self.label(),
    {
        match self {
            Key::Escape => "escape",
            Key::Space => "space",
            Key::LShift => "lshift",
            Key::RShift => "rshift",
            Key::A => "a",
            Key::B => "b",
            Key::C => "c",
            Key::D => "d",
            Key::E => "e",
            Key::F => "f",
            Key::G => "g",
            Key::H => "h",
            Key::I => "i",
            Key::J => "j",
            Key::K => "k",
            Key::L => "l",
            Key::M => "m",
            Key::N => "n",
            Key::O => "o",
            Key::P => "p",
            Key::Q => "q",
            Key::R => "r",
            Key::S => "s",
            Key::T => "t",
            Key::U => "u",
            Key::V => "v",
            Key::W => "w",
            Key::X => "x",
            Key::Y => "y",
            Key::Z => "z",
        }
    }

    pub fn listing() -> (keys: Vec<Key>)
        ensures
            keys@ == Key::listing_order(),
    {
        let mut keys: Vec<Key> = Vec::new();
        keys.push(Key::Escape);
        keys.push(Key::Space);
        keys.push(Key::LShift);
        keys.push(Key::RShift);
        keys.push(Key::A);
        keys.push(Key::B);
        keys.push(Key::C);
        keys.push(Key::D);
        keys.push(Key::E);
        keys.push(Key::F);
        keys.push(Key::G);
        keys.push(Key::H);
        keys.push(Key::I);
        keys.push(Key::J);
        keys.push(Key::K);
        keys.push(Key::L);
        keys.push(Key::M);
        keys.push(Key::N);
        keys.push(Key::O);
        keys.push(Key::P);
        keys.push(Key::Q);
        keys.push(Key::R);
        keys.push(Key::S);
        keys.push(Key::T);
        keys.push(Key::U);
        keys.push(Key::V);
        keys.push(Key::W);
        keys.push(Key::X);
        keys.push(Key::Y);
        keys.push(Key::Z);
        assert(keys@ =~= Key::listing_order());
        keys
    }
}

impl Keys {
    /// The snapshot in which nothing is held and no quit was requested.
    pub open spec fn all_released() -> Keys {
        Keys {
            A: false,
            B: false,
            C: false,
            D: false,
            E: false,
            F: false,
            G: false,
            H: false,
            I: false,
            J: false,
            K: false,
            L: false,
            M: false,
            N: false,
            O: false,
            P: false,
            Q: false,
            R: false,
            S: false,
            T: false,
            U: false,
            V: false,
            W: false,
            X: false,
            Y: false,
            Z: false,
            SPACE: false,
            QUIT: false,
            RSHIFT: false,
            LSHIFT: false,
            ESCAPE: false,
            NUM_1: false,
            NUM_2: false,
            NUM_3: false,
            NUM_4: false,
            NUM_5: false,
            NUM_6: false,
            NUM_7: false,
            NUM_8: false,
            NUM_9: false,
            NUM_0: false,
        }
    }

    /// Whether `key` is held down in this snapshot.
    pub open spec fn held(self, key: Key) -> bool {
        match key {
            Key::Escape => self.ESCAPE,
            Key::Space => self.SPACE,
            Key::LShift => self.LSHIFT,
            Key::RShift => self.RSHIFT,
            Key::A => self.A,
            Key::B => self.B,
            Key::C => self.C,
            Key::D => self.D,
            Key::E => self.E,
            Key::F => self.F,
            Key::G => self.G,
            Key::H => self.H,
            Key::I => self.I,
            Key::J => self.J,
            Key::K => self.K,
            Key::L => self.L,
            Key::M => self.M,
            Key::N => self.N,
            Key::O => self.O,
            Key::P => self.P,
            Key::Q => self.Q,
            Key::R => self.R,
            Key::S => self.S,
            Key::T => self.T,
            Key::U => self.U,
            Key::V => self.V,
            Key::W => self.W,
            Key::X => self.X,
            Key::Y => self.Y,
            Key::Z => self.Z,
        }
    }

    /// This snapshot with `key` marked held (`down`) or released.
    pub open spec fn with_key(self, key: Key, down: bool) -> Keys {
        Keys {
            ESCAPE: if key == Key::Escape { down } else { self.ESCAPE },
            SPACE: if key == Key::Space { down } else { self.SPACE },
            LSHIFT: if key == Key::LShift { down } else { self.LSHIFT },
            RSHIFT: if key == Key::RShift { down } else { self.RSHIFT },
            A: if key == Key::A { down } else { self.A },
            B: if key == Key::B { down } else { self.B },
            C: if key == Key::C { down } else { self.C },
            D: if key == Key::D { down } else { self.D },
            E: if key == Key::E { down } else { self.E },
            F: if key == Key::F { down } else { self.F },
            G: if key == Key::G { down } else { self.G },
            H: if key == Key::H { down } else { self.H },
            I: if key == Key::I { down } else { self.I },
            J: if key == Key::J { down } else { self.J },
            K: if key == Key::K { down } else { self.K },
            L: if key == Key::L { down } else { self.L },
            M: if key == Key::M { down } else { self.M },
            N: if key == Key::N { down } else { self.N },
            O: if key == Key::O { down } else { self.O },
            P: if key == Key::P { down } else { self.P },
            Q: if key == Key::Q { down } else { self.Q },
            R: if key == Key::R { down } else { self.R },
            S: if key == Key::S { down } else { self.S },
            T: if key == Key::T { down } else { self.T },
            U: if key == Key::U { down } else { self.U },
            V: if key == Key::V { down } else { self.V },
            W: if key == Key::W { down } else { self.W },
            X: if key == Key::X { down } else { self.X },
            Y: if key == Key::Y { down } else { self.Y },
            Z: if key == Key::Z { down } else { self.Z },
            ..self
        }
    }


    /// The snapshot that `event` leaves behind: a quit request is remembered, a
    /// key goes down or up, anything else changes nothing.
    pub open spec fn after(self, event: InputEvent) -> Keys {
        match event {
            InputEvent::Quit => Keys { QUIT: true, ..self },
            InputEvent::KeyDown(key) => self.with_key(key, true),
            InputEvent::KeyUp(key) => self.with_key(key, false),
            InputEvent::Other => self,
        }
    }

    /// The snapshot after a whole batch of events, taken in the order given.
    pub open spec fn after_all(self, events: Seq<InputEvent>) -> Keys {
        events.fold_left(self, |keys: Keys, event: InputEvent| keys.after(event))
    }

    /// The names of the held keys, in listing order.
    pub open spec fn pressed_names(self) -> Seq<Seq<char>> {
        Key::listing_order().filter(|key: Key| self.held(key)).map_values(|key: Key| key.label())
    }

    pub fn new() -> (keys: Self)
        ensures
            keys == Keys::all_released(),
    {
        Keys {
            A: false,
            B: false,
            C: false,
            D: false,
            E: false,
            F: false,
            G: false,
            H: false,
            I: false,
            J: false,
            K: false,
            L: false,
            M: false,
            N: false,
            O: false,
            P: false,
            Q: false,
            R: false,
            S: false,
            T: false,
            U: false,
            V: false,
            W: false,
            X: false,
            Y: false,
            Z: false,
            SPACE: false,
            QUIT: false,
            RSHIFT: false,
            LSHIFT: false,
            ESCAPE: false,
            NUM_1: false,
            NUM_2: false,
            NUM_3: false,
            NUM_4: false,
            NUM_5: false,
            NUM_6: false,
            NUM_7: false,
            NUM_8: false,
            NUM_9: false,
            NUM_0: false,
        }
    }

    pub fn is_pressed(&self, key: Key) -> (held: bool)
        ensures
            held == self.held(key),
    {
        match key {
            Key::Escape => self.ESCAPE,
            Key::Space => self.SPACE,
            Key::LShift => self.LSHIFT,
            Key::RShift => self.RSHIFT,
            Key::A => self.A,
            Key::B => self.B,
            Key::C => self.C,
            Key::D => self.D,
            Key::E => self.E,
            Key::F => self.F,
            Key::G => self.G,
            Key::H => self.H,
            Key::I => self.I,
            Key::J => self.J,
            Key::K => self.K,
            Key::L => self.L,
            Key::M => self.M,
            Key::N => self.N,
            Key::O => self.O,
            Key::P => self.P,
            Key::Q => self.Q,
            Key::R => self.R,
            Key::S => self.S,
            Key::T => self.T,
            Key::U => self.U,
            Key::V => self.V,
            Key::W => self.W,
            Key::X => self.X,
            Key::Y => self.Y,
            Key::Z => self.Z,
        }
    }

    /// Marks `key` held or released and leaves every other flag alone.
    pub fn set_key(&mut self, key: Key, down: bool)
        ensures
            *final(self) == old(self).with_key(key, down),
    {
        // Each arm states its own outcome: with thirty ways through the match
        // the solver does not find the common statement unaided.
        match key {
            Key::Escape => {
                self.ESCAPE = down;
                assert(*self == old(self).with_key(Key::Escape, down));
            },
            Key::Space => {
                self.SPACE = down;
                assert(*self == old(self).with_key(Key::Space, down));
            },
            Key::LShift => {
                self.LSHIFT = down;
                assert(*self == old(self).with_key(Key::LShift, down));
            },
            Key::RShift => {
                self.RSHIFT = down;
                assert(*self == old(self).with_key(Key::RShift, down));
            },
            Key::A => {
                self.A = down;
                assert(*self == old(self).with_key(Key::A, down));
            },
            Key::B => {
                self.B = down;
                assert(*self == old(self).with_key(Key::B, down));
            },
            Key::C => {
                self.C = down;
                assert(*self == old(self).with_key(Key::C, down));
            },
            Key::D => {
                self.D = down;
                assert(*self == old(self).with_key(Key::D, down));
            },
            Key::E => {
                self.E = down;
                assert(*self == old(self).with_key(Key::E, down));
            },
            Key::F => {
                self.F = down;
                assert(*self == old(self).with_key(Key::F, down));
            },
            Key::G => {
                self.G = down;
                assert(*self == old(self).with_key(Key::G, down));
            },
            Key::H => {
                self.H = down;
                assert(*self == old(self).with_key(Key::H, down));
            },
            Key::I => {
                self.I = down;
                assert(*self == old(self).with_key(Key::I, down));
            },
            Key::J => {
                self.J = down;
                assert(*self == old(self).with_key(Key::J, down));
            },
            Key::K => {
                self.K = down;
                assert(*self == old(self).with_key(Key::K, down));
            },
            Key::L => {
                self.L = down;
                assert(*self == old(self).with_key(Key::L, down));
            },
            Key::M => {
                self.M = down;
                assert(*self == old(self).with_key(Key::M, down));
            },
            Key::N => {
                self.N = down;
                assert(*self == old(self).with_key(Key::N, down));
            },
            Key::O => {
                self.O = down;
                assert(*self == old(self).with_key(Key::O, down));
            },
            Key::P => {
                self.P = down;
                assert(*self == old(self).with_key(Key::P, down));
            },
            Key::Q => {
                self.Q = down;
                assert(*self == old(self).with_key(Key::Q, down));
            },
            Key::R => {
                self.R = down;
                assert(*self == old(self).with_key(Key::R, down));
            },
            Key::S => {
                self.S = down;
                assert(*self == old(self).with_key(Key::S, down));
            },
            Key::T => {
                self.T = down;
                assert(*self == old(self).with_key(Key::T, down));
            },
            Key::U => {
                self.U = down;
                assert(*self == old(self).with_key(Key::U, down));
            },
            Key::V => {
                self.V = down;
                assert(*self == old(self).with_key(Key::V, down));
            },
            Key::W => {
                self.W = down;
                assert(*self == old(self).with_key(Key::W, down));
            },
            Key::X => {
                self.X = down;
                assert(*self == old(self).with_key(Key::X, down));
            },
            Key::Y => {
                self.Y = down;
                assert(*self == old(self).with_key(Key::Y, down));
            },
            Key::Z => {
                self.Z = down;
                assert(*self == old(self).with_key(Key::Z, down));
            },
        }
    }

    /// Folds one input event into the snapshot.
    pub fn apply(&mut self, event: InputEvent)
        ensures
            *final(self) == old(self).after(event),
    {
        match event {
            InputEvent::Quit => self.QUIT = true,
            InputEvent::KeyDown(key) => self.set_key(key, true),
            InputEvent::KeyUp(key) => self.set_key(key, false),
            InputEvent::Other => {},
        }
    }

    /// Folds a batch of input events into the snapshot, first to last.
    pub fn apply_all(&mut self, events: &Vec<InputEvent>)
        ensures
            *final(self) == old(self).after_all(events@),
    {
        let ghost step = |keys: Keys, event: InputEvent| keys.after(event);
        let mut i: usize = 0;
        while i < events.len()
            invariant
                i <= events.len(),
                step == (|keys: Keys, event: InputEvent| keys.after(event)),
                *self == events@.take(i as int).fold_left(*old(self), step),
            decreases events.len() - i,
        {
            proof {
                let next = events@.take(i + 1);
                assert(next.drop_last() =~= events@.take(i as int));
                assert(next.last() == events@[i as int]);
            }
            self.apply(events[i]);
            i += 1;
        }
        assert(events@.take(i as int) =~= events@);
    }

    /// The names of the keys that are held, in listing order. The quit flag and
    /// the digit flags are not keys in this sense and are never listed.
    pub fn all_pressed_str(&self) -> (pressed: Vec<&'static str>)
        ensures
            pressed@.map_values(|name: &'static str| name@) == self.pressed_names(),
    {
        let order = Key::listing();
        let ghost is_held = |key: Key| self.held(key);
        let ghost label = |key: Key| key.label();
        let ghost text = |name: &'static str| name@;
        let mut pressed: Vec<&'static str> = Vec::new();
        let mut i: usize = 0;
        assert(order@.take(0).filter(is_held) =~= Seq::<Key>::empty());
        while i < order.len()
            invariant
                i <= order.len(),
                order@ == Key::listing_order(),
                is_held == (|key: Key| self.held(key)),
                label == (|key: Key| key.label()),
                text == (|name: &'static str| name@),
                pressed@.map_values(text) == order@.take(i as int).filter(is_held).map_values(label),
            decreases order.len() - i,
        {
            let key = order[i];
            proof {
                let seen = order@.take(i as int);
                assert(order@.take(i + 1) =~= seen.push(key));
                seen.lemma_filter_push(key, is_held);
                seen.filter(is_held).lemma_push_map_commute(label, key);
            }
            if self.is_pressed(key) {
                let name = key.name();
                proof {
                    pressed@.lemma_push_map_commute(text, name);
                }
                pressed.push(name);
            }
            i += 1;
        }
        assert(order@.take(i as int) =~= order@);
        pressed
    }
}

} // verus!
