//! What the keyboard, the mouse and the window tell the camera: the set of
//! keys held down, the mouse motion gathered while the look button is held,
//! and the window's size since it last changed.
use vstd::prelude::*;

verus! {

/// The keys the program tells apart.
#[derive(Clone, Copy, Debug, PartialEq, Eq, Structural)]
pub enum Key {
    W,
    A,
    S,
    D,
    Space,
    LShift,
    Escape,
    Q,
    /// Any other key, by its code.
    Other(u32),
}

/// A key went down or came up.
#[derive(Clone, Copy, Debug, PartialEq, Eq, Structural)]
pub enum ElementState {
    Pressed,
    Released,
}

/// The buttons of the mouse.
#[derive(Clone, Copy, Debug, PartialEq, Eq, Structural)]
pub enum MouseButton {
    Left,
    Right,
    Middle,
    /// Any other button, by its number.
    Other(u16),
}

/// How far the camera moves along its own axes, in steps of speed times
/// frame time: `forward` along its viewing direction, `right` along its
/// right vector, `up` along its up vector.
#[derive(Clone, Copy, Debug, PartialEq, Eq, Structural)]
pub struct Movement {
    pub forward: i32,
    pub right: i32,
    pub up: i32,
}

/// 1 where `key` is among `keys`, else 0.
pub open spec fn held(keys: Seq<Key>, key: Key) -> int {
    if keys.contains(key) {
        1
    } else {
        0
    }
}

/// The movement that the held keys ask for. Each key stands for one step
/// along one axis: W forward and S back, A along the right vector and D
/// against it, Space up and left Shift down. Keys held together add up.
pub open spec fn movement_of(keys: Seq<Key>) -> Movement {
    Movement {
        forward: (held(keys, Key::W) - held(keys, Key::S)) as i32,
        right: (held(keys, Key::A) - held(keys, Key::D)) as i32,
        up: (held(keys, Key::Space) - held(keys, Key::LShift)) as i32,
    }
}

/// The key asks the program to end.
pub open spec fn is_exit_key(key: Key) -> bool {
    key == Key::Escape || key == Key::Q
}

/// The key asks the program to end: Escape and Q do.
pub fn exits(key: Key) -> (exit: bool)
    ensures
        exit == is_exit_key(key),
{
    key == Key::Escape || key == Key::Q
}

/// The held keys after `key` went down.
pub open spec fn pressed(keys: Seq<Key>, key: Key) -> Seq<Key> {
    if keys.contains(key) {
        keys
    } else {
        keys.push(key)
    }
}

/// The held keys after `key` came up.
pub open spec fn released(keys: Seq<Key>, key: Key) -> Seq<Key> {
    if keys.contains(key) {
        keys.remove(keys.index_of(key))
    } else {
        keys
    }
}

/// The keys that are held down, in the order in which they went down. No
/// key is in it twice.
#[derive(Debug)]
pub struct PressedKeys {
    keys: Vec<Key>,
}

impl PressedKeys {
    #[verifier::type_invariant]
    spec fn distinct(self) -> bool {
        self.keys@.no_duplicates()
    }

    /// The held keys, the one held longest first.
    pub closed spec fn view(&self) -> Seq<Key> {
        self.keys@
    }

    /// No key is held.
    pub fn new() -> (pressed: PressedKeys)
        ensures
            pressed@ == Seq::<Key>::empty(),
    {
        PressedKeys { keys: Vec::new() }
    }

    /// The number of held keys.
    pub fn len(&self) -> (n: usize)
        ensures
            n == self@.len(),
            self@.no_duplicates(),
    {
        proof {
            use_type_invariant(self);
        }
        self.keys.len()
    }

    /// The held key at place `i`.
    pub fn get(&self, i: usize) -> (key: Option<Key>)
        ensures
            i < self@.len() ==> key == Some(self@[i as int]),
            i >= self@.len() ==> key is None,
    {
        if i < self.keys.len() {
            Some(self.keys[i])
        } else {
            None
        }
    }

    /// Moves the held keys out and leaves none behind.
    fn take_keys(&mut self) -> (keys: Vec<Key>)
        ensures
            keys@ == old(self)@,
            final(self)@ == Seq::<Key>::empty(),
    {
        let mut taken = PressedKeys { keys: Vec::new() };
        core::mem::swap(self, &mut taken);
        taken.keys
    }

    /// The place of `key` among the held keys.
    fn position(&self, key: Key) -> (place: Option<usize>)
        ensures
            match place {
                Some(i) => i < self@.len() && self@[i as int] == key,
                None => !self@.contains(key),
            },
    {
        let n = self.keys.len();
        let mut i: usize = 0;
        while i < n
            invariant
                i <= n,
                n == self.keys@.len(),
                forall|j: int| 0 <= j < i ==> self.keys@[j] != key,
            decreases n - i,
        {
            if self.keys[i] == key {
                return Some(i);
            }
            i = i + 1;
        }
        None
    }

    /// `key` is held.
    pub fn contains(&self, key: Key) -> (is_held: bool)
        ensures
            is_held == self@.contains(key),
    {
        self.position(key).is_some()
    }

    /// Takes note of a key event: a key that goes down joins the held keys
    /// at the end, unless it is held already; a key that comes up leaves
    /// them, and the others keep their order.
    pub fn handle(&mut self, key: Key, state: ElementState)
        ensures
            final(self)@ == match state {
                ElementState::Pressed => pressed(old(self)@, key),
                ElementState::Released => released(old(self)@, key),
            },
            final(self)@.no_duplicates(),
    {
        match state {
            ElementState::Pressed => self.press(key),
            ElementState::Released => self.release(key),
        }
    }

    /// `key` went down.
    pub fn press(&mut self, key: Key)
        ensures
            final(self)@ == pressed(old(self)@, key),
            final(self)@.contains(key),
            final(self)@.no_duplicates(),
    {
        proof {
            use_type_invariant(&*self);
        }
        if self.position(key).is_none() {
            let mut keys = self.take_keys();
            keys.push(key);
            assert(keys@.last() == key);
            *self = PressedKeys { keys };
        }
    }

    /// `key` came up.
    pub fn release(&mut self, key: Key)
        ensures
            final(self)@ == released(old(self)@, key),
            !final(self)@.contains(key),
            final(self)@.no_duplicates(),
    {
        proof {
            use_type_invariant(&*self);
        }
        let ghost before = self.keys@;
        match self.position(key) {
            Some(i) => {
                let mut keys = self.take_keys();
                keys.remove(i);
                proof {
                    assert(before.index_of(key) == i);
                    assert(keys@ == before.remove(i as int));
                    assert forall|j: int| 0 <= j < keys@.len() implies keys@[j] != key by {
                        if j < i {
                            assert(keys@[j] == before[j]);
                        } else {
                            assert(keys@[j] == before[j + 1]);
                        }
                    }
                }
                *self = PressedKeys { keys };
            },
            None => {},
        }
    }

    /// The movement that the held keys ask for.
    pub fn movement(&self) -> (step: Movement)
        ensures
            step == movement_of(self@),
    {
        let forward: i32 = if self.contains(Key::W) { 1 } else { 0 };
        let back: i32 = if self.contains(Key::S) { 1 } else { 0 };
        let right: i32 = if self.contains(Key::A) { 1 } else { 0 };
        let left: i32 = if self.contains(Key::D) { 1 } else { 0 };
        let up: i32 = if self.contains(Key::Space) { 1 } else { 0 };
        let down: i32 = if self.contains(Key::LShift) { 1 } else { 0 };
        Movement { forward: forward - back, right: right - left, up: up - down }
    }
}

/// The mouse motion gathered for the camera. Motion counts only while the
/// look button, the right one, is held; each frame takes what has gathered
/// and leaves nothing behind. `D` is the type of a motion.
#[derive(Debug, PartialEq)]
pub struct MouseLook<D> {
    /// The look button is held.
    pub looking: bool,
    /// The motion gathered since it was last taken.
    pub pending: D,
}

impl<D> MouseLook<D> {
    /// The look button is up and the gathered motion is `rest`, the motion
    /// that is none.
    pub fn new(rest: D) -> (look: MouseLook<D>)
        ensures
            !look.looking,
            look.pending == rest,
    {
        MouseLook { looking: false, pending: rest }
    }

    /// Takes note of a mouse button: the right one starts and ends looking,
    /// the others change nothing.
    pub fn button(&mut self, button: MouseButton, state: ElementState)
        ensures
            final(self).pending == old(self).pending,
            final(self).looking == if button == MouseButton::Right {
                state == ElementState::Pressed
            } else {
                old(self).looking
            },
    {
        if button == MouseButton::Right {
            self.looking = state == ElementState::Pressed;
        }
    }

    /// Takes note of a mouse motion: while looking, `motion` is joined to
    /// what has gathered, by `join`; else it is dropped.
    pub fn moved<F>(&mut self, motion: D, join: &F)
        where F: Fn(&D, &D) -> D
        requires
            forall|a: D, b: D| call_requires(*join, (&a, &b)),
        ensures
            final(self).looking == old(self).looking,
            old(self).looking ==> call_ensures(*join, (&old(self).pending, &motion), final(self).pending),
            !old(self).looking ==> final(self).pending == old(self).pending,
    {
        if self.looking {
            let sum = join(&self.pending, &motion);
            self.pending = sum;
        }
    }

    /// Takes what has gathered and leaves `rest`, the motion that is none,
    /// behind: no motion is taken twice.
    pub fn drain(&mut self, rest: D) -> (taken: D)
        ensures
            taken == old(self).pending,
            final(self).pending == rest,
            final(self).looking == old(self).looking,
    {
        let mut taken = rest;
        core::mem::swap(&mut self.pending, &mut taken);
        taken
    }
}

/// The size of the window, and whether it changed since it was last asked
/// for.
#[derive(Clone, Copy, Debug, PartialEq, Eq, Structural)]
pub struct WindowSize {
    pub width: u32,
    pub height: u32,
    /// The size changed and nobody has taken note yet.
    pub resized: bool,
}

impl WindowSize {
    /// A window of the given size, with no change to take note of.
    pub fn new(width: u32, height: u32) -> (size: WindowSize)
        ensures
            size == (WindowSize { width, height, resized: false }),
    {
        WindowSize { width, height, resized: false }
    }

    /// The window was given a new size.
    pub fn resize(&mut self, width: u32, height: u32)
        ensures
            *final(self) == (WindowSize { width, height, resized: true }),
    {
        self.width = width;
        self.height = height;
        self.resized = true;
    }

    /// The new size, if the window changed since this was last asked. The
    /// change is reported once.
    pub fn take_resize(&mut self) -> (new_size: Option<(u32, u32)>)
        ensures
            old(self).resized ==> new_size == Some((old(self).width, old(self).height)),
            !old(self).resized ==> new_size is None,
            *final(self) == (WindowSize { resized: false, ..*old(self) }),
    {
        if self.resized {
            self.resized = false;
            Some((self.width, self.height))
        } else {
            None
        }
    }
}

/// `value` held between `low` and `high`: `low` where `value` is less than
/// `low`, `high` where `high` is less than `value`, else `value` itself.
/// `less` says which of two values is less.
pub open spec fn clamped<S, L>(less: L, value: S, low: S, high: S, result: S) -> bool
    where L: Fn(&S, &S) -> bool
{
    ||| call_ensures(less, (&value, &low), true) && result == low
    ||| call_ensures(less, (&value, &low), false) && call_ensures(less, (&high, &value), true) && result
        == high
    ||| call_ensures(less, (&value, &low), false) && call_ensures(less, (&high, &value), false) && result
        == value
}

/// Holds `value` between `low` and `high`. A value beyond a bound comes
/// back as that bound itself.
pub fn clamp<S, L>(value: S, low: S, high: S, less: &L) -> (result: S)
    where L: Fn(&S, &S) -> bool
    requires
        forall|a: S, b: S| call_requires(*less, (&a, &b)),
    ensures
        clamped(*less, value, low, high, result),
{
    if less(&value, &low) {
        low
    } else if less(&high, &value) {
        high
    } else {
        value
    }
}

} // verus!
