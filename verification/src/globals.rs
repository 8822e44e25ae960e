//! The input snapshot shared between the input driver and applications.

use vstd::prelude::*;

verus! {

/// Number of key slots in the snapshot.
pub const KEY_COUNT: usize = 1024;

/// Number of entries in the event ring.
pub const HISTORY_SIZE: usize = 64;

/// Six-valued state of one key, recording both the level and what happened
/// to it since the last frame.
#[derive(Clone, Copy, Debug, PartialEq, Eq, Structural)]
pub enum KeyState {
    /// Released, and was released last frame.
    Off,
    /// Released now, was pressed last frame.
    OffFromOn,
    /// Released now and last frame, but pressed in between.
    OffTransientOn,
    /// Pressed now, was released last frame.
    OnFromOff,
    /// Pressed now and last frame, but released in between.
    OnTransientOff,
    /// Pressed, and was pressed last frame.
    On,
}

impl KeyState {
    /// Whether the key is currently held down.
    pub open spec fn is_on(self) -> bool {
        self == KeyState::OnFromOff || self == KeyState::OnTransientOff || self == KeyState::On
    }

    /// Whether the state carries no edge or transient information.
    pub open spec fn is_settled(self) -> bool {
        self == KeyState::Off || self == KeyState::On
    }

    /// The state after a press (`b`) or release (`!b`) event.
    pub open spec fn after_event(self, b: bool) -> KeyState {
        match (self, b) {
            (KeyState::Off, true) => KeyState::OnFromOff,
            (KeyState::On, false) => KeyState::OffFromOn,
            (KeyState::OffFromOn, true) => KeyState::OnTransientOff,
            (KeyState::OnFromOff, false) => KeyState::OffTransientOn,
            (_, false) => KeyState::Off,
            (_, true) => KeyState::On,
        }
    }

    /// The state after the end of a frame.
    pub open spec fn after_step(self) -> KeyState {
        if self.is_on() {
            KeyState::On
        } else {
            KeyState::Off
        }
    }

    /// The byte that stands for this state in the application-facing snapshot.
    pub open spec fn code(self) -> u8 {
        match self {
            KeyState::Off => 0,
            KeyState::OffFromOn => 1,
            KeyState::OffTransientOn => 2,
            KeyState::OnFromOff => 128,
            KeyState::OnTransientOff => 129,
            KeyState::On => 130,
        }
    }

    /// Applies a press or release event.
    pub fn handle_incoming_state(&mut self, b: bool)
        ensures
            *final(self) == old(self).after_event(b),
            final(self).is_on() == b,
    {
        *self = match (*self, b) {
            (KeyState::Off, true) => KeyState::OnFromOff,
            (KeyState::On, false) => KeyState::OffFromOn,
            (KeyState::OffFromOn, true) => KeyState::OnTransientOff,
            (KeyState::OnFromOff, false) => KeyState::OffTransientOn,
            (_, false) => KeyState::Off,
            (_, true) => KeyState::On,
        }
    }

    /// Ends the frame: edges and transients collapse to the plain level.
    pub fn step(&mut self)
        ensures
            *final(self) == old(self).after_step(),
            final(self).is_settled(),
            final(self).is_on() == old(self).is_on(),
    {
        *self = match *self {
            KeyState::OffTransientOn => KeyState::Off,
            KeyState::OffFromOn => KeyState::Off,
            KeyState::OnFromOff => KeyState::On,
            KeyState::OnTransientOff => KeyState::On,
            _ => *self,
        }
    }

    /// Encodes the state as its snapshot byte.
    pub fn to_u8(&self) -> (r: u8)
        ensures
            r == self.code(),
    {
        match self {
            KeyState::Off => 0,
            KeyState::OffFromOn => 1,
            KeyState::OffTransientOn => 2,
            KeyState::OnFromOff => 128,
            KeyState::OnTransientOff => 129,
            KeyState::On => 130,
        }
    }
}

impl Default for KeyState {
    fn default() -> (r: Self)
        ensures
            r == KeyState::Off,
    {
        KeyState::Off
    }
}

/// One press or release, as recorded in the event ring.
#[derive(Clone, Copy, Debug, PartialEq, Eq, Structural)]
pub struct InputEvent {
    /// `true` for a press, `false` for a release.
    pub trigger: bool,
    /// Key code of the event.
    pub key: usize,
}

/// The full input snapshot: pointer position, key states and the ring of
/// the most recent events.
#[derive(Clone, Copy, Debug)]
pub struct Input {
    pub mouse_x: usize,
    pub mouse_y: usize,
    pub keys: [KeyState; 1024],
    pub history_last_index: usize,
    pub history_ring: [InputEvent; 64],
}

/// The input snapshot as plain values.
#[verifier::ext_equal]
pub struct InputState {
    pub mouse_x: usize,
    pub mouse_y: usize,
    pub keys: Seq<KeyState>,
    pub history_last_index: usize,
    pub history_ring: Seq<InputEvent>,
}

impl View for Input {
    type V = InputState;

    open spec fn view(&self) -> InputState {
        InputState {
            mouse_x: self.mouse_x,
            mouse_y: self.mouse_y,
            keys: self.keys@,
            history_last_index: self.history_last_index,
            history_ring: self.history_ring@,
        }
    }
}

impl InputState {
    /// The snapshot after a press (`b`) or release of `key`: the event
    /// counter goes up by one, the event goes into the ring slot of the
    /// new count, and the key takes the event.
    pub open spec fn pressed(self, key: usize, b: bool) -> InputState {
        InputState {
            history_last_index: (self.history_last_index + 1) as usize,
            history_ring: self.history_ring.update(
                (self.history_last_index + 1) % 64,
                InputEvent { trigger: b, key },
            ),
            keys: self.keys.update(key as int, self.keys[key as int].after_event(b)),
            ..self
        }
    }

    /// The snapshot has its 1024 keys and its 64 ring slots.
    pub open spec fn sized(self) -> bool {
        self.keys.len() == 1024 && self.history_ring.len() == 64
    }

    /// The most recent event in the ring agrees with the level of its
    /// key: a press leaves the key on, a release leaves it off.
    pub open spec fn consistent(self) -> bool {
        self.history_last_index > 0 ==> {
            let e = self.history_ring[self.history_last_index as int % 64];
            e.key < 1024 && (e.trigger <==> self.keys[e.key as int].is_on())
        }
    }

    /// The snapshot after the end of a frame.
    pub open spec fn stepped(self) -> InputState {
        InputState { keys: Seq::new(1024, |i: int| self.keys[i].after_step()), ..self }
    }

    /// The snapshot after the pointer has moved horizontally.
    pub open spec fn moved_x(self, delta: i32) -> InputState {
        InputState { mouse_x: moved(self.mouse_x, delta) as usize, ..self }
    }

    /// The snapshot after the pointer has moved vertically.
    pub open spec fn moved_y(self, delta: i32) -> InputState {
        InputState { mouse_y: moved(self.mouse_y, delta) as usize, ..self }
    }
}

/// Every press and release leaves the ring and the keys in agreement:
/// the event in the ring slot of the new count is the one just taken,
/// and its key is on after a press and off after a release.
pub proof fn lemma_pressed_consistent(s: InputState, key: usize, b: bool)
    requires
        s.sized(),
        key < 1024,
        s.history_last_index < usize::MAX,
    ensures
        s.pressed(key, b).sized(),
        s.pressed(key, b).consistent(),
        s.pressed(key, b).history_ring[(s.history_last_index + 1) % 64] == (InputEvent {
            trigger: b,
            key,
        }),
        s.pressed(key, b).keys[key as int].is_on() == b,
{
}

/// The end of a frame keeps the ring and the keys in agreement.
pub proof fn lemma_stepped_consistent(s: InputState)
    requires
        s.sized(),
        s.consistent(),
    ensures
        s.stepped().sized(),
        s.stepped().consistent(),
{
}

/// Pointer coordinate `pos` moved by `delta`, never below zero.
pub open spec fn moved(pos: usize, delta: i32) -> int {
    if pos + delta < 0 {
        0
    } else {
        pos + delta
    }
}

/// Moves one pointer coordinate by a signed amount, clamping at zero.
pub fn move_axis(pos: usize, delta: i32) -> (r: usize)
    requires
        pos + delta <= usize::MAX,
    ensures
        r == moved(pos, delta),
{
    if delta >= 0 {
        pos + (delta as usize)
    } else {
        let back: usize = (-(delta as i64)) as usize;
        if back > pos {
            0
        } else {
            pos - back
        }
    }
}

impl Input {
    /// Ring slot that holds the most recent event.
    pub open spec fn last_slot(self) -> int {
        self.history_last_index as int % 64
    }

    /// The most recent event in the ring agrees with the level of its key:
    /// a press leaves the key on, a release leaves it off.
    pub open spec fn last_event_consistent(self) -> bool {
        self.history_last_index > 0 ==> {
            let e = self.history_ring[self.last_slot()];
            e.key < 1024 && (e.trigger <==> self.keys[e.key as int].is_on())
        }
    }

    /// The snapshot before any event: pointer at the origin, every key
    /// `Off`, an empty ring.
    pub fn new() -> (r: Self)
        ensures
            r.mouse_x == 0,
            r.mouse_y == 0,
            r.history_last_index == 0,
            forall|i: int| 0 <= i < 1024 ==> r.keys[i] == KeyState::Off,
            forall|i: int|
                0 <= i < 64 ==> r.history_ring[i] == (InputEvent { trigger: false, key: 0 }),
            r.last_event_consistent(),
    {
        Self {
            mouse_x: 0,
            mouse_y: 0,
            keys: [KeyState::Off;1024],
            history_last_index: 0,
            history_ring: [InputEvent { trigger: false, key: 0 };64],
        }
    }

    /// Ends the frame for every key. Afterwards every key is `Off` or `On`.
    pub fn step(&mut self)
        ensures
            forall|i: int| 0 <= i < 1024 ==> final(self).keys[i] == old(self).keys[i].after_step(),
            forall|i: int| 0 <= i < 1024 ==> final(self).keys[i].is_settled(),
            final(self).mouse_x == old(self).mouse_x,
            final(self).mouse_y == old(self).mouse_y,
            final(self).history_last_index == old(self).history_last_index,
            final(self).history_ring == old(self).history_ring,
            old(self).last_event_consistent() ==> final(self).last_event_consistent(),
            final(self)@ == old(self)@.stepped(),
    {
        let mut i: usize = 0;
        while i < 1024
            invariant
                i <= 1024,
                forall|j: int| 0 <= j < i ==> self.keys[j] == old(self).keys[j].after_step(),
                forall|j: int| i <= j < 1024 ==> self.keys[j] == old(self).keys[j],
                self.mouse_x == old(self).mouse_x,
                self.mouse_y == old(self).mouse_y,
                self.history_last_index == old(self).history_last_index,
                self.history_ring == old(self).history_ring,
            decreases 1024 - i,
        {
            let mut k: KeyState = self.keys[i];
            k.step();
            self.keys[i] = k;
            i += 1;
        }
        assert(self@ =~= old(self)@.stepped());
    }

    /// Records a press or release of `key`: the event goes into the next
    /// ring slot and the key's state machine advances.
    pub fn handle_incoming_state(&mut self, key: usize, b: bool)
        requires
            key < 1024,
            old(self).history_last_index < usize::MAX,
        ensures
            final(self).history_last_index == old(self).history_last_index + 1,
            final(self).history_ring@ == old(self).history_ring@.update(
                final(self).last_slot(),
                InputEvent { trigger: b, key },
            ),
            final(self).keys@ == old(self).keys@.update(
                key as int,
                old(self).keys[key as int].after_event(b),
            ),
            final(self).mouse_x == old(self).mouse_x,
            final(self).mouse_y == old(self).mouse_y,
            final(self).last_event_consistent(),
            final(self)@ == old(self)@.pressed(key, b),
    {
        self.history_last_index += 1;
        let slot: usize = self.history_last_index % HISTORY_SIZE;
        self.history_ring[slot] = InputEvent { trigger: b, key };
        let mut k: KeyState = self.keys[key];
        k.handle_incoming_state(b);
        self.keys[key] = k;
    }

    /// Moves the pointer horizontally by `delta` pixels, stopping at zero.
    pub fn move_x(&mut self, delta: i32)
        requires
            old(self).mouse_x + delta <= usize::MAX,
        ensures
            final(self).mouse_x == moved(old(self).mouse_x, delta),
            final(self).mouse_y == old(self).mouse_y,
            final(self).keys == old(self).keys,
            final(self).history_last_index == old(self).history_last_index,
            final(self).history_ring == old(self).history_ring,
            final(self)@ == old(self)@.moved_x(delta),
    {
        self.mouse_x = move_axis(self.mouse_x, delta);
    }

    /// Moves the pointer vertically by `delta` pixels, stopping at zero.
    pub fn move_y(&mut self, delta: i32)
        requires
            old(self).mouse_y + delta <= usize::MAX,
        ensures
            final(self).mouse_y == moved(old(self).mouse_y, delta),
            final(self).mouse_x == old(self).mouse_x,
            final(self).keys == old(self).keys,
            final(self).history_last_index == old(self).history_last_index,
            final(self).history_ring == old(self).history_ring,
            final(self)@ == old(self)@.moved_y(delta),
    {
        self.mouse_y = move_axis(self.mouse_y, delta);
    }
}

} // verus!
