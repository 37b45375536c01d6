//! Player input: keyboard transitions are queued as they arrive and resolved
//! once per update into level-triggered flags; gamepad flags are set directly.
//! The flags the player reads are the OR of both sources.

use vstd::prelude::*;

verus! {

/// The game's logical keys.
#[derive(Clone, Copy, PartialEq, Eq, Structural, Debug)]
pub enum Key {
    Left,
    Right,
    Shoot,
}

/// A key transition.
#[derive(Clone, Copy, PartialEq, Eq, Structural, Debug)]
pub enum KeyEvent {
    Up(Key),
    Down(Key),
}

/// The logical key bound to a raw key name: "a" and "ArrowLeft" go left,
/// "d" and "ArrowRight" go right, a space shoots; any other name is ignored.
pub open spec fn key_of(name: Seq<char>) -> Option<Key> {
    if name == "a"@ || name == "ArrowLeft"@ {
        Some(Key::Left)
    } else if name == "d"@ || name == "ArrowRight"@ {
        Some(Key::Right)
    } else if name == " "@ {
        Some(Key::Shoot)
    } else {
        None
    }
}

/// Flags (left, right, shoot) after one transition.
pub open spec fn apply_event(flags: (bool, bool, bool), e: KeyEvent) -> (bool, bool, bool) {
    match e {
        KeyEvent::Down(Key::Left) => (true, flags.1, flags.2),
        KeyEvent::Up(Key::Left) => (false, flags.1, flags.2),
        KeyEvent::Down(Key::Right) => (flags.0, true, flags.2),
        KeyEvent::Up(Key::Right) => (flags.0, false, flags.2),
        KeyEvent::Down(Key::Shoot) => (flags.0, flags.1, true),
        KeyEvent::Up(Key::Shoot) => (flags.0, flags.1, false),
    }
}

/// Flags after the transitions `es`, in order.
pub open spec fn apply_events(flags: (bool, bool, bool), es: Seq<KeyEvent>) -> (bool, bool, bool)
    decreases es.len(),
{
    if es.len() == 0 {
        flags
    } else {
        apply_event(apply_events(flags, es.drop_last()), es.last())
    }
}

/// What the input holds: keyboard flags, gamepad flags (each as left, right,
/// shoot) and the keyboard transitions not yet applied.
pub struct InputView {
    pub keys: (bool, bool, bool),
    pub pad: (bool, bool, bool),
    pub queue: Seq<KeyEvent>,
}

impl InputView {
    pub open spec fn wants_left(self) -> bool {
        self.keys.0 || self.pad.0
    }

    pub open spec fn wants_right(self) -> bool {
        self.keys.1 || self.pad.1
    }

    pub open spec fn wants_shoot(self) -> bool {
        self.keys.2 || self.pad.2
    }

    /// The input once the queued transitions are applied and the queue emptied.
    pub open spec fn resolved(self) -> InputView {
        InputView { keys: apply_events(self.keys, self.queue), pad: self.pad, queue: Seq::empty() }
    }
}

/// Input state: resolved keyboard flags, gamepad flags and the queue of
/// pending keyboard transitions.
pub struct Input {
    go_left: bool,
    go_right: bool,
    shoot: bool,
    gp_go_left: bool,
    gp_go_right: bool,
    gp_shoot: bool,
    event_queue: Vec<KeyEvent>,
}

impl View for Input {
    type V = InputView;

    closed spec fn view(&self) -> InputView {
        InputView {
            keys: (self.go_left, self.go_right, self.shoot),
            pad: (self.gp_go_left, self.gp_go_right, self.gp_shoot),
            queue: self.event_queue@,
        }
    }
}

/// Whether two strings hold the same characters.
fn same_text(a: &str, b: &str) -> (r: bool)
    ensures
        r == (a@ == b@),
{
    let n = a.unicode_len();
    if n != b.unicode_len() {
        return false;
    }
    let mut i: usize = 0;
    while i < n
        invariant
            n == a@.len(),
            n == b@.len(),
            i <= n,
            forall|j: int| 0 <= j < i ==> a@[j] == b@[j],
        decreases n - i,
    {
        if a.get_char(i) != b.get_char(i) {
            return false;
        }
        i = i + 1;
    }
    assert(a@ =~= b@);
    true
}

/// The logical key bound to a raw key name, if any.
fn parse_key(name: &str) -> (r: Option<Key>)
    ensures
        r == key_of(name@),
{
    if same_text(name, "a") || same_text(name, "ArrowLeft") {
        Some(Key::Left)
    } else if same_text(name, "d") || same_text(name, "ArrowRight") {
        Some(Key::Right)
    } else if same_text(name, " ") {
        Some(Key::Shoot)
    } else {
        None
    }
}

impl Input {
    /// No key or button held, no pending transition.
    pub fn new() -> (r: Input)
        ensures
            r@.keys == (false, false, false),
            r@.pad == (false, false, false),
            r@.queue == Seq::<KeyEvent>::empty(),
    {
        Input {
            go_left: false,
            go_right: false,
            shoot: false,
            gp_go_left: false,
            gp_go_right: false,
            gp_shoot: false,
            event_queue: Vec::new(),
        }
    }

    /// Whether the player is asked to go left, by keyboard or gamepad.
    pub fn left(&self) -> (r: bool)
        ensures
            r == self@.wants_left(),
    {
        self.gp_go_left || self.go_left
    }

    /// Whether the player is asked to go right, by keyboard or gamepad.
    pub fn right(&self) -> (r: bool)
        ensures
            r == self@.wants_right(),
    {
        self.gp_go_right || self.go_right
    }

    /// Whether the player is asked to shoot, by keyboard or gamepad.
    pub fn shoot(&self) -> (r: bool)
        ensures
            r == self@.wants_shoot(),
    {
        self.gp_shoot || self.shoot
    }

    /// Overwrite the gamepad flags.
    pub fn set_gamepad_state(&mut self, left: bool, right: bool, shoot: bool)
        ensures
            final(self)@ == (InputView { pad: (left, right, shoot), ..old(self)@ }),
    {
        self.gp_go_left = left;
        self.gp_go_right = right;
        self.gp_shoot = shoot;
    }

    /// Apply the pending keyboard transitions in order to the keyboard flags,
    /// and empty the queue. The flags keep the last transition of each key.
    pub fn update(&mut self, _ts: u32)
        ensures
            final(self)@ == old(self)@.resolved(),
    {
        let n = self.event_queue.len();
        let mut i: usize = 0;
        while i < n
            invariant
                n == self.event_queue@.len(),
                self.event_queue@ == old(self)@.queue,
                i <= n,
                (self.go_left, self.go_right, self.shoot) == apply_events(
                    old(self)@.keys,
                    old(self)@.queue.subrange(0, i as int),
                ),
                (self.gp_go_left, self.gp_go_right, self.gp_shoot) == old(self)@.pad,
            decreases n - i,
        {
            let e = self.event_queue[i];
            match e {
                KeyEvent::Down(Key::Left) => self.go_left = true,
                KeyEvent::Up(Key::Left) => self.go_left = false,
                KeyEvent::Down(Key::Right) => self.go_right = true,
                KeyEvent::Up(Key::Right) => self.go_right = false,
                KeyEvent::Down(Key::Shoot) => self.shoot = true,
                KeyEvent::Up(Key::Shoot) => self.shoot = false,
            }
            assert(old(self)@.queue.subrange(0, i + 1).drop_last() =~= old(self)@.queue.subrange(
                0,
                i as int,
            ));
            i = i + 1;
        }
        assert(old(self)@.queue.subrange(0, n as int) =~= old(self)@.queue);
        self.event_queue = Vec::new();
        assert(self@.queue =~= Seq::<KeyEvent>::empty());
    }

    /// Queue the transition of the key named `key` (down when `is_down`); a
    /// name bound to no logical key is dropped.
    pub fn keyboard_event(&mut self, is_down: bool, key: &str)
        ensures
            final(self)@.keys == old(self)@.keys,
            final(self)@.pad == old(self)@.pad,
            final(self)@.queue == match key_of(key@) {
                Some(k) => old(self)@.queue.push(
                    if is_down {
                        KeyEvent::Down(k)
                    } else {
                        KeyEvent::Up(k)
                    },
                ),
                None => old(self)@.queue,
            },
    {
        let k = match parse_key(key) {
            Some(k) => k,
            None => return ,
        };
        let event = if is_down {
            KeyEvent::Down(k)
        } else {
            KeyEvent::Up(k)
        };
        self.event_queue.push(event);
    }
}

} // verus!
