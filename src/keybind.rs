//! Keys, modifiers and the registry of hotkey bindings.
use vstd::prelude::*;

use crate::config::{Action, Binding};

verus! {

/// A modifier key held down as part of a chord.
#[derive(Debug, Clone, Copy, PartialEq, Eq, Structural)]
pub enum Modifier {
    Control,
    Alt,
    Shift,
    Super,
}

/// Flag of the Alt modifier in a hotkey registration.
pub const MOD_ALT: u32 = 0x0001;

/// Flag of the Control modifier in a hotkey registration.
pub const MOD_CONTROL: u32 = 0x0002;

/// Flag of the Shift modifier in a hotkey registration.
pub const MOD_SHIFT: u32 = 0x0004;

/// Flag of the Windows (Super) key in a hotkey registration.
pub const MOD_WIN: u32 = 0x0008;

/// Flag asking that holding the chord down does not fire it again.
pub const MOD_NOREPEAT: u32 = 0x4000;

/// The registration flag of one modifier.
pub open spec fn modifier_flag(modifier: Modifier) -> u32 {
    match modifier {
        Modifier::Control => MOD_CONTROL,
        Modifier::Alt => MOD_ALT,
        Modifier::Shift => MOD_SHIFT,
        Modifier::Super => MOD_WIN,
    }
}

/// The registration flag of `modifier`.
pub fn modifier_to_flag_code(modifier: &Modifier) -> (r: u32)
    ensures
        r == modifier_flag(*modifier),
{
    match modifier {
        Modifier::Control => MOD_CONTROL,
        Modifier::Alt => MOD_ALT,
        Modifier::Shift => MOD_SHIFT,
        Modifier::Super => MOD_WIN,
    }
}

pub open spec fn flag_if(present: bool, flag: u32) -> u32 {
    if present {
        flag
    } else {
        0
    }
}

/// The flags of the modifiers that occur in `modifiers`, whatever their
/// order and however often each occurs.
pub open spec fn modifier_bits(modifiers: Seq<Modifier>) -> u32 {
    flag_if(modifiers.contains(Modifier::Alt), MOD_ALT) | flag_if(
        modifiers.contains(Modifier::Control),
        MOD_CONTROL,
    ) | flag_if(modifiers.contains(Modifier::Shift), MOD_SHIFT) | flag_if(
        modifiers.contains(Modifier::Super),
        MOD_WIN,
    )
}

/// The flags with which a chord holding `modifiers` is registered: one for
/// each modifier present, and the flag that suppresses auto-repeat.
pub open spec fn chord_flags(modifiers: Seq<Modifier>) -> u32 {
    modifier_bits(modifiers) | MOD_NOREPEAT
}

/// Adding one modifier's flag to a set of flags sets that flag alone.
proof fn lemma_add_flag(a: u32, c: u32, s: u32, w: u32)
    by (bit_vector)
    requires
        a == 0 || a == 1,
        c == 0 || c == 2,
        s == 0 || s == 4,
        w == 0 || w == 8,
    ensures
        (a | c | s | w) | 1 == 1 | c | s | w,
        (a | c | s | w) | 2 == a | 2 | s | w,
        (a | c | s | w) | 4 == a | c | 4 | w,
        (a | c | s | w) | 8 == a | c | s | 8,
{
}

/// The registration flags of a chord with these modifiers.
pub fn modifier_flags(modifiers: &Vec<Modifier>) -> (r: u32)
    ensures
        r == chord_flags(modifiers@),
{
    let mut bits: u32 = 0;
    proof {
        assert(0u32 | 0u32 | 0u32 | 0u32 == 0u32) by (bit_vector);
        assert(modifiers@.take(0) =~= Seq::<Modifier>::empty());
    }
    for i in 0..modifiers.len()
        invariant
            bits == modifier_bits(modifiers@.take(i as int)),
    {
        let modifier = modifiers[i];
        proof {
            let prefix = modifiers@.take(i as int);
            let next = modifiers@.take(i + 1);
            assert(next == prefix.push(modifier));
            assert forall|m: Modifier| #[trigger] next.contains(m) == (prefix.contains(m) || m
                == modifier) by {
                if m == modifier {
                    assert(next[i as int] == m);
                }
                if prefix.contains(m) {
                    let j = choose|j: int| 0 <= j < prefix.len() && prefix[j] == m;
                    assert(next[j] == m);
                }
                if next.contains(m) {
                    let j = choose|j: int| 0 <= j < next.len() && next[j] == m;
                    if j < i {
                        assert(prefix[j] == m);
                    }
                }
            }
            lemma_add_flag(
                flag_if(prefix.contains(Modifier::Alt), MOD_ALT),
                flag_if(prefix.contains(Modifier::Control), MOD_CONTROL),
                flag_if(prefix.contains(Modifier::Shift), MOD_SHIFT),
                flag_if(prefix.contains(Modifier::Super), MOD_WIN),
            );
        }
        bits = bits | modifier_to_flag_code(&modifier);
    }
    proof {
        assert(modifiers@.take(modifiers@.len() as int) == modifiers@);
    }
    bits | MOD_NOREPEAT
}

/// A physical key that a chord can name.
#[derive(Debug, Clone, Copy, PartialEq, Eq, Structural)]
pub enum Key {
    Backspace,
    Tab,
    Clear,
    Enter,
    Pause,
    CapsLock,
    Escape,
    Space,
    PageUp,
    PageDown,
    End,
    Home,
    Left,
    Up,
    Right,
    Down,
    Select,
    PrintScreen,
    Insert,
    Delete,
    Zero,
    One,
    Two,
    Three,
    Four,
    Five,
    Six,
    Seven,
    Eight,
    Nine,
    A,
    B,
    C,
    D,
    E,
    F,
    G,
    H,
    I,
    J,
    K,
    L,
    M,
    N,
    O,
    P,
    Q,
    R,
    S,
    T,
    U,
    V,
    W,
    X,
    Y,
    Z,
    NumpadZero,
    NumpadOne,
    NumpadTwo,
    NumpadThree,
    NumpadFour,
    NumpadFive,
    NumpadSix,
    NumpadSeven,
    NumpadEight,
    NumpadNine,
    Multiply,
    Plus,
    Minus,
    Decimal,
    Divide,
    F1,
    F2,
    F3,
    F4,
    F5,
    F6,
    F7,
    F8,
    F9,
    F10,
    F11,
    F12,
    F13,
    F14,
    F15,
    F16,
    F17,
    F18,
    F19,
    F20,
    F21,
    F22,
    F23,
    F24,
    NumLock,
    ScrollLock,
}

/// The virtual-key code by which the host knows `key`.
pub open spec fn virtual_key_code(key: Key) -> u32 {
    match key {
        Key::Backspace => 0x08,
        Key::Tab => 0x09,
        Key::Clear => 0x0C,
        Key::Enter => 0x0D,
        Key::Pause => 0x13,
        Key::CapsLock => 0x14,
        Key::Escape => 0x1B,
        Key::Space => 0x20,
        Key::PageUp => 0x21,
        Key::PageDown => 0x22,
        Key::End => 0x23,
        Key::Home => 0x24,
        Key::Left => 0x25,
        Key::Up => 0x26,
        Key::Right => 0x27,
        Key::Down => 0x28,
        Key::Select => 0x29,
        Key::PrintScreen => 0x2C,
        Key::Insert => 0x2D,
        Key::Delete => 0x2E,
        Key::Zero => 0x30,
        Key::One => 0x31,
        Key::Two => 0x32,
        Key::Three => 0x33,
        Key::Four => 0x34,
        Key::Five => 0x35,
        Key::Six => 0x36,
        Key::Seven => 0x37,
        Key::Eight => 0x38,
        Key::Nine => 0x39,
        Key::A => 0x41,
        Key::B => 0x42,
        Key::C => 0x43,
        Key::D => 0x44,
        Key::E => 0x45,
        Key::F => 0x46,
        Key::G => 0x47,
        Key::H => 0x48,
        Key::I => 0x49,
        Key::J => 0x4A,
        Key::K => 0x4B,
        Key::L => 0x4C,
        Key::M => 0x4D,
        Key::N => 0x4E,
        Key::O => 0x4F,
        Key::P => 0x50,
        Key::Q => 0x51,
        Key::R => 0x52,
        Key::S => 0x53,
        Key::T => 0x54,
        Key::U => 0x55,
        Key::V => 0x56,
        Key::W => 0x57,
        Key::X => 0x58,
        Key::Y => 0x59,
        Key::Z => 0x5A,
        Key::NumpadZero => 0x60,
        Key::NumpadOne => 0x61,
        Key::NumpadTwo => 0x62,
        Key::NumpadThree => 0x63,
        Key::NumpadFour => 0x64,
        Key::NumpadFive => 0x65,
        Key::NumpadSix => 0x66,
        Key::NumpadSeven => 0x67,
        Key::NumpadEight => 0x68,
        Key::NumpadNine => 0x69,
        Key::Multiply => 0x6A,
        Key::Plus => 0x6B,
        Key::Minus => 0x6D,
        Key::Decimal => 0x6E,
        Key::Divide => 0x6F,
        Key::F1 => 0x70,
        Key::F2 => 0x71,
        Key::F3 => 0x72,
        Key::F4 => 0x73,
        Key::F5 => 0x74,
        Key::F6 => 0x75,
        Key::F7 => 0x76,
        Key::F8 => 0x77,
        Key::F9 => 0x78,
        Key::F10 => 0x79,
        Key::F11 => 0x7A,
        Key::F12 => 0x7B,
        Key::F13 => 0x7C,
        Key::F14 => 0x7D,
        Key::F15 => 0x7E,
        Key::F16 => 0x7F,
        Key::F17 => 0x80,
        Key::F18 => 0x81,
        Key::F19 => 0x82,
        Key::F20 => 0x83,
        Key::F21 => 0x84,
        Key::F22 => 0x85,
        Key::F23 => 0x86,
        Key::F24 => 0x87,
        Key::NumLock => 0x90,
        Key::ScrollLock => 0x91,
    }
}

impl Key {
    /// The virtual-key code of this key.
    pub fn code(&self) -> (r: u32)
        ensures
            r == virtual_key_code(*self),
    {
        match self {
            Key::Backspace => 0x08,
            Key::Tab => 0x09,
            Key::Clear => 0x0C,
            Key::Enter => 0x0D,
            Key::Pause => 0x13,
            Key::CapsLock => 0x14,
            Key::Escape => 0x1B,
            Key::Space => 0x20,
            Key::PageUp => 0x21,
            Key::PageDown => 0x22,
            Key::End => 0x23,
            Key::Home => 0x24,
            Key::Left => 0x25,
            Key::Up => 0x26,
            Key::Right => 0x27,
            Key::Down => 0x28,
            Key::Select => 0x29,
            Key::PrintScreen => 0x2C,
            Key::Insert => 0x2D,
            Key::Delete => 0x2E,
            Key::Zero => 0x30,
            Key::One => 0x31,
            Key::Two => 0x32,
            Key::Three => 0x33,
            Key::Four => 0x34,
            Key::Five => 0x35,
            Key::Six => 0x36,
            Key::Seven => 0x37,
            Key::Eight => 0x38,
            Key::Nine => 0x39,
            Key::A => 0x41,
            Key::B => 0x42,
            Key::C => 0x43,
            Key::D => 0x44,
            Key::E => 0x45,
            Key::F => 0x46,
            Key::G => 0x47,
            Key::H => 0x48,
            Key::I => 0x49,
            Key::J => 0x4A,
            Key::K => 0x4B,
            Key::L => 0x4C,
            Key::M => 0x4D,
            Key::N => 0x4E,
            Key::O => 0x4F,
            Key::P => 0x50,
            Key::Q => 0x51,
            Key::R => 0x52,
            Key::S => 0x53,
            Key::T => 0x54,
            Key::U => 0x55,
            Key::V => 0x56,
            Key::W => 0x57,
            Key::X => 0x58,
            Key::Y => 0x59,
            Key::Z => 0x5A,
            Key::NumpadZero => 0x60,
            Key::NumpadOne => 0x61,
            Key::NumpadTwo => 0x62,
            Key::NumpadThree => 0x63,
            Key::NumpadFour => 0x64,
            Key::NumpadFive => 0x65,
            Key::NumpadSix => 0x66,
            Key::NumpadSeven => 0x67,
            Key::NumpadEight => 0x68,
            Key::NumpadNine => 0x69,
            Key::Multiply => 0x6A,
            Key::Plus => 0x6B,
            Key::Minus => 0x6D,
            Key::Decimal => 0x6E,
            Key::Divide => 0x6F,
            Key::F1 => 0x70,
            Key::F2 => 0x71,
            Key::F3 => 0x72,
            Key::F4 => 0x73,
            Key::F5 => 0x74,
            Key::F6 => 0x75,
            Key::F7 => 0x76,
            Key::F8 => 0x77,
            Key::F9 => 0x78,
            Key::F10 => 0x79,
            Key::F11 => 0x7A,
            Key::F12 => 0x7B,
            Key::F13 => 0x7C,
            Key::F14 => 0x7D,
            Key::F15 => 0x7E,
            Key::F16 => 0x7F,
            Key::F17 => 0x80,
            Key::F18 => 0x81,
            Key::F19 => 0x82,
            Key::F20 => 0x83,
            Key::F21 => 0x84,
            Key::F22 => 0x85,
            Key::F23 => 0x86,
            Key::F24 => 0x87,
            Key::NumLock => 0x90,
            Key::ScrollLock => 0x91,
        }
    }
}

/// What the registry holds for `id`: the binding registered under it, if any.
pub open spec fn lookup(registry: Seq<Binding>, id: int) -> Option<Binding> {
    if 0 <= id < registry.len() {
        Some(registry[id])
    } else {
        None
    }
}

/// The registry after an attempt to register `binding`: it grows by that
/// binding only where the host accepted the chord.
pub open spec fn after_attempt(registry: Seq<Binding>, binding: Binding, subscribed: bool) -> Seq<
    Binding,
> {
    if subscribed {
        registry.push(binding)
    } else {
        registry
    }
}

/// What the host is asked to subscribe for one binding: the identifier that
/// activations of the chord will carry, the modifier flags and the key.
#[derive(Debug, Clone, Copy, PartialEq, Eq, Structural)]
pub struct HotkeyRequest {
    pub id: i32,
    pub modifiers: u32,
    pub key_code: u32,
}

/// A message that the host delivers to the dispatch loop.
#[derive(Debug, Clone, Copy, PartialEq, Eq, Structural)]
pub enum KeybindMessage {
    /// The chord subscribed under this identifier was pressed.
    BindActivated(i32),
    /// The loop is asked to stop.
    Quit,
    /// The host's event source failed with this error code.
    Error(u32),
}

/// What the dispatch loop does with one message.
#[derive(Debug, Clone, Copy, PartialEq, Eq, Structural)]
pub enum Dispatch {
    /// Carry out this action on the focused window, then go on listening.
    Perform(Action),
    /// No binding has this identifier: drop the message and go on listening.
    Discard(i32),
    /// Stop listening; the loop ends normally.
    Quit,
    /// Stop listening; the loop ends with this host error.
    Fail(u32),
}

/// The registry of hotkey bindings. Identifiers are handed out in order,
/// starting at zero, one for each binding that the host accepted; a refused
/// registration uses none, and no identifier is given twice.
pub struct Keybinds {
    active_binds: Vec<Binding>,
}

impl View for Keybinds {
    /// The bindings in order of registration: the one at index `i` has
    /// identifier `i`.
    type V = Seq<Binding>;

    closed spec fn view(&self) -> Seq<Binding> {
        self.active_binds@
    }
}

impl Keybinds {
    /// Every identifier handed out, and the next one, fit in an `i32`.
    #[verifier::type_invariant]
    spec fn ids_fit(self) -> bool {
        self.active_binds@.len() <= i32::MAX
    }

    /// An empty registry.
    pub fn new() -> (r: Keybinds)
        ensures
            r@ == Seq::<Binding>::empty(),
    {
        Keybinds { active_binds: Vec::new() }
    }

    /// The identifier that the next successful registration receives.
    pub fn next_id(&self) -> (r: i32)
        ensures
            r as int == self@.len(),
    {
        proof {
            use_type_invariant(self);
        }
        self.active_binds.len() as i32
    }

    /// The subscription that registering `binding` asks of the host.
    pub fn hotkey_request(&self, binding: &Binding) -> (r: HotkeyRequest)
        ensures
            r.id as int == self@.len(),
            r.modifiers == chord_flags(binding.modifiers@),
            r.key_code == virtual_key_code(binding.key),
    {
        proof {
            use_type_invariant(self);
        }
        HotkeyRequest {
            id: self.next_id(),
            modifiers: modifier_flags(&binding.modifiers),
            key_code: binding.key.code(),
        }
    }

    /// Records the outcome of asking the host for `binding`'s subscription
    /// (see `hotkey_request`). Where the host accepted, the binding is
    /// stored under the next identifier, which is returned; where it
    /// refused, nothing changes and the identifier stays free.
    pub fn register_keybind(&mut self, binding: Binding, subscribed: bool) -> (r: Result<i32, ()>)
        requires
            old(self)@.len() < i32::MAX,
        ensures
            final(self)@ == after_attempt(old(self)@, binding, subscribed),
            r == (if subscribed {
                Ok::<i32, ()>(old(self)@.len() as i32)
            } else {
                Err::<i32, ()>(())
            }),
    {
        proof {
            use_type_invariant(&*self);
        }
        if !subscribed {
            return Err(());
        }
        let id = self.active_binds.len() as i32;
        let mut binds = Vec::new();
        std::mem::swap(&mut self.active_binds, &mut binds);
        binds.push(binding);
        std::mem::swap(&mut self.active_binds, &mut binds);
        Ok(id)
    }

    /// The binding registered under `id`, if there is one.
    pub fn resolve(&self, id: i32) -> (r: Option<&Binding>)
        ensures
            match r {
                Some(binding) => lookup(self@, id as int) == Some(*binding),
                None => lookup(self@, id as int) is None,
            },
    {
        proof {
            use_type_invariant(self);
        }
        if 0 <= id && (id as usize) < self.active_binds.len() {
            Some(&self.active_binds[id as usize])
        } else {
            None
        }
    }

    /// Decides what the dispatch loop does with `message`: an activation of
    /// a registered identifier performs its binding's action, one of an
    /// unknown identifier is discarded, a quit message ends the loop, and a
    /// host error ends it with that error.
    pub fn handle_message(&self, message: KeybindMessage) -> (r: Dispatch)
        ensures
            r == (match message {
                KeybindMessage::BindActivated(id) => match lookup(self@, id as int) {
                    Some(binding) => Dispatch::Perform(binding.action),
                    None => Dispatch::Discard(id),
                },
                KeybindMessage::Quit => Dispatch::Quit,
                KeybindMessage::Error(code) => Dispatch::Fail(code),
            }),
    {
        match message {
            KeybindMessage::BindActivated(id) => match self.resolve(id) {
                Some(binding) => Dispatch::Perform(binding.action),
                None => Dispatch::Discard(id),
            },
            KeybindMessage::Quit => Dispatch::Quit,
            KeybindMessage::Error(code) => Dispatch::Fail(code),
        }
    }
}

/// The registry after a series of registration attempts, each a binding and
/// whether the host accepted its chord.
pub open spec fn replay(registry: Seq<Binding>, attempts: Seq<(Binding, bool)>) -> Seq<Binding>
    decreases attempts.len(),
{
    if attempts.len() == 0 {
        registry
    } else {
        let last = attempts.last();
        after_attempt(replay(registry, attempts.drop_last()), last.0, last.1)
    }
}

/// How many of the attempts the host accepted.
pub open spec fn accepted_count(attempts: Seq<(Binding, bool)>) -> nat
    decreases attempts.len(),
{
    if attempts.len() == 0 {
        0
    } else {
        accepted_count(attempts.drop_last()) + if attempts.last().1 {
            1nat
        } else {
            0nat
        }
    }
}

/// A registry replayed over attempts keeps what it held and grows by one
/// binding for each accepted attempt, in order.
proof fn lemma_replay_extends(registry: Seq<Binding>, attempts: Seq<(Binding, bool)>, i: int)
    requires
        0 <= i <= attempts.len(),
    ensures
        replay(registry, attempts).len() == registry.len() + accepted_count(attempts),
        replay(registry, attempts.take(i)).len() <= replay(registry, attempts).len(),
        forall|k: int|
            0 <= k < replay(registry, attempts.take(i)).len() ==> #[trigger] replay(
                registry,
                attempts,
            )[k] == replay(registry, attempts.take(i))[k],
    decreases attempts.len(),
{
    if attempts.len() == 0 {
        assert(attempts.take(i) == attempts);
    } else if i == attempts.len() {
        assert(attempts.take(i) == attempts);
        lemma_replay_extends(registry, attempts.drop_last(), 0);
    } else {
        lemma_replay_extends(registry, attempts.drop_last(), i);
        assert(attempts.drop_last().take(i) == attempts.take(i));
    }
}

/// Registering and then resolving the returned identifier gives back the
/// registered binding, for any series of registrations, including refused
/// ones in between, which consume no identifier: the binding of the `i`-th
/// accepted attempt is found under the identifier that follows those of the
/// registry's earlier bindings and of the accepted attempts before it.
pub proof fn lemma_register_then_resolve(
    registry: Seq<Binding>,
    attempts: Seq<(Binding, bool)>,
    i: int,
)
    requires
        0 <= i < attempts.len(),
        attempts[i].1,
    ensures
        ({
            let id = replay(registry, attempts.take(i)).len() as int;
            &&& id == registry.len() + accepted_count(attempts.take(i))
            &&& lookup(replay(registry, attempts), id) == Some(attempts[i].0)
        }),
{
    let before = attempts.take(i);
    let through = attempts.take(i + 1);
    assert(through.drop_last() == before);
    assert(through.last() == attempts[i]);
    lemma_replay_extends(registry, before, i);
    lemma_replay_extends(registry, attempts, i + 1);
    let id = replay(registry, before).len() as int;
    assert(replay(registry, through)[id] == attempts[i].0);
}

} // verus!
