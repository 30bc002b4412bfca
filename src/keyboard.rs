use vstd::prelude::*;

verus! {

/// Number of keys on the hex keypad.
pub const KEY_COUNT: usize = 16;

/// The character of the host key that stands for each hex key, in order
/// of hex value: the left four columns of a QWERTY keyboard.
pub open spec fn keymap() -> Seq<char> {
    seq!['v', 'q', 'w', 'e', 'a', 's', 'd', 'z', 'x', 'c', '1', '2', '3', '4', 'r', 'f']
}

/// Whether hex key `hex` is held in the key states `keys`; a value above
/// 0xF names no key and is never held.
pub open spec fn key_held(keys: Seq<bool>, hex: u8) -> bool {
    hex < KEY_COUNT && keys[hex as int]
}

/// The state of the sixteen keys of the hex keypad, as last reported by the
/// input device.
pub struct Keyboard {
    key_states: [bool; 16],
}

impl View for Keyboard {
    type V = Seq<bool>;

    closed spec fn view(&self) -> Seq<bool> {
        self.key_states@
    }
}

impl Keyboard {
    /// One state per key.
    pub open spec fn wf(&self) -> bool {
        self@.len() == KEY_COUNT
    }

    /// A keypad with every key released.
    pub fn new() -> (r: Keyboard)
        ensures
            r.wf(),
            forall|k: int| 0 <= k < KEY_COUNT ==> !#[trigger] r@[k],
    {
        Keyboard { key_states: [false; 16] }
    }

    /// Records that key `hex` is now held or released; a value above 0xF
    /// names no key and changes nothing.
    pub fn set_key_state(&mut self, hex_code: u8, pressed: bool)
        ensures
            final(self).wf(),
            hex_code < KEY_COUNT ==> final(self)@ == old(self)@.update(hex_code as int, pressed),
            hex_code >= KEY_COUNT ==> final(self)@ == old(self)@,
    {
        if (hex_code as usize) < KEY_COUNT {
            self.key_states[hex_code as usize] = pressed;
        }
    }

    /// Whether key `hex_code` is held.
    pub fn is_key_pressed(&self, hex_code: u8) -> (r: bool)
        ensures
            r == key_held(self@, hex_code),
    {
        (hex_code as usize) < KEY_COUNT && self.key_states[hex_code as usize]
    }

    /// The host key character for hex key `hex_code`.
    pub fn remap_code(hex_code: u8) -> (r: char)
        requires
            hex_code < KEY_COUNT,
        ensures
            r == keymap()[hex_code as int],
    {
        match hex_code {
            0x0 => 'v',
            0x1 => 'q',
            0x2 => 'w',
            0x3 => 'e',
            0x4 => 'a',
            0x5 => 's',
            0x6 => 'd',
            0x7 => 'z',
            0x8 => 'x',
            0x9 => 'c',
            0xA => '1',
            0xB => '2',
            0xC => '3',
            0xD => '4',
            0xE => 'r',
            _ => 'f',
        }
    }

    /// The hex key that the host key character `key` stands for, if any.
    pub fn remap_key(key: char) -> (r: Option<u8>)
        ensures
            match r {
                Some(k) => k < KEY_COUNT && keymap()[k as int] == key,
                None => forall|k: int| 0 <= k < KEY_COUNT ==> #[trigger] keymap()[k] != key,
            },
    {
        match key {
            'v' => Some(0x0),
            'q' => Some(0x1),
            'w' => Some(0x2),
            'e' => Some(0x3),
            'a' => Some(0x4),
            's' => Some(0x5),
            'd' => Some(0x6),
            'z' => Some(0x7),
            'x' => Some(0x8),
            'c' => Some(0x9),
            '1' => Some(0xA),
            '2' => Some(0xB),
            '3' => Some(0xC),
            '4' => Some(0xD),
            'r' => Some(0xE),
            'f' => Some(0xF),
            _ => None,
        }
    }
}

/// Each hex key has its own host key, so that mapping a hex key to its
/// character and back gives the hex key again.
pub proof fn lemma_keymap_round_trip(k: u8, j: u8)
    requires
        k < KEY_COUNT,
        j < KEY_COUNT,
        keymap()[j as int] == keymap()[k as int],
    ensures
        j == k,
{
}

} // verus!
