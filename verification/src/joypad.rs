//! The standard controller, read one button at a time through a shift register.
use vstd::prelude::*;

verus! {

/// Bit `i` of the button byte is button `i`: A, B, Select, Start, Up, Down, Left, Right.
pub const BUTTON_MASK: [u8; 8] = [1, 2, 4, 8, 16, 32, 64, 128];

pub struct Joypad {
    state_of_buttons: u8,
    strobe: bool,
    index_of_buttons: u8,
    pressed_keys: u8,
}

/// The controller's state: the latched buttons, the strobe line, the index of the next
/// button to report, and the buttons currently held on the keyboard.
pub struct JoypadView {
    pub buttons: u8,
    pub strobe: bool,
    pub index: u8,
    pub keys: u8,
}

impl View for Joypad {
    type V = JoypadView;

    closed spec fn view(&self) -> JoypadView {
        JoypadView {
            buttons: self.state_of_buttons,
            strobe: self.strobe,
            index: self.index_of_buttons,
            keys: self.pressed_keys,
        }
    }
}

/// Whether button `i` is set in the byte `b`.
pub open spec fn button_bit(b: u8, i: u8) -> bool {
    (b as nat / pow2_byte(i)) % 2 == 1
}

/// 2 to the power `i`, for a bit position within a byte.
pub open spec fn pow2_byte(i: u8) -> nat {
    if i == 0 { 1 } else if i == 1 { 2 } else if i == 2 { 4 } else if i == 3 { 8 } else if i == 4 { 16 }
    else if i == 5 { 32 } else if i == 6 { 64 } else { 128 }
}

/// A write to the controller port: bit 0 drives the strobe line; while it is high the
/// buttons held now are latched and reporting restarts at the first button.
pub open spec fn strobe_write(j: JoypadView, value: u8) -> JoypadView {
    let strobe = value % 2 == 1;
    if strobe {
        JoypadView { buttons: j.keys, strobe, index: 0, keys: j.keys }
    } else {
        JoypadView { strobe, ..j }
    }
}

/// What a read of the controller port returns: the next button as 0 or 1, and 1 once all
/// eight have been reported.
pub open spec fn serial_value(j: JoypadView) -> u8 {
    if j.index >= 8 {
        1
    } else if button_bit(j.buttons, j.index) {
        1
    } else {
        0
    }
}

/// The state after a read: unless the strobe is high, the next read reports the next button.
pub open spec fn serial_advance(j: JoypadView) -> JoypadView {
    if j.index >= 8 || j.strobe {
        j
    } else {
        JoypadView { index: (j.index + 1) as u8, ..j }
    }
}

impl Joypad {
    pub fn new() -> (j: Self)
        ensures
            j@ == (JoypadView { buttons: 0, strobe: false, index: 0, keys: 0 }),
    {
        Joypad { state_of_buttons: 0, strobe: false, index_of_buttons: 0, pressed_keys: 0 }
    }

    /// Records which buttons are held on the keyboard, one bit per button as in `BUTTON_MASK`.
    pub fn set_pressed_keys(&mut self, keys: u8)
        ensures
            final(self)@ == (JoypadView { keys, ..old(self)@ }),
    {
        self.pressed_keys = keys;
    }

    pub fn step(&mut self, value: u8)
        ensures
            final(self)@ == strobe_write(old(self)@, value),
    {
        proof {
            lemma_low_bit(value);
        }
        self.strobe = (value & 0x01) != 0;
        if self.strobe {
            self.index_of_buttons = 0;
            self.state_of_buttons = self.pressed_keys;
        }
    }

    pub fn read_state(&mut self) -> (r: u8)
        ensures
            r == serial_value(old(self)@),
            final(self)@ == serial_advance(old(self)@),
    {
        if self.index_of_buttons >= 8 {
            return 1;
        }
        proof {
            lemma_mask_bits(self.state_of_buttons);
        }
        let button_is_pressed = (self.state_of_buttons & BUTTON_MASK[self.index_of_buttons as usize]) != 0;
        let value = if button_is_pressed { 1 } else { 0 };
        if !self.strobe {
            self.index_of_buttons += 1;
        }
        value
    }
}

/// The state after `n` reads of the controller port.
pub open spec fn after_reads(j: JoypadView, n: nat) -> JoypadView
    decreases n,
{
    if n == 0 {
        j
    } else {
        serial_advance(after_reads(j, (n - 1) as nat))
    }
}

/// Writing 1 then 0 to the port latches the held buttons; the following reads report them
/// one by one, A first and Right eighth, and every read after the eighth reports 1.
pub proof fn lemma_latch_then_read(j: JoypadView, n: nat)
    ensures
        ({
            let latched = strobe_write(strobe_write(j, 1), 0);
            let s = after_reads(latched, n);
            &&& n < 8 ==> serial_value(s) == (if button_bit(j.keys, n as u8) { 1u8 } else { 0u8 })
            &&& n >= 8 ==> serial_value(s) == 1
        }),
    decreases n,
{
    let latched = strobe_write(strobe_write(j, 1), 0);
    lemma_reads_count(latched, n);
}

/// Reads move through the buttons one at a time and stop after the eighth.
pub proof fn lemma_reads_count(j: JoypadView, n: nat)
    requires
        !j.strobe,
        j.index == 0,
    ensures
        after_reads(j, n) == (JoypadView { index: if n < 8 { n as u8 } else { 8u8 }, ..j }),
    decreases n,
{
    if n > 0 {
        lemma_reads_count(j, (n - 1) as nat);
    }
}

/// While the strobe is high every read reports button A and the report never moves on.
pub proof fn lemma_strobe_high_repeats(j: JoypadView, value: u8)
    requires
        value % 2 == 1,
    ensures
        ({
            let s = strobe_write(j, value);
            &&& serial_advance(s) == s
            &&& serial_value(s) == (if button_bit(j.keys, 0) { 1u8 } else { 0u8 })
        }),
{
}

proof fn lemma_low_bit(v: u8)
    by (bit_vector)
    ensures
        (v & 0x01 != 0) == (v % 2 == 1),
{
}

proof fn lemma_mask_bits(b: u8)
    ensures
        (b & 1 != 0) == button_bit(b, 0),
        (b & 2 != 0) == button_bit(b, 1),
        (b & 4 != 0) == button_bit(b, 2),
        (b & 8 != 0) == button_bit(b, 3),
        (b & 16 != 0) == button_bit(b, 4),
        (b & 32 != 0) == button_bit(b, 5),
        (b & 64 != 0) == button_bit(b, 6),
        (b & 128 != 0) == button_bit(b, 7),
{
    crate::bits::lemma_byte_bits(b);
}

} // verus!
