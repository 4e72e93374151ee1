use vstd::prelude::*;

use crate::utils::int_traits::{hi, lo, word, ManipulateU16};

verus! {

/// ADSR settings of a voice (DSP registers x5 and x6).
#[derive(Clone, Copy)]
pub struct Adsr(pub u16);

/// GAIN setting of a voice (DSP register x7).
#[derive(Clone, Copy)]
pub struct Gain(pub u8);

/// The registers of one of the eight DSP voices.
#[derive(Clone, Copy)]
pub struct Voice {
    pub left_channel_volume: i8,
    pub right_channel_volume: i8,
    pub sample_pitch: u16,
    pub sample_source_entry: u8,
    pub adsr: Adsr,
    pub gain: Gain,
    pub current_envelope: u8,
    pub current_sample: u8,
}

/// A signed register byte read back as the byte that was written.
pub proof fn lemma_i8_round_trip(d: u8)
    ensures
        ((d as i8) as u8) == d,
{
    assert(((d as i8) as u8) == d) by (bit_vector);
}

impl Voice {
    pub fn new() -> (r: Voice)
        ensures
            r.left_channel_volume == 0 && r.right_channel_volume == 0,
            r.sample_pitch == 0 && r.sample_source_entry == 0,
            r.adsr.0 == 0 && r.gain.0 == 0,
            r.current_envelope == 0 && r.current_sample == 0,
    {
        Voice {
            left_channel_volume: 0,
            right_channel_volume: 0,
            sample_pitch: 0,
            sample_source_entry: 0,
            adsr: Adsr(0),
            gain: Gain(0),
            current_envelope: 0,
            current_sample: 0,
        }
    }

    /// The byte of voice register `n` (0 to 9).
    pub open spec fn reg(&self, n: int) -> u8 {
        if n == 0 {
            self.left_channel_volume as u8
        } else if n == 1 {
            self.right_channel_volume as u8
        } else if n == 2 {
            lo(self.sample_pitch)
        } else if n == 3 {
            hi(self.sample_pitch)
        } else if n == 4 {
            self.sample_source_entry
        } else if n == 5 {
            lo(self.adsr.0)
        } else if n == 6 {
            hi(self.adsr.0)
        } else if n == 7 {
            self.gain.0
        } else if n == 8 {
            self.current_envelope
        } else {
            self.current_sample
        }
    }

    /// The voice after register `n` (0 to 7) is written.
    pub open spec fn written(&self, n: int, data: u8) -> Voice {
        if n == 0 {
            Voice { left_channel_volume: data as i8, ..*self }
        } else if n == 1 {
            Voice { right_channel_volume: data as i8, ..*self }
        } else if n == 2 {
            Voice { sample_pitch: word(data, hi(self.sample_pitch)), ..*self }
        } else if n == 3 {
            Voice { sample_pitch: word(lo(self.sample_pitch), data), ..*self }
        } else if n == 4 {
            Voice { sample_source_entry: data, ..*self }
        } else if n == 5 {
            Voice { adsr: Adsr(word(data, hi(self.adsr.0))), ..*self }
        } else if n == 6 {
            Voice { adsr: Adsr(word(lo(self.adsr.0), data)), ..*self }
        } else {
            Voice { gain: Gain(data), ..*self }
        }
    }

    /// Reads voice register `low_nibble` (VxVOLL to VxOUTX).
    pub fn read(&self, low_nibble: usize) -> (r: u8)
        requires
            low_nibble <= 9,
        ensures
            r == self.reg(low_nibble as int),
    {
        match low_nibble {
            0x0 => self.left_channel_volume as u8,
            0x1 => self.right_channel_volume as u8,
            0x2 => self.sample_pitch.low_byte(),
            0x3 => self.sample_pitch.high_byte(),
            0x4 => self.sample_source_entry,
            0x5 => self.adsr.0.low_byte(),
            0x6 => self.adsr.0.high_byte(),
            0x7 => self.gain.0,
            0x8 => self.current_envelope,
            _ => self.current_sample,
        }
    }

    /// Writes voice register `low_nibble` (VxVOLL to VxGAIN).
    pub fn write(&mut self, low_nibble: usize, data: u8)
        requires
            low_nibble <= 7,
        ensures
            *final(self) == old(self).written(low_nibble as int, data),
    {
        match low_nibble {
            0x0 => self.left_channel_volume = data as i8,
            0x1 => self.right_channel_volume = data as i8,
            0x2 => self.sample_pitch.set_low_byte(data),
            0x3 => self.sample_pitch.set_high_byte(data),
            0x4 => self.sample_source_entry = data,
            0x5 => self.adsr.0.set_low_byte(data),
            0x6 => self.adsr.0.set_high_byte(data),
            _ => self.gain = Gain(data),
        }
    }
}

/// Reading a voice register back gives what was written to it.
pub proof fn lemma_voice_write_read(v: Voice, n: int, data: u8)
    requires
        0 <= n <= 7,
    ensures
        v.written(n, data).reg(n) == data,
{
    lemma_i8_round_trip(data);
    crate::utils::int_traits::lemma_word_bytes(data, hi(v.sample_pitch));
    crate::utils::int_traits::lemma_word_bytes(lo(v.sample_pitch), data);
    crate::utils::int_traits::lemma_word_bytes(data, hi(v.adsr.0));
    crate::utils::int_traits::lemma_word_bytes(lo(v.adsr.0), data);
}

} // verus!
