use vstd::prelude::*;

use super::voice::{lemma_i8_round_trip, lemma_voice_write_read, Voice};

verus! {

/// FLG: noise frequency, echo write disable, mute, soft reset.
#[derive(Clone, Copy)]
pub struct Flags(pub u8);

/// The S-DSP register file, reached through the address/data ports $F2/$F3.
pub struct Dsp {
    pub dsp_addr: usize,
    pub voices: [Voice; 8],
    pub left_main_channel_volume: i8,
    pub right_main_channel_volume: i8,
    pub left_echo_volume: i8,
    pub right_echo_volume: i8,
    pub key_on: u8,
    pub key_off: u8,
    pub flags: Flags,
    pub end_flag_channel_mask: u8,
    pub echo_feedback: i8,
    pub unused: u8,
    pub pitch_modulation_channel_mask: u8,
    pub noise_enabled_channel_mask: u8,
    pub echo_enabled_channel_mask: u8,
    pub pointer_to_sample_directory: u8,
    pub pointer_to_echo_buffer: u8,
    pub echo_delay: u8,
    pub echo_filter_coefficients: [i8; 8],
}

/// The global registers in column $xC, by row.
pub open spec fn column_c(d: Dsp, row: int) -> u8 {
    if row == 0 {
        d.left_main_channel_volume as u8
    } else if row == 1 {
        d.right_main_channel_volume as u8
    } else if row == 2 {
        d.left_echo_volume as u8
    } else if row == 3 {
        d.right_echo_volume as u8
    } else if row == 4 {
        d.key_on
    } else if row == 5 {
        d.key_off
    } else if row == 6 {
        d.flags.0
    } else {
        d.end_flag_channel_mask
    }
}

/// The global registers in column $xD, by row.
pub open spec fn column_d(d: Dsp, row: int) -> u8 {
    if row == 0 {
        d.echo_feedback as u8
    } else if row == 1 {
        d.unused
    } else if row == 2 {
        d.pitch_modulation_channel_mask
    } else if row == 3 {
        d.noise_enabled_channel_mask
    } else if row == 4 {
        d.echo_enabled_channel_mask
    } else if row == 5 {
        d.pointer_to_sample_directory
    } else if row == 6 {
        d.pointer_to_echo_buffer
    } else {
        d.echo_delay
    }
}

/// Whether a DSP register (below $80) takes writes.
pub open spec fn writable(addr: int) -> bool {
    let col = addr % 16;
    let row = addr / 16;
    0 <= addr < 0x80 && (col <= 7 || (col == 0xC && row <= 6) || col == 0xD || col == 0xF)
}

impl Dsp {
    /// The byte DSP register `addr` (below $80) reads as; unused registers read 0.
    pub open spec fn reg(&self, addr: int) -> u8 {
        let col = addr % 16;
        let row = addr / 16;
        if col <= 9 {
            self.voices[row].reg(col)
        } else if col == 0xC {
            column_c(*self, row)
        } else if col == 0xD {
            column_d(*self, row)
        } else if col == 0xF {
            self.echo_filter_coefficients[row] as u8
        } else {
            0
        }
    }

    pub fn new() -> (r: Dsp)
        ensures
            r.dsp_addr == 0,
            forall|a: int| 0 <= a < 0x80 ==> #[trigger] r.reg(a) == 0,
    {
        let r = Dsp {
            dsp_addr: 0,
            voices: [Voice::new(); 8],
            left_main_channel_volume: 0,
            right_main_channel_volume: 0,
            left_echo_volume: 0,
            right_echo_volume: 0,
            key_on: 0,
            key_off: 0,
            flags: Flags(0),
            end_flag_channel_mask: 0,
            echo_feedback: 0,
            unused: 0,
            pitch_modulation_channel_mask: 0,
            noise_enabled_channel_mask: 0,
            echo_enabled_channel_mask: 0,
            pointer_to_sample_directory: 0,
            pointer_to_echo_buffer: 0,
            echo_delay: 0,
            echo_filter_coefficients: [0; 8],
        };
        proof {
            assert forall|a: int| 0 <= a < 0x80 implies #[trigger] r.reg(a) == 0 by {
                assert(r.voices[a / 16].reg(a % 16) == 0);
            }
        }
        r
    }

    /// $F2 write: selects a register.
    pub fn set_dsp_addr(&mut self, value: u8)
        ensures
            final(self).dsp_addr == value,
            final(self).voices == old(self).voices,
            forall|a: int| 0 <= a < 0x80 ==> #[trigger] final(self).reg(a) == old(self).reg(a),
    {
        self.dsp_addr = value as usize;
    }

    /// $F2 read.
    pub fn read_dsp_addr(&self) -> (r: u8)
        requires
            self.dsp_addr < 0x100,
        ensures
            r == self.dsp_addr,
    {
        self.dsp_addr as u8
    }

    /// $F3 read: the selected register ($80-$FF mirror $00-$7F).
    pub fn read(&self) -> (r: u8)
        ensures
            r == self.reg(self.dsp_addr as int % 0x80),
    {
        let addr = self.dsp_addr % 0x80;
        let index = addr / 16;
        let col = addr % 16;
        if col <= 9 {
            self.voices[index].read(col)
        } else if col == 0xC {
            if index == 0 {
                self.left_main_channel_volume as u8
            } else if index == 1 {
                self.right_main_channel_volume as u8
            } else if index == 2 {
                self.left_echo_volume as u8
            } else if index == 3 {
                self.right_echo_volume as u8
            } else if index == 4 {
                self.key_on
            } else if index == 5 {
                self.key_off
            } else if index == 6 {
                self.flags.0
            } else {
                self.end_flag_channel_mask
            }
        } else if col == 0xD {
            if index == 0 {
                self.echo_feedback as u8
            } else if index == 1 {
                self.unused
            } else if index == 2 {
                self.pitch_modulation_channel_mask
            } else if index == 3 {
                self.noise_enabled_channel_mask
            } else if index == 4 {
                self.echo_enabled_channel_mask
            } else if index == 5 {
                self.pointer_to_sample_directory
            } else if index == 6 {
                self.pointer_to_echo_buffer
            } else {
                self.echo_delay
            }
        } else if col == 0xF {
            self.echo_filter_coefficients[index] as u8
        } else {
            0
        }
    }

    /// $F3 write: stores to the selected register; $80-$FF and the read-only registers
    /// (ENVX, OUTX, ENDX and the unused ones) ignore writes.
    pub fn write(&mut self, data: u8)
        ensures
            final(self).dsp_addr == old(self).dsp_addr,
            forall|a: int| 0 <= a < 0x80 && a != old(self).dsp_addr ==> #[trigger] final(self).reg(a) == old(self).reg(a),
            old(self).dsp_addr < 0x80 && writable(old(self).dsp_addr as int) ==> final(self).reg(old(self).dsp_addr as int) == data,
            !(old(self).dsp_addr < 0x80 && writable(old(self).dsp_addr as int)) ==> forall|a: int| 0 <= a < 0x80
                ==> #[trigger] final(self).reg(a) == old(self).reg(a),
    {
        if self.dsp_addr >= 0x80 {
            return;
        }
        let ghost d0 = *self;
        let addr = self.dsp_addr;
        let index = addr / 16;
        let col = addr % 16;
        proof { lemma_i8_round_trip(data); }
        if col <= 7 {
            let mut v = self.voices[index];
            v.write(col, data);
            self.voices[index] = v;
            proof {
                lemma_voice_write_read(d0.voices[index as int], col as int, data);
                assert forall|a: int| 0 <= a < 0x80 && a != addr implies #[trigger] self.reg(a) == d0.reg(a) by {
                    if a / 16 == index as int && a % 16 <= 9 {
                        assert(a % 16 != col as int);
                    }
                }
            }
        } else if col == 0xC {
            if index == 0 {
                self.left_main_channel_volume = data as i8;
            } else if index == 1 {
                self.right_main_channel_volume = data as i8;
            } else if index == 2 {
                self.left_echo_volume = data as i8;
            } else if index == 3 {
                self.right_echo_volume = data as i8;
            } else if index == 4 {
                self.key_on = data;
            } else if index == 5 {
                self.key_off = data;
            } else if index == 6 {
                self.flags = Flags(data);
            }
        } else if col == 0xD {
            if index == 0 {
                self.echo_feedback = data as i8;
            } else if index == 1 {
                self.unused = data;
            } else if index == 2 {
                self.pitch_modulation_channel_mask = data;
            } else if index == 3 {
                self.noise_enabled_channel_mask = data;
            } else if index == 4 {
                self.echo_enabled_channel_mask = data;
            } else if index == 5 {
                self.pointer_to_sample_directory = data;
            } else if index == 6 {
                self.pointer_to_echo_buffer = data;
            } else {
                self.echo_delay = data;
            }
        } else if col == 0xF {
            self.echo_filter_coefficients[index] = data as i8;
        }
    }
}

} // verus!
