use vstd::prelude::*;

verus! {

/// Square channel one (NR10..NR14): sweep, length/duty, envelope and
/// frequency registers.
#[derive(Debug, Default)]
pub struct SoundChannel1 {
    pub sweep_control: u8,
    pub sound_length_duty: u8,
    pub volume_envelope: u8,
    pub frequency_low: u8,
    pub frequency_high: u8,
}

/// Square channel two (NR21..NR24).
#[derive(Debug, Default)]
pub struct SoundChannel2 {
    pub sound_length_duty: u8,
    pub volume_envelope: u8,
    pub frequency_low: u8,
    pub frequency_high: u8,
}

/// The wave channel (NR30..NR34) and its sample RAM.
#[derive(Debug)]
pub struct SoundDigitalChannel {
    pub is_on: bool,
    pub length: u8,
    pub volume: u8,
    pub frequency_low: u8,
    pub frequency_high: u8,
    pub wave_ram: Vec<u8>,
}

/// The noise channel (NR41..NR44).
#[derive(Debug, Default)]
pub struct SoundNoiseChannel {
    pub length: u8,
    pub volume: u8,
    pub polynomial_counter: u8,
    pub counter: u8,
}

/// The APU register file behind 0xff10..=0xff26 and the wave RAM
/// behind 0xff30..=0xff3f. Registers are stored and handed back;
/// sound synthesis itself is the host's affair.
#[derive(Debug)]
pub struct Sound {
    pub channel1: SoundChannel1,
    pub channel2: SoundChannel2,
    pub digital_channel: SoundDigitalChannel,
    pub noise_channel: SoundNoiseChannel,
    pub channel_control: u8,
    pub sound_output_control: u8,
    pub sound_on_off_control: u8,
}

/// The APU register map: which stored byte a read of
/// `0xff10 + offset` sees. Write-only registers and the unused slots
/// read zero.
pub open spec fn spec_sound_read(s: Sound, offset: u16) -> u8 {
    if offset == 0x0 {
        s.channel1.sweep_control
    } else if offset == 0x1 {
        s.channel1.sound_length_duty
    } else if offset == 0x2 {
        s.channel1.volume_envelope
    } else if offset == 0x3 {
        0
    } else if offset == 0x4 {
        s.channel1.frequency_high
    } else if offset == 0x5 {
        0
    } else if offset == 0x6 {
        s.channel2.sound_length_duty
    } else if offset == 0x7 {
        s.channel2.volume_envelope
    } else if offset == 0x8 {
        0
    } else if offset == 0x9 {
        s.channel2.frequency_high
    } else if offset == 0xa {
        if s.digital_channel.is_on {
            1
        } else {
            0
        }
    } else if offset == 0xb {
        s.digital_channel.length
    } else if offset == 0xc {
        s.digital_channel.volume
    } else if offset == 0xd {
        s.digital_channel.frequency_low
    } else if offset == 0xe {
        s.digital_channel.frequency_high
    } else if offset == 0xf {
        0
    } else if offset == 0x10 {
        s.noise_channel.length
    } else if offset == 0x11 {
        s.noise_channel.volume
    } else if offset == 0x12 {
        s.noise_channel.polynomial_counter
    } else if offset == 0x13 {
        s.noise_channel.counter
    } else if offset == 0x14 {
        s.channel_control
    } else if offset == 0x15 {
        s.sound_output_control
    } else {
        s.sound_on_off_control
    }
}

impl Sound {
    pub open spec fn wf(self) -> bool {
        self.digital_channel.wave_ram@.len() == 16
    }

    pub fn read_u8(&self, offset: u16) -> (r: u8)
        requires
            offset <= 0x16,
        ensures
            r == spec_sound_read(*self, offset),
    {
        if offset == 0x0 {
            self.channel1.sweep_control
        } else if offset == 0x1 {
            self.channel1.sound_length_duty
        } else if offset == 0x2 {
            self.channel1.volume_envelope
        } else if offset == 0x3 {
            0
        } else if offset == 0x4 {
            self.channel1.frequency_high
        } else if offset == 0x5 {
            0
        } else if offset == 0x6 {
            self.channel2.sound_length_duty
        } else if offset == 0x7 {
            self.channel2.volume_envelope
        } else if offset == 0x8 {
            0
        } else if offset == 0x9 {
            self.channel2.frequency_high
        } else if offset == 0xa {
            if self.digital_channel.is_on {
                1
            } else {
                0
            }
        } else if offset == 0xb {
            self.digital_channel.length
        } else if offset == 0xc {
            self.digital_channel.volume
        } else if offset == 0xd {
            self.digital_channel.frequency_low
        } else if offset == 0xe {
            self.digital_channel.frequency_high
        } else if offset == 0xf {
            0
        } else if offset == 0x10 {
            self.noise_channel.length
        } else if offset == 0x11 {
            self.noise_channel.volume
        } else if offset == 0x12 {
            self.noise_channel.polynomial_counter
        } else if offset == 0x13 {
            self.noise_channel.counter
        } else if offset == 0x14 {
            self.channel_control
        } else if offset == 0x15 {
            self.sound_output_control
        } else {
            self.sound_on_off_control
        }
    }

    /// Stores a register write; reads of the stored byte round-trip
    /// through `spec_sound_read` for the readable registers.
    pub fn write_u8(&mut self, offset: u16, byte: u8)
        requires
            offset <= 0x16,
        ensures
            old(self).wf() ==> final(self).wf(),
            final(self).digital_channel.wave_ram@ == old(self).digital_channel.wave_ram@,
            offset != 0x5 && offset != 0xf && offset != 0xa ==> spec_sound_read(
                *final(self),
                offset,
            ) == (if offset == 0x3 || offset == 0x8 {
                0u8
            } else {
                byte
            }),
            offset == 0xa ==> final(self).digital_channel.is_on == (byte != 0),
    {
        if offset == 0x0 {
            self.channel1.sweep_control = byte;
        } else if offset == 0x1 {
            self.channel1.sound_length_duty = byte;
        } else if offset == 0x2 {
            self.channel1.volume_envelope = byte;
        } else if offset == 0x3 {
            self.channel1.frequency_low = byte;
        } else if offset == 0x4 {
            self.channel1.frequency_high = byte;
        } else if offset == 0x5 {
        } else if offset == 0x6 {
            self.channel2.sound_length_duty = byte;
        } else if offset == 0x7 {
            self.channel2.volume_envelope = byte;
        } else if offset == 0x8 {
            self.channel2.frequency_low = byte;
        } else if offset == 0x9 {
            self.channel2.frequency_high = byte;
        } else if offset == 0xa {
            self.digital_channel.is_on = byte != 0;
        } else if offset == 0xb {
            self.digital_channel.length = byte;
        } else if offset == 0xc {
            self.digital_channel.volume = byte;
        } else if offset == 0xd {
            self.digital_channel.frequency_low = byte;
        } else if offset == 0xe {
            self.digital_channel.frequency_high = byte;
        } else if offset == 0xf {
        } else if offset == 0x10 {
            self.noise_channel.length = byte;
        } else if offset == 0x11 {
            self.noise_channel.volume = byte;
        } else if offset == 0x12 {
            self.noise_channel.polynomial_counter = byte;
        } else if offset == 0x13 {
            self.noise_channel.counter = byte;
        } else if offset == 0x14 {
            self.channel_control = byte;
        } else if offset == 0x15 {
            self.sound_output_control = byte;
        } else {
            self.sound_on_off_control = byte;
        }
    }

    pub fn read_u8_from_waveform(&self, offset: u16) -> (r: u8)
        requires
            offset < 16,
            self.wf(),
        ensures
            r == self.digital_channel.wave_ram@[offset as int],
    {
        self.digital_channel.wave_ram[offset as usize]
    }

    pub fn write_u8_from_waveform(&mut self, offset: u16, byte: u8)
        requires
            offset < 16,
            old(self).wf(),
        ensures
            final(self).wf(),
            final(self).digital_channel.wave_ram@ == old(self).digital_channel.wave_ram@.update(
                offset as int,
                byte,
            ),
            *final(self) == (Sound {
                digital_channel: SoundDigitalChannel {
                    wave_ram: final(self).digital_channel.wave_ram,
                    ..*&old(self).digital_channel
                },
                ..*old(self)
            }),
    {
        self.digital_channel.wave_ram.set(offset as usize, byte);
    }
}

impl Default for Sound {
    fn default() -> (r: Self)
        ensures
            r.wf(),
    {
        let mut wave_ram: Vec<u8> = Vec::new();
        let mut i: usize = 0;
        while i < 16
            invariant
                i <= 16,
                wave_ram@.len() == i,
            decreases 16 - i,
        {
            wave_ram.push(0);
            i = i + 1;
        }
        Sound {
            channel1: SoundChannel1 {
                sweep_control: 0,
                sound_length_duty: 0,
                volume_envelope: 0,
                frequency_low: 0,
                frequency_high: 0,
            },
            channel2: SoundChannel2 {
                sound_length_duty: 0,
                volume_envelope: 0,
                frequency_low: 0,
                frequency_high: 0,
            },
            digital_channel: SoundDigitalChannel {
                is_on: false,
                length: 0,
                volume: 0,
                frequency_low: 0,
                frequency_high: 0,
                wave_ram,
            },
            noise_channel: SoundNoiseChannel {
                length: 0,
                volume: 0,
                polynomial_counter: 0,
                counter: 0,
            },
            channel_control: 0,
            sound_output_control: 0,
            sound_on_off_control: 0,
        }
    }
}

} // verus!
