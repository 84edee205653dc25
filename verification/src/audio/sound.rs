use vstd::prelude::*;
use crate::audio::soundchannel::{
    ChannelView, PlaybackType, SoundChannel, channel_wf, frequency_spec, initial_channel, wave_spec,
};

verus! {

/// The sound chip, as values.
#[verifier::ext_equal]
pub struct SoundView {
    pub volume: Seq<u8>,
    pub channels: Seq<ChannelView>,
    pub freq: Seq<u32>,
    pub chan_freq: u8,
    pub current_channel: u8,
    pub current_type: u8,
    pub shift_rate: u16,
    pub noise_period_select: bool,
}

/// Four channels, each with a 4-bit attenuation and a 10-bit tone period.
pub open spec fn sound_wf(v: SoundView) -> bool {
    &&& v.volume.len() == 4
    &&& v.channels.len() == 4
    &&& v.freq.len() == 4
    &&& forall|i: int| 0 <= i < 4 ==> #[trigger] v.volume[i] <= 15
    &&& forall|i: int| 0 <= i < 4 ==> #[trigger] v.freq[i] < 0x400
    &&& forall|i: int| 0 <= i < 4 ==> #[trigger] channel_wf(v.channels[i])
    &&& v.current_channel < 4
}

/// The chip just switched on: every channel fully attenuated.
pub open spec fn initial_sound() -> SoundView {
    SoundView {
        volume: Seq::new(4, |i: int| 0xFu8),
        channels: Seq::new(4, |i: int| initial_channel()),
        freq: Seq::new(4, |i: int| 0u32),
        chan_freq: 0,
        current_channel: 0,
        current_type: 0,
        shift_rate: 0,
        noise_period_select: false,
    }
}

/// The frequency in hertz of tone period `frequency`.
pub open spec fn hertz(frequency: u32) -> u32 {
    (125000int / (frequency + 1)) as u32
}

/// A channel's next `length` samples, and the channel after: its volume
/// set from attenuation `attenuation`, a square wave of period `freq`
/// generated, and the samples taken.
pub open spec fn channel_chunk(ch: ChannelView, attenuation: u8, freq: u32, length: nat) -> (ChannelView, Seq<u8>) {
    let c1 = ChannelView { volume: ((((15 - attenuation) * 16) as u8) / 4) as u8, ..ch };
    wave_spec(frequency_spec(c1, hertz(freq), 44100), length)
}

/// Every channel's next `length` samples, and the channel after.
pub open spec fn chunk_parts(v: SoundView, length: nat) -> Seq<(ChannelView, Seq<u8>)> {
    Seq::new(4, |k: int| channel_chunk(v.channels[k], v.volume[k], v.freq[k], length))
}

/// Sample `i` of the first `c` channels mixed, as 8-bit sums.
pub open spec fn mixed(parts: Seq<(ChannelView, Seq<u8>)>, i: int, c: nat) -> u8
    decreases c,
{
    if c == 0 {
        0
    } else {
        ((mixed(parts, i, (c - 1) as nat) + parts[c - 1].1[i]) % 256) as u8
    }
}

/// The next `length` samples of the chip, the four channels mixed, and the
/// chip after.
pub open spec fn chunk_spec(v: SoundView, length: u32) -> (SoundView, Seq<u8>) {
    if length == 0 {
        (v, Seq::empty())
    } else {
        let parts = chunk_parts(v, length as nat);
        (
            SoundView { channels: Seq::new(4, |k: int| parts[k].0), ..v },
            Seq::new(length as nat, |i: int| mixed(parts, i, 4)),
        )
    }
}

/// The tone period that bits 0..1 of a noise control byte select.
pub open spec fn noise_period(data: u8) -> u32 {
    if data & 3 == 0 { 0x10 } else if data & 3 == 1 { 0x20 } else { 0x40 }
}

/// A byte written to the sound chip's port: a latch byte selects the
/// channel and register (and sets a volume, or the low bits of a period); a
/// data byte sets the high bits of a period; noise settings on channel 3.
pub open spec fn write_spec(v: SoundView, data: u8) -> SoundView {
    let v1 = if data & 0x80 == 0x80 {
        SoundView { current_channel: (data >> 5) & 3, current_type: (data >> 4) & 1, ..v }
    } else {
        v
    };
    let v2 = if data & 0x90 == 0x90 {
        SoundView { volume: v1.volume.update(((data >> 5) & 3) as int, data & 0xF), ..v1 }
    } else {
        v1
    };
    let v3 = if data & 0x90 == 0x80 { SoundView { chan_freq: data, ..v2 } } else { v2 };
    let v4 = if v3.current_channel == 3 {
        if data & 3 < 3 {
            SoundView {
                freq: v3.freq.update(3, noise_period(data)),
                noise_period_select: true,
                channels: v3.channels.update(3, ChannelView { ch4_shift_register: 0, ..v3.channels[3] }),
                ..v3
            }
        } else {
            SoundView { freq: v3.freq.update(3, 0), ..v3 }
        }
    } else {
        v3
    };
    if data & 0x80 == 0 && (v4.current_channel != 3 || data & 3 == 3) {
        SoundView {
            freq: v4.freq.update(
                ((v4.chan_freq >> 5) & 3) as int,
                ((((data & 0x3F) as u32) << 4) | ((v4.chan_freq & 0xF) as u32)),
            ),
            ..v4
        }
    } else {
        v4
    }
}

/// The sound chip (SN76489): four channels and the registers that drive them.
pub struct Sound {
    volume: Vec<u8>,
    channels: Vec<SoundChannel>,
    freq: Vec<u32>,
    chan_freq: u8,
    current_channel: u8,
    current_type: u8,
    /// 0b00 N/512, 0b01 N/1024, 0b10 N/2048, 0b11 tone generator 3's output.
    shift_rate: u16,
    /// Whether channel 3 makes white noise.
    noise_period_select: bool,
}

impl View for Sound {
    type V = SoundView;

    closed spec fn view(&self) -> SoundView {
        SoundView {
            volume: self.volume@,
            channels: self.channels@.map_values(|c: SoundChannel| c@),
            freq: self.freq@,
            chan_freq: self.chan_freq,
            current_channel: self.current_channel,
            current_type: self.current_type,
            shift_rate: self.shift_rate,
            noise_period_select: self.noise_period_select,
        }
    }
}

impl Sound {
    pub const FREQMULTIPLIER: u32 = 125000;
    pub const SAMPLERATE: u32 = 44100;
    pub const CHANNELS: u8 = 4;
    pub const BITS: u8 = 8;
    pub const MAX_VOLUME_MASK: u8 = 0xF;

    pub fn new() -> (r: Self)
        ensures
            r@ == initial_sound(),
            sound_wf(r@),
    {
        let r = Self {
            volume: vec![Sound::MAX_VOLUME_MASK; 4],
            channels: vec![SoundChannel::new(), SoundChannel::new(), SoundChannel::new(), SoundChannel::new()],
            freq: vec![0u32; 4],
            chan_freq: 0,
            current_channel: 0,
            current_type: 0,
            shift_rate: 0,
            noise_period_select: false,
        };
        assert(r@.volume =~= initial_sound().volume);
        assert(r@.channels =~= initial_sound().channels);
        assert(r@.freq =~= initial_sound().freq);
        r
    }

    fn get_hertz(frequency: u32) -> (r: u32)
        requires
            frequency < 0xFFFF_FFFF,
        ensures
            r == hertz(frequency),
    {
        Sound::FREQMULTIPLIER / (frequency + 1)
    }

    /// The next `length` samples: every channel's wave mixed.
    pub fn get_next_audio_chunk(&mut self, length: u32) -> (stream: Vec<PlaybackType>)
        requires
            sound_wf(old(self)@),
        ensures
            (final(self)@, stream@) == chunk_spec(old(self)@, length),
            sound_wf(final(self)@),
    {
        let ghost v = self@;
        let ghost parts = chunk_parts(v, length as nat);
        let mut stream: Vec<PlaybackType> = Vec::new();
        if length > 0 {
            let mut i: u32 = 0;
            while i < length
                invariant
                    i <= length,
                    stream@ == Seq::new(i as nat, |j: int| 0u8),
                decreases length - i,
            {
                stream.push(0x0);
                i = i + 1;
            }
            let mut c: usize = 0;
            while c < 4
                invariant
                    sound_wf(self@),
                    c <= 4,
                    length > 0,
                    parts == chunk_parts(v, length as nat),
                    self@ == (SoundView { channels: self@.channels, ..v }),
                    forall|k: int| 0 <= k < c ==> #[trigger] self@.channels[k] == parts[k].0,
                    forall|k: int| c <= k < 4 ==> #[trigger] self@.channels[k] == v.channels[k],
                    stream@.len() == length,
                    forall|j: int| 0 <= j < length ==> #[trigger] stream@[j] == mixed(parts, j, c as nat),
                decreases 4 - c,
            {
                let ghost before = self.channels@;
                let ghost view_before = self@;
                let mut channel = self.channels.remove(c);
                assert(channel@ == view_before.channels[c as int]);
                assert(channel_wf(channel@));
                let attenuation = self.volume[c];
                channel.set_volume((Sound::MAX_VOLUME_MASK - attenuation) << 4);
                proof {
                    assert((((15 - attenuation) as u8) << 4u8) == ((15 - attenuation) * 16) as u8) by (bit_vector)
                        requires
                            attenuation <= 15,
                    ;
                }
                let hz = Sound::get_hertz(self.freq[c]);
                channel.set_frequency(hz, Sound::SAMPLERATE);
                let wave = channel.get_wave(length);
                assert(wave@ == parts[c as int].1);
                assert(channel@ == parts[c as int].0);
                self.channels.insert(c, channel);
                assert(self.channels@ =~= before.update(c as int, channel));
                assert(self@.channels =~= view_before.channels.update(c as int, channel@));
                let mut i: usize = 0;
                while i < length as usize
                    invariant
                        i <= length,
                        stream@.len() == length,
                        wave@.len() == length,
                        wave@ == parts[c as int].1,
                        c < 4,
                        forall|j: int| 0 <= j < i ==> #[trigger] stream@[j] == mixed(parts, j, (c + 1) as nat),
                        forall|j: int| i <= j < length ==> #[trigger] stream@[j] == mixed(parts, j, c as nat),
                    decreases length - i,
                {
                    let sum = stream[i].wrapping_add(wave[i]);
                    stream.set(i, sum);
                    i = i + 1;
                }
                c = c + 1;
            }
            assert(self@.channels =~= chunk_spec(v, length).0.channels);
            assert(stream@ =~= chunk_spec(v, length).1);
        } else {
            assert(stream@ =~= Seq::<u8>::empty());
        }
        stream
    }

    /// Take a byte written to the sound chip's port.
    pub fn write_port(&mut self, data: u8)
        requires
            sound_wf(old(self)@),
        ensures
            final(self)@ == write_spec(old(self)@, data),
            sound_wf(final(self)@),
    {
        let ghost v = self@;
        proof {
            crate::bits::lemma_u8_bits(data);
        }
        if (data & 0x80) == 0x80 {
            self.current_channel = (data >> 5) & 0x3;
            self.current_type = (data >> 4) & 0x1;
        }
        assert((data >> 5) & 3 < 4 && (data & 0xF) <= 15) by (bit_vector);
        if (data & 0x90) == 0x90 {
            self.volume.set(((data >> 5) & 0x3) as usize, data & Sound::MAX_VOLUME_MASK);
        }
        if (data & 0x90) == 0x80 {
            self.chan_freq = data;
        }
        // The noise channel takes the same settings from a latch or a data byte.
        if 3 == self.current_channel {
            if (data & 0x3) < 3 {
                let period: u32 = if data & 0x3 == 0 {
                    0x10
                } else if data & 0x3 == 1 {
                    0x20
                } else {
                    0x40
                };
                self.freq.set(3, period);
                self.noise_period_select = true;
                let ghost before = self.channels@;
                let ghost view_before = self@;
                let mut channel = self.channels.remove(3);
                assert(channel@ == view_before.channels[3]);
                assert(channel_wf(v.channels[3]));
                assert(view_before.channels == v.channels);
                channel.reset_shift_register();
                self.channels.insert(3, channel);
                assert(self.channels@ =~= before.update(3, channel));
                assert(self@.channels =~= view_before.channels.update(3, channel@));
                assert forall|i: int| 0 <= i < 4 implies #[trigger] channel_wf(self@.channels[i]) by {
                    if i != 3 {
                        assert(self@.channels[i] == view_before.channels[i]);
                    }
                }
            } else {
                self.freq.set(3, 0);
            }
        }
        if (data & 0x80) == 0x00 {
            if 3 != self.current_channel || 3 == (data & 0x3) {
                let cf = self.chan_freq;
                let value = (((data & 0x3F) as u32) << 4) | ((cf & 0xF) as u32);
                let index = ((cf >> 5) & 0x3) as usize;
                assert(value < 0x400 && index < 4) by (bit_vector)
                    requires
                        value == (((data & 0x3F) as u32) << 4) | ((cf & 0xF) as u32),
                        index == ((cf >> 5) & 0x3) as usize,
                ;
                self.freq.set(index, value);
            }
        }
        assert(self@ =~= write_spec(v, data));
    }
}

} // verus!
