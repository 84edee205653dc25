use vstd::prelude::*;

verus! {

/// A sample: only 8-bit playback is supported.
pub type PlaybackType = u8;

/// One tone channel, as values: the buffer being played, the next one, and
/// the fade-in still to apply.
#[verifier::ext_equal]
pub struct ChannelView {
    pub volume: u8,
    pub playlength: u16,
    pub nextlength: u16,
    pub playpos: u16,
    pub playbuf: Seq<u8>,
    pub next: Seq<u8>,
    pub updated: bool,
    pub r_min: u32,
    pub play_count: u32,
    pub ch4_shift_register: u32,
}

/// The buffers hold a pattern each, their lengths fit them, and the fade-in
/// counts down from 100.
pub open spec fn channel_wf(c: ChannelView) -> bool {
    &&& c.playbuf.len() == 512
    &&& c.next.len() == 512
    &&& c.playlength <= 512
    &&& c.nextlength <= 512
    &&& c.playpos <= 512
    &&& c.play_count <= 100
}

/// The state of the square-wave generator while it fills a pattern: the
/// running remainder `r`, the current level `vol`, and the smallest
/// remainder at a rising edge with its position.
pub struct WaveState {
    pub r: u32,
    pub vol: u8,
    pub r_min: u32,
    pub r_min_pos: u16,
}

/// The generator at sample `pos`, before the sample is taken: when the
/// remainder passes the sample rate the level flips, and a rising edge with
/// a smaller remainder is remembered.
pub open spec fn wave_turn(volume: u8, rate: u32, p: WaveState, pos: u16) -> WaveState {
    if p.r >= rate {
        let r = (p.r % rate) as u32;
        let vol = (volume - p.vol) as u8;
        if vol == volume && r < p.r_min {
            WaveState { r, vol, r_min: r, r_min_pos: pos }
        } else {
            WaveState { r, vol, ..p }
        }
    } else {
        p
    }
}

/// The generator after `i` samples.
pub open spec fn wave_state(volume: u8, d: u32, rate: u32, start: WaveState, i: nat) -> WaveState
    decreases i,
{
    if i == 0 {
        start
    } else {
        let q = wave_turn(volume, rate, wave_state(volume, d, rate, start, (i - 1) as nat), (i - 1) as u16);
        WaveState { r: ((q.r + d) % 0x1_0000_0000) as u32, ..q }
    }
}

/// Sample `i` of the pattern.
pub open spec fn wave_sample(volume: u8, d: u32, rate: u32, start: WaveState, i: nat) -> u8 {
    wave_turn(volume, rate, wave_state(volume, d, rate, start, i), i as u16).vol
}

/// The generator's start for channel `c` at sample rate `rate`.
pub open spec fn wave_start(c: ChannelView, rate: u32) -> WaveState {
    WaveState { r: c.r_min, vol: c.volume, r_min: rate, r_min_pos: 512 }
}

/// The channel after a square wave of frequency `freq` was generated into
/// its next buffer.
pub open spec fn frequency_spec(c: ChannelView, freq: u32, rate: u32) -> ChannelView {
    let d = ((freq * 2) % 0x1_0000_0000) as u32;
    let start = wave_start(c, rate);
    let end = wave_state(c.volume, d, rate, start, 512);
    ChannelView {
        next: Seq::new(512, |i: int| wave_sample(c.volume, d, rate, start, i as nat)),
        nextlength: end.r_min_pos,
        r_min: end.r_min,
        updated: true,
        ..c
    }
}

/// The level between neutral and the sample: with `count` fade steps to go,
/// `count` hundredths of the neutral level and the rest of the sample.
pub open spec fn fade(x: u8, count: int) -> u8 {
    ((count * 31 + x * (100 - count)) / 100) as u8
}

/// The fade steps still to go after `j` samples, from `count`.
pub open spec fn fade_left(count: u32, j: int) -> int {
    if count > j { count - j } else { 0 }
}

/// `w` faded in from `count` steps: sample `j` is taken after its step.
pub open spec fn faded(w: Seq<u8>, count: u32) -> Seq<u8> {
    Seq::new(w.len(), |j: int| fade(w[j], fade_left(count, j + 1)))
}

/// The samples the channel plays, and the channel after: what is left of
/// the playing buffer, then (switching to the next buffer if one was made)
/// the buffer repeated, or silence with none; all faded in.
pub open spec fn wave_spec(c: ChannelView, length: nat) -> (ChannelView, Seq<u8>) {
    let left = if c.playpos < c.playlength { (c.playlength - c.playpos) as nat } else { 0 };
    let n1 = if left < length { left } else { length };
    let w1 = c.playbuf.subrange(c.playpos as int, c.playpos + n1);
    let pos1 = (c.playpos + n1) as u16;
    let (c2, w2) = if pos1 >= c.playlength {
        let c1 = if c.updated {
            ChannelView {
                updated: false,
                playbuf: c.next,
                next: c.playbuf,
                playlength: c.nextlength,
                nextlength: c.playlength,
                ..c
            }
        } else {
            c
        };
        if c1.playlength == 0 {
            (ChannelView { playpos: pos1, ..c1 }, w1 + Seq::new((length - n1) as nat, |j: int| 0u8))
        } else {
            let extra = (length - n1) as nat;
            let pos = if extra == 0 { 0 } else { ((extra - 1) % (c1.playlength as int)) + 1 };
            (
                ChannelView { playpos: pos as u16, ..c1 },
                w1 + Seq::new(extra, |j: int| c1.playbuf[j % (c1.playlength as int)]),
            )
        }
    } else {
        (ChannelView { playpos: pos1, ..c }, w1)
    };
    (ChannelView { play_count: fade_left(c.play_count, length as int) as u32, ..c2 }, faded(w2, c.play_count))
}

/// One tone channel of the sound chip.
pub struct SoundChannel {
    volume: u8,
    playlength: u16,
    nextlength: u16,
    playpos: u16,
    playbuf: Vec<PlaybackType>,
    next: Vec<PlaybackType>,
    updated: bool,
    r_min: u32,
    play_count: u32,
    ch4_shift_register: u32,
}

impl View for SoundChannel {
    type V = ChannelView;

    closed spec fn view(&self) -> ChannelView {
        ChannelView {
            volume: self.volume,
            playlength: self.playlength,
            nextlength: self.nextlength,
            playpos: self.playpos,
            playbuf: self.playbuf@,
            next: self.next@,
            updated: self.updated,
            r_min: self.r_min,
            play_count: self.play_count,
            ch4_shift_register: self.ch4_shift_register,
        }
    }
}

/// A channel just switched on: silent, nothing to play, a full fade-in to go.
pub open spec fn initial_channel() -> ChannelView {
    ChannelView {
        volume: 0,
        playlength: 0,
        nextlength: 0,
        playpos: 0,
        playbuf: Seq::new(512, |i: int| 0u8),
        next: Seq::new(512, |i: int| 0u8),
        updated: false,
        r_min: 0,
        play_count: 100,
        ch4_shift_register: 0,
    }
}

impl SoundChannel {
    pub const MAX_SOUND_PATTERN: u16 = 512;
    pub const MAX_PLAY_FADE_COUNT: u32 = 100;
    pub const NUM_CHANNELS: u8 = 4;
    /// `0x7F / NUM_CHANNELS`.
    pub const NEUTRAL_SOUND_LEVEL: u32 = 31;

    pub fn new() -> (r: Self)
        ensures
            r@ == initial_channel(),
            channel_wf(r@),
    {
        let r = Self {
            volume: 0,
            playlength: 0,
            nextlength: 0,
            playpos: 0,
            playbuf: vec![0u8; 512],
            next: vec![0u8; 512],
            updated: false,
            r_min: 0,
            play_count: SoundChannel::MAX_PLAY_FADE_COUNT,
            ch4_shift_register: 0,
        };
        assert(r@ =~= initial_channel());
        r
    }

    /// Set the channel's volume: a quarter of `volume`, as four channels mix.
    pub fn set_volume(&mut self, volume: u8)
        ensures
            final(self)@ == (ChannelView { volume: volume / 4, ..old(self)@ }),
    {
        self.volume = volume / SoundChannel::NUM_CHANNELS;
    }

    /// Clear the noise generator's shift register.
    pub fn reset_shift_register(&mut self)
        ensures
            final(self)@ == (ChannelView { ch4_shift_register: 0, ..old(self)@ }),
    {
        self.ch4_shift_register = 0;
    }

    /// Generate into the next buffer a square wave of frequency `freq` at
    /// `sample_rate`, and mark it ready.
    pub fn set_frequency(&mut self, freq: u32, sample_rate: u32)
        requires
            channel_wf(old(self)@),
            sample_rate > 0,
        ensures
            final(self)@ == frequency_spec(old(self)@, freq, sample_rate),
            channel_wf(final(self)@),
    {
        let ghost c = self@;
        let volume = self.volume;
        let mut vol = self.volume;
        let d = freq.wrapping_mul(2);
        let mut r = self.r_min;
        self.r_min = sample_rate;
        let mut r_min_pos = SoundChannel::MAX_SOUND_PATTERN;
        let ghost start = wave_start(c, sample_rate);
        let mut nextlength: u16 = 0;
        while nextlength < SoundChannel::MAX_SOUND_PATTERN
            invariant
                sample_rate > 0,
                volume == c.volume,
                nextlength <= 512,
                d == ((freq * 2) % 0x1_0000_0000) as u32,
                start == wave_start(c, sample_rate),
                vol == 0 || vol == volume,
                r_min_pos <= 512,
                (WaveState { r, vol, r_min: self.r_min, r_min_pos }) == wave_state(volume, d, sample_rate, start, nextlength as nat),
                self@ == (ChannelView { next: self@.next, r_min: self.r_min, ..c }),
                self@.next.len() == 512,
                forall|i: int| 0 <= i < nextlength ==> #[trigger] self@.next[i] == wave_sample(volume, d, sample_rate, start, i as nat),
            decreases 512 - nextlength,
        {
            if r >= sample_rate {
                r = r % sample_rate;
                vol = volume - vol;
                if vol == volume && r < self.r_min {
                    self.r_min = r;
                    r_min_pos = nextlength;
                }
            }
            self.next.set(nextlength as usize, vol);
            r = r.wrapping_add(d);
            nextlength = nextlength + 1;
        }
        self.nextlength = r_min_pos;
        self.updated = true;
        assert(self@.next =~= frequency_spec(c, freq, sample_rate).next);
        assert(self@ =~= frequency_spec(c, freq, sample_rate));
    }

    /// The next `length` samples the channel plays.
    #[verifier::rlimit(60)]
    pub fn get_wave(&mut self, length: u32) -> (wave: Vec<PlaybackType>)
        requires
            channel_wf(old(self)@),
        ensures
            (final(self)@, wave@) == wave_spec(old(self)@, length as nat),
            channel_wf(final(self)@),
    {
        let ghost c = self@;
        let ghost left: nat = if c.playpos < c.playlength { (c.playlength - c.playpos) as nat } else { 0 };
        let ghost n1: nat = if left < length { left } else { length as nat };
        let mut wave: Vec<PlaybackType> = Vec::with_capacity(length as usize);
        // What is left of the buffer being played.
        while (self.playpos < self.playlength) && (wave.len() < length as usize)
            invariant
                channel_wf(self@),
                self@ == (ChannelView { playpos: self.playpos, ..c }),
                self.playpos == c.playpos + wave.len(),
                wave.len() <= length,
                c.playpos < c.playlength ==> self.playpos <= c.playlength,
                wave.len() > 0 ==> c.playpos < c.playlength,
                wave@ == c.playbuf.subrange(c.playpos as int, self.playpos as int),
            decreases length - wave.len(),
        {
            wave.push(self.playbuf[self.playpos as usize]);
            self.playpos = self.playpos + 1;
        }
        assert(wave.len() == n1);
        let ghost w1 = wave@;
        let ghost pos1 = self.playpos;
        if self.playpos >= self.playlength {
            // Switch to the next buffer if one was made.
            if self.updated {
                self.updated = false;
                std::mem::swap(&mut self.next, &mut self.playbuf);
                std::mem::swap(&mut self.playlength, &mut self.nextlength);
            }
            let ghost c1 = self@;
            if self.playlength == 0 {
                while wave.len() < length as usize
                    invariant
                        self@ == c1,
                        n1 <= wave.len() <= length,
                        wave@ == w1 + Seq::new((wave.len() - n1) as nat, |j: int| 0u8),
                    decreases length - wave.len(),
                {
                    wave.push(0);
                }
                assert(wave@ =~= w1 + Seq::new((length - n1) as nat, |j: int| 0u8));
            } else {
                let ghost l = self.playlength as int;
                self.playpos = 0;
                let ghost mut base: int = 0;
                while wave.len() < length as usize
                    invariant
                        self@ == (ChannelView { playpos: self.playpos, ..c1 }),
                        channel_wf(self@),
                        l == self.playlength,
                        l > 0,
                        n1 <= wave.len() <= length,
                        base % l == 0,
                        0 <= base,
                        wave.len() - n1 == base + self.playpos,
                        self.playpos <= l,
                        wave.len() - n1 == 0 ==> self.playpos == 0,
                        wave.len() - n1 > 0 ==> self.playpos == ((wave.len() - n1 - 1) % l) + 1,
                        wave.len() < length ==> self.playpos == 0 || self.playpos == l,
                        forall|j: int| 0 <= j < wave.len() - n1 ==> #[trigger] wave@[n1 + j] == self@.playbuf[j % l],
                        wave@.subrange(0, n1 as int) == w1,
                    decreases length - wave.len(),
                {
                    if self.playpos > 0 {
                        proof {
                            assert((base + l) % l == 0) by {
                                vstd::arithmetic::div_mod::lemma_mod_add_multiples_vanish(base, l);
                            }
                            base = base + l;
                        }
                    }
                    self.playpos = 0;
                    while (self.playpos < self.playlength) && (wave.len() < length as usize)
                        invariant
                            self@ == (ChannelView { playpos: self.playpos, ..c1 }),
                            channel_wf(self@),
                            l == self.playlength,
                            l > 0,
                            n1 <= wave.len() <= length,
                            base % l == 0,
                            0 <= base,
                            wave.len() - n1 == base + self.playpos,
                            self.playpos <= l,
                            forall|j: int| 0 <= j < wave.len() - n1 ==> #[trigger] wave@[n1 + j] == self@.playbuf[j % l],
                            wave@.subrange(0, n1 as int) == w1,
                        decreases length - wave.len(),
                    {
                        proof {
                            let q = base / l;
                            vstd::arithmetic::div_mod::lemma_fundamental_div_mod(base, l);
                            vstd::arithmetic::div_mod::lemma_fundamental_div_mod_converse(base + self.playpos, l, q, self.playpos as int);
                        }
                        wave.push(self.playbuf[self.playpos as usize]);
                        self.playpos = self.playpos + 1;
                    }
                    proof {
                        if self.playpos > 0 {
                            let q = base / l;
                            vstd::arithmetic::div_mod::lemma_fundamental_div_mod(base, l);
                            vstd::arithmetic::div_mod::lemma_fundamental_div_mod_converse(base + self.playpos - 1, l, q, self.playpos - 1);
                        }
                    }
                }
                let ghost extra = (length - n1) as nat;
                assert(wave@ =~= w1 + Seq::new(extra, |j: int| c1.playbuf[j % l])) by {
                    assert forall|k: int| 0 <= k < wave.len() implies wave@[k] == (w1 + Seq::new(extra, |j: int| c1.playbuf[j % l]))[k] by {
                        if k >= n1 {
                            assert(wave@[n1 + (k - n1)] == self@.playbuf[(k - n1) % l]);
                        } else {
                            assert(wave@.subrange(0, n1 as int)[k] == w1[k]);
                        }
                    }
                }
            }
        }
        let ghost w2 = wave@;
        let ghost c2 = self@;
        // Fade in from the neutral level.
        if self.play_count > 0 {
            let mut i: usize = 0;
            while i < wave.len()
                invariant
                    self@ == (ChannelView { play_count: self.play_count, ..c2 }),
                    wave.len() == w2.len(),
                    i <= wave.len(),
                    self.play_count == fade_left(c.play_count, i as int),
                    c.play_count <= 100,
                    c2.play_count == c.play_count,
                    forall|j: int| 0 <= j < i ==> #[trigger] wave@[j] == fade(w2[j], fade_left(c.play_count, j + 1)),
                    forall|j: int| i <= j < wave.len() ==> #[trigger] wave@[j] == w2[j],
                decreases wave.len() - i,
            {
                if self.play_count > 0 {
                    self.play_count = self.play_count - 1;
                }
                let x = wave[i] as u32;
                let pc = self.play_count;
                assert(pc * 31 + x * (100 - pc) <= 25500) by (nonlinear_arith)
                    requires
                        pc <= 100,
                        x <= 255,
                ;
                let v = ((self.play_count * SoundChannel::NEUTRAL_SOUND_LEVEL) + (x * (SoundChannel::MAX_PLAY_FADE_COUNT
                    - self.play_count))) / SoundChannel::MAX_PLAY_FADE_COUNT;
                wave.set(i, v as u8);
                i = i + 1;
            }
        } else {
            assert forall|j: int| 0 <= j < w2.len() implies #[trigger] fade(w2[j], fade_left(c.play_count, j + 1)) == w2[j] by {
                assert(fade_left(c.play_count, j + 1) == 0);
            }
        }
        assert(wave@ =~= faded(w2, c.play_count));
        assert(self@ =~= wave_spec(c, length as nat).0);
        wave
    }
}

} // verus!
