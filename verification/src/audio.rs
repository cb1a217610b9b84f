//! Sound effects: the WAV reader for the bundled effects, how a sound is cut
//! into hardware grains, and the handle that queues effects for playback.

use vstd::prelude::*;
use std::sync::mpsc::Sender;

verus! {

/// A user-interface sound effect.
#[derive(Debug, Clone, Copy, PartialEq, Eq, Hash, Structural)]
pub enum Sfx {
    Navigate,
    ShowModal,
    HideModal,
    ToggleOn,
    ToggleOff,
    Launch,
    IntoDetail,
    OutOfDetail,
    MenuFlyIn,
    MenuFlyOut,
    TabTransition,
    Activation,
    Typing,
}

/// A decoded 16-bit PCM sound.
pub struct WavSound {
    pub sample_rate: u32,
    pub channels: u16,
    pub samples: Vec<i16>,
}

/// The little-endian 16-bit number at `at`.
pub open spec fn le16(b: Seq<u8>, at: int) -> nat {
    (b[at] + 256 * b[at + 1]) as nat
}

/// The little-endian 32-bit number at `at`.
pub open spec fn le32(b: Seq<u8>, at: int) -> nat {
    (b[at] + 256 * b[at + 1] + 65536 * b[at + 2] + 16777216 * b[at + 3]) as nat
}

/// The signed 16-bit sample at `at`.
pub open spec fn sample_at(b: Seq<u8>, at: int) -> int {
    let v = le16(b, at);
    if v >= 32768 { v - 65536 } else { v as int }
}

/// The four bytes at `at` spell `tag`.
pub open spec fn tag_at(b: Seq<u8>, at: int, tag: Seq<u8>) -> bool {
    b.subrange(at, at + 4) == tag
}

pub open spec fn riff_tag() -> Seq<u8> { seq![82u8, 73u8, 70u8, 70u8] }
pub open spec fn wave_tag() -> Seq<u8> { seq![87u8, 65u8, 86u8, 69u8] }
pub open spec fn fmt_tag() -> Seq<u8> { seq![102u8, 109u8, 116u8, 32u8] }
pub open spec fn data_tag() -> Seq<u8> { seq![100u8, 97u8, 116u8, 97u8] }

/// Walks the chunks from `pos`, remembering the last complete `fmt ` chunk
/// (channels, sample rate): at the first complete `data` chunk, the format and
/// where the samples lie (start and length in bytes); `None` when the chunks
/// run out first or the data comes before any format.
pub open spec fn scan_chunks(b: Seq<u8>, pos: int, fmt: Option<(nat, nat)>) -> Option<(nat, nat, int, int)>
    decreases b.len() - pos,
{
    if pos < 0 || pos + 8 > b.len() {
        None
    } else {
        let size = le32(b, pos + 4) as int;
        let body = pos + 8;
        if tag_at(b, pos, fmt_tag()) && size >= 16 && body + size <= b.len() {
            scan_chunks(b, body + size, Some((le16(b, body + 2), le32(b, body + 4))))
        } else if tag_at(b, pos, data_tag()) && body + size <= b.len() {
            match fmt {
                Some((channels, rate)) => Some((channels, rate, body, size)),
                None => None,
            }
        } else if body + size > b.len() {
            None
        } else {
            scan_chunks(b, body + size, fmt)
        }
    }
}

/// The samples of the `len` bytes at `start`, two bytes each (an odd last byte is dropped).
pub open spec fn samples_of(b: Seq<u8>, start: int, len: int) -> Seq<int> {
    Seq::new((len / 2) as nat, |k: int| sample_at(b, start + 2 * k))
}

/// Samples as numbers.
pub open spec fn pcm_values(s: Seq<i16>) -> Seq<int> {
    s.map_values(|x: i16| x as int)
}

/// A RIFF/WAVE file read as (channels, sample rate, samples), or `None`.
pub open spec fn wav_contents(b: Seq<u8>) -> Option<(nat, nat, Seq<int>)> {
    if b.len() < 44 || !tag_at(b, 0, riff_tag()) || !tag_at(b, 8, wave_tag()) {
        None
    } else {
        match scan_chunks(b, 12, None) {
            Some((channels, rate, start, len)) => Some((channels, rate, samples_of(b, start, len))),
            None => None,
        }
    }
}

fn read_le16(b: &[u8], at: usize) -> (r: u16)
    requires
        at + 2 <= b@.len(),
    ensures
        r == le16(b@, at as int),
{
    b[at] as u16 + (b[at + 1] as u16) * 256
}

fn read_le32(b: &[u8], at: usize) -> (r: u32)
    requires
        at + 4 <= b@.len(),
    ensures
        r == le32(b@, at as int),
{
    b[at] as u32 + (b[at + 1] as u32) * 256 + (b[at + 2] as u32) * 65536 + (b[at + 3] as u32) * 16777216
}

fn read_sample(b: &[u8], at: usize) -> (r: i16)
    requires
        at + 2 <= b@.len(),
    ensures
        r as int == sample_at(b@, at as int),
{
    let v = read_le16(b, at);
    if v >= 32768 {
        (v as i32 - 65536) as i16
    } else {
        v as i16
    }
}

fn has_tag(b: &[u8], at: usize, t0: u8, t1: u8, t2: u8, t3: u8) -> (r: bool)
    requires
        at + 4 <= b@.len(),
    ensures
        r == tag_at(b@, at as int, seq![t0, t1, t2, t3]),
{
    let r = b[at] == t0 && b[at + 1] == t1 && b[at + 2] == t2 && b[at + 3] == t3;
    assert(r == (b@.subrange(at as int, at + 4) =~= seq![t0, t1, t2, t3]));
    r
}

impl WavSound {
    /// Reads a RIFF/WAVE file of 16-bit PCM.
    pub fn parse(bytes: &[u8]) -> (r: Option<WavSound>)
        ensures
            match r {
                Some(w) => wav_contents(bytes@) == Some(
                    (w.channels as nat, w.sample_rate as nat, pcm_values(w.samples@)),
                ),
                None => wav_contents(bytes@) is None,
            },
    {
        if bytes.len() < 44 || !has_tag(bytes, 0, 82, 73, 70, 70) || !has_tag(bytes, 8, 87, 65, 86, 69) {
            return None;
        }
        let mut pos: usize = 12;
        let mut fmt: Option<(u16, u32)> = None;
        while bytes.len() - pos >= 8
            invariant
                12 <= pos <= bytes@.len(),
                bytes@.len() >= 44,
                tag_at(bytes@, 0, riff_tag()),
                tag_at(bytes@, 8, wave_tag()),
                scan_chunks(bytes@, 12, None) == scan_chunks(
                    bytes@,
                    pos as int,
                    match fmt {
                        Some((c, s)) => Some((c as nat, s as nat)),
                        None => None,
                    },
                ),
            decreases bytes.len() - pos,
        {
            let chunk_size = read_le32(bytes, pos + 4) as usize;
            let body = pos + 8;
            let fits = chunk_size <= bytes.len() - body;
            if has_tag(bytes, pos, 102, 109, 116, 32) && chunk_size >= 16 && fits {
                let channels = read_le16(bytes, body + 2);
                let rate = read_le32(bytes, body + 4);
                fmt = Some((channels, rate));
            } else if has_tag(bytes, pos, 100, 97, 116, 97) && fits {
                match fmt {
                    None => {
                        return None;
                    },
                    Some((channels, rate)) => {
                        assert(scan_chunks(bytes@, pos as int, Some((channels as nat, rate as nat)))
                            == Some((channels as nat, rate as nat, body as int, chunk_size as int)));
                        let samples = read_samples(bytes, body, chunk_size);
                        return Some(WavSound { sample_rate: rate, channels, samples });
                    },
                }
            } else if !fits {
                return None;
            }
            pos = body + chunk_size;
        }
        None
    }
}

fn read_samples(bytes: &[u8], start: usize, len: usize) -> (r: Vec<i16>)
    requires
        start + len <= bytes@.len(),
    ensures
        pcm_values(r@) == samples_of(bytes@, start as int, len as int),
{
    let mut out: Vec<i16> = Vec::new();
    let mut k: usize = 0;
    while k < len / 2
        invariant
            start + len <= bytes@.len(),
            k <= len / 2,
            out@.len() == k,
            forall|j: int| 0 <= j < k ==> out@[j] as int == sample_at(bytes@, start + 2 * j),
        decreases len / 2 - k,
    {
        assert(2 * k + 2 <= len);
        assert(start + 2 * k + 2 <= bytes@.len());
        assert(bytes@.len() == bytes.len());
        out.push(read_sample(bytes, start + 2 * k));
        k += 1;
    }
    assert(pcm_values(out@) =~= samples_of(bytes@, start as int, len as int));
    out
}

/// Samples per channel handed to the audio hardware at a time.
pub const GRAIN_SIZE: usize = 512;

/// The hardware port format (sample rate, channels): that of the navigation
/// sound when it was read, else 48 kHz mono.
pub fn port_format(navigate: Option<&WavSound>) -> (r: (u32, u16))
    ensures
        r == match navigate {
            Some(w) => (w.sample_rate, w.channels),
            None => (48_000u32, 1u16),
        },
{
    match navigate {
        Some(w) => (w.sample_rate, w.channels),
        None => (48_000, 1),
    }
}

/// The samples of one grain: `stride` values from `start`, zero past the end.
pub open spec fn grain(samples: Seq<i16>, start: int, stride: int) -> Seq<i16> {
    Seq::new(stride as nat, |j: int| if start + j < samples.len() { samples[start + j] } else { 0i16 })
}

/// How many grains a sound takes.
pub open spec fn grain_count(len: int, stride: int) -> int {
    (len + stride - 1) / stride
}

/// Cuts a sound into full grains of `max(channels, 1) * GRAIN_SIZE` samples,
/// the last one padded with silence.
pub fn grains(samples: &Vec<i16>, channels: u16) -> (r: Vec<Vec<i16>>)
    ensures
        ({
            let stride = (if channels == 0 { 1 } else { channels as int }) * GRAIN_SIZE;
            &&& r@.len() == grain_count(samples@.len() as int, stride)
            &&& forall|i: int| 0 <= i < r@.len() ==> (#[trigger] r@[i])@ == grain(samples@, i * stride, stride)
        }),
{
    let ch: usize = if channels == 0 { 1 } else { channels as usize };
    let stride: usize = ch * GRAIN_SIZE;
    let mut out: Vec<Vec<i16>> = Vec::new();
    let mut start: usize = 0;
    let ghost mut count: int = 0;
    while start < samples.len()
        invariant
            stride == ch * GRAIN_SIZE,
            1 <= ch <= 65535,
            ch as int == (if channels == 0 { 1 } else { channels as int }),
            start == count * stride,
            start <= samples@.len(),
            count >= 0,
            out@.len() == count,
            forall|i: int| 0 <= i < out@.len() ==> (#[trigger] out@[i])@ == grain(samples@, i * stride, stride as int),
        decreases samples.len() - start,
    {
        let mut chunk: Vec<i16> = Vec::new();
        let mut j: usize = 0;
        while j < stride
            invariant
                start < samples@.len(),
                j <= stride,
                chunk@.len() == j,
                forall|k: int| 0 <= k < j ==> chunk@[k] == (if start + k < samples@.len() { samples@[start + k] } else { 0i16 }),
            decreases stride - j,
        {
            if j < samples.len() - start {
                chunk.push(samples[start + j]);
            } else {
                chunk.push(0);
            }
            j += 1;
        }
        assert(chunk@ =~= grain(samples@, start as int, stride as int));
        out.push(chunk);
        proof {
            count = count + 1;
        }
        if samples.len() - start <= stride {
            proof {
                assert(grain_count(samples@.len() as int, stride as int) == count) by (nonlinear_arith)
                    requires
                        start == (count - 1) * stride,
                        start < samples@.len(),
                        samples@.len() <= start + stride,
                        stride >= 1,
                {
                }
            }
            return out;
        }
        proof {
            assert(start + stride == count * stride) by (nonlinear_arith)
                requires
                    start == (count - 1) * stride,
            {
            }
        }
        start = start + stride;
    }
    proof {
        assert(grain_count(samples@.len() as int, stride as int) == count) by (nonlinear_arith)
            requires
                start == count * stride,
                start == samples@.len(),
                stride >= 1,
                count >= 0,
        {
        }
    }
    out
}

/// Queues effects for the audio thread.
pub struct AudioEngine {
    tx: Sender<Sfx>,
}

#[verifier::external_type_specification]
#[verifier::external_body]
#[verifier::reject_recursive_types(T)]
pub struct ExSender<T>(Sender<T>);

/// Hands an effect to the audio thread (`mpsc::Sender::send`); a closed
/// channel drops the effect. Nothing is promised.
#[verifier::external_body]
fn queue_effect(tx: &Sender<Sfx>, effect: Sfx) {
    let _ = tx.send(effect);
}

impl AudioEngine {
    /// The channel the engine queues effects on.
    pub closed spec fn sender(&self) -> Sender<Sfx> {
        self.tx
    }

    /// An engine that queues effects on `tx`; the thread that owns the
    /// receiving end plays them.
    pub fn from_sender(tx: Sender<Sfx>) -> (r: AudioEngine)
        ensures
            r.sender() == tx,
    {
        AudioEngine { tx }
    }

    /// Queues an effect; never blocks.
    pub fn play(&self, effect: Sfx) {
        queue_effect(&self.tx, effect)
    }
}

} // verus!
