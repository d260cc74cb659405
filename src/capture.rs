//! The capture actor's state: the sample buffer of the recording under way,
//! the amplitude meter that drives the live level display, and the two
//! commands, start and stop, that the actor's command loop applies.
//!
//! Samples are held as 16-bit PCM values: the value `q` stands for the
//! normalized sample `q / 32767`.
use vstd::prelude::*;

use crate::wav::{encodable, encode_wav, wav_image, EncodeError};

verus! {

/// Minimum time between two amplitude emissions, in milliseconds.
pub const EMIT_INTERVAL_MS: u64 = 50;

/// The amplitude level that stands for 1.0.
pub const FULL_SCALE: u16 = 32767;

/// The perceptual gain applied to the mean absolute amplitude.
pub const AMPLITUDE_GAIN: u64 = 5;

pub open spec fn abs_i16(x: i16) -> int {
    if x < 0 {
        -x
    } else {
        x as int
    }
}

/// A PCM value as kept: the lowest `i16` value, which stands for slightly
/// less than -1, is raised to -32767 so that every kept sample lies in
/// `[-1, 1]`.
pub open spec fn in_range(x: i16) -> i16 {
    if x == i16::MIN {
        -32767i16
    } else {
        x
    }
}

/// A chunk's samples as kept.
pub open spec fn kept_chunk(chunk: Seq<i16>) -> Seq<i16> {
    chunk.map_values(|x: i16| in_range(x))
}

/// The sum of the absolute values of the samples.
pub open spec fn abs_sum(s: Seq<i16>) -> int
    decreases s.len(),
{
    if s.len() == 0 {
        0
    } else {
        abs_sum(s.drop_last()) + abs_i16(s.last())
    }
}

/// `x` capped at the largest `u64`.
pub open spec fn saturate(x: int) -> u64 {
    if x > u64::MAX {
        u64::MAX
    } else {
        x as u64
    }
}

/// Milliseconds from `since` to `now`; zero if the clock reads earlier.
pub open spec fn elapsed(now: u64, since: u64) -> int {
    if now >= since {
        now - since
    } else {
        0
    }
}

/// The level reported for a window: the mean absolute amplitude with gain,
/// capped at full scale.
pub open spec fn level_of(sum: u64, count: u64) -> u16 {
    let l = (AMPLITUDE_GAIN * sum) as int / count as int;
    if l > FULL_SCALE {
        FULL_SCALE
    } else {
        l as u16
    }
}

/// The PCM value nearest to an unsigned 16-bit sample once it is centred
/// on zero and scaled to `[-1, 1]`: `q` is an integer within half a step of
/// `(2s - 65535) / 65535 * 32767`.
pub open spec fn nearest_centered(s: u16, q: int) -> bool {
    let num = (2 * s - 65535) * 32767;
    -65535 <= 2 * (q * 65535 - num) <= 65535
}

proof fn lemma_round_pos(num: int, q: int)
    requires
        num >= 0,
        q == (2 * num + 65535) / 131070,
    ensures
        -65535 <= 2 * (q * 65535 - num) <= 65535,
{
    let t = 2 * num + 65535;
    assert(t == 131070 * q + t % 131070) by (nonlinear_arith)
        requires
            q == t / 131070,
    ;
    assert(0 <= t % 131070 < 131070);
}

/// Converts an unsigned 16-bit sample to a PCM value.
pub fn pcm_from_u16(s: u16) -> (q: i16)
    ensures
        nearest_centered(s, q as int),
{
    let num: i64 = (2 * (s as i64) - 65535) * 32767;
    if num >= 0 {
        let q: i64 = (2 * num + 65535) / 131070;
        proof {
            lemma_round_pos(num as int, q as int);
            assert(q <= 32767) by (nonlinear_arith)
                requires
                    num <= 65535 * 32767,
                    q == (2 * num + 65535) / 131070,
            ;
        }
        q as i16
    } else {
        let m: i64 = (-2 * num + 65535) / 131070;
        proof {
            lemma_round_pos(-num as int, m as int);
            assert(m <= 32767) by (nonlinear_arith)
                requires
                    -num <= 65535 * 32767,
                    m == (-2 * num + 65535) / 131070,
            ;
        }
        (-m) as i16
    }
}

/// The actor's state as the contracts see it.
pub struct CaptureView {
    /// Whether an input stream is live and its chunks are kept.
    pub recording: bool,
    pub samples: Seq<i16>,
    pub sample_rate: u32,
    pub window_sum: u64,
    pub window_count: u64,
    pub last_emit_ms: u64,
}

/// What `Start` leaves: an empty buffer accepting chunks, and a fresh
/// amplitude window opened at `now`.
pub open spec fn started(v: CaptureView, now: u64) -> CaptureView {
    CaptureView {
        recording: true,
        samples: Seq::empty(),
        sample_rate: v.sample_rate,
        window_sum: 0,
        window_count: 0,
        last_emit_ms: now,
    }
}

/// What a failed stream leaves: nothing kept, nothing accepted.
pub open spec fn abandoned(v: CaptureView) -> CaptureView {
    CaptureView { recording: false, samples: Seq::empty(), ..v }
}

/// The state after a chunk arrives at `now`, and the level emitted, if any.
/// The chunk's samples are kept, and measured, as `kept_chunk` gives them.
pub open spec fn after_chunk(v: CaptureView, chunk: Seq<i16>, now: u64) -> (CaptureView, Option<
    u16,
>) {
    if !v.recording {
        (v, None)
    } else {
        let sum = saturate(v.window_sum + abs_sum(kept_chunk(chunk)));
        let count = saturate(v.window_count + chunk.len());
        let samples = v.samples + kept_chunk(chunk);
        if elapsed(now, v.last_emit_ms) >= EMIT_INTERVAL_MS {
            (
                CaptureView { samples, window_sum: 0, window_count: 0, last_emit_ms: now, ..v },
                if count > 0 {
                    Some(level_of(sum, count))
                } else {
                    None
                },
            )
        } else {
            (CaptureView { samples, window_sum: sum, window_count: count, ..v }, None)
        }
    }
}

/// What `Stop` leaves: the stream is gone and the buffer is drained.
pub open spec fn stopped(v: CaptureView) -> CaptureView {
    CaptureView { recording: false, samples: Seq::empty(), ..v }
}

/// What `Stop` returns: the drained samples at the capture rate, or
/// `NothingRecorded` if there are none.
pub open spec fn stop_result(v: CaptureView) -> Result<(u32, Seq<i16>), EncodeError> {
    if v.samples.len() == 0 {
        Err(EncodeError::NothingRecorded)
    } else {
        Ok((v.sample_rate, v.samples))
    }
}

/// One finished recording.
pub struct Recording {
    pub sample_rate: u32,
    pub samples: Vec<i16>,
}

impl Recording {
    /// Encodes the recording as the audio artifact's bytes.
    pub fn encode(&self) -> (r: Result<Vec<u8>, EncodeError>)
        ensures
            self.samples@.len() == 0 ==> r == Err::<Vec<u8>, EncodeError>(
                EncodeError::NothingRecorded,
            ),
            self.samples@.len() > 0 && !encodable(
                self.sample_rate,
                self.samples@.len(),
            ) ==> r == Err::<Vec<u8>, EncodeError>(EncodeError::Unencodable),
            self.samples@.len() > 0 && encodable(self.sample_rate, self.samples@.len()) ==> (r matches Ok(
                bytes,
            ) && bytes@ == wav_image(self.sample_rate, self.samples@)),
    {
        encode_wav(self.sample_rate, &self.samples)
    }
}

/// The capture actor's mutable state. It accepts chunks only between a
/// `start` and the following `stop`; outside of that the buffer is empty.
pub struct CaptureActor {
    recording: bool,
    samples: Vec<i16>,
    sample_rate: u32,
    window_sum: u64,
    window_count: u64,
    last_emit_ms: u64,
}

impl View for CaptureActor {
    type V = CaptureView;

    closed spec fn view(&self) -> CaptureView {
        CaptureView {
            recording: self.recording,
            samples: self.samples@,
            sample_rate: self.sample_rate,
            window_sum: self.window_sum,
            window_count: self.window_count,
            last_emit_ms: self.last_emit_ms,
        }
    }
}

/// The rate assumed until a device reports its own.
pub const DEFAULT_SAMPLE_RATE: u32 = 44100;

fn abs_sum_of(chunk: &[i16]) -> (r: u64)
    ensures
        r == saturate(abs_sum(kept_chunk(chunk@))),
{
    let ghost kept = kept_chunk(chunk@);
    let mut acc: u64 = 0;
    let mut i: usize = 0;
    while i < chunk.len()
        invariant
            i <= chunk.len(),
            kept == kept_chunk(chunk@),
            acc == saturate(abs_sum(kept.subrange(0, i as int))),
        decreases chunk.len() - i,
    {
        let x = keep_sample(chunk[i]);
        let a: u64 = if x < 0 {
            (-(x as i32)) as u64
        } else {
            x as u64
        };
        acc = acc.saturating_add(a);
        proof {
            let pre = kept.subrange(0, i as int);
            let post = kept.subrange(0, i + 1);
            assert(post.drop_last() =~= pre);
            assert(post.last() == x);
            lemma_abs_sum_nonneg(pre);
        }
        i = i + 1;
    }
    assert(kept.subrange(0, chunk.len() as int) =~= kept);
    acc
}

/// A PCM value as kept.
fn keep_sample(x: i16) -> (r: i16)
    ensures
        r == in_range(x),
{
    if x == i16::MIN {
        -32767
    } else {
        x
    }
}

proof fn lemma_abs_sum_nonneg(s: Seq<i16>)
    ensures
        abs_sum(s) >= 0,
    decreases s.len(),
{
    if s.len() > 0 {
        lemma_abs_sum_nonneg(s.drop_last());
    }
}

impl CaptureActor {
    /// Whether the state is consistent: no samples are kept while idle.
    pub open spec fn consistent(v: CaptureView) -> bool {
        v.recording || v.samples.len() == 0
    }

    /// An idle actor with an empty buffer.
    pub fn new() -> (r: Self)
        ensures
            !r@.recording,
            r@.samples.len() == 0,
            r@.sample_rate == DEFAULT_SAMPLE_RATE,
    {
        CaptureActor {
            recording: false,
            samples: Vec::new(),
            sample_rate: DEFAULT_SAMPLE_RATE,
            window_sum: 0,
            window_count: 0,
            last_emit_ms: 0,
        }
    }

    /// Whether chunks are currently kept.
    pub fn is_recording(&self) -> (r: bool)
        ensures
            r == self@.recording,
    {
        self.recording
    }

    /// The number of samples kept so far.
    pub fn buffered(&self) -> (r: usize)
        ensures
            r == self@.samples.len(),
    {
        self.samples.len()
    }

    /// The `Start` command at time `now`: clears the buffer and accepts
    /// chunks. A stream left from an earlier start is replaced.
    pub fn start(&mut self, now_ms: u64)
        ensures
            final(self)@ == started(old(self)@, now_ms),
    {
        self.samples.clear();
        self.recording = true;
        self.window_sum = 0;
        self.window_count = 0;
        self.last_emit_ms = now_ms;
    }

    /// The device stream is running at `rate` samples per second.
    pub fn stream_opened(&mut self, rate: u32)
        ensures
            final(self)@ == (CaptureView { sample_rate: rate, ..old(self)@ }),
    {
        self.sample_rate = rate;
    }

    /// No stream could be opened: the actor stays idle.
    pub fn stream_failed(&mut self)
        ensures
            final(self)@ == abandoned(old(self)@),
    {
        self.recording = false;
        self.samples.clear();
    }

    /// A chunk of PCM values from the device at time `now`. Kept only while
    /// recording, with -32768 raised to -32767; returns the amplitude level
    /// to emit, if one is due.
    pub fn push_chunk(&mut self, chunk: &[i16], now_ms: u64) -> (r: Option<u16>)
        ensures
            (final(self)@, r) == after_chunk(old(self)@, chunk@, now_ms),
    {
        if !self.recording {
            return None;
        }
        let chunk_sum = abs_sum_of(chunk);
        proof {
            lemma_abs_sum_nonneg(kept_chunk(chunk@));
        }
        let sum = self.window_sum.saturating_add(chunk_sum);
        let count = self.window_count.saturating_add(chunk.len() as u64);
        let mut i: usize = 0;
        let ghost before = self.samples@;
        let ghost start = self@;
        while i < chunk.len()
            invariant
                i <= chunk.len(),
                self@ == (CaptureView { samples: self.samples@, ..start }),
                self.samples@ == before + kept_chunk(chunk@).subrange(0, i as int),
            decreases chunk.len() - i,
        {
            self.samples.push(keep_sample(chunk[i]));
            i = i + 1;
            proof {
                assert(self.samples@ =~= before + kept_chunk(chunk@).subrange(0, i as int));
            }
        }
        assert(kept_chunk(chunk@).subrange(0, chunk.len() as int) =~= kept_chunk(chunk@));
        let since = if now_ms >= self.last_emit_ms {
            now_ms - self.last_emit_ms
        } else {
            0
        };
        if since >= EMIT_INTERVAL_MS {
            self.window_sum = 0;
            self.window_count = 0;
            self.last_emit_ms = now_ms;
            if count > 0 {
                let l: u128 = (AMPLITUDE_GAIN as u128) * (sum as u128) / (count as u128);
                if l > FULL_SCALE as u128 {
                    Some(FULL_SCALE)
                } else {
                    Some(l as u16)
                }
            } else {
                None
            }
        } else {
            self.window_sum = sum;
            self.window_count = count;
            None
        }
    }

    /// A chunk of unsigned 16-bit samples, converted to PCM values first.
    pub fn push_u16_chunk(&mut self, chunk: &[u16], now_ms: u64) -> (r: Option<u16>)
        ensures
            exists|pcm: Seq<i16>|
                pcm.len() == chunk@.len() && (forall|i: int|
                    0 <= i < pcm.len() ==> nearest_centered(#[trigger] chunk@[i], pcm[i] as int))
                    && (final(self)@, r) == after_chunk(old(self)@, pcm, now_ms),
    {
        let mut pcm: Vec<i16> = Vec::new();
        let mut i: usize = 0;
        while i < chunk.len()
            invariant
                i <= chunk.len(),
                pcm.len() == i,
                forall|j: int| 0 <= j < i ==> nearest_centered(#[trigger] chunk@[j], pcm@[j] as int),
            decreases chunk.len() - i,
        {
            pcm.push(pcm_from_u16(chunk[i]));
            i = i + 1;
        }
        self.push_chunk(pcm.as_slice(), now_ms)
    }

    /// The `Stop` command: the stream is gone and the buffer is drained into
    /// the returned recording, which fails with `NothingRecorded` if no
    /// sample was kept.
    pub fn stop(&mut self) -> (r: Result<Recording, EncodeError>)
        ensures
            final(self)@ == stopped(old(self)@),
            match (r, stop_result(old(self)@)) {
                (Ok(rec), Ok((rate, s))) => rec.sample_rate == rate && rec.samples@ == s,
                (Err(e), Err(f)) => e == f,
                _ => false,
            },
    {
        self.recording = false;
        let mut samples: Vec<i16> = Vec::new();
        core::mem::swap(&mut samples, &mut self.samples);
        if samples.len() == 0 {
            Err(EncodeError::NothingRecorded)
        } else {
            Ok(Recording { sample_rate: self.sample_rate, samples })
        }
    }
}

/// An event the actor sees: a command, a stream outcome, or a chunk.
pub enum CaptureEvent {
    Start { now_ms: u64 },
    Opened { rate: u32 },
    Failed,
    Chunk { samples: Seq<i16>, now_ms: u64 },
    Stop,
}

/// The state after `e`.
pub open spec fn step(v: CaptureView, e: CaptureEvent) -> CaptureView {
    match e {
        CaptureEvent::Start { now_ms } => started(v, now_ms),
        CaptureEvent::Opened { rate } => CaptureView { sample_rate: rate, ..v },
        CaptureEvent::Failed => abandoned(v),
        CaptureEvent::Chunk { samples, now_ms } => after_chunk(v, samples, now_ms).0,
        CaptureEvent::Stop => stopped(v),
    }
}

/// The state after the events of `es`, in order.
pub open spec fn replay(v: CaptureView, es: Seq<CaptureEvent>) -> CaptureView
    decreases es.len(),
{
    if es.len() == 0 {
        v
    } else {
        step(replay(v, es.drop_last()), es.last())
    }
}

/// Every event keeps the state consistent.
pub proof fn every_step_consistent(v: CaptureView, e: CaptureEvent)
    requires
        CaptureActor::consistent(v),
    ensures
        CaptureActor::consistent(step(v, e)),
{
}

/// A `Stop` not preceded by a `Start` since the actor was idle fails with
/// `NothingRecorded`, whatever chunks and stream outcomes came in between.
pub proof fn stop_without_start_fails(v: CaptureView, es: Seq<CaptureEvent>)
    requires
        !v.recording,
        v.samples.len() == 0,
        forall|i: int| 0 <= i < es.len() ==> !(#[trigger] es[i] is Start),
    ensures
        stop_result(replay(v, es)) == Err::<(u32, Seq<i16>), EncodeError>(
            EncodeError::NothingRecorded,
        ),
        !replay(v, es).recording,
    decreases es.len(),
{
    if es.len() > 0 {
        assert forall|i: int| 0 <= i < es.drop_last().len() implies !(
        #[trigger] es.drop_last()[i] is Start) by {
            assert(es.drop_last()[i] == es[i]);
        }
        stop_without_start_fails(v, es.drop_last());
        assert(!(es[es.len() - 1] is Start));
    }
}

/// Two starts in a row leave the same state as the second one alone.
pub proof fn start_is_idempotent(v: CaptureView, first_ms: u64, second_ms: u64)
    ensures
        started(started(v, first_ms), second_ms) == started(v, second_ms),
{
}

/// The amplitude level is within `[0, FULL_SCALE]`; none is emitted while
/// idle, none within `EMIT_INTERVAL_MS` of the previous emission, and one is
/// emitted whenever that interval has passed over a window holding samples.
pub proof fn amplitude_is_bounded_and_paced(v: CaptureView, chunk: Seq<i16>, now: u64)
    ensures
        after_chunk(v, chunk, now).1 matches Some(l) ==> l <= FULL_SCALE && v.recording && elapsed(
            now,
            v.last_emit_ms,
        ) >= EMIT_INTERVAL_MS && after_chunk(v, chunk, now).0.last_emit_ms == now,
        !v.recording ==> after_chunk(v, chunk, now).1 is None,
        v.recording && elapsed(now, v.last_emit_ms) >= EMIT_INTERVAL_MS && v.window_count
            + chunk.len() > 0 ==> after_chunk(v, chunk, now).1 is Some,
{
}

} // verus!
