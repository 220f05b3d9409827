use crate::signal::{
    div_trunc, in_range, sample_from_i16, sample_from_i16_spec, sample_from_u16,
    sample_from_u16_spec,
};
use crate::text::{is_blank, str_is_blank};
use vstd::prelude::*;
use vstd::utf8::encode_utf8;

verus! {

/// The status of the machine's audio input, as reported to the user
/// interface: how many input devices exist, the default device's name and
/// native rate where one is usable, and a human-readable message when none
/// is.
#[derive(Debug)]
pub struct AudioInputStatus {
    pub available_inputs: usize,
    pub default_input: Option<String>,
    pub default_sample_rate: Option<u32>,
    pub ok: bool,
    pub message: Option<String>,
}

/// Builds the input status from what the device query found: the device
/// count, the error the enumeration reported (if any), and the default
/// device's name and native sample rate (if any). A blank device name counts
/// as no device; the status is `ok` exactly when there is nothing to warn
/// about.
pub fn input_status(
    available_inputs: usize,
    enumerate_error: Option<String>,
    default_input: Option<String>,
    default_sample_rate: Option<u32>,
) -> (r: AudioInputStatus)
    ensures
        r.available_inputs == available_inputs,
        r.default_sample_rate == default_sample_rate,
        r.default_input is Some <==> (default_input is Some && !is_blank(
            encode_utf8(default_input->0@),
        )),
        r.default_input is Some ==> r.default_input->0@ == default_input->0@,
        enumerate_error is Some ==> r.message is Some && r.message->0@
            == "Failed to enumerate input devices: "@ + enumerate_error->0@,
        enumerate_error is None && r.default_input is None ==> r.message is Some
            && r.message->0@
            == "No default microphone detected. Check System Settings > Privacy & Security > Microphone."@,
        enumerate_error is None && r.default_input is Some ==> r.message is None,
        r.ok == (r.message is None),
{
    let visible_input: Option<String> = match default_input {
        Option::Some(name) => {
            if str_is_blank(name.as_str()) {
                None
            } else {
                Some(name)
            }
        },
        Option::None => None,
    };
    let message: Option<String> = match enumerate_error {
        Option::Some(err) => Some(
            String::from_str("Failed to enumerate input devices: ").concat(err.as_str()),
        ),
        Option::None => {
            if visible_input.is_none() {
                Some(
                    String::from_str(
                        "No default microphone detected. Check System Settings > Privacy & Security > Microphone.",
                    ),
                )
            } else {
                None
            }
        },
    };
    let ok = message.is_none();
    AudioInputStatus {
        available_inputs,
        default_input: visible_input,
        default_sample_rate,
        ok,
        message,
    }
}

/// An immutable snapshot of one finished capture: the downmixed samples, the
/// rate they were captured at, the elapsed wall-clock duration, and whether
/// the capacity cap dropped any audio.
pub struct CapturedAudio {
    pub samples: Vec<i32>,
    pub sample_rate: u32,
    pub duration_ms: i64,
    pub truncated: bool,
}

/// The sum of a sequence of samples.
pub open spec fn seq_sum(s: Seq<i32>) -> int
    decreases s.len(),
{
    if s.len() == 0 {
        0
    } else {
        seq_sum(s.drop_last()) + s.last()
    }
}

/// How many frames a block of `len` interleaved samples holds at `ch`
/// channels; a trailing partial frame counts.
pub open spec fn num_frames(len: int, ch: int) -> int
    recommends
        ch > 0,
{
    (len + ch - 1) / ch
}

/// Frame `j` of an interleaved block: `ch` consecutive samples, fewer for a
/// trailing partial frame.
pub open spec fn frame_of(data: Seq<i32>, ch: int, j: int) -> Seq<i32> {
    data.subrange(
        j * ch,
        if (j + 1) * ch <= data.len() {
            (j + 1) * ch
        } else {
            data.len() as int
        },
    )
}

/// The mono downmix of frame `j`: the mean of its channels, truncated toward
/// zero. A partial frame is still divided by the full channel count.
pub open spec fn downmix_frame(data: Seq<i32>, ch: int, j: int) -> int {
    div_trunc(seq_sum(frame_of(data, ch, j)), ch)
}

pub proof fn lemma_seq_sum_bounds(s: Seq<i32>)
    requires
        in_range(s),
    ensures
        -10000 * s.len() <= seq_sum(s) <= 10000 * s.len(),
    decreases s.len(),
{
    if s.len() > 0 {
        assert(in_range(s.drop_last()));
        lemma_seq_sum_bounds(s.drop_last());
    }
}

/// The bounded sample buffer of one live capture session.
///
/// The audio callback appends downmixed frames through the `push_samples`
/// methods; the stop path consumes the buffer through `stop_capture`. The
/// buffer never grows past `max_samples`; a frame that arrives once the cap
/// is reached is dropped and sets the truncation flag instead. The ghost
/// field counts every frame ever offered, so the flag is exactly the fact
/// that more frames were offered than fit.
pub struct CaptureBuffer {
    pub samples: Vec<i32>,
    pub sample_rate: u32,
    pub max_samples: usize,
    pub truncated: bool,
    pub frames_offered: Ghost<nat>,
}

impl CaptureBuffer {
    /// The capacity bound: the buffer holds the first `max_samples` frames
    /// offered, and the truncation flag is set exactly when more were
    /// offered than fit.
    pub open spec fn wf(&self) -> bool {
        &&& self.samples@.len() == if self.frames_offered@ <= self.max_samples as nat {
            self.frames_offered@
        } else {
            self.max_samples as nat
        }
        &&& (self.truncated <==> self.frames_offered@ > self.max_samples as nat)
        &&& in_range(self.samples@)
    }

    /// Opens an empty buffer capped at `sample_rate * max_seconds` mono
    /// samples.
    pub fn new(sample_rate: u32, max_seconds: u32) -> (r: CaptureBuffer)
        requires
            sample_rate as int * max_seconds as int <= usize::MAX,
        ensures
            r.wf(),
            r.samples@.len() == 0,
            r.sample_rate == sample_rate,
            r.max_samples == sample_rate as int * max_seconds as int,
            !r.truncated,
            r.frames_offered@ == 0,
    {
        CaptureBuffer {
            samples: Vec::new(),
            sample_rate,
            max_samples: (sample_rate as usize) * (max_seconds as usize),
            truncated: false,
            frames_offered: Ghost(0),
        }
    }

    /// Appends one block of interleaved fixed-point frames, downmixing each
    /// frame to mono, up to the capacity cap. A block with zero channels is
    /// ignored.
    pub fn push_samples_fixed(&mut self, data: &Vec<i32>, channels: usize)
        requires
            old(self).wf(),
            in_range(data@),
            channels <= 0x1_0000,
            data@.len() < usize::MAX,
        ensures
            final(self).wf(),
            final(self).sample_rate == old(self).sample_rate,
            final(self).max_samples == old(self).max_samples,
            channels == 0 ==> *final(self) == *old(self),
            channels > 0 ==> {
                let nf = num_frames(data@.len() as int, channels as int);
                &&& final(self).frames_offered@ == old(self).frames_offered@ + nf
                &&& final(self).samples@.len() == if old(self).samples@.len() + nf
                    <= final(self).max_samples as int {
                    old(self).samples@.len() + nf
                } else {
                    final(self).max_samples as int
                }
                &&& final(self).samples@.subrange(0, old(self).samples@.len() as int) == old(
                    self,
                ).samples@
                &&& forall|j: int|
                    old(self).samples@.len() <= j < final(self).samples@.len() ==> final(self).samples@[j]
                        == downmix_frame(
                        data@,
                        channels as int,
                        j - old(self).samples@.len(),
                    ) as i32
                &&& (final(self).truncated <==> old(self).truncated || old(self).samples@.len() + nf
                    > final(self).max_samples as int)
            },
    {
        if channels == 0 {
            return ;
        }
        let len = data.len();
        let nf: usize = len / channels + if len % channels > 0 {
            1
        } else {
            0
        };
        proof {
            vstd::arithmetic::div_mod::lemma_fundamental_div_mod(len as int, channels as int);
            assert(nf == num_frames(len as int, channels as int)) by (nonlinear_arith)
                requires
                    channels >= 1,
                    len == channels * ((len as int) / (channels as int)) + (len as int) % (
                    channels as int),
                    0 <= (len as int) % (channels as int) < channels,
                    nf == (len as int) / (channels as int) + (if (len as int) % (channels as int)
                        > 0 {
                        1int
                    } else {
                        0int
                    }),
            ;
        }
        let ghost base_len = self.samples@.len() as int;
        let ghost old_self = *self;
        let mut j: usize = 0;
        while j < nf
            invariant
                old_self.wf(),
                channels >= 1,
                channels <= 0x1_0000,
                in_range(data@),
                len == data@.len(),
                nf == num_frames(len as int, channels as int),
                0 <= j <= nf,
                base_len == old_self.samples@.len(),
                self.sample_rate == old_self.sample_rate,
                self.max_samples == old_self.max_samples,
                self.frames_offered == old_self.frames_offered,
                self.samples@.len() == if base_len + j <= self.max_samples as int {
                    base_len + j
                } else {
                    self.max_samples as int
                },
                self.samples@.subrange(0, base_len) == old_self.samples@,
                forall|t: int|
                    base_len <= t < self.samples@.len() ==> self.samples@[t] == downmix_frame(
                        data@,
                        channels as int,
                        t - base_len,
                    ) as i32,
                (self.truncated <==> old_self.truncated || base_len + j
                    > self.max_samples as int),
                in_range(self.samples@),
            decreases nf - j,
        {
            if self.samples.len() < self.max_samples {
                proof {
                    assert(j * channels < len && (j + 1) * channels <= len + channels && (j + 1)
                        * channels == j * channels + channels) by (nonlinear_arith)
                        requires
                            channels >= 1,
                            j < nf,
                            nf == (len + channels - 1) as int / channels as int,
                            len >= 0,
                    ;
                }
                let base: usize = j * channels;
                let end: usize = if channels <= len - base {
                    base + channels
                } else {
                    len
                };
                let ghost frame = frame_of(data@, channels as int, j as int);
                proof {
                    assert(frame =~= data@.subrange(base as int, end as int));
                }
                let mut sum: i64 = 0;
                let mut t: usize = base;
                while t < end
                    invariant
                        base <= t <= end <= data@.len(),
                        end - base <= channels <= 0x1_0000,
                        in_range(data@),
                        sum == seq_sum(data@.subrange(base as int, t as int)),
                        -10000 * (t - base) <= sum <= 10000 * (t - base),
                    decreases end - t,
                {
                    proof {
                        let pre = data@.subrange(base as int, t as int);
                        let post = data@.subrange(base as int, t as int + 1);
                        assert(post.drop_last() =~= pre);
                        assert(post.last() == data@[t as int]);
                        assert(-10000 <= data@[t as int] <= 10000);
                    }
                    sum = sum + (data[t] as i64);
                    t = t + 1;
                }
                let mono: i64 = if sum >= 0 {
                    ((sum as u64) / (channels as u64)) as i64
                } else {
                    -((((-sum) as u64) / (channels as u64)) as i64)
                };
                proof {
                    assert(mono == div_trunc(seq_sum(frame), channels as int));
                    assert(-10000 <= mono <= 10000) by (nonlinear_arith)
                        requires
                            channels >= 1,
                            -10000 * channels <= seq_sum(frame) <= 10000 * channels,
                            mono == div_trunc(seq_sum(frame), channels as int),
                    ;
                }
                self.samples.push(mono as i32);
                proof {
                    assert(self.samples@.subrange(0, base_len) =~= old_self.samples@);
                }
            } else {
                self.truncated = true;
            }
            j = j + 1;
        }
        proof {
            self.frames_offered@ = old_self.frames_offered@ + nf as nat;
        }
    }

    /// Appends one block of interleaved signed 16-bit frames, converting
    /// each sample to fixed point before downmixing.
    pub fn push_samples_i16(&mut self, data: &Vec<i16>, channels: usize)
        requires
            old(self).wf(),
            channels <= 0x1_0000,
            data@.len() < usize::MAX,
        ensures
            final(self).wf(),
            final(self).sample_rate == old(self).sample_rate,
            final(self).max_samples == old(self).max_samples,
            channels == 0 ==> *final(self) == *old(self),
            channels > 0 ==> {
                let conv = data@.map_values(|s: i16| sample_from_i16_spec(s as int) as i32);
                let nf = num_frames(data@.len() as int, channels as int);
                &&& final(self).frames_offered@ == old(self).frames_offered@ + nf
                &&& final(self).samples@.subrange(0, old(self).samples@.len() as int) == old(
                    self,
                ).samples@
                &&& forall|j: int|
                    old(self).samples@.len() <= j < final(self).samples@.len() ==> final(self).samples@[j]
                        == downmix_frame(conv, channels as int, j - old(self).samples@.len()) as i32
                &&& (final(self).truncated <==> old(self).truncated || old(self).samples@.len() + nf
                    > final(self).max_samples as int)
            },
    {
        let mut conv: Vec<i32> = Vec::new();
        let mut i: usize = 0;
        let n = data.len();
        while i < n
            invariant
                n == data@.len(),
                0 <= i <= n,
                conv@.len() == i,
                forall|t: int|
                    0 <= t < i ==> conv@[t] == sample_from_i16_spec(data@[t] as int) as i32,
                in_range(conv@),
            decreases n - i,
        {
            let v = sample_from_i16(data[i]);
            conv.push(v);
            i = i + 1;
        }
        proof {
            assert(conv@ =~= data@.map_values(|s: i16| sample_from_i16_spec(s as int) as i32));
        }
        self.push_samples_fixed(&conv, channels);
    }

    /// Appends one block of interleaved unsigned 16-bit frames, converting
    /// each sample to fixed point before downmixing.
    pub fn push_samples_u16(&mut self, data: &Vec<u16>, channels: usize)
        requires
            old(self).wf(),
            channels <= 0x1_0000,
            data@.len() < usize::MAX,
        ensures
            final(self).wf(),
            final(self).sample_rate == old(self).sample_rate,
            final(self).max_samples == old(self).max_samples,
            channels == 0 ==> *final(self) == *old(self),
            channels > 0 ==> {
                let conv = data@.map_values(|s: u16| sample_from_u16_spec(s as int) as i32);
                let nf = num_frames(data@.len() as int, channels as int);
                &&& final(self).frames_offered@ == old(self).frames_offered@ + nf
                &&& final(self).samples@.subrange(0, old(self).samples@.len() as int) == old(
                    self,
                ).samples@
                &&& forall|j: int|
                    old(self).samples@.len() <= j < final(self).samples@.len() ==> final(self).samples@[j]
                        == downmix_frame(conv, channels as int, j - old(self).samples@.len()) as i32
                &&& (final(self).truncated <==> old(self).truncated || old(self).samples@.len() + nf
                    > final(self).max_samples as int)
            },
    {
        let mut conv: Vec<i32> = Vec::new();
        let mut i: usize = 0;
        let n = data.len();
        while i < n
            invariant
                n == data@.len(),
                0 <= i <= n,
                conv@.len() == i,
                forall|t: int|
                    0 <= t < i ==> conv@[t] == sample_from_u16_spec(data@[t] as int) as i32,
                in_range(conv@),
            decreases n - i,
        {
            let v = sample_from_u16(data[i]);
            conv.push(v);
            i = i + 1;
        }
        proof {
            assert(conv@ =~= data@.map_values(|s: u16| sample_from_u16_spec(s as int) as i32));
        }
        self.push_samples_fixed(&conv, channels);
    }
}

/// Closes a capture session: the buffer contents become an immutable
/// snapshot carrying the elapsed duration the caller measured.
pub fn stop_capture(buffer: CaptureBuffer, duration_ms: i64) -> (r: CapturedAudio)
    requires
        buffer.wf(),
    ensures
        r.samples@ == buffer.samples@,
        r.sample_rate == buffer.sample_rate,
        r.duration_ms == duration_ms,
        r.truncated == buffer.truncated,
        in_range(r.samples@),
    {
    CapturedAudio {
        samples: buffer.samples,
        sample_rate: buffer.sample_rate,
        duration_ms,
        truncated: buffer.truncated,
    }
}

} // verus!
