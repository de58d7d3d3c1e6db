//! Bookkeeping for encoder statistics: processing time per unit and CPU
//! time per thread name.
use vstd::prelude::*;
use std::collections::VecDeque;
use vstd::string::StrSliceExecFns;

verus! {

/// CPU time one thread of the process has used, in clock ticks, with the
/// thread's command name.
#[derive(Clone, Debug, PartialEq, Eq)]
pub struct ThreadTimes {
    pub comm: String,
    pub utime: u64,
    pub stime: u64,
}

/// Total user time of the first `n` threads of `threads` named `name`.
pub open spec fn utime_of(threads: Seq<ThreadTimes>, name: Seq<char>, n: nat) -> int
    decreases n,
{
    if n == 0 {
        0
    } else {
        utime_of(threads, name, (n - 1) as nat) + if threads[n - 1].comm@ == name {
            threads[n - 1].utime as int
        } else {
            0
        }
    }
}

/// Total system time of the first `n` threads of `threads` named `name`.
pub open spec fn stime_of(threads: Seq<ThreadTimes>, name: Seq<char>, n: nat) -> int
    decreases n,
{
    if n == 0 {
        0
    } else {
        stime_of(threads, name, (n - 1) as nat) + if threads[n - 1].comm@ == name {
            threads[n - 1].stime as int
        } else {
            0
        }
    }
}

/// `x`, capped at the largest `u64`.
pub open spec fn capped(x: int) -> int {
    if x > u64::MAX {
        u64::MAX as int
    } else {
        x
    }
}

/// The user and system time used by the threads named `name`, each
/// summed, a sum past the largest `u64` giving the largest `u64`.
pub fn get_cpu_usage(name: &String, threads: &Vec<ThreadTimes>) -> (r: (u64, u64))
    ensures
        r.0 == capped(utime_of(threads@, name@, threads@.len())),
        r.1 == capped(stime_of(threads@, name@, threads@.len())),
{
    let mut total_utime: u64 = 0;
    let mut total_stime: u64 = 0;
    let mut i: usize = 0;
    while i < threads.len()
        invariant
            i <= threads@.len(),
            total_utime == capped(utime_of(threads@, name@, i as nat)),
            total_stime == capped(stime_of(threads@, name@, i as nat)),
            utime_of(threads@, name@, i as nat) >= 0,
            stime_of(threads@, name@, i as nat) >= 0,
        decreases threads@.len() - i,
    {
        let t = &threads[i];
        if t.comm == *name {
            total_utime = total_utime.saturating_add(t.utime);
            total_stime = total_stime.saturating_add(t.stime);
        }
        i = i + 1;
    }
    (total_utime, total_stime)
}

/// A unit left the encoder with no unit waiting inside it.
#[derive(Clone, Copy, Debug, PartialEq, Eq, Structural)]
pub enum StatsError {
    OutputWithoutInput,
}

/// Statistics of one encoder. Times are monotonic clock readings and
/// durations, in nanoseconds.
#[derive(Clone, Debug, PartialEq, Eq)]
pub struct VideoEncoderStats {
    pub name: String,
    pub num_buffers: u64,
    pub num_bytes: u64,
    /// Arrival times of the units inside the encoder, oldest first.
    pub time_last_buffers: VecDeque<u64>,
    pub max_buffers_inside: usize,
    pub total_processing_time: u64,
    pub threads_utime: u64,
    pub threads_stime: u64,
    /// Frame rate as numerator and denominator.
    pub framerate: Option<(i32, i32)>,
}

impl VideoEncoderStats {
    /// Empty statistics for the encoder `name`.
    pub fn new(name: String) -> (r: VideoEncoderStats)
        ensures
            r.name == name,
            r.num_buffers == 0,
            r.num_bytes == 0,
            r.time_last_buffers@.len() == 0,
            r.max_buffers_inside == 0,
            r.total_processing_time == 0,
            r.threads_utime == 0,
            r.threads_stime == 0,
            r.framerate is None,
    {
        VideoEncoderStats {
            name,
            num_buffers: 0,
            num_bytes: 0,
            time_last_buffers: VecDeque::new(),
            max_buffers_inside: 0,
            total_processing_time: 0,
            threads_utime: 0,
            threads_stime: 0,
            framerate: None,
        }
    }

    /// Records a unit entering the encoder at time `now`, and the largest
    /// number of units inside it so far.
    pub fn buffer_in(&mut self, now: u64)
        requires
            old(self).time_last_buffers@.len() < usize::MAX,
        ensures
            final(self).time_last_buffers@ == old(self).time_last_buffers@.push(now),
            final(self).max_buffers_inside == if old(self).time_last_buffers@.len() + 1
                > old(self).max_buffers_inside {
                (old(self).time_last_buffers@.len() + 1) as usize
            } else {
                old(self).max_buffers_inside
            },
            final(self).name == old(self).name,
            final(self).num_buffers == old(self).num_buffers,
            final(self).num_bytes == old(self).num_bytes,
            final(self).total_processing_time == old(self).total_processing_time,
            final(self).threads_utime == old(self).threads_utime,
            final(self).threads_stime == old(self).threads_stime,
            final(self).framerate == old(self).framerate,
    {
        self.time_last_buffers.push_back(now);
        if self.time_last_buffers.len() > self.max_buffers_inside {
            self.max_buffers_inside = self.time_last_buffers.len();
        }
    }

    /// Records a unit leaving the encoder at time `now`: the oldest unit
    /// inside is taken as the one that left, and the time it spent inside
    /// is added to the total processing time (an arrival after `now` counts
    /// as no time; a total past the largest `u64` stays there).
    pub fn buffer_out(&mut self, now: u64) -> (r: Result<(), StatsError>)
        ensures
            old(self).time_last_buffers@.len() == 0 ==> r == Err::<(), StatsError>(
                StatsError::OutputWithoutInput,
            ) && *final(self) == *old(self),
            old(self).time_last_buffers@.len() > 0 ==> {
                let arrive = old(self).time_last_buffers@[0];
                let spent = if now >= arrive {
                    now - arrive
                } else {
                    0
                };
                &&& r is Ok
                &&& final(self).time_last_buffers@ == old(self).time_last_buffers@.drop_first()
                &&& final(self).total_processing_time == capped(
                    old(self).total_processing_time + spent,
                )
                &&& final(self).max_buffers_inside == old(self).max_buffers_inside
                &&& final(self).name == old(self).name
                &&& final(self).num_buffers == old(self).num_buffers
                &&& final(self).num_bytes == old(self).num_bytes
                &&& final(self).threads_utime == old(self).threads_utime
                &&& final(self).threads_stime == old(self).threads_stime
                &&& final(self).framerate == old(self).framerate
            },
    {
        if self.time_last_buffers.len() == 0 {
            return Err(StatsError::OutputWithoutInput);
        }
        match self.time_last_buffers.pop_front() {
            Some(arrive) => {
                let spent = now.saturating_sub(arrive);
                self.total_processing_time = self.total_processing_time.saturating_add(spent);
                Ok(())
            },
            None => Err(StatsError::OutputWithoutInput),
        }
    }

    /// Mean processing time per unit, or zero before any unit.
    pub fn avg_processing_time(&self) -> (r: u64)
        ensures
            self.num_buffers == 0 ==> r == 0,
            self.num_buffers != 0 ==> r == self.total_processing_time / self.num_buffers,
    {
        if self.num_buffers != 0 {
            self.total_processing_time / self.num_buffers
        } else {
            0
        }
    }
}

/// Whether `c` occurs in `s`.
pub open spec fn has_char(s: Seq<char>, c: char) -> bool {
    exists|i: int| 0 <= i < s.len() && s[i] == c
}

/// Whether `c` occurs in `s`.
pub fn contains_char(s: &str, c: char) -> (r: bool)
    ensures
        r == has_char(s@, c),
{
    let n = s.unicode_len();
    let mut i: usize = 0;
    while i < n
        invariant
            n == s@.len(),
            i <= n,
            forall|j: int| 0 <= j < i ==> s@[j] != c,
        decreases n - i,
    {
        if s.get_char(i) == c {
            return true;
        }
        i = i + 1;
    }
    false
}

/// Name of the queue thread whose CPU time is charged to the encoder
/// element `obj_name`: the first branch's when the name holds a `0`, the
/// second's otherwise.
pub fn cpu_thread_name(obj_name: &str) -> (r: String)
    ensures
        has_char(obj_name@, '0') ==> r@ == "encq0:src"@,
        !has_char(obj_name@, '0') ==> r@ == "encq1:src"@,
{
    if contains_char(obj_name, '0') {
        "encq0:src".to_owned()
    } else {
        "encq1:src".to_owned()
    }
}

/// Whether statistics are sampled once `num_buffers` units have gone
/// through: once per second of stream, that is when the count is a multiple
/// of the frame rate's numerator. Without a known, positive frame rate
/// nothing is sampled.
pub fn sample_due(framerate: Option<(i32, i32)>, num_buffers: u64) -> (r: bool)
    ensures
        r == (framerate matches Some((n, _)) && n > 0 && num_buffers % (n as u64) == 0),
{
    match framerate {
        Some((n, _)) => n > 0 && num_buffers % (n as u64) == 0,
        None => false,
    }
}

/// A custom decoder and a parser must be configured together.
#[derive(Clone, Copy, Debug, PartialEq, Eq, Structural)]
pub enum DecodeConfigError {
    /// A decoder is set without a parser.
    ParserMissing,
    /// A parser is set without a decoder.
    DecoderMissing,
}

/// Checks that a custom decoder and a parser are set both or neither.
pub fn check_decode_config(has_decoder: bool, has_parser: bool) -> (r: Result<(), DecodeConfigError>)
    ensures
        has_decoder == has_parser ==> r is Ok,
        has_decoder && !has_parser ==> r == Err::<(), DecodeConfigError>(
            DecodeConfigError::ParserMissing,
        ),
        !has_decoder && has_parser ==> r == Err::<(), DecodeConfigError>(
            DecodeConfigError::DecoderMissing,
        ),
{
    if has_decoder == has_parser {
        Ok(())
    } else if has_decoder {
        Err(DecodeConfigError::ParserMissing)
    } else {
        Err(DecodeConfigError::DecoderMissing)
    }
}

impl VideoEncoderStats {
    /// Records one sample: the encoder's name, the counts of units and
    /// bytes that went through, and the CPU time of its thread.
    pub fn record_sample(
        &mut self,
        name: String,
        num_buffers: u64,
        num_bytes: u64,
        cpu: (u64, u64),
    )
        ensures
            final(self).name == name,
            final(self).num_buffers == num_buffers,
            final(self).num_bytes == num_bytes,
            final(self).threads_utime == cpu.0,
            final(self).threads_stime == cpu.1,
            final(self).time_last_buffers@ == old(self).time_last_buffers@,
            final(self).max_buffers_inside == old(self).max_buffers_inside,
            final(self).total_processing_time == old(self).total_processing_time,
            final(self).framerate == old(self).framerate,
    {
        self.threads_utime = cpu.0;
        self.threads_stime = cpu.1;
        self.num_bytes = num_bytes;
        self.num_buffers = num_buffers;
        self.name = name;
    }
}

} // verus!
