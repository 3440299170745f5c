//! Performance counters of a benchmark run. Durations are counted in
//! nanoseconds.

use vstd::prelude::*;

verus! {

/// Sum of a sequence of durations.
pub open spec fn total_of(times: Seq<u64>) -> int
    decreases times.len(),
{
    if times.len() == 0 {
        0
    } else {
        total_of(times.drop_last()) + times.last() as int
    }
}

/// Mean of a sequence of durations, rounded down; `None` when it is empty.
pub open spec fn average_of(times: Seq<u64>) -> Option<u64> {
    if times.len() == 0 {
        None
    } else {
        Some((total_of(times) / (times.len() as int)) as u64)
    }
}

proof fn lemma_total_bounds(times: Seq<u64>)
    ensures
        0 <= total_of(times) <= times.len() * 0xFFFF_FFFF_FFFF_FFFFint,
    decreases times.len(),
{
    if times.len() > 0 {
        lemma_total_bounds(times.drop_last());
    }
}

/// Mean duration, rounded down to the nanosecond; `None` when there is none.
pub fn average_duration(times: &Vec<u64>) -> (r: Option<u64>)
    ensures
        r == average_of(times@),
        r is Some ==> r->Some_0 as int == total_of(times@) / (times@.len() as int),
{
    if times.len() == 0 {
        return None;
    }
    let mut total: u128 = 0;
    let mut i: usize = 0;
    while i < times.len()
        invariant
            i <= times@.len(),
            total as int == total_of(times@.take(i as int)),
            0 <= total_of(times@.take(i as int)) <= i * 0xFFFF_FFFF_FFFF_FFFFint,
        decreases times.len() - i,
    {
        proof {
            assert(times@.take(i as int + 1).drop_last() =~= times@.take(i as int));
            lemma_total_bounds(times@.take(i as int + 1));
        }
        total = total + times[i] as u128;
        i = i + 1;
    }
    assert(times@.take(i as int) =~= times@);
    let n = times.len() as u128;
    let avg = total / n;
    proof {
        let t = total as int;
        let m = n as int;
        assert(t <= m * 0xFFFF_FFFF_FFFF_FFFFint);
        assert(t / m <= 0xFFFF_FFFF_FFFF_FFFFint) by (nonlinear_arith)
            requires
                t <= m * 0xFFFF_FFFF_FFFF_FFFFint,
                m > 0,
                t >= 0,
        ;
    }
    Some(avg as u64)
}

/// Bytes that a batch of `batch_size` items is counted as reading: 1 KiB each.
pub open spec fn batch_bytes(batch_size: usize) -> int {
    batch_size * 1024
}

/// Counters of one run: operations, bytes, and the duration of each read
/// and each write.
#[derive(Debug, Clone, Default)]
pub struct Metrics {
    pub total_time: Option<u64>,
    pub read_times: Vec<u64>,
    pub write_times: Vec<u64>,
    pub files_processed: u64,
    pub bytes_read: u64,
    pub bytes_written: u64,
    pub batches_processed: u64,
}

impl Metrics {
    /// Empty counters.
    pub fn new() -> (r: Self)
        ensures
            r.total_time is None,
            r.read_times@.len() == 0,
            r.write_times@.len() == 0,
            r.files_processed == 0,
            r.bytes_read == 0,
            r.bytes_written == 0,
            r.batches_processed == 0,
    {
        Metrics {
            total_time: None,
            read_times: Vec::new(),
            write_times: Vec::new(),
            files_processed: 0,
            bytes_read: 0,
            bytes_written: 0,
            batches_processed: 0,
        }
    }

    /// Records one written file of `bytes` bytes that took `duration_ns`.
    pub fn record_write_operation(&mut self, bytes: u64, duration_ns: u64)
        requires
            old(self).bytes_written + bytes <= u64::MAX,
            old(self).files_processed < u64::MAX,
        ensures
            final(self).bytes_written == old(self).bytes_written + bytes,
            final(self).write_times@ == old(self).write_times@.push(duration_ns),
            final(self).files_processed == old(self).files_processed + 1,
            final(self).read_times@ == old(self).read_times@,
            final(self).bytes_read == old(self).bytes_read,
            final(self).batches_processed == old(self).batches_processed,
            final(self).total_time == old(self).total_time,
    {
        self.bytes_written = self.bytes_written + bytes;
        self.write_times.push(duration_ns);
        self.files_processed = self.files_processed + 1;
    }

    /// Records one processed batch of `batch_size` items that took
    /// `duration_ns`; each item is counted as 1 KiB read.
    pub fn record_batch_processing(&mut self, batch_size: usize, duration_ns: u64)
        requires
            old(self).batches_processed < u64::MAX,
            old(self).bytes_read + batch_bytes(batch_size) <= u64::MAX,
        ensures
            final(self).batches_processed == old(self).batches_processed + 1,
            final(self).read_times@ == old(self).read_times@.push(duration_ns),
            final(self).bytes_read == old(self).bytes_read + batch_bytes(batch_size),
            final(self).write_times@ == old(self).write_times@,
            final(self).files_processed == old(self).files_processed,
            final(self).bytes_written == old(self).bytes_written,
            final(self).total_time == old(self).total_time,
    {
        self.batches_processed = self.batches_processed + 1;
        self.read_times.push(duration_ns);
        self.bytes_read = self.bytes_read + batch_size as u64 * 1024;
    }

    /// Sets the total run time.
    pub fn set_total_time(&mut self, duration_ns: u64)
        ensures
            final(self).total_time == Some(duration_ns),
            final(self).read_times@ == old(self).read_times@,
            final(self).write_times@ == old(self).write_times@,
            final(self).files_processed == old(self).files_processed,
            final(self).bytes_read == old(self).bytes_read,
            final(self).bytes_written == old(self).bytes_written,
            final(self).batches_processed == old(self).batches_processed,
    {
        self.total_time = Some(duration_ns);
    }

    /// Records the total run time.
    pub fn record_total_time(&mut self, duration_ns: u64)
        ensures
            final(self).total_time == Some(duration_ns),
            final(self).read_times@ == old(self).read_times@,
            final(self).write_times@ == old(self).write_times@,
            final(self).files_processed == old(self).files_processed,
            final(self).bytes_read == old(self).bytes_read,
            final(self).bytes_written == old(self).bytes_written,
            final(self).batches_processed == old(self).batches_processed,
    {
        self.total_time = Some(duration_ns);
    }

    pub fn files_processed(&self) -> (r: u64)
        ensures
            r == self.files_processed,
    {
        self.files_processed
    }

    pub fn bytes_read(&self) -> (r: u64)
        ensures
            r == self.bytes_read,
    {
        self.bytes_read
    }

    pub fn bytes_written(&self) -> (r: u64)
        ensures
            r == self.bytes_written,
    {
        self.bytes_written
    }

    pub fn total_time(&self) -> (r: Option<u64>)
        ensures
            r == self.total_time,
    {
        self.total_time
    }

    /// Records one read file that took `duration_ns`.
    pub fn record_read_time(&mut self, duration_ns: u64)
        requires
            old(self).files_processed < u64::MAX,
        ensures
            final(self).read_times@ == old(self).read_times@.push(duration_ns),
            final(self).files_processed == old(self).files_processed + 1,
            final(self).write_times@ == old(self).write_times@,
            final(self).bytes_read == old(self).bytes_read,
            final(self).bytes_written == old(self).bytes_written,
            final(self).batches_processed == old(self).batches_processed,
            final(self).total_time == old(self).total_time,
    {
        self.read_times.push(duration_ns);
        self.files_processed = self.files_processed + 1;
    }

    /// Records the duration of one write.
    pub fn record_write_time(&mut self, duration_ns: u64)
        ensures
            final(self).write_times@ == old(self).write_times@.push(duration_ns),
            final(self).read_times@ == old(self).read_times@,
            final(self).files_processed == old(self).files_processed,
            final(self).bytes_read == old(self).bytes_read,
            final(self).bytes_written == old(self).bytes_written,
            final(self).batches_processed == old(self).batches_processed,
            final(self).total_time == old(self).total_time,
    {
        self.write_times.push(duration_ns);
    }

    /// Adds `bytes` to the bytes read.
    pub fn record_bytes_read(&mut self, bytes: u64)
        requires
            old(self).bytes_read + bytes <= u64::MAX,
        ensures
            final(self).bytes_read == old(self).bytes_read + bytes,
            final(self).read_times@ == old(self).read_times@,
            final(self).write_times@ == old(self).write_times@,
            final(self).files_processed == old(self).files_processed,
            final(self).bytes_written == old(self).bytes_written,
            final(self).batches_processed == old(self).batches_processed,
            final(self).total_time == old(self).total_time,
    {
        self.bytes_read = self.bytes_read + bytes;
    }

    /// Adds `bytes` to the bytes written.
    pub fn record_bytes_written(&mut self, bytes: u64)
        requires
            old(self).bytes_written + bytes <= u64::MAX,
        ensures
            final(self).bytes_written == old(self).bytes_written + bytes,
            final(self).read_times@ == old(self).read_times@,
            final(self).write_times@ == old(self).write_times@,
            final(self).files_processed == old(self).files_processed,
            final(self).bytes_read == old(self).bytes_read,
            final(self).batches_processed == old(self).batches_processed,
            final(self).total_time == old(self).total_time,
    {
        self.bytes_written = self.bytes_written + bytes;
    }

    /// Records one generated file of `size_bytes` bytes that took `duration_ns`.
    pub fn record_file_generated(&mut self, _filename: String, size_bytes: u64, duration_ns: u64)
        requires
            old(self).bytes_written + size_bytes <= u64::MAX,
            old(self).files_processed < u64::MAX,
        ensures
            final(self).write_times@ == old(self).write_times@.push(duration_ns),
            final(self).bytes_written == old(self).bytes_written + size_bytes,
            final(self).files_processed == old(self).files_processed + 1,
            final(self).read_times@ == old(self).read_times@,
            final(self).bytes_read == old(self).bytes_read,
            final(self).batches_processed == old(self).batches_processed,
            final(self).total_time == old(self).total_time,
    {
        self.write_times.push(duration_ns);
        self.bytes_written = self.bytes_written + size_bytes;
        self.files_processed = self.files_processed + 1;
    }

    /// Mean read duration; `None` before the first read.
    pub fn average_read_time(&self) -> (r: Option<u64>)
        ensures
            r == average_of(self.read_times@),
    {
        average_duration(&self.read_times)
    }

    /// Mean write duration; `None` before the first write.
    pub fn average_write_time(&self) -> (r: Option<u64>)
        ensures
            r == average_of(self.write_times@),
    {
        average_duration(&self.write_times)
    }
}

} // verus!
