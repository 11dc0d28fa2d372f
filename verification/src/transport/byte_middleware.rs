//! Counting the bytes that pass through a transport's streams.
//!
//! A counter is shared: several readers and writers, and whoever holds a
//! handle to it, may add to it and read it at any time. So the value a read
//! of the counter gives is not stated; what is stated is how much each
//! transfer adds.

use std::sync::atomic::{AtomicU64, Ordering};
use std::sync::Arc;

use vstd::prelude::*;

verus! {

/// The number of bytes a read added to a buffer that held `before` bytes and
/// now holds `after`.
pub fn read_delta(before: usize, after: usize) -> (n: u64)
    requires
        before <= after,
    ensures
        n == after - before,
{
    (after - before) as u64
}

/// The number of bytes a write of `written` bytes transferred.
pub fn write_delta(written: usize) -> (n: u64)
    ensures
        n == written,
{
    written as u64
}

/// A fresh counter at zero.
pub fn new_counter() -> Arc<AtomicU64> {
    Arc::new(AtomicU64::new(0u64))
}

/// Adds `n` to the counter; the counter wraps around past `u64::MAX`.
pub fn add_to_counter(counter: &Arc<AtomicU64>, n: u64) {
    let _ = counter.fetch_add(n, Ordering::Relaxed);
}

/// The counter's current value.
pub fn counter_value(counter: &Arc<AtomicU64>) -> u64 {
    counter.load(Ordering::Relaxed)
}

/// A reader that counts the bytes read through it.
pub struct ByteCountingReader<R> {
    inner: R,
    bytes_read: Arc<AtomicU64>,
}

impl<R> ByteCountingReader<R> {
    /// The wrapped reader.
    pub closed spec fn inner_of(&self) -> R {
        self.inner
    }

    /// The counter it adds to.
    pub closed spec fn counter_of(&self) -> Arc<AtomicU64> {
        self.bytes_read
    }

    /// A counting reader around `inner`, with a fresh counter at zero.
    pub fn new(inner: R) -> (r: Self)
        ensures
            r.inner_of() == inner,
    {
        ByteCountingReader { inner, bytes_read: new_counter() }
    }

    /// A counting reader around `inner` that adds to `counter`.
    pub fn with_counter(inner: R, counter: Arc<AtomicU64>) -> (r: Self)
        ensures
            r.inner_of() == inner,
            r.counter_of() == counter,
    {
        ByteCountingReader { inner, bytes_read: counter }
    }

    /// The number of bytes the counter holds now.
    pub fn bytes_read(&self) -> u64 {
        counter_value(&self.bytes_read)
    }

    /// The counter it adds to.
    pub fn counter(&self) -> (c: &Arc<AtomicU64>)
        ensures
            *c == self.counter_of(),
    {
        &self.bytes_read
    }

    /// The wrapped reader.
    pub fn inner_mut(&mut self) -> (r: &mut R)
        ensures
            *r == old(self).inner_of(),
            final(self).inner_of() == *final(r),
            final(self).counter_of() == old(self).counter_of(),
    {
        &mut self.inner
    }

    /// Counts a read that filled the buffer from `before` to `after` bytes.
    pub fn record_read(&self, before: usize, after: usize)
        requires
            before <= after,
    {
        add_to_counter(&self.bytes_read, read_delta(before, after));
    }

    /// Gives back the wrapped reader.
    pub fn into_inner(self) -> (r: R)
        ensures
            r == self.inner_of(),
    {
        self.inner
    }
}

/// A writer that counts the bytes written through it.
pub struct ByteCountingWriter<W> {
    inner: W,
    bytes_written: Arc<AtomicU64>,
}

impl<W> ByteCountingWriter<W> {
    /// The wrapped writer.
    pub closed spec fn inner_of(&self) -> W {
        self.inner
    }

    /// The counter it adds to.
    pub closed spec fn counter_of(&self) -> Arc<AtomicU64> {
        self.bytes_written
    }

    /// A counting writer around `inner`, with a fresh counter at zero.
    pub fn new(inner: W) -> (w: Self)
        ensures
            w.inner_of() == inner,
    {
        ByteCountingWriter { inner, bytes_written: new_counter() }
    }

    /// A counting writer around `inner` that adds to `counter`.
    pub fn with_counter(inner: W, counter: Arc<AtomicU64>) -> (w: Self)
        ensures
            w.inner_of() == inner,
            w.counter_of() == counter,
    {
        ByteCountingWriter { inner, bytes_written: counter }
    }

    /// The number of bytes the counter holds now.
    pub fn bytes_written(&self) -> u64 {
        counter_value(&self.bytes_written)
    }

    /// The counter it adds to.
    pub fn counter(&self) -> (c: &Arc<AtomicU64>)
        ensures
            *c == self.counter_of(),
    {
        &self.bytes_written
    }

    /// The wrapped writer.
    pub fn inner_mut(&mut self) -> (w: &mut W)
        ensures
            *w == old(self).inner_of(),
            final(self).inner_of() == *final(w),
            final(self).counter_of() == old(self).counter_of(),
    {
        &mut self.inner
    }

    /// Counts a write that transferred `written` bytes.
    pub fn record_write(&self, written: usize) {
        add_to_counter(&self.bytes_written, write_delta(written));
    }

    /// Gives back the wrapped writer.
    pub fn into_inner(self) -> (w: W)
        ensures
            w == self.inner_of(),
    {
        self.inner
    }
}

/// How many bytes a transport has read and written.
#[derive(Debug, Clone, Copy, PartialEq, Eq)]
pub struct ByteStats {
    pub bytes_read: u64,
    pub bytes_written: u64,
}

/// The total of a transport's traffic, capped at `u64::MAX`.
pub open spec fn total_spec(stats: ByteStats) -> u64 {
    if stats.bytes_read + stats.bytes_written > u64::MAX {
        u64::MAX
    } else {
        (stats.bytes_read + stats.bytes_written) as u64
    }
}

impl ByteStats {
    /// No bytes read or written.
    pub fn new() -> (s: ByteStats)
        ensures
            s.bytes_read == 0,
            s.bytes_written == 0,
    {
        ByteStats { bytes_read: 0, bytes_written: 0 }
    }

    /// The bytes read and written together, capped at `u64::MAX`.
    pub fn total_bytes(&self) -> (t: u64)
        ensures
            t == total_spec(*self),
    {
        self.bytes_read.saturating_add(self.bytes_written)
    }
}

impl Default for ByteStats {
    fn default() -> (s: ByteStats)
        ensures
            s.bytes_read == 0,
            s.bytes_written == 0,
    {
        ByteStats::new()
    }
}

/// The total is at least each part, is the exact sum when that fits in a
/// `u64`, and does not depend on the order of the parts.
pub proof fn total_bytes_laws(stats: ByteStats)
    ensures
        total_spec(stats) >= stats.bytes_read,
        total_spec(stats) >= stats.bytes_written,
        stats.bytes_read + stats.bytes_written <= u64::MAX ==> total_spec(stats) == stats.bytes_read + stats.bytes_written,
        total_spec(stats) == total_spec(ByteStats { bytes_read: stats.bytes_written, bytes_written: stats.bytes_read }),
{
}

/// A reader and a writer of one transport, each counting its bytes.
pub struct ByteCountingTransport<R, W> {
    reader: ByteCountingReader<R>,
    writer: ByteCountingWriter<W>,
}

impl<R, W> ByteCountingTransport<R, W> {
    /// The counting reader.
    pub closed spec fn reader_of(&self) -> ByteCountingReader<R> {
        self.reader
    }

    /// The counting writer.
    pub closed spec fn writer_of(&self) -> ByteCountingWriter<W> {
        self.writer
    }

    /// Counting wrappers around `read` and `write`, each with a fresh counter.
    pub fn new(read: R, write: W) -> (t: Self)
        ensures
            t.reader_of().inner_of() == read,
            t.writer_of().inner_of() == write,
    {
        ByteCountingTransport { reader: ByteCountingReader::new(read), writer: ByteCountingWriter::new(write) }
    }

    /// The bytes read and written so far, as the counters hold them now.
    pub fn stats(&self) -> ByteStats {
        ByteStats { bytes_read: self.reader.bytes_read(), bytes_written: self.writer.bytes_written() }
    }

    /// The read counter.
    pub fn read_counter(&self) -> (c: &Arc<AtomicU64>)
        ensures
            *c == self.reader_of().counter_of(),
    {
        self.reader.counter()
    }

    /// The write counter.
    pub fn write_counter(&self) -> (c: &Arc<AtomicU64>)
        ensures
            *c == self.writer_of().counter_of(),
    {
        self.writer.counter()
    }

    /// The counting reader and writer, apart.
    pub fn split(self) -> (r: (ByteCountingReader<R>, ByteCountingWriter<W>))
        ensures
            r.0 == self.reader_of(),
            r.1 == self.writer_of(),
    {
        (self.reader, self.writer)
    }
}

} // verus!
