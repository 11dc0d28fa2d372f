//! A layer that wraps readers and writers so that they count bytes.

use std::sync::atomic::AtomicU64;
use std::sync::Arc;

use vstd::prelude::*;

use crate::transport::byte_middleware::{new_counter, ByteCountingReader, ByteCountingWriter};

verus! {

/// Wraps readers and writers so that they all add to one shared counter.
#[derive(Clone)]
pub struct ByteCountingLayer {
    counter: Arc<AtomicU64>,
}

impl ByteCountingLayer {
    /// The counter the wrapped streams add to.
    pub closed spec fn counter_of(&self) -> Arc<AtomicU64> {
        self.counter
    }

    /// A layer whose streams add to `counter`.
    pub fn new(counter: Arc<AtomicU64>) -> (l: Self)
        ensures
            l.counter_of() == counter,
    {
        ByteCountingLayer { counter }
    }

    /// A layer with a fresh counter at zero, and that counter.
    pub fn with_new_counter() -> (r: (Self, Arc<AtomicU64>))
        ensures
            r.0.counter_of() == r.1,
    {
        let counter = new_counter();
        (ByteCountingLayer::new(counter.clone()), counter)
    }

    /// The counter the wrapped streams add to.
    pub fn counter(&self) -> (c: &Arc<AtomicU64>)
        ensures
            *c == self.counter_of(),
    {
        &self.counter
    }

    /// `reader`, counting into the layer's counter.
    pub fn layer_read<R>(&self, reader: R) -> (r: ByteCountingReader<R>)
        ensures
            r.inner_of() == reader,
            r.counter_of() == self.counter_of(),
    {
        ByteCountingReader::with_counter(reader, self.counter.clone())
    }

    /// `writer`, counting into the layer's counter.
    pub fn layer_write<W>(&self, writer: W) -> (w: ByteCountingWriter<W>)
        ensures
            w.inner_of() == writer,
            w.counter_of() == self.counter_of(),
    {
        ByteCountingWriter::with_counter(writer, self.counter.clone())
    }
}

} // verus!
