//! Buffers of the streaming transport: an adaptive FIFO byte buffer, the
//! chunking buffer with back-pressure, and flow-control bookkeeping.
use vstd::prelude::*;
use vstd::string::StringExecFns;
use crate::error::McpError;
use crate::text::{decimal_text, u64_text, concat};

verus! {

/// Reserved capacity of a byte vector, as `Vec::capacity` reports it; the
/// documentation promises it is never below the length.
#[verifier::external_body]
fn byte_capacity(v: &Vec<u8>) -> (r: usize)
    ensures
        r >= v@.len(),
{
    v.capacity()
}

/// A FIFO byte buffer whose preferred size grows with its content.
pub struct AdaptiveBuffer {
    buffer: Vec<u8>,
    optimal_size: usize,
}

impl AdaptiveBuffer {
    /// The bytes held, oldest first.
    pub closed spec fn contents(self) -> Seq<u8> {
        self.buffer@
    }

    /// The current preferred size.
    pub closed spec fn spec_optimal_size(self) -> usize {
        self.optimal_size
    }

    /// An empty buffer with room for 16 KiB and a preferred size of 16 KiB.
    pub fn new() -> (r: AdaptiveBuffer)
        ensures
            r.contents().len() == 0,
            r.spec_optimal_size() == 16384,
    {
        AdaptiveBuffer { buffer: Vec::with_capacity(16384), optimal_size: 16384 }
    }

    /// Appends `data`; once the content exceeds twice the preferred size, the
    /// preferred size grows by half.
    pub fn write(&mut self, data: &[u8])
        requires
            old(self).contents().len() + data@.len() <= usize::MAX,
        ensures
            final(self).contents() == old(self).contents() + data@,
            final(self).spec_optimal_size() == (if final(self).contents().len() > 2 * old(self).spec_optimal_size() {
                old(self).spec_optimal_size() + old(self).spec_optimal_size() / 2
            } else {
                old(self).spec_optimal_size() as int
            }),
    {
        self.buffer.extend_from_slice(data);
        if self.buffer.len() / 2 > self.optimal_size || (self.buffer.len() / 2 == self.optimal_size && self.buffer.len() % 2 == 1) {
            self.optimal_size = self.optimal_size + self.optimal_size / 2;
        }
    }

    /// Reserved room of the underlying vector (never below the length).
    pub fn capacity(&self) -> (r: usize)
        ensures
            r >= self.contents().len(),
    {
        byte_capacity(&self.buffer)
    }

    /// The current preferred size.
    pub fn optimal_size(&self) -> (r: usize)
        ensures
            r == self.spec_optimal_size(),
    {
        self.optimal_size
    }

    /// Number of bytes held.
    pub fn len(&self) -> (r: usize)
        ensures
            r == self.contents().len(),
    {
        self.buffer.len()
    }

    /// Whether no byte is held.
    pub fn is_empty(&self) -> (r: bool)
        ensures
            r == (self.contents().len() == 0),
    {
        self.buffer.len() == 0
    }

    /// Removes and returns up to `size` of the oldest bytes.
    pub fn read(&mut self, size: usize) -> (r: Vec<u8>)
        ensures
            r@ == old(self).contents().take(if size < old(self).contents().len() { size as int } else { old(self).contents().len() as int }),
            final(self).contents() == old(self).contents().skip(r@.len() as int),
            final(self).spec_optimal_size() == old(self).spec_optimal_size(),
    {
        let n = if size < self.buffer.len() { size } else { self.buffer.len() };
        let rest = self.buffer.split_off(n);
        let mut head = rest;
        std::mem::swap(&mut head, &mut self.buffer);
        proof {
            assert(head@ =~= old(self).contents().take(n as int));
            assert(self.buffer@ =~= old(self).contents().skip(n as int));
        }
        head
    }

    /// Drops every byte held.
    pub fn clear(&mut self)
        ensures
            final(self).contents().len() == 0,
            final(self).spec_optimal_size() == old(self).spec_optimal_size(),
    {
        self.buffer.clear();
    }
}

/// An adaptive buffer hands bytes back in the order they were written: after
/// writing `data` into a buffer holding `before`, a read of `n` bytes yields
/// the first `n` bytes of `before + data`.
pub proof fn adaptive_buffer_is_fifo(before: Seq<u8>, data: Seq<u8>, after_write: Seq<u8>, n: int, read: Seq<u8>, rest: Seq<u8>)
    requires
        after_write == before + data,
        0 <= n <= after_write.len(),
        read == after_write.take(n),
        rest == after_write.skip(n),
    ensures
        read + rest == before + data,
        n <= before.len() ==> read == before.take(n),
        n >= before.len() ==> read == before + data.take(n - before.len()),
{
    assert(read + rest =~= before + data);
    if n <= before.len() {
        assert(read =~= before.take(n));
    } else {
        assert(read =~= before + data.take(n - before.len()));
    }
}

/// One step on an adaptive buffer, as the operations' contracts describe
/// it: bytes written, bytes handed back by a read, or a clear.
pub enum BufferStep {
    Wrote(Seq<u8>),
    Read(Seq<u8>),
    Cleared,
}

/// `after` is what `before` becomes by `step`: a write appends its bytes,
/// a read hands back a prefix and keeps the rest, a clear empties it.
pub open spec fn buffer_step(before: Seq<u8>, step: BufferStep, after: Seq<u8>) -> bool {
    match step {
        BufferStep::Wrote(d) => after == before + d,
        BufferStep::Read(r) => r.len() <= before.len() && r == before.take(r.len() as int)
            && after == before.skip(r.len() as int),
        BufferStep::Cleared => after.len() == 0,
    }
}

/// Bytes written minus bytes read back since the last clear.
pub open spec fn net_bytes(steps: Seq<BufferStep>) -> int
    decreases steps.len(),
{
    if steps.len() == 0 {
        0
    } else {
        match steps.last() {
            BufferStep::Wrote(d) => net_bytes(steps.drop_last()) + d.len(),
            BufferStep::Read(r) => net_bytes(steps.drop_last()) - r.len(),
            BufferStep::Cleared => 0,
        }
    }
}

/// An adaptive buffer holds exactly the bytes written and not yet read
/// back since it was made or last cleared: along any run of writes, reads
/// and clears from an empty buffer, its length is the bytes written minus
/// the bytes read since the last clear.
pub proof fn adaptive_buffer_len_is_net(states: Seq<Seq<u8>>, steps: Seq<BufferStep>)
    requires
        states.len() == steps.len() + 1,
        states[0].len() == 0,
        forall|i: int| 0 <= i < steps.len() ==> buffer_step(states[i], #[trigger] steps[i], states[i + 1]),
    ensures
        states.last().len() == net_bytes(steps),
    decreases steps.len(),
{
    if steps.len() > 0 {
        let n = steps.len() - 1;
        let ps = states.drop_last();
        let ss = steps.drop_last();
        assert forall|i: int| 0 <= i < ss.len() implies buffer_step(ps[i], #[trigger] ss[i], ps[i + 1]) by {
            assert(ss[i] == steps[i]);
            assert(ps[i] == states[i]);
            assert(ps[i + 1] == states[i + 1]);
        }
        adaptive_buffer_len_is_net(ps, ss);
        assert(buffer_step(states[n], steps[n], states[n + 1]));
        assert(ps.last() == states[n]);
    }
}

/// Flow-control limits of a streaming buffer.
pub struct FlowControl {
    pub max_concurrent_chunks: usize,
    pub backpressure_threshold: usize,
    pub adaptive_chunk_sizing: bool,
}

/// What the transport knows of the link (latency in milliseconds, throughput
/// in bytes per second).
pub struct NetworkMetrics {
    pub high_bandwidth: bool,
    pub low_latency: bool,
    pub avg_latency_ms: u64,
    pub throughput_bps: u64,
}

/// Splits a byte stream into fixed-size chunks, with a bound on buffered bytes
/// and on chunks per call, and adapts the chunk size to the link.
pub struct StreamingBuffer {
    buffer: Vec<u8>,
    chunk_size: usize,
    max_buffer_size: usize,
    flow_control: FlowControl,
    network_metrics: NetworkMetrics,
}

/// The chunk size after one adaptation step: doubled (up to 64 KiB) on a
/// fast, low-latency link; halved (down to 1 KiB) when latency is high.
pub open spec fn spec_adjusted_chunk_size(size: usize, m: NetworkMetrics) -> int {
    if m.high_bandwidth && m.low_latency {
        if 2 * size < 65536 { 2 * size } else { 65536 }
    } else if !m.low_latency {
        if size / 2 > 1024 { (size / 2) as int } else { 1024 }
    } else {
        size as int
    }
}

/// The byte sequences held by a list of chunks.
pub open spec fn chunk_views(chunks: Seq<Vec<u8>>) -> Seq<Seq<u8>> {
    chunks.map_values(|c: Vec<u8>| c@)
}

/// Concatenation of a list of chunks.
pub open spec fn flatten(chunks: Seq<Seq<u8>>) -> Seq<u8>
    decreases chunks.len(),
{
    if chunks.len() == 0 {
        Seq::empty()
    } else {
        flatten(chunks.drop_last()) + chunks.last()
    }
}

impl StreamingBuffer {
    pub closed spec fn pending(self) -> Seq<u8> { self.buffer@ }
    pub closed spec fn spec_chunk_size(self) -> usize { self.chunk_size }
    pub closed spec fn spec_max_buffer_size(self) -> usize { self.max_buffer_size }
    pub closed spec fn spec_flow_control(self) -> FlowControl { self.flow_control }
    pub closed spec fn spec_network(self) -> NetworkMetrics { self.network_metrics }

    /// An empty buffer; back-pressure starts at half the maximum, ten chunks
    /// per call, adaptive sizing on, no link knowledge.
    pub fn new(chunk_size: usize, max_buffer_size: usize) -> (r: StreamingBuffer)
        ensures
            r.pending().len() == 0,
            r.spec_chunk_size() == chunk_size,
            r.spec_max_buffer_size() == max_buffer_size,
            r.spec_flow_control() == (FlowControl { max_concurrent_chunks: 10, backpressure_threshold: (max_buffer_size / 2) as usize, adaptive_chunk_sizing: true }),
            r.spec_network() == (NetworkMetrics { high_bandwidth: false, low_latency: false, avg_latency_ms: 0, throughput_bps: 0 }),
    {
        StreamingBuffer {
            buffer: Vec::with_capacity(chunk_size),
            chunk_size,
            max_buffer_size,
            flow_control: FlowControl {
                max_concurrent_chunks: 10,
                backpressure_threshold: max_buffer_size / 2,
                adaptive_chunk_sizing: true,
            },
            network_metrics: NetworkMetrics { high_bandwidth: false, low_latency: false, avg_latency_ms: 0, throughput_bps: 0 },
        }
    }

    /// Buffers `data` and cuts full chunks off the front. Refuses data that
    /// would exceed the maximum buffered size. At most the flow-control number
    /// of chunks is cut per call (at least one when one is full). Afterwards
    /// the chunk size adapts to the link when adaptive sizing is on.
    pub fn add_data(&mut self, data: &[u8]) -> (r: Result<Vec<Vec<u8>>, McpError>)
        requires
            old(self).spec_chunk_size() > 0,
        ensures
            old(self).pending().len() + data@.len() > old(self).spec_max_buffer_size() ==> (r matches Err(McpError::Transport(m))
                && m@ == "Buffer size limit exceeded: "@ + decimal_text(old(self).spec_max_buffer_size() as int) + " bytes"@
                && *final(self) == *old(self)),
            old(self).pending().len() + data@.len() <= old(self).spec_max_buffer_size() ==> (r matches Ok(chunks) && {
                &&& flatten(chunk_views(chunks@)) + final(self).pending() == old(self).pending() + data@
                &&& forall|i: int| 0 <= i < chunks@.len() ==> (#[trigger] chunks@[i])@.len() == old(self).spec_chunk_size()
                &&& chunks@.len() <= (if old(self).spec_flow_control().max_concurrent_chunks == 0 { 1 } else { old(self).spec_flow_control().max_concurrent_chunks as int })
                &&& (final(self).pending().len() >= old(self).spec_chunk_size() ==> chunks@.len() >= old(self).spec_flow_control().max_concurrent_chunks)
                &&& final(self).spec_chunk_size() == (if old(self).spec_flow_control().adaptive_chunk_sizing {
                        spec_adjusted_chunk_size(old(self).spec_chunk_size(), old(self).spec_network()) } else { old(self).spec_chunk_size() as int })
                &&& final(self).spec_max_buffer_size() == old(self).spec_max_buffer_size()
                &&& final(self).spec_flow_control() == old(self).spec_flow_control()
                &&& final(self).spec_network() == old(self).spec_network()
            }),
    {
        if data.len() > self.max_buffer_size || self.buffer.len() > self.max_buffer_size - data.len() {
            let digits = u64_text(self.max_buffer_size as u64);
            let a = concat("Buffer size limit exceeded: ", digits.as_str());
            return Err(McpError::Transport(concat(a.as_str(), " bytes")));
        }
        self.buffer.extend_from_slice(data);
        let ghost all = old(self).pending() + data@;
        let mut chunks: Vec<Vec<u8>> = Vec::new();
        while self.buffer.len() >= self.chunk_size
            invariant_except_break
                chunks@.len() < (if self.flow_control.max_concurrent_chunks == 0 { 1 } else { self.flow_control.max_concurrent_chunks as int }),
            invariant
                self.chunk_size == old(self).spec_chunk_size(),
                self.chunk_size > 0,
                flatten(chunk_views(chunks@)) + self.buffer@ == all,
                forall|i: int| 0 <= i < chunks@.len() ==> (#[trigger] chunks@[i])@.len() == self.chunk_size,
                self.flow_control == old(self).spec_flow_control(),
                self.network_metrics == old(self).spec_network(),
                self.max_buffer_size == old(self).spec_max_buffer_size(),
                chunks@.len() <= (if self.flow_control.max_concurrent_chunks == 0 { 1 } else { self.flow_control.max_concurrent_chunks as int }),
            ensures
                self.buffer@.len() >= self.chunk_size ==> chunks@.len() >= self.flow_control.max_concurrent_chunks,
            decreases self.buffer@.len(),
        {
            let rest = self.buffer.split_off(self.chunk_size);
            let mut chunk = rest;
            std::mem::swap(&mut chunk, &mut self.buffer);
            let ghost prev = chunks@;
            chunks.push(chunk);
            proof {
                assert(chunk_views(chunks@).drop_last() =~= chunk_views(prev));
            }
            if chunks.len() >= self.flow_control.max_concurrent_chunks {
                break;
            }
        }
        if self.flow_control.adaptive_chunk_sizing {
            self.adjust_chunk_size();
        }
        Ok(chunks)
    }

    /// Takes whatever is buffered, if anything.
    pub fn flush(&mut self) -> (r: Option<Vec<u8>>)
        ensures
            old(self).pending().len() == 0 ==> r is None,
            old(self).pending().len() > 0 ==> (r matches Some(v) && v@ == old(self).pending()),
            final(self).pending().len() == 0,
            final(self).spec_chunk_size() == old(self).spec_chunk_size(),
            final(self).spec_max_buffer_size() == old(self).spec_max_buffer_size(),
    {
        if self.buffer.len() > 0 {
            let mut out: Vec<u8> = Vec::new();
            std::mem::swap(&mut out, &mut self.buffer);
            Some(out)
        } else {
            None
        }
    }

    fn adjust_chunk_size(&mut self)
        ensures
            final(self).spec_chunk_size() == spec_adjusted_chunk_size(old(self).spec_chunk_size(), old(self).spec_network()),
            final(self).pending() == old(self).pending(),
            final(self).spec_max_buffer_size() == old(self).spec_max_buffer_size(),
            final(self).spec_flow_control() == old(self).spec_flow_control(),
            final(self).spec_network() == old(self).spec_network(),
    {
        if self.network_metrics.high_bandwidth && self.network_metrics.low_latency {
            self.chunk_size = if self.chunk_size < 32768 { self.chunk_size * 2 } else { 65536 };
        } else if !self.network_metrics.low_latency {
            self.chunk_size = if self.chunk_size / 2 > 1024 { self.chunk_size / 2 } else { 1024 };
        }
    }

    /// Records link measurements: latency below 50 ms counts as low, more
    /// than 10 MB/s as high bandwidth.
    pub fn update_network_metrics(&mut self, latency_ms: u64, throughput_bps: u64)
        ensures
            final(self).spec_network() == (NetworkMetrics {
                high_bandwidth: throughput_bps > 10000000,
                low_latency: latency_ms < 50,
                avg_latency_ms: latency_ms,
                throughput_bps,
            }),
            final(self).pending() == old(self).pending(),
            final(self).spec_chunk_size() == old(self).spec_chunk_size(),
    {
        self.network_metrics.avg_latency_ms = latency_ms;
        self.network_metrics.throughput_bps = throughput_bps;
        self.network_metrics.low_latency = latency_ms < 50;
        self.network_metrics.high_bandwidth = throughput_bps > 10000000;
    }
}

/// Splits a request body for chunked transfer: a streaming buffer over the
/// body cuts full chunks (as many as its flow control allows in one call),
/// and whatever it still holds follows as one last chunk. Bodies larger than
/// the buffer limit are refused.
pub fn chunk_body(data: &[u8], chunk_size: usize, max_buffer_size: usize) -> (r: Result<Vec<Vec<u8>>, McpError>)
    requires
        chunk_size > 0,
    ensures
        data@.len() > max_buffer_size ==> (r matches Err(McpError::Transport(m))
            && m@ == "Buffer size limit exceeded: "@ + decimal_text(max_buffer_size as int) + " bytes"@),
        data@.len() <= max_buffer_size ==> (r matches Ok(cs) && {
            &&& flatten(chunk_views(cs@)) == data@
            &&& forall|i: int| 0 <= i < cs@.len() ==> (#[trigger] cs@[i])@.len() > 0
            &&& forall|i: int| 0 <= i < cs@.len() - 1 ==> (#[trigger] cs@[i])@.len() == chunk_size
        }),
{
    let mut buffer = StreamingBuffer::new(chunk_size, max_buffer_size);
    let mut chunks = match buffer.add_data(data) {
        Ok(cs) => cs,
        Err(e) => return Err(e),
    };
    let ghost before = chunks@;
    assert(Seq::<u8>::empty() + data@ =~= data@);
    match buffer.flush() {
        Some(last) => {
            chunks.push(last);
            assert(chunk_views(chunks@).drop_last() =~= chunk_views(before));
        },
        None => {
            assert(flatten(chunk_views(chunks@)) + Seq::<u8>::empty() =~= flatten(chunk_views(chunks@)));
        },
    }
    Ok(chunks)
}

/// A point on the system's monotonic clock (opaque to proofs).
#[verifier::external_type_specification]
#[verifier::external_body]
pub struct ExInstant(std::time::Instant);

/// The instant at which a call is made, from the system's monotonic clock.
/// Nothing is stated of the value: it depends on when the call happens.
#[verifier::external_body]
pub(crate) fn instant_now() -> (r: std::time::Instant)
{
    std::time::Instant::now()
}

/// Window and round-trip bookkeeping for one streaming connection.
pub struct FlowControlMetrics {
    pub window_size: usize,
    pub bytes_sent: usize,
    pub bytes_acked: usize,
    pub bytes_received: usize,
    pub requests_pending: usize,
    pub last_activity: std::time::Instant,
    /// Smoothed round-trip estimate, in milliseconds.
    pub rtt_estimate_ms: u64,
}

/// Bytes sent and not yet acknowledged (never negative).
pub open spec fn spec_in_flight(sent: usize, acked: usize) -> int {
    if sent >= acked { sent - acked } else { 0 }
}

/// Room left in the window (never negative).
pub open spec fn spec_available(window: usize, sent: usize, acked: usize) -> int {
    if window >= spec_in_flight(sent, acked) { window - spec_in_flight(sent, acked) } else { 0 }
}

/// One smoothing step of the round-trip estimate: seven eighths of the old
/// estimate plus one eighth of the new sample, rounded down.
pub open spec fn spec_smoothed_rtt(old_ms: u64, sample_ms: u64) -> int {
    (7 * old_ms + sample_ms) / 8
}

impl FlowControlMetrics {
    /// A 64 KiB window, nothing sent or received, no request pending, and a
    /// round-trip estimate of 100 ms.
    pub fn new() -> (r: FlowControlMetrics)
        ensures
            r.window_size == 65536,
            r.bytes_sent == 0,
            r.bytes_acked == 0,
            r.bytes_received == 0,
            r.requests_pending == 0,
            r.rtt_estimate_ms == 100,
    {
        FlowControlMetrics {
            window_size: 65536,
            bytes_sent: 0,
            bytes_acked: 0,
            bytes_received: 0,
            requests_pending: 0,
            last_activity: instant_now(),
            rtt_estimate_ms: 100,
        }
    }

    /// Sets the window size.
    pub fn update_window_size(&mut self, new_size: usize)
        ensures
            final(self).window_size == new_size,
            final(self).bytes_sent == old(self).bytes_sent,
            final(self).bytes_acked == old(self).bytes_acked,
            final(self).bytes_received == old(self).bytes_received,
            final(self).requests_pending == old(self).requests_pending,
            final(self).rtt_estimate_ms == old(self).rtt_estimate_ms,
    {
        self.window_size = new_size;
    }

    /// Counts bytes sent.
    pub fn record_bytes_sent(&mut self, bytes: usize)
        requires
            old(self).bytes_sent + bytes <= usize::MAX,
        ensures
            final(self).bytes_sent == old(self).bytes_sent + bytes,
            final(self).window_size == old(self).window_size,
            final(self).bytes_acked == old(self).bytes_acked,
            final(self).bytes_received == old(self).bytes_received,
            final(self).requests_pending == old(self).requests_pending,
            final(self).rtt_estimate_ms == old(self).rtt_estimate_ms,
    {
        self.bytes_sent = self.bytes_sent + bytes;
    }

    /// Counts bytes acknowledged by the peer.
    pub fn record_bytes_acked(&mut self, bytes: usize)
        requires
            old(self).bytes_acked + bytes <= usize::MAX,
        ensures
            final(self).bytes_acked == old(self).bytes_acked + bytes,
            final(self).window_size == old(self).window_size,
            final(self).bytes_sent == old(self).bytes_sent,
            final(self).bytes_received == old(self).bytes_received,
            final(self).requests_pending == old(self).requests_pending,
            final(self).rtt_estimate_ms == old(self).rtt_estimate_ms,
    {
        self.bytes_acked = self.bytes_acked + bytes;
    }

    /// The window size.
    pub fn window_size(&self) -> (r: usize)
        ensures
            r == self.window_size,
    {
        self.window_size
    }

    /// Bytes sent and not yet acknowledged.
    pub fn bytes_in_flight(&self) -> (r: usize)
        ensures
            r == spec_in_flight(self.bytes_sent, self.bytes_acked),
    {
        self.bytes_sent.saturating_sub(self.bytes_acked)
    }

    /// Room left in the window.
    pub fn available_window(&self) -> (r: usize)
        ensures
            r == spec_available(self.window_size, self.bytes_sent, self.bytes_acked),
    {
        self.window_size.saturating_sub(self.bytes_in_flight())
    }

    /// Whether the window has any room.
    pub fn should_send(&self) -> (r: bool)
        ensures
            r == (spec_available(self.window_size, self.bytes_sent, self.bytes_acked) > 0),
    {
        self.available_window() > 0
    }

    /// Folds a round-trip sample (in milliseconds) into the estimate.
    pub fn update_rtt(&mut self, rtt_ms: u64)
        ensures
            final(self).rtt_estimate_ms == spec_smoothed_rtt(old(self).rtt_estimate_ms, rtt_ms),
            final(self).window_size == old(self).window_size,
            final(self).bytes_sent == old(self).bytes_sent,
            final(self).bytes_acked == old(self).bytes_acked,
            final(self).bytes_received == old(self).bytes_received,
            final(self).requests_pending == old(self).requests_pending,
    {
        let sum: u128 = 7u128 * (self.rtt_estimate_ms as u128) + (rtt_ms as u128);
        let avg: u128 = sum / 8;
        assert(avg <= u64::MAX) by {
            assert(sum <= 8 * (u64::MAX as int));
        }
        self.rtt_estimate_ms = avg as u64;
    }

    /// The round-trip estimate, in milliseconds.
    pub fn estimated_rtt(&self) -> (r: u64)
        ensures
            r == self.rtt_estimate_ms,
    {
        self.rtt_estimate_ms
    }

    /// Counts bytes received and marks activity.
    pub fn record_bytes_received(&mut self, bytes: usize)
        requires
            old(self).bytes_received + bytes <= usize::MAX,
        ensures
            final(self).bytes_received == old(self).bytes_received + bytes,
            final(self).window_size == old(self).window_size,
            final(self).bytes_sent == old(self).bytes_sent,
            final(self).bytes_acked == old(self).bytes_acked,
            final(self).requests_pending == old(self).requests_pending,
            final(self).rtt_estimate_ms == old(self).rtt_estimate_ms,
    {
        self.bytes_received = self.bytes_received + bytes;
        self.last_activity = instant_now();
    }

    /// Counts a request in flight and marks activity.
    pub fn record_request_start(&mut self)
        requires
            old(self).requests_pending < usize::MAX,
        ensures
            final(self).requests_pending == old(self).requests_pending + 1,
            final(self).window_size == old(self).window_size,
            final(self).bytes_sent == old(self).bytes_sent,
            final(self).bytes_acked == old(self).bytes_acked,
            final(self).bytes_received == old(self).bytes_received,
            final(self).rtt_estimate_ms == old(self).rtt_estimate_ms,
    {
        self.requests_pending = self.requests_pending + 1;
        self.last_activity = instant_now();
    }

    /// Counts a request as finished (never below zero) and marks activity.
    pub fn record_request_complete(&mut self)
        ensures
            final(self).requests_pending == (if old(self).requests_pending > 0 { old(self).requests_pending - 1 } else { 0 }),
            final(self).window_size == old(self).window_size,
            final(self).bytes_sent == old(self).bytes_sent,
            final(self).bytes_acked == old(self).bytes_acked,
            final(self).bytes_received == old(self).bytes_received,
            final(self).rtt_estimate_ms == old(self).rtt_estimate_ms,
    {
        if self.requests_pending > 0 {
            self.requests_pending = self.requests_pending - 1;
        }
        self.last_activity = instant_now();
    }

    /// Whether to hold back: more than ten requests pending, or less than
    /// 1 KiB of window left.
    pub fn should_throttle(&self) -> (r: bool)
        ensures
            r == (self.requests_pending > 10 || spec_available(self.window_size, self.bytes_sent, self.bytes_acked) < 1024),
    {
        self.requests_pending > 10 || self.available_window() < 1024
    }
}

} // verus!
