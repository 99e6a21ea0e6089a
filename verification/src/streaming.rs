//! Streaming transport configuration, compression choices and the compressor
//! that hands large payloads to gzip, brotli or zstd.
use vstd::prelude::*;
use vstd::string::StringExecFns;
use std::io::Write;
use crate::error::McpError;

verus! {

/// Compression algorithm of a streaming transport.
#[derive(PartialEq, Eq, Structural, Clone, Copy, Debug)]
pub enum CompressionType {
    Uncompressed,
    Gzip,
    Brotli,
    Zstd,
}

/// HTTP/2 settings (durations in milliseconds).
pub struct Http2Config {
    pub max_concurrent_streams: usize,
    pub initial_window_size: u32,
    pub max_frame_size: u32,
    pub enable_server_push: bool,
    pub push_cache_size: usize,
    pub connection_timeout_ms: u64,
    pub keep_alive_interval_ms: u64,
    pub validate_push_promises: bool,
}

impl Default for Http2Config {
    fn default() -> (r: Http2Config)
        ensures
            r == (Http2Config {
                max_concurrent_streams: 100,
                initial_window_size: 65535,
                max_frame_size: 16384,
                enable_server_push: true,
                push_cache_size: 1000,
                connection_timeout_ms: 30000,
                keep_alive_interval_ms: 10000,
                validate_push_promises: true,
            }),
    {
        Http2Config {
            max_concurrent_streams: 100,
            initial_window_size: 65535,
            max_frame_size: 16384,
            enable_server_push: true,
            push_cache_size: 1000,
            connection_timeout_ms: 30000,
            keep_alive_interval_ms: 10000,
            validate_push_promises: true,
        }
    }
}

/// Configuration of the streaming HTTP transport.
pub struct StreamingConfig {
    pub enable_chunked_transfer: bool,
    pub chunk_threshold: usize,
    pub chunk_size: usize,
    pub enable_compression: bool,
    pub compression_type: CompressionType,
    pub enable_http2_server_push: bool,
    pub streaming_timeout_ms: u64,
    pub max_concurrent_chunks: usize,
    pub backpressure_threshold: usize,
    pub adaptive_chunk_sizing: bool,
    pub http2_config: Http2Config,
}

/// The level `compression_level` reports for a compression type.
pub open spec fn spec_level_of(t: CompressionType) -> u8 {
    match t {
        CompressionType::Uncompressed => 0,
        CompressionType::Gzip => 6,
        CompressionType::Brotli => 8,
        CompressionType::Zstd => 7,
    }
}

/// The compression type a requested level selects: 0 turns compression off,
/// 1 to 6 choose gzip, 7 to 9 brotli, and higher levels fall back to gzip.
pub open spec fn spec_type_for_level(level: u8) -> CompressionType {
    if level == 0 {
        CompressionType::Uncompressed
    } else if level <= 6 {
        CompressionType::Gzip
    } else if level <= 9 {
        CompressionType::Brotli
    } else {
        CompressionType::Gzip
    }
}

impl Default for StreamingConfig {
    fn default() -> (r: StreamingConfig)
        ensures
            r.enable_chunked_transfer,
            r.chunk_threshold == 8192,
            r.chunk_size == 16384,
            r.enable_compression,
            r.compression_type == CompressionType::Gzip,
            !r.enable_http2_server_push,
            r.streaming_timeout_ms == 60000,
            r.max_concurrent_chunks == 10,
            r.backpressure_threshold == 1048576,
            r.adaptive_chunk_sizing,
            r.http2_config == (Http2Config {
                max_concurrent_streams: 100,
                initial_window_size: 65535,
                max_frame_size: 16384,
                enable_server_push: true,
                push_cache_size: 1000,
                connection_timeout_ms: 30000,
                keep_alive_interval_ms: 10000,
                validate_push_promises: true,
            }),
    {
        StreamingConfig {
            enable_chunked_transfer: true,
            chunk_threshold: 8192,
            chunk_size: 16384,
            enable_compression: true,
            compression_type: CompressionType::Gzip,
            enable_http2_server_push: false,
            streaming_timeout_ms: 60000,
            max_concurrent_chunks: 10,
            backpressure_threshold: 1024 * 1024,
            adaptive_chunk_sizing: true,
            http2_config: Http2Config::default(),
        }
    }
}

impl StreamingConfig {
    /// Settings for memory-constrained hosts: small thresholds and chunks.
    pub fn memory_improved() -> (r: StreamingConfig)
        ensures
            r.chunk_threshold == 4096,
            r.chunk_size == 8192,
            r.compression_type == CompressionType::Gzip,
            r.max_concurrent_chunks == 5,
            r.backpressure_threshold == 524288,
            r.enable_chunked_transfer,
            r.enable_compression,
            !r.enable_http2_server_push,
            r.streaming_timeout_ms == 60000,
            r.adaptive_chunk_sizing,
            r.http2_config == (Http2Config {
                max_concurrent_streams: 100,
                initial_window_size: 65535,
                max_frame_size: 16384,
                enable_server_push: true,
                push_cache_size: 1000,
                connection_timeout_ms: 30000,
                keep_alive_interval_ms: 10000,
                validate_push_promises: true,
            }),
    {
        StreamingConfig {
            chunk_threshold: 4096,
            chunk_size: 8192,
            compression_type: CompressionType::Gzip,
            max_concurrent_chunks: 5,
            backpressure_threshold: 512 * 1024,
            ..StreamingConfig::default()
        }
    }

    /// Settings for throughput: large chunks, brotli, server push and a
    /// wider HTTP/2 configuration.
    pub fn performance_improved() -> (r: StreamingConfig)
        ensures
            r.chunk_threshold == 32768,
            r.chunk_size == 65536,
            r.enable_http2_server_push,
            r.max_concurrent_chunks == 20,
            r.backpressure_threshold == 4194304,
            r.compression_type == CompressionType::Brotli,
            r.enable_chunked_transfer,
            r.enable_compression,
            r.streaming_timeout_ms == 60000,
            r.adaptive_chunk_sizing,
            r.http2_config == (Http2Config {
                max_concurrent_streams: 200,
                initial_window_size: 131072,
                max_frame_size: 32768,
                enable_server_push: true,
                push_cache_size: 2000,
                connection_timeout_ms: 60000,
                keep_alive_interval_ms: 5000,
                validate_push_promises: true,
            }),
    {
        StreamingConfig {
            chunk_threshold: 32768,
            chunk_size: 65536,
            enable_http2_server_push: true,
            max_concurrent_chunks: 20,
            backpressure_threshold: 4 * 1024 * 1024,
            compression_type: CompressionType::Brotli,
            http2_config: Http2Config {
                max_concurrent_streams: 200,
                initial_window_size: 131072,
                max_frame_size: 32768,
                enable_server_push: true,
                push_cache_size: 2000,
                connection_timeout_ms: 60000,
                keep_alive_interval_ms: 5000,
                validate_push_promises: true,
            },
            ..StreamingConfig::default()
        }
    }

    /// Sets the chunk size.
    pub fn with_chunk_size(self, chunk_size: usize) -> (r: StreamingConfig)
        ensures
            r == (StreamingConfig { chunk_size, ..self }),
    {
        StreamingConfig { chunk_size, ..self }
    }

    /// Chooses compression from a level (see `spec_type_for_level`);
    /// compression is on for every level but 0.
    pub fn with_compression_level(self, level: u8) -> (r: StreamingConfig)
        ensures
            r == (StreamingConfig { compression_type: spec_type_for_level(level), enable_compression: level != 0, ..self }),
    {
        let t = if level == 0 {
            CompressionType::Uncompressed
        } else if level <= 6 {
            CompressionType::Gzip
        } else if level <= 9 {
            CompressionType::Brotli
        } else {
            CompressionType::Gzip
        };
        StreamingConfig { compression_type: t, enable_compression: level != 0, ..self }
    }

    /// Sets the number of chunks in flight.
    pub fn with_max_concurrent_streams(self, max_streams: usize) -> (r: StreamingConfig)
        ensures
            r == (StreamingConfig { max_concurrent_chunks: max_streams, ..self }),
    {
        StreamingConfig { max_concurrent_chunks: max_streams, ..self }
    }

    /// The nominal level of the configured compression type.
    pub fn compression_level(&self) -> (r: u8)
        ensures
            r == spec_level_of(self.compression_type),
    {
        match self.compression_type {
            CompressionType::Uncompressed => 0,
            CompressionType::Gzip => 6,
            CompressionType::Brotli => 8,
            CompressionType::Zstd => 7,
        }
    }

    /// The number of chunks in flight.
    pub fn max_concurrent_streams(&self) -> (r: usize)
        ensures
            r == self.max_concurrent_chunks,
    {
        self.max_concurrent_chunks
    }
}

/// Choosing a level and reading it back agree: compression is on exactly
/// when the level read back is not 0, and that happens exactly for levels
/// other than 0; every level reads back as one of 0, 6, 8.
pub proof fn compression_level_roundtrip(level: u8)
    ensures
        (spec_level_of(spec_type_for_level(level)) == 0) == (level == 0),
        level == 0 ==> spec_level_of(spec_type_for_level(level)) == 0,
        1 <= level <= 6 ==> spec_level_of(spec_type_for_level(level)) == 6,
        7 <= level <= 9 ==> spec_level_of(spec_type_for_level(level)) == 8,
        level > 9 ==> spec_level_of(spec_type_for_level(level)) == 6,
        spec_level_of(spec_type_for_level(level)) <= 9,
{
}

/// The `Content-Encoding` token of a compression type.
pub open spec fn spec_content_encoding(t: CompressionType) -> Seq<char> {
    match t {
        CompressionType::Gzip => "gzip"@,
        CompressionType::Brotli => "br"@,
        CompressionType::Zstd => "zstd"@,
        CompressionType::Uncompressed => "identity"@,
    }
}

/// The `Content-Encoding` token of a compression type.
pub fn content_encoding(t: CompressionType) -> (r: &'static str)
    ensures
        r@ == spec_content_encoding(t),
{
    match t {
        CompressionType::Gzip => "gzip",
        CompressionType::Brotli => "br",
        CompressionType::Zstd => "zstd",
        CompressionType::Uncompressed => "identity",
    }
}

/// The gzip stream (default level, no timestamp) that flate2 writes for `data`.
pub uninterp spec fn gzip_stream(data: Seq<u8>) -> Seq<u8>;

/// What `brotli::BrotliCompress` with default parameters makes of `data`
/// read from memory into memory: the brotli stream, or the error's text.
pub uninterp spec fn brotli_outcome(data: Seq<u8>) -> Result<Seq<u8>, Seq<char>>;

/// What `zstd::bulk::compress` makes of `data` at `level`: the zstd frame,
/// or the error's text.
pub uninterp spec fn zstd_outcome(data: Seq<u8>, level: i32) -> Result<Seq<u8>, Seq<char>>;

/// Compresses with `flate2::write::GzEncoder` at the default level into a
/// `Vec`: the bytes are the gzip stream of `data`. The encoder's only
/// failures are those of the writer it wraps, and writing into a `Vec`
/// does not fail, so it always succeeds.
#[verifier::external_body]
fn gzip_compress(data: &[u8]) -> (r: Result<Vec<u8>, String>)
    ensures
        r is Ok,
        r matches Ok(v) ==> v@ == gzip_stream(data@),
{
    let mut encoder = flate2::write::GzEncoder::new(Vec::new(), flate2::Compression::default());
    encoder.write_all(data).map_err(|e| e.to_string())?;
    encoder.finish().map_err(|e| e.to_string())
}

/// Compresses with `brotli::BrotliCompress` and default encoder parameters,
/// reading from and writing to memory: the result, the error text
/// included, is `brotli_outcome` of the data.
#[verifier::external_body]
fn brotli_compress(data: &[u8]) -> (r: Result<Vec<u8>, String>)
    ensures
        brotli_outcome(data@) == (match r {
            Ok(v) => Ok::<Seq<u8>, Seq<char>>(v@),
            Err(m) => Err::<Seq<u8>, Seq<char>>(m@),
        }),
{
    let mut output = Vec::new();
    let mut reader = std::io::Cursor::new(data);
    match brotli::BrotliCompress(&mut reader, &mut output, &brotli::enc::BrotliEncoderParams::default()) {
        Ok(_) => Ok(output),
        Err(e) => Err(e.to_string()),
    }
}

/// Compresses with `zstd::bulk::compress` at `level`: the result, the error
/// text included, is `zstd_outcome` of the data and level.
#[verifier::external_body]
fn zstd_compress(data: &[u8], level: i32) -> (r: Result<Vec<u8>, String>)
    ensures
        zstd_outcome(data@, level) == (match r {
            Ok(v) => Ok::<Seq<u8>, Seq<char>>(v@),
            Err(m) => Err::<Seq<u8>, Seq<char>>(m@),
        }),
{
    zstd::bulk::compress(data, level).map_err(|e| e.to_string())
}

/// Compresses payloads above a size threshold with the configured algorithm.
pub struct StreamingCompressor {
    pub compression_type: CompressionType,
    pub threshold: usize,
}

/// What `compress_if_beneficial` gives: the payload itself below the
/// threshold or when compression is off, otherwise its compressed form
/// (zstd at level 3); a brotli or zstd failure is an internal error
/// naming the compressor and its message.
pub open spec fn compressed_outcome(t: CompressionType, threshold: usize, data: Seq<u8>, r: Result<Vec<u8>, McpError>) -> bool {
    if data.len() < threshold {
        r matches Ok(v) && v@ == data
    } else {
        match t {
            CompressionType::Gzip => r matches Ok(v) && v@ == gzip_stream(data),
            CompressionType::Brotli => match brotli_outcome(data) {
                Ok(b) => r matches Ok(v) && v@ == b,
                Err(m) => r matches Err(McpError::Internal(t)) && t@ == "Brotli compression failed: "@ + m,
            },
            CompressionType::Zstd => match zstd_outcome(data, 3) {
                Ok(b) => r matches Ok(v) && v@ == b,
                Err(m) => r matches Err(McpError::Internal(t)) && t@ == "Zstd compression failed: "@ + m,
            },
            CompressionType::Uncompressed => r matches Ok(v) && v@ == data,
        }
    }
}

impl StreamingCompressor {
    /// A compressor with the 1 KiB threshold.
    pub fn new(compression_type: CompressionType) -> (r: StreamingCompressor)
        ensures
            r.compression_type == compression_type,
            r.threshold == 1024,
    {
        StreamingCompressor { compression_type, threshold: 1024 }
    }

    /// The payload to send: unchanged below the threshold, otherwise
    /// compressed. Only brotli and zstd can fail.
    pub fn compress_if_beneficial(&self, data: &[u8]) -> (r: Result<Vec<u8>, McpError>)
        ensures
            compressed_outcome(self.compression_type, self.threshold, data@, r),
    {
        if data.len() < self.threshold {
            return Ok(slice_to_vec(data));
        }
        match self.compression_type {
            CompressionType::Gzip => match gzip_compress(data) {
                Ok(v) => Ok(v),
                Err(m) => Err(McpError::Io(m)),
            },
            CompressionType::Brotli => match brotli_compress(data) {
                Ok(v) => Ok(v),
                Err(m) => Err(McpError::Internal(crate::text::concat("Brotli compression failed: ", m.as_str()))),
            },
            CompressionType::Zstd => match zstd_compress(data, 3) {
                Ok(v) => Ok(v),
                Err(m) => Err(McpError::Internal(crate::text::concat("Zstd compression failed: ", m.as_str()))),
            },
            CompressionType::Uncompressed => Ok(slice_to_vec(data)),
        }
    }
}

/// A copy of a byte slice.
pub fn slice_to_vec(data: &[u8]) -> (r: Vec<u8>)
    ensures
        r@ == data@,
{
    let mut out: Vec<u8> = Vec::new();
    let n = data.len();
    let mut i: usize = 0;
    while i < n
        invariant
            n == data@.len(),
            i <= n,
            out@ == data@.take(i as int),
        decreases n - i,
    {
        out.push(data[i]);
        assert(out@ =~= data@.take(i + 1));
        i = i + 1;
    }
    assert(data@.take(n as int) =~= data@);
    out
}

} // verus!
