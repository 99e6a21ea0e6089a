use prism_mcp_rs::analysis::{ContentAnalyzer, StreamingStrategy, SendMethod, send_plan, plan_analysis};
use prism_mcp_rs::buffers::{chunk_body, AdaptiveBuffer, FlowControlMetrics, StreamingBuffer};
use prism_mcp_rs::streaming::{CompressionType, StreamingConfig};

#[test]
fn test_streaming_config_default() {
    let config = StreamingConfig::default();
    assert_eq!(config.chunk_size, 16384);
    assert!(config.enable_compression);
    assert_eq!(config.compression_level(), 6);
    assert_eq!(config.max_concurrent_streams(), 10);
}

#[test]
fn test_streaming_config_builder() {
    let config = StreamingConfig::default()
        .with_chunk_size(4096)
        .with_compression_level(0)
        .with_compression_level(3)
        .with_max_concurrent_streams(50);

    assert_eq!(config.chunk_size, 4096);
    assert!(config.enable_compression);
    assert_eq!(config.compression_level(), 6);
    assert_eq!(config.max_concurrent_streams(), 50);
}

#[test]
fn test_content_analyzer_creation() {
    let _analyzer = ContentAnalyzer::new();
    let _default_analyzer = ContentAnalyzer::default();
}

#[test]
fn test_content_analyzer_should_stream() {
    let analyzer = ContentAnalyzer::new();

    let small_data = "small data".as_bytes();
    assert!(!analyzer.should_stream(small_data));

    let large_data = vec![0u8; 10_000];
    assert!(analyzer.should_stream(&large_data));

    let boundary_data = vec![0u8; analyzer.streaming_threshold()];
    assert!(!analyzer.should_stream(&boundary_data));

    let over_boundary = vec![0u8; analyzer.streaming_threshold() + 1];
    assert!(analyzer.should_stream(&over_boundary));
}

#[test]
fn test_adaptive_buffer_creation() {
    let buffer = AdaptiveBuffer::new();
    assert_eq!(buffer.len(), 0);
    assert!(buffer.capacity() >= 8192);
}

#[test]
fn test_adaptive_buffer_write_read() {
    let mut buffer = AdaptiveBuffer::new();
    let test_data = b"Hello, streaming world!";
    buffer.write(test_data);
    assert_eq!(buffer.len(), test_data.len());

    let read_data = buffer.read(10);
    assert_eq!(read_data.len(), 10);
    assert_eq!(&read_data[..], &test_data[..10]);
    assert_eq!(buffer.len(), test_data.len() - 10);
}

#[test]
fn test_adaptive_buffer_resize() {
    let mut buffer = AdaptiveBuffer::new();
    let initial_capacity = buffer.capacity();
    let large_data = vec![42u8; initial_capacity + 1000];
    buffer.write(&large_data);
    assert!(buffer.capacity() > initial_capacity);
    assert_eq!(buffer.len(), large_data.len());
}

#[test]
fn test_adaptive_buffer_clear() {
    let mut buffer = AdaptiveBuffer::new();
    buffer.write(b"test data");
    assert!(!buffer.is_empty());
    buffer.clear();
    assert_eq!(buffer.len(), 0);
}

#[test]
fn test_flow_control_metrics_creation() {
    let metrics = FlowControlMetrics::new();
    assert_eq!(metrics.bytes_sent, 0);
    assert_eq!(metrics.bytes_received, 0);
    assert_eq!(metrics.requests_pending, 0);
    assert!(metrics.last_activity.elapsed().as_secs() < 1);
}

#[test]
fn test_flow_control_metrics_update() {
    let mut metrics = FlowControlMetrics::new();
    metrics.record_bytes_sent(1024);
    assert_eq!(metrics.bytes_sent, 1024);
    metrics.record_bytes_received(512);
    assert_eq!(metrics.bytes_received, 512);
    metrics.record_request_start();
    assert_eq!(metrics.requests_pending, 1);
    metrics.record_request_complete();
    assert_eq!(metrics.requests_pending, 0);
}

#[test]
fn test_flow_control_metrics_should_throttle() {
    let mut metrics = FlowControlMetrics::new();
    metrics.record_request_start();
    assert!(!metrics.should_throttle());
    for _ in 0..150 {
        metrics.record_request_start();
    }
    assert!(metrics.should_throttle());
}

#[test]
fn test_compression_type_enum() {
    let none = CompressionType::Uncompressed;
    let gzip = CompressionType::Gzip;
    let brotli = CompressionType::Brotli;
    let zstd = CompressionType::Zstd;
    assert_eq!(none, CompressionType::Uncompressed);
    assert_ne!(gzip, CompressionType::Uncompressed);
    assert_ne!(brotli, gzip);
    assert_ne!(zstd, brotli);
}

#[test]
fn test_streaming_config_validation() {
    let config = StreamingConfig::default();
    assert!(config.chunk_size > 0);
    assert!(config.chunk_size <= 64 * 1024);
    assert!(config.compression_level() <= 9);
    assert!(config.max_concurrent_streams() > 0);
    assert!(config.max_concurrent_streams() <= 1000);
}

#[test]
fn compression_levels_map_to_types() {
    assert_eq!(StreamingConfig::default().with_compression_level(0).compression_level(), 0);
    assert!(!StreamingConfig::default().with_compression_level(0).enable_compression);
    assert_eq!(StreamingConfig::default().with_compression_level(7).compression_type, CompressionType::Brotli);
    assert_eq!(StreamingConfig::default().with_compression_level(9).compression_level(), 8);
    assert_eq!(StreamingConfig::default().with_compression_level(200).compression_type, CompressionType::Gzip);
}

#[test]
fn binary_detection_edges() {
    let analyzer = ContentAnalyzer::new();
    assert!(!analyzer.should_stream(b""));
    assert!(!analyzer.should_stream(b"a"));
    // A zero byte among text marks binary content.
    assert!(analyzer.should_stream(b"ab\0cd"));
    // Mostly control bytes, no zero byte.
    assert!(analyzer.should_stream(&[1u8, 2, 3, b'a']));
    // Tabs and newlines are text.
    assert!(!analyzer.should_stream(b"\t\n\r\t"));
}

#[test]
fn adaptive_buffer_is_fifo_on_values() {
    let mut b = AdaptiveBuffer::new();
    b.write(b"abc");
    b.write(b"def");
    assert_eq!(b.read(4), b"abcd".to_vec());
    assert_eq!(b.read(10), b"ef".to_vec());
    assert!(b.read(3).is_empty());
}

#[test]
fn adaptive_buffer_grows_its_preferred_size() {
    let mut b = AdaptiveBuffer::new();
    assert_eq!(b.optimal_size(), 16384);
    b.write(&vec![1u8; 2 * 16384]);
    assert_eq!(b.optimal_size(), 16384);
    b.write(&[1u8]);
    assert_eq!(b.optimal_size(), 24576);
}

#[test]
fn chunking_keeps_the_body() {
    let data: Vec<u8> = (0..10u8).collect();
    let chunks = match chunk_body(&data, 4, 100) {
        Ok(c) => c,
        Err(e) => panic!("{:?}", e),
    };
    assert_eq!(chunks, vec![vec![0, 1, 2, 3], vec![4, 5, 6, 7], vec![8, 9]]);
    let mut sb = StreamingBuffer::new(4, 8);
    assert!(sb.add_data(&[0u8; 9]).is_err());
}

#[test]
fn flow_control_window_and_rtt() {
    let mut m = FlowControlMetrics::new();
    assert_eq!(m.available_window(), 65536);
    m.record_bytes_sent(65000);
    assert_eq!(m.bytes_in_flight(), 65000);
    assert!(m.should_throttle());
    m.record_bytes_acked(64000);
    assert_eq!(m.available_window(), 64536);
    assert!(m.should_send());
    m.update_rtt(180);
    assert_eq!(m.estimated_rtt(), (7 * 100 + 180) / 8);
}

#[test]
fn small_plain_requests_are_sent_plainly() {
    let a = plan_analysis(100, false, false, false);
    assert!(!a.should_stream);
    assert_eq!(a.recommended_strategy, StreamingStrategy::Traditional);
    assert_eq!(send_plan(&a, true), vec![SendMethod::Traditional]);
    let big = plan_analysis(200_000, false, false, false);
    assert_eq!(big.recommended_strategy, StreamingStrategy::Http2Multiplexed);
    assert_eq!(send_plan(&big, true), vec![SendMethod::Http2, SendMethod::Chunked, SendMethod::Traditional]);
    assert_eq!(send_plan(&big, false), vec![SendMethod::Traditional]);
}

#[test]
fn adaptive_buffer_length_is_written_minus_read() {
    let mut b = AdaptiveBuffer::new();
    b.write(b"hello world");
    assert_eq!(b.len(), 11);
    let r = b.read(4);
    assert_eq!(r, b"hell".to_vec());
    assert_eq!(b.len(), 7);
    b.write(b"!!");
    assert_eq!(b.len(), 9);
    b.clear();
    assert_eq!(b.len(), 0);
    b.write(b"ab");
    assert_eq!(b.read(10), b"ab".to_vec());
    assert!(b.is_empty());
}
