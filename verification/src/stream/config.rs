//! Stream configuration options.

use vstd::prelude::*;

verus! {

/// Configuration for streaming behavior.
#[derive(Debug, Clone, Copy, PartialEq, Eq, Structural)]
pub struct StreamConfig {
    /// Whether streaming is enabled.
    pub enabled: bool,
    /// Buffer size for stream events.
    pub buffer_size: usize,
    /// Timeout for individual stream events, in milliseconds.
    pub event_timeout_ms: Option<u64>,
    /// Whether to flush events immediately.
    pub flush_immediate: bool,
}

/// The default stream configuration: enabled, 32 buffered events, a 30-second event
/// timeout, immediate flushing.
pub open spec fn spec_default_stream_config() -> StreamConfig {
    StreamConfig { enabled: true, buffer_size: 32, event_timeout_ms: Some(30000), flush_immediate: true }
}

impl Default for StreamConfig {
    fn default() -> (r: Self)
        ensures
            r == spec_default_stream_config(),
    {
        StreamConfig { enabled: true, buffer_size: 32, event_timeout_ms: Some(30000), flush_immediate: true }
    }
}

impl StreamConfig {
    /// The default configuration.
    pub fn new() -> (r: Self)
        ensures
            r == spec_default_stream_config(),
    {
        StreamConfig { enabled: true, buffer_size: 32, event_timeout_ms: Some(30000), flush_immediate: true }
    }

    /// The default configuration with streaming disabled.
    pub fn disabled() -> (r: Self)
        ensures
            r == (StreamConfig { enabled: false, ..spec_default_stream_config() }),
    {
        StreamConfig { enabled: false, ..Self::new() }
    }

    /// Set the buffer size.
    pub fn buffer_size(self, size: usize) -> (r: Self)
        ensures
            r == (StreamConfig { buffer_size: size, ..self }),
    {
        StreamConfig { buffer_size: size, ..self }
    }

    /// Set the event timeout in milliseconds.
    pub fn event_timeout_ms(self, timeout: u64) -> (r: Self)
        ensures
            r == (StreamConfig { event_timeout_ms: Some(timeout), ..self }),
    {
        StreamConfig { event_timeout_ms: Some(timeout), ..self }
    }

    /// Disable the event timeout.
    pub fn no_timeout(self) -> (r: Self)
        ensures
            r == (StreamConfig { event_timeout_ms: None, ..self }),
    {
        StreamConfig { event_timeout_ms: None, ..self }
    }

    /// Set whether to flush events immediately.
    pub fn flush_immediate(self, flush: bool) -> (r: Self)
        ensures
            r == (StreamConfig { flush_immediate: flush, ..self }),
    {
        StreamConfig { flush_immediate: flush, ..self }
    }
}

} // verus!
