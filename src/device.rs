use vstd::prelude::*;

verus! {

/// What the caller asks for when opening a serial device.
pub struct PortConfig {
    /// Device identifier, such as `/dev/ttyUSB0` or `COM3`.
    pub port: String,
    pub baud_rate: u32,
    pub data_bits: Option<u8>,
    pub stop_bits: Option<u8>,
    pub parity: Option<String>,
    /// Read timeout in milliseconds; `None` asks for the default.
    pub timeout: Option<u64>,
}

/// Read timeout used when the request does not give one.
pub const DEFAULT_TIMEOUT_MS: u64 = 1000;

impl PortConfig {
    pub open spec fn timeout_spec(&self) -> u64 {
        match self.timeout {
            Some(t) => t,
            None => DEFAULT_TIMEOUT_MS,
        }
    }

    /// The read timeout to configure: the requested one, else the default.
    pub fn read_timeout_ms(&self) -> (r: u64)
        ensures
            r == self.timeout_spec(),
    {
        match self.timeout {
            Some(t) => t,
            None => DEFAULT_TIMEOUT_MS,
        }
    }
}

/// The outcome of one bounded read attempt on a device.
pub enum ReadOutcome {
    /// The read returned these bytes (possibly none).
    Data(Vec<u8>),
    /// The read timed out with nothing received.
    TimedOut,
    /// Any other I/O failure, with its description.
    Failed(String),
}

/// Whatever obtains device handles from the operating system.
pub trait DeviceOpener<D> {
    /// Opens the device that `config` names, with the given read timeout.
    /// On failure the operating system's error text is returned.
    fn open_device(&mut self, config: &PortConfig, timeout_ms: u64) -> Result<D, String>;
}

/// A byte-stream device that a session can own.
///
/// The operating system decides every outcome here; the session's
/// contracts say what holds whatever the device reports.
pub trait SerialDevice {
    /// Discards pending buffered data; returns whether that succeeded.
    fn flush_buffers(&mut self) -> bool;

    /// Writes every byte of `data`, or reports why it could not.
    fn write_all_bytes(&mut self, data: &[u8]) -> Result<(), String>;

    /// One bounded read attempt.
    fn read_chunk(&mut self) -> ReadOutcome;
}

} // verus!
