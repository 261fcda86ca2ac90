//! Log levels and log categories of the worker's logging, and the parameters
//! of logsinks. The categories are the seven of the C API, `Parameters`
//! among them, so `All` is 0x7f; a rotating log file has an empty prefix
//! unless one is set.

use vstd::prelude::*;

verus! {

/// The severity of a log message.
#[derive(Debug, Copy, Clone, PartialEq, Eq, Structural, Hash, PartialOrd, Ord)]
pub enum LogLevel {
    Debug,
    Info,
    Warn,
    Error,
    Fatal,
}

/// The level that the C API encodes as `code`; codes that are no level are
/// read as `Error`.
pub open spec fn log_level_of_code(code: u8) -> LogLevel {
    if code == 1 {
        LogLevel::Debug
    } else if code == 2 {
        LogLevel::Info
    } else if code == 3 {
        LogLevel::Warn
    } else if code == 5 {
        LogLevel::Fatal
    } else {
        LogLevel::Error
    }
}

/// The code of a level in the C API.
pub open spec fn log_level_code(level: LogLevel) -> u8 {
    match level {
        LogLevel::Debug => 1,
        LogLevel::Info => 2,
        LogLevel::Warn => 3,
        LogLevel::Error => 4,
        LogLevel::Fatal => 5,
    }
}

impl From<u8> for LogLevel {
    /// Decodes a log level of the C API (1 to 5, from `Debug` to `Fatal`);
    /// any other code is read as `Error`.
    fn from(log_level: u8) -> (res: Self) {
        match log_level {
            1 => LogLevel::Debug,
            2 => LogLevel::Info,
            3 => LogLevel::Warn,
            4 => LogLevel::Error,
            5 => LogLevel::Fatal,
            _ => LogLevel::Error,
        }
    }
}

impl vstd::std_specs::convert::FromSpecImpl<u8> for LogLevel {
    open spec fn obeys_from_spec() -> bool {
        true
    }

    open spec fn from_spec(log_level: u8) -> LogLevel {
        log_level_of_code(log_level)
    }
}

impl LogLevel {
    /// The level's code in the C API.
    pub fn code(self) -> (res: u8)
        ensures
            res == log_level_code(self),
    {
        match self {
            LogLevel::Debug => 1,
            LogLevel::Info => 2,
            LogLevel::Warn => 3,
            LogLevel::Error => 4,
            LogLevel::Fatal => 5,
        }
    }
}

/// Decoding the code of a level gives the level back.
pub proof fn lemma_log_level_code_roundtrip(level: LogLevel)
    ensures
        log_level_of_code(log_level_code(level)) == level,
{
}

/// Every code of the C API (1 to 5) is the code of the level decoded from
/// it, and every other code is read as `Error`.
pub proof fn lemma_log_level_codes_decode_to_their_level(code: u8)
    ensures
        1 <= code <= 5 ==> log_level_code(log_level_of_code(code)) == code,
        !(1 <= code <= 5) ==> log_level_of_code(code) == LogLevel::Error,
{
}

/// A set of log categories, held as bits.
#[derive(Debug, Copy, Clone, PartialEq, Eq, Structural, Hash)]
pub struct LogCategory {
    bits: u32,
}

impl LogCategory {
    /// The category set `Receive`.
    pub fn receive() -> (res: Self)
        ensures
            res.spec_bits() == 0x01u32,
    {
        LogCategory { bits: 0x01 }
    }

    /// The category set `Send`.
    pub fn send() -> (res: Self)
        ensures
            res.spec_bits() == 0x02u32,
    {
        LogCategory { bits: 0x02 }
    }

    /// The category set `NetworkStatus`.
    pub fn network_status() -> (res: Self)
        ensures
            res.spec_bits() == 0x04u32,
    {
        LogCategory { bits: 0x04 }
    }

    /// The category set `NetworkTraffic`.
    pub fn network_traffic() -> (res: Self)
        ensures
            res.spec_bits() == 0x08u32,
    {
        LogCategory { bits: 0x08 }
    }

    /// The category set `Login`.
    pub fn login() -> (res: Self)
        ensures
            res.spec_bits() == 0x10u32,
    {
        LogCategory { bits: 0x10 }
    }

    /// The category set `Api`.
    pub fn api() -> (res: Self)
        ensures
            res.spec_bits() == 0x20u32,
    {
        LogCategory { bits: 0x20 }
    }

    /// The category set `Parameters`.
    pub fn parameters() -> (res: Self)
        ensures
            res.spec_bits() == 0x40u32,
    {
        LogCategory { bits: 0x40 }
    }

    /// The category set `All`: the seven categories above, `Parameters`
    /// included.
    pub fn all() -> (res: Self)
        ensures
            res.spec_bits() == 0x7fu32,
    {
        LogCategory { bits: 0x7f }
    }

    /// The bits of the set.
    pub closed spec fn spec_bits(&self) -> u32 {
        self.bits
    }

    /// The bits of the set.
    pub fn bits(&self) -> (res: u32)
        ensures
            res == self.spec_bits(),
    {
        self.bits
    }

    /// The set held by `bits`, whether or not each bit names a category.
    pub fn from_bits_unchecked(bits: u32) -> (res: Self)
        ensures
            res.spec_bits() == bits,
    {
        LogCategory { bits }
    }

    /// Whether every category of `other` is in this set.
    pub fn contains(&self, other: LogCategory) -> (res: bool)
        ensures
            res == (self.spec_bits() & other.spec_bits() == other.spec_bits()),
    {
        self.bits & other.bits == other.bits
    }

    /// The categories that are in either set.
    pub fn union(self, other: LogCategory) -> (res: Self)
        ensures
            res.spec_bits() == self.spec_bits() | other.spec_bits(),
    {
        LogCategory { bits: self.bits | other.bits }
    }
}

/// Where log messages go. The codes of the C API are 1 to 6 in this order.
#[derive(Debug, Copy, Clone, PartialEq, Eq, Structural)]
pub enum LogsinkType {
    RotatingFile,
    Callback,
    Stdout,
    StdoutAnsi,
    Stderr,
    StderrAnsi,
}

impl LogsinkType {
    /// The logsink type's code in the C API.
    pub fn worker_sdk_type(self) -> (res: u8)
        ensures
            res == match self {
                LogsinkType::RotatingFile => 1u8,
                LogsinkType::Callback => 2u8,
                LogsinkType::Stdout => 3u8,
                LogsinkType::StdoutAnsi => 4u8,
                LogsinkType::Stderr => 5u8,
                LogsinkType::StderrAnsi => 6u8,
            },
    {
        match self {
            LogsinkType::RotatingFile => 1,
            LogsinkType::Callback => 2,
            LogsinkType::Stdout => 3,
            LogsinkType::StdoutAnsi => 4,
            LogsinkType::Stderr => 5,
            LogsinkType::StderrAnsi => 6,
        }
    }
}

/// Which messages a logsink takes: those of the given categories at the
/// given level or above.
#[derive(Debug, Copy, Clone)]
pub struct LogFilterParameters {
    pub categories: LogCategory,
    pub level: LogLevel,
}

impl LogFilterParameters {
    /// All categories, from `Error` up.
    pub fn default() -> (res: Self)
        ensures
            res.categories.spec_bits() == 0x7fu32,
            res.level == LogLevel::Error,
    {
        LogFilterParameters { categories: LogCategory::all(), level: LogLevel::Error }
    }
}

/// Parameters of a logsink that writes to a rotating set of files.
#[derive(Debug)]
pub struct RotatingLogFileParameters {
    pub log_prefix: String,
    pub max_log_files: u32,
    pub max_log_file_size_bytes: u32,
}

impl RotatingLogFileParameters {
    /// An empty prefix, and no limit set on the number or size of files.
    pub fn default() -> (res: Self)
        ensures
            res.log_prefix@ == Seq::<char>::empty(),
            res.max_log_files == 0,
            res.max_log_file_size_bytes == 0,
    {
        RotatingLogFileParameters {
            log_prefix: String::new(),
            max_log_files: 0,
            max_log_file_size_bytes: 0,
        }
    }

    /// Sets the prefix of log file names. The C API takes no prefix with a
    /// NUL character.
    pub fn set_prefix(&mut self, prefix: String)
        requires
            !prefix@.contains('\0'),
        ensures
            final(self).log_prefix == prefix,
            final(self).max_log_files == old(self).max_log_files,
            final(self).max_log_file_size_bytes == old(self).max_log_file_size_bytes,
    {
        self.log_prefix = prefix;
    }

    /// Sets the maximum number of log files to keep.
    pub fn set_max_log_files(&mut self, max_log_files: u32)
        ensures
            final(self).max_log_files == max_log_files,
            final(self).log_prefix == old(self).log_prefix,
            final(self).max_log_file_size_bytes == old(self).max_log_file_size_bytes,
    {
        self.max_log_files = max_log_files;
    }

    /// Sets the size in bytes at which a new log file is begun.
    pub fn set_max_log_file_size(&mut self, max_file_size: u32)
        ensures
            final(self).max_log_file_size_bytes == max_file_size,
            final(self).log_prefix == old(self).log_prefix,
            final(self).max_log_files == old(self).max_log_files,
    {
        self.max_log_file_size_bytes = max_file_size;
    }
}

/// Parameters of one logsink: where its messages go, which it takes, and the
/// files it writes when it rotates files.
#[derive(Debug)]
pub struct LogsinkParameters {
    pub logsink_type: LogsinkType,
    pub filter_parameters: LogFilterParameters,
    pub rotating_logfile_parameters: RotatingLogFileParameters,
}

impl LogsinkParameters {
    /// A logsink to standard output with the default filter and file
    /// parameters.
    pub fn default() -> (res: Self)
        ensures
            res.logsink_type == LogsinkType::Stdout,
            res.filter_parameters.categories.spec_bits() == 0x7fu32,
            res.filter_parameters.level == LogLevel::Error,
            res.rotating_logfile_parameters.log_prefix@ == Seq::<char>::empty(),
            res.rotating_logfile_parameters.max_log_files == 0,
            res.rotating_logfile_parameters.max_log_file_size_bytes == 0,
    {
        LogsinkParameters {
            logsink_type: LogsinkType::Stdout,
            filter_parameters: LogFilterParameters::default(),
            rotating_logfile_parameters: RotatingLogFileParameters::default(),
        }
    }
}

} // verus!
