//! Startup configuration: which graphics API to drive, whether validation
//! layers are on, and how verbose the driver's debug messenger should be.

use vstd::prelude::*;

verus! {

/// The graphics API a backend is built for.
#[derive(Debug, Clone, Copy, PartialEq, Eq, Structural)]
pub enum GraphicsApiType {
    Vulkan,
}

/// Log verbosity, ordered from most to least chatty.
#[derive(Debug, Clone, Copy, PartialEq, Eq, Structural)]
pub enum LogLevel {
    Verbose,
    Info,
    Warning,
    Error,
}

/// Per-API graphics settings loaded once at startup.
#[derive(Debug, Clone, Copy, PartialEq, Eq, Structural)]
pub struct GraphicsConfig {
    pub log_level: LogLevel,
    pub validation_enabled: bool,
}

/// The whole configuration: one graphics section per API.
#[derive(Debug, Clone)]
pub struct Config {
    pub graphics: Vec<(GraphicsApiType, GraphicsConfig)>,
}

impl Default for GraphicsApiType {
    /// The default graphics API.
    fn default() -> (r: GraphicsApiType)
        ensures
            r == GraphicsApiType::Vulkan,
    {
        GraphicsApiType::Vulkan
    }
}

impl Default for LogLevel {
    /// The default verbosity: everything.
    fn default() -> (r: LogLevel)
        ensures
            r == LogLevel::Verbose,
    {
        LogLevel::Verbose
    }
}

impl Default for GraphicsConfig {
    /// The default graphics settings: full verbosity, validation off.
    fn default() -> (r: GraphicsConfig)
        ensures
            r == (GraphicsConfig { log_level: LogLevel::Verbose, validation_enabled: false }),
    {
        GraphicsConfig { log_level: LogLevel::Verbose, validation_enabled: false }
    }
}

/// Debug-messenger severity bit for each log level, as the driver's
/// messenger-create call expects it.
pub const SEVERITY_VERBOSE_BIT: u32 = 1;
pub const SEVERITY_INFO_BIT: u32 = 16;
pub const SEVERITY_WARNING_BIT: u32 = 256;
pub const SEVERITY_ERROR_BIT: u32 = 4096;

/// The severity threshold the debug messenger is created with for a given
/// log level.
pub fn debug_severity_bits(level: LogLevel) -> (bits: u32)
    ensures
        bits == match level {
            LogLevel::Verbose => SEVERITY_VERBOSE_BIT,
            LogLevel::Info => SEVERITY_INFO_BIT,
            LogLevel::Warning => SEVERITY_WARNING_BIT,
            LogLevel::Error => SEVERITY_ERROR_BIT,
        },
{
    match level {
        LogLevel::Verbose => SEVERITY_VERBOSE_BIT,
        LogLevel::Info => SEVERITY_INFO_BIT,
        LogLevel::Warning => SEVERITY_WARNING_BIT,
        LogLevel::Error => SEVERITY_ERROR_BIT,
    }
}

impl Config {
    /// The graphics settings for `api`: the first entry with that key, if any.
    pub fn graphics_config(&self, api: GraphicsApiType) -> (r: Option<GraphicsConfig>)
        ensures
            match r {
                Some(cfg) => exists|i: int|
                    0 <= i < self.graphics@.len() && #[trigger] self.graphics@[i].0 == api
                        && self.graphics@[i].1 == cfg && forall|j: int|
                        0 <= j < i ==> #[trigger] self.graphics@[j].0 != api,
                None => forall|i: int|
                    0 <= i < self.graphics@.len() ==> #[trigger] self.graphics@[i].0 != api,
            },
    {
        let mut idx: usize = 0;
        while idx < self.graphics.len()
            invariant
                idx <= self.graphics@.len(),
                forall|j: int| 0 <= j < idx ==> #[trigger] self.graphics@[j].0 != api,
            decreases self.graphics@.len() - idx,
        {
            if self.graphics[idx].0 == api {
                return Some(self.graphics[idx].1);
            }
            idx = idx + 1;
        }
        None
    }
}

} // verus!
