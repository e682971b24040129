//! Client library for TontooOS system facts: hardware (`sys.fico`) and OS
//! identity (`os.fico`) as the settings daemon reports them over its unix
//! socket. A missing daemon surfaces as an error, never as fallback data.
//!
//! The library holds the decisions: which request goes out, how each step
//! of the exchange with the daemon ends, and what a reply means. The
//! caller performs the socket work each exchange step asks for.

pub mod error;
pub mod json;
pub mod lang;
pub mod laws;
pub mod provider;
pub mod text;
pub mod types;

pub use error::{ProviderError, Result};
pub use provider::{SettingsProvider, DEFAULT_SOCKET_PATH};
pub use types::{Cpu, Gpu, Hardware, Os, Ram, RamModule, RamType};

use vstd::prelude::*;

use json::JsonValue;
use provider::ping_gives;
use types::{hardware_view, os_of};

verus! {

/// The request that asks the daemon for a pong.
pub const OP_PING: &'static str = "ping";

/// The request that asks the daemon for hardware facts.
pub const OP_GET_HARDWARE: &'static str = "get_hardware";

/// The request that asks the daemon for OS identity facts.
pub const OP_GET_OS: &'static str = "get_os";

/// Reads the response to a `ping` request at the default socket.
pub fn ping(response: Result<JsonValue>) -> (r: Result<bool>)
    ensures
        ping_gives(response, r),
{
    SettingsProvider::new().ping(response)
}

/// Reads the response to a `get_hardware` request at the default socket.
/// See [`SettingsProvider::hardware`] for the `detailed` flag.
pub fn hardware(detailed: bool, response: Result<JsonValue>) -> (r: Result<Hardware>)
    ensures
        match response {
            Ok(v) => r matches Ok(h) && h@ == hardware_view(detailed, v),
            Err(e) => r == Err::<Hardware, ProviderError>(e),
        },
{
    SettingsProvider::new().hardware(detailed, response)
}

/// Reads the response to a `get_os` request at the default socket.
pub fn os(response: Result<JsonValue>) -> (r: Result<Os>)
    ensures
        match response {
            Ok(v) => r matches Ok(o) && o@ == os_of(v),
            Err(e) => r == Err::<Os, ProviderError>(e),
        },
{
    SettingsProvider::new().os(response)
}

} // verus!
