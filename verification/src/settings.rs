//! The fixed settings of the installation: where the broker is, how the
//! client identifies itself, and under which base path the door is known.

use vstd::prelude::*;
use vstd::string::*;

verus! {

/// Base path of the door's topics.
pub const BASE_PATH: &'static str = "homeassistant/cover/garage";

/// Address of the broker.
pub const BROKER_HOST: &'static str = "10.44.0.15";

/// Port of the broker.
pub const BROKER_PORT: u16 = 1883;

/// Seconds of silence after which the client pings the broker.
pub const KEEP_ALIVE_SECS: u64 = 5;

/// Number of requests that may wait in the client's queue.
pub const REQUEST_CAPACITY: usize = 10;

/// What the bus client is set up with.
#[derive(Debug)]
pub struct BusSettings {
    /// How the client identifies itself to the broker.
    pub client_id: String,
    pub host: String,
    pub port: u16,
    pub keep_alive_secs: u64,
    pub capacity: usize,
}

impl BusSettings {
    /// These are the settings of the installation.
    pub open spec fn is_standard(self) -> bool {
        &&& self.host@ == BROKER_HOST@
        &&& self.port == BROKER_PORT
        &&& self.keep_alive_secs == KEEP_ALIVE_SECS
        &&& self.capacity == REQUEST_CAPACITY
    }

    /// The settings of a client with the given identity.
    pub fn new(client_id: String) -> (settings: BusSettings)
        ensures
            settings.client_id@ == client_id@,
            settings.is_standard(),
    {
        BusSettings {
            client_id,
            host: String::from_str(BROKER_HOST),
            port: BROKER_PORT,
            keep_alive_secs: KEEP_ALIVE_SECS,
            capacity: REQUEST_CAPACITY,
        }
    }
}

/// The settings of a client that identifies itself by the machine's host
/// name, if the machine has told one.
pub fn settings_for(hostname: Option<String>) -> (r: Option<BusSettings>)
    ensures
        match hostname {
            Some(name) => r matches Some(settings) && settings.client_id@ == name@
                && settings.is_standard(),
            None => r is None,
        },
{
    match hostname {
        Some(name) => Some(BusSettings::new(name)),
        None => None,
    }
}

/// The settings of a client on this machine. There are none where the
/// machine's host name is not valid Unicode.
pub fn local_settings() -> (r: Option<BusSettings>)
    ensures
        r matches Some(settings) ==> settings.is_standard(),
{
    settings_for(local_hostname())
}

/// Calls `gethostname::gethostname` and turns the name into a string. The
/// name is whatever the machine says; nothing is claimed about it.
#[verifier::external_body]
fn local_hostname() -> (name: Option<String>) {
    gethostname::gethostname().into_string().ok()
}

} // verus!
