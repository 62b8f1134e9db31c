//! The connection configuration record.
//!
//! Immutable once a session is opened; a new connection takes a fresh
//! record. Persisted on disk in the JSON form given by [`crate::config_json`].

use vstd::prelude::*;

verus! {

/// Default protocol-level response deadline in milliseconds.
pub const DEFAULT_MODBUS_TIMEOUT_MILLIS: u64 = 6_000;

/// Connection parameters for one Modbus RTU session.
#[derive(Debug, Clone, PartialEq, Eq)]
pub struct ModbusConfig {
    /// Name of the serial port the transport opens.
    pub port_name: String,
    /// Baud rate the transport opens the port at.
    pub baud_rate: u32,
    /// Address of the target device on the bus; 1 to 247 for unicast.
    pub slave_id: u8,
    /// Protocol-level response deadline in milliseconds.
    pub timeout: u64,
}

/// The mathematical value of a configuration record.
#[verifier::ext_equal]
pub struct ConfigV {
    pub port_name: Seq<char>,
    pub baud_rate: u32,
    pub slave_id: u8,
    pub timeout: u64,
}

impl View for ModbusConfig {
    type V = ConfigV;

    open spec fn view(&self) -> ConfigV {
        ConfigV {
            port_name: self.port_name@,
            baud_rate: self.baud_rate,
            slave_id: self.slave_id,
            timeout: self.timeout,
        }
    }
}

/// The documented default configuration.
pub open spec fn spec_default_config() -> ConfigV {
    ConfigV { port_name: "COM7"@, baud_rate: 4800, slave_id: 1, timeout: 6_000 }
}

impl Default for ModbusConfig {
    /// The defaults used when no configuration file exists.
    fn default() -> (r: Self)
        ensures
            r@ == spec_default_config(),
    {
        ModbusConfig {
            port_name: String::from_str("COM7"),
            baud_rate: 4800,
            slave_id: 1,
            timeout: DEFAULT_MODBUS_TIMEOUT_MILLIS,
        }
    }
}

} // verus!
