use rs485_switch::config::ModbusConfig;
use rs485_switch::config_json::{config_from_json, config_to_json};

#[test]
fn default_config_has_the_documented_values() {
    let config = ModbusConfig::default();
    assert_eq!(config.port_name, "COM7");
    assert_eq!(config.baud_rate, 4800);
    assert_eq!(config.slave_id, 1);
    assert_eq!(config.timeout, 6000);
}

#[test]
fn default_config_renders_as_pretty_json() {
    let text = config_to_json(&ModbusConfig::default());
    assert_eq!(
        text,
        "{\n  \"port_name\": \"COM7\",\n  \"baud_rate\": 4800,\n  \"slave_id\": 1,\n  \"timeout\": 6000\n}"
    );
}

#[test]
fn default_config_round_trips_through_json() {
    let config = ModbusConfig::default();
    let text = config_to_json(&config);
    let back = config_from_json(&text).expect("rendered text must parse");
    assert_eq!(back, config);
}

#[test]
fn arbitrary_config_round_trips_through_json() {
    let config = ModbusConfig {
        port_name: String::from("/dev/ttyUSB3"),
        baud_rate: u32::MAX,
        slave_id: 247,
        timeout: u64::MAX,
    };
    let text = config_to_json(&config);
    let back = config_from_json(&text).expect("rendered text must parse");
    assert_eq!(back, config);
}

#[test]
fn port_name_escapes_round_trip_through_json() {
    let config = ModbusConfig {
        port_name: String::from("odd \"name\" with \\ inside"),
        baud_rate: 19200,
        slave_id: 3,
        timeout: 250,
    };
    let text = config_to_json(&config);
    let back = config_from_json(&text).expect("rendered text must parse");
    assert_eq!(back, config);
}

#[test]
fn rendered_json_is_understood_by_a_json_library() {
    let config = ModbusConfig::default();
    let text = config_to_json(&config);
    let value: serde_json::Value = serde_json::from_str(&text).expect("valid JSON");
    assert_eq!(value["port_name"], serde_json::Value::String(String::from("COM7")));
    assert_eq!(value["baud_rate"], serde_json::Value::Number(serde_json::Number::from(4800u32)));
    assert_eq!(value["slave_id"], serde_json::Value::Number(serde_json::Number::from(1u8)));
    assert_eq!(value["timeout"], serde_json::Value::Number(serde_json::Number::from(6000u64)));
}

#[test]
fn parser_tolerates_whitespace_between_tokens() {
    let text = "  {  \"port_name\" : \"COM3\" ,\n\t\"baud_rate\": 9600, \"slave_id\": 2, \"timeout\": 1000 }  ";
    let config = config_from_json(text).expect("whitespace variant must parse");
    assert_eq!(config.port_name, "COM3");
    assert_eq!(config.baud_rate, 9600);
    assert_eq!(config.slave_id, 2);
    assert_eq!(config.timeout, 1000);
}

#[test]
fn parser_refuses_malformed_text() {
    assert!(config_from_json("").is_none());
    assert!(config_from_json("{}").is_none());
    assert!(config_from_json("{\"port_name\": \"COM7\"}").is_none());
    // Wrong field order is refused: the format is a fixed record.
    assert!(config_from_json(
        "{\"baud_rate\": 4800, \"port_name\": \"COM7\", \"slave_id\": 1, \"timeout\": 6000}"
    )
    .is_none());
    // Trailing garbage is refused.
    let mut text = config_to_json(&ModbusConfig::default());
    text.push('x');
    assert!(config_from_json(&text).is_none());
    // An unterminated string is refused.
    assert!(config_from_json("{\"port_name\": \"COM7").is_none());
}

#[test]
fn parser_refuses_values_outside_the_field_types() {
    // One past u32::MAX for the baud rate.
    let text = "{\"port_name\": \"COM7\", \"baud_rate\": 4294967296, \"slave_id\": 1, \"timeout\": 6000}";
    assert!(config_from_json(text).is_none());
    // One past u8::MAX for the slave id.
    let text = "{\"port_name\": \"COM7\", \"baud_rate\": 4800, \"slave_id\": 256, \"timeout\": 6000}";
    assert!(config_from_json(text).is_none());
    // One past u64::MAX for the timeout.
    let text = "{\"port_name\": \"COM7\", \"baud_rate\": 4800, \"slave_id\": 1, \"timeout\": 18446744073709551616}";
    assert!(config_from_json(text).is_none());
}
