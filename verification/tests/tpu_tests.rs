use relayer_proxy::errors::ProxyError;
use relayer_proxy::tpu::{
    heartbeat_event_from_config, parse_ipv4, TpuConfigResponse, TpuSocketConfig,
};

#[test]
fn parses_valid_dotted_quads() {
    assert_eq!(parse_ipv4("0.0.0.0").unwrap().octets, [0, 0, 0, 0]);
    assert_eq!(
        parse_ipv4("255.255.255.255").unwrap().octets,
        [255, 255, 255, 255]
    );
    assert_eq!(parse_ipv4("10.1.2.3").unwrap().octets, [10, 1, 2, 3]);
    assert_eq!(parse_ipv4("192.168.0.1").unwrap().octets, [192, 168, 0, 1]);
}

#[test]
fn rejects_malformed_dotted_quads() {
    for text in [
        "",
        "1",
        "1.2.3",
        "1.2.3.4.5",
        "1..3.4",
        ".1.2.3",
        "1.2.3.",
        "256.0.0.1",
        "01.2.3.4",
        "00.0.0.0",
        "1.2.3.1000",
        "a.b.c.d",
        " 1.2.3.4",
        "1.2.3.4 ",
        "-1.2.3.4",
        "1.2.3.+4",
    ] {
        assert!(parse_ipv4(text).is_none(), "accepted {:?}", text);
    }
}

#[test]
fn zero_is_valid_but_leading_zeros_are_not() {
    assert_eq!(parse_ipv4("0.10.100.200").unwrap().octets, [0, 10, 100, 200]);
    assert!(parse_ipv4("0.010.100.200").is_none());
}

fn socket(ip: &str, port: u32) -> TpuSocketConfig {
    TpuSocketConfig {
        ip: ip.to_string(),
        port,
    }
}

#[test]
fn missing_sockets_are_reported_by_name() {
    let r = heartbeat_event_from_config(&TpuConfigResponse {
        tpu: None,
        tpu_forward: Some(socket("1.2.3.4", 1)),
    });
    assert_eq!(r.unwrap_err(), ProxyError::MissingTpuSocket("tpu".to_string()));

    let r = heartbeat_event_from_config(&TpuConfigResponse {
        tpu: Some(socket("1.2.3.4", 1)),
        tpu_forward: None,
    });
    assert_eq!(
        r.unwrap_err(),
        ProxyError::MissingTpuSocket("tpu_fwd".to_string())
    );
}

#[test]
fn unparsable_sockets_are_bad_tpu_sockets() {
    let r = heartbeat_event_from_config(&TpuConfigResponse {
        tpu: Some(socket("not-an-ip", 1)),
        tpu_forward: Some(socket("1.2.3.4", 1)),
    });
    assert_eq!(r.unwrap_err(), ProxyError::BadTpuSocket("not-an-ip".to_string()));

    let r = heartbeat_event_from_config(&TpuConfigResponse {
        tpu: Some(socket("1.2.3.4", 1)),
        tpu_forward: Some(socket("1.2.3.256", 1)),
    });
    assert_eq!(r.unwrap_err(), ProxyError::BadTpuSocket("1.2.3.256".to_string()));
}

#[test]
fn resolved_event_carries_both_sockets() {
    let event = heartbeat_event_from_config(&TpuConfigResponse {
        tpu: Some(socket("10.0.0.1", 8005)),
        tpu_forward: Some(socket("10.0.0.2", 8006)),
    })
    .unwrap();
    assert_eq!(event.tpu.ip.octets, [10, 0, 0, 1]);
    assert_eq!(event.tpu.port, 8005);
    assert_eq!(event.tpu_forward.ip.octets, [10, 0, 0, 2]);
    assert_eq!(event.tpu_forward.port, 8006);
}

#[test]
fn wide_wire_ports_are_truncated_to_sixteen_bits() {
    let event = heartbeat_event_from_config(&TpuConfigResponse {
        tpu: Some(socket("1.2.3.4", 70_000)),
        tpu_forward: Some(socket("1.2.3.4", 65_536)),
    })
    .unwrap();
    assert_eq!(event.tpu.port, (70_000 % 65_536) as u16);
    assert_eq!(event.tpu_forward.port, 0);
}
