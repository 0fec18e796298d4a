use b3_iot::bluetooth::BluetoothState;
use b3_iot::capability::network::WifiCredentials;
use b3_iot::capability::network_device::{BluetoothError, WifiConfig};
use b3_iot::net::{EmbassyTcp, Rp235xTcp, Rp235xTcpError};

#[test]
fn bluetooth_enable_disable() {
    let mut bt = BluetoothState::new();
    assert!(!bt.is_enabled());
    assert_eq!(bt.disable(), Err(BluetoothError::NotEnabled));
    assert!(bt.enable_needs_radio());
    assert_eq!(bt.enable(), Ok(()));
    assert!(bt.is_enabled());
    assert!(!bt.enable_needs_radio());
    assert_eq!(bt.enable(), Ok(()));
    assert_eq!(bt.check_disable(), Ok(()));
    assert_eq!(bt.disable(), Ok(()));
    assert!(!bt.is_enabled());
    assert_eq!(bt.check_disable(), Err(BluetoothError::NotEnabled));
}

#[test]
fn tcp_address_parsing() {
    assert_eq!(Rp235xTcp::resolve("192.168.1.10").ok(), Some([192, 168, 1, 10]));
    assert_eq!(Rp235xTcp::resolve("0.0.0.0").ok(), Some([0, 0, 0, 0]));
    assert!(matches!(Rp235xTcp::resolve("1.2.3"), Err(Rp235xTcpError::InvalidAddress)));
    assert!(matches!(Rp235xTcp::resolve("256.1.1.1"), Err(Rp235xTcpError::InvalidAddress)));
    assert!(matches!(Rp235xTcp::resolve("example.com"), Err(Rp235xTcpError::InvalidAddress)));
}

#[test]
fn tcp_address_parsing_agrees_with_core() {
    let octets = [
        "0", "1", "9", "10", "99", "100", "199", "249", "255", "256", "300", "999", "1000", "00",
        "01", "001", "010", "0255", "", "+1", "-1", " 1", "1 ", "a", "1a", "\u{661}",
    ];
    let mut checked = 0;
    for a in octets.iter() {
        for b in ["0", "255", "01", "256", ""].iter() {
            let texts = [
                format!("{}.{}.{}.{}", a, b, "7", "8"),
                format!("{}.{}.{}.{}", "7", b, "8", a),
                format!("{}.{}.{}", a, b, "7"),
                format!("{}.{}.{}.{}.{}", a, b, "7", "8", "9"),
                format!("{}.{}.{}.{}.", a, b, "7", "8"),
                format!(".{}.{}.{}.{}", a, b, "7", "8"),
                format!("{}..{}.{}", a, b, "7"),
            ];
            for text in texts.iter() {
                let expected = text.parse::<core::net::Ipv4Addr>().ok().map(|addr| addr.octets());
                assert_eq!(Rp235xTcp::resolve(text).ok(), expected, "{:?}", text);
                checked += 1;
            }
        }
    }
    assert_eq!(checked, octets.len() * 5 * 7);
    for text in ["", ".", "...", "1.2.3.4", "255.255.255.255", "1.2.3.4 ", "1.2.3.0x4", "1,2,3,4"].iter() {
        let expected = text.parse::<core::net::Ipv4Addr>().ok().map(|addr| addr.octets());
        assert_eq!(Rp235xTcp::resolve(text).ok(), expected, "{:?}", text);
    }
}

#[test]
fn plain_tcp_endpoint_uses_first_bytes() {
    assert_eq!(EmbassyTcp::endpoint("abcd", 80), ([97, 98, 99, 100], 80));
    assert_eq!(EmbassyTcp::endpoint("10.0.0.1", 1883), ([49, 48, 46, 48], 1883));
}

#[test]
fn credentials_hold_their_texts() {
    let c = WifiCredentials { ssid: "net", password: "secret" };
    assert_eq!((c.ssid, c.password), ("net", "secret"));
    let w = WifiConfig { hostname: "edge", ssid: "net", password: "pw" };
    assert_eq!(w.hostname, "edge");
}
