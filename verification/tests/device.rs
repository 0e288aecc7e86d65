use rusty_boy::device::{command_line, data_disk_command, find_port, run_game_command, PortInfo, UsbInfo};

fn usb(name: &str, manufacturer: Option<&str>, product: Option<&str>) -> PortInfo {
    PortInfo {
        port_name: name.to_string(),
        usb: Some(UsbInfo {
            manufacturer: manufacturer.map(|s| s.to_string()),
            product: product.map(|s| s.to_string()),
        }),
    }
}

#[test]
fn finds_the_playdate_port() {
    let ports = vec![
        PortInfo { port_name: "/dev/ttyS0".to_string(), usb: None },
        usb("/dev/ttyACM0", Some("Panic Inc"), Some("Other")),
        usb("/dev/ttyACM1", Some("Panic Inc"), None),
        usb("/dev/ttyACM2", Some("Panic Inc"), Some("Playdate")),
        usb("/dev/ttyACM3", Some("Panic Inc"), Some("Playdate")),
    ];
    assert_eq!(find_port(&ports), Some(3));
    assert_eq!(find_port(&ports[..3].iter().map(|p| PortInfo {
        port_name: p.port_name.clone(),
        usb: p.usb.as_ref().map(|u| UsbInfo { manufacturer: u.manufacturer.clone(), product: u.product.clone() }),
    }).collect()), None);
}

#[test]
fn device_commands() {
    assert_eq!(run_game_command("rusty_date"), b"run /Games/rusty_date".to_vec());
    assert_eq!(data_disk_command(), b"datadisk".to_vec());
    assert_eq!(command_line(b"datadisk"), b"datadisk\r\n".to_vec());
    assert_eq!(command_line(b""), b"\r\n".to_vec());
}
