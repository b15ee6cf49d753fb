use minirtos::apps::gpio_irq::{test_pin_triggered, toggle_request};
use minirtos::apps::net_test::{arp_request_frame, echo_request_frame, tx_frame_info, TxFrameInfo};

#[test]
fn arp_frame_is_reported_as_arp() {
    let f = arp_request_frame();
    assert_eq!(&f[0..6], &[0xff; 6]);
    assert_eq!(&f[28..32], &[192, 168, 1, 10]);
    assert_eq!(&f[38..42], &[192, 168, 1, 100]);
    assert_eq!(
        tx_frame_info(&f),
        TxFrameInfo { ethertype: Some(0x0806), arp_opcode: Some(1), ipv4_protocol: None, message_type: None }
    );
}

#[test]
fn echo_frame_is_reported_as_an_echo_request() {
    let f = echo_request_frame();
    assert_eq!(
        tx_frame_info(&f),
        TxFrameInfo { ethertype: Some(0x0800), arp_opcode: None, ipv4_protocol: Some(1), message_type: Some(8) }
    );
}

#[test]
fn echo_frame_header_checksum_is_right() {
    let f = echo_request_frame();
    let mut sum: u32 = 0;
    for i in 0..10 {
        sum += ((f[14 + 2 * i] as u32) << 8) | f[15 + 2 * i] as u32;
        sum = (sum & 0xffff) + (sum >> 16);
    }
    assert_eq!(sum, 0xffff);
}

#[test]
fn short_frames() {
    assert_eq!(
        tx_frame_info(&[0u8; 10]),
        TxFrameInfo { ethertype: None, arp_opcode: None, ipv4_protocol: None, message_type: None }
    );
    let mut f = [0u8; 20];
    f[12] = 0x08;
    f[13] = 0x06;
    assert_eq!(
        tx_frame_info(&f),
        TxFrameInfo { ethertype: Some(0x0806), arp_opcode: None, ipv4_protocol: None, message_type: None }
    );
    let mut g = [0u8; 42];
    g[12] = 0x08;
    g[23] = 17;
    assert_eq!(
        tx_frame_info(&g),
        TxFrameInfo { ethertype: Some(0x0800), arp_opcode: None, ipv4_protocol: Some(17), message_type: None }
    );
}

#[test]
fn gpio_test_pin() {
    assert!(test_pin_triggered(true, 27));
    assert!(test_pin_triggered(true, 27 + 256));
    assert!(!test_pin_triggered(false, 27));
    assert!(!test_pin_triggered(true, 26));
}

#[test]
fn toggling_flips_the_level() {
    assert_eq!(toggle_request(19, 0), [19, 1]);
    assert_eq!(toggle_request(19, 1), [19, 0]);
    assert_eq!(toggle_request(21, 7), [21, 0]);
}

#[test]
fn injected_frames_byte_for_byte() {
    let arp: [u8; 42] = [
        0xff, 0xff, 0xff, 0xff, 0xff, 0xff, 0x02, 0x00, 0x00, 0x00, 0x00, 0x02, 0x08, 0x06, 0x00, 0x01, 0x08, 0x00,
        0x06, 0x04, 0x00, 0x01, 0x02, 0x00, 0x00, 0x00, 0x00, 0x02, 192, 168, 1, 10, 0x00, 0x00, 0x00, 0x00, 0x00,
        0x00, 192, 168, 1, 100,
    ];
    assert_eq!(arp_request_frame(), arp);
    let mut echo = [0u8; 60];
    echo[..42].copy_from_slice(&[
        0x02, 0x00, 0x00, 0x00, 0x00, 0x01, 0x02, 0x00, 0x00, 0x00, 0x00, 0x02, 0x08, 0x00, 0x45, 0x00, 0x00, 0x1c,
        0x12, 0x34, 0x00, 0x00, 64, 1, 0xe4, 0xee, 192, 168, 1, 10, 192, 168, 1, 100, 8, 0, 0xf7, 0xfd, 0x00, 0x01,
        0x00, 0x01,
    ]);
    assert_eq!(echo_request_frame(), echo);
}

#[test]
fn echo_message_checksum_is_right() {
    let f = echo_request_frame();
    let mut sum: u32 = 0;
    for i in 0..4 {
        sum += ((f[34 + 2 * i] as u32) << 8) | f[35 + 2 * i] as u32;
        sum = (sum & 0xffff) + (sum >> 16);
    }
    assert_eq!(sum, 0xffff);
}
