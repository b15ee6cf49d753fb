use minirtos::drivers::wlan::cyw43::bus::{decode_spi_status, spi_interrupt_decision, CoreId, Cyw43Bus, Func, RegWrite, StatusDecision};
use minirtos::drivers::wlan::cyw43::country::{cyw43_country, cyw43_country_usa, cyw43_country_worldwide};
use minirtos::drivers::wlan::cyw43::fw::{
    check_valid_chipset_firmware, clm_chunk, core_in_reset, core_reset_ioctrl, core_up_check, nvram_address,
    nvram_size_word, resource_chunk, resource_len_check, ResourceChunk,
};
use minirtos::drivers::wlan::cyw43::ioctl::is_ioctl_packet_ok;
use minirtos::drivers::wlan::cyw43::payload::gpio_out_words;
use minirtos::drivers::wlan::cyw43::sdpcm::{Interface, PollStep, SdpcmPacket, CONTROL_HEADER, DATA_HEADER};
use minirtos::drivers::wlan::cyw43::{align_up, combine_ticks, startup_wait_us, Cyw43Inner, WifiAuth, WifiState};
use minirtos::error::DevError;
use minirtos::drivers::wlan::cyw43::fw::clm_plan;
use minirtos::drivers::wlan::cyw43::wait::{
    elapsed, ioctl_wait_open, retry_step, send_wait_expired, Retry, F2_READY_ATTEMPTS, STATUS_READ_ATTEMPTS,
};

#[test]
fn status_words() {
    assert_eq!(decode_spi_status(0xffff_ffff), StatusDecision::NoResponse);
    assert_eq!(decode_spi_status(0), StatusDecision::NoPacket);
    assert_eq!(decode_spi_status(0x100), StatusDecision::Invalid);
    assert_eq!(decode_spi_status((100 << 9) | 0x100), StatusDecision::Read { len: 100, xfer_len: 104 });
    assert_eq!(decode_spi_status((101 << 9) | 0x100), StatusDecision::Read { len: 101, xfer_len: 108 });
    assert_eq!(decode_spi_status((100 << 9) | 0x102), StatusDecision::Invalid);
    assert_eq!(decode_spi_status((1537 << 9) | 0x100), StatusDecision::Invalid);
    assert_eq!(decode_spi_status((1536 << 9) | 0x100), StatusDecision::Read { len: 1536, xfer_len: 1540 });
    assert_eq!(spi_interrupt_decision(0x20), (true, true));
    assert_eq!(spi_interrupt_decision(0x01), (true, false));
    assert_eq!(spi_interrupt_decision(0), (false, false));
}

#[test]
fn command_words_and_swaps() {
    assert_eq!(Cyw43Bus::make_cmd(false, true, Func::Backplane, 0x1000a, 1), 0x5800_5001);
    assert_eq!(Cyw43Bus::make_cmd(true, true, Func::Bus, 0x18, 4), 0xc000_c004);
    assert_eq!(Cyw43Bus::swap16x2(0x1122_3344), 0x2211_4433);
    assert_eq!(Cyw43Bus::swap16x2(Cyw43Bus::swap16x2(0xdead_beef)), 0xdead_beef);
    assert_eq!(Cyw43Bus::swap_read_cmd(Func::Bus, 0x14), vec![0xa0, 0x04, 0x40, 0x00]);
    let rx = vec![0, 0, 0, 0, 0xbe, 0xad, 0xfe, 0xed];
    let v = Cyw43Bus::swap_read_result(&rx);
    assert_eq!(v, 0xfeed_bead);
    assert!(Cyw43Bus::is_alive(v));
    assert!(!Cyw43Bus::is_alive(0xedfe_adbe));
    assert_eq!(Func::Wlan.number(), 2);
}

#[test]
fn register_frames() {
    assert_eq!(
        Cyw43Bus::write_reg_frame(Func::Bus, 0x18, 0xaabb_ccdd, 4),
        Ok(vec![0x04, 0xc0, 0x00, 0xc0, 0xdd, 0xcc, 0xbb, 0xaa])
    );
    assert_eq!(Cyw43Bus::write_reg_frame(Func::Bus, 0x18, 0xaabb_ccdd, 3), Err(DevError::InvalidArg));
    assert_eq!(Cyw43Bus::read_reg_layout(Func::Backplane), (16, 5));
    assert_eq!(Cyw43Bus::read_reg_layout(Func::Bus), (0, 1));
    assert_eq!(Cyw43Bus::write_bytes_check(Func::Wlan, 10), Ok(12));
    assert_eq!(Cyw43Bus::write_bytes_check(Func::Wlan, 0), Err(DevError::InvalidArg));
    assert_eq!(Cyw43Bus::write_bytes_check(Func::Backplane, 65), Err(DevError::InvalidArg));
    assert_eq!(Cyw43Bus::write_bytes_check(Func::Backplane, 64), Ok(64));
    assert_eq!(Cyw43Bus::write_bytes_check(Func::Wlan, 0x7f9), Err(DevError::InvalidArg));
}

#[test]
fn start_up_words_and_clock_flags() {
    assert_eq!(Cyw43Bus::bus_control_word(), 0x0002_04b3);
    assert_eq!(Cyw43Bus::enabled_interrupts(), 0x00be);
    assert_eq!(Cyw43Bus::error_interrupts(), 0x99);
    assert!(Cyw43Bus::alp_available(0x40) && !Cyw43Bus::alp_available(0x80));
    assert!(Cyw43Bus::ht_available(0x80) && !Cyw43Bus::ht_available(0x40));
    assert!(Cyw43Bus::f2_rx_ready(0x20) && !Cyw43Bus::f2_rx_ready(0x10));
    assert!(Cyw43Bus::needs_data_unavailable_clear(1) && !Cyw43Bus::needs_data_unavailable_clear(2));
}

#[test]
fn backplane_window() {
    let mut b = Cyw43Bus::new();
    assert_eq!(
        b.backplane_window_writes(0x1810_3000),
        vec![RegWrite { addr: 0x1000c, value: 0x18 }, RegWrite { addr: 0x1000b, value: 0x10 }]
    );
    b.commit_backplane_window(0x1810_3000);
    assert_eq!(b.cur_backplane_window, 0x1810_0000);
    assert!(b.backplane_window_writes(0x1810_4000).is_empty());
    assert_eq!(b.backplane_window_writes(0x1810_8000), vec![RegWrite { addr: 0x1000a, value: 0x80 }]);
    assert_eq!(Cyw43Bus::backplane_local_addr(0x1810_3000), 0xb000);
    assert_eq!(Cyw43Bus::backplane_read_value(0x1234, 1), Ok(0x34));
    assert_eq!(Cyw43Bus::backplane_read_value(0x1234, 4), Ok(0x1234));
    assert_eq!(Cyw43Bus::backplane_read_value(0x1234, 2), Err(DevError::InvalidArg));
    assert_eq!(Cyw43Bus::backplane_write_check(2), Err(DevError::InvalidArg));
    assert_eq!(Cyw43Bus::backplane_write_check(4), Ok(()));
    assert_eq!(b.get_core_address(CoreId::WlanArm), 0x1810_3000);
    assert_eq!(b.get_core_address(CoreId::Socram), 0x1810_4000);
}

#[test]
fn countries_and_security() {
    assert_eq!(cyw43_country(b'X', b'X', 0), 0x5858);
    assert_eq!(cyw43_country(b'U', b'S', 1), 0x0001_5355);
    assert_eq!(cyw43_country_worldwide(), 0x5858);
    assert_eq!(cyw43_country_usa(), 0x5355);
    assert_eq!(WifiAuth::Open.as_u32(), 0);
    assert_eq!(WifiAuth::Wpa2AesPsk.as_u32(), 0x0040_0004);
    assert_eq!(WifiAuth::Wpa3SaeAesPsk.as_u32(), 0x0100_0004);
}

fn firmware(with_tag: bool) -> Vec<u8> {
    let mut fw = vec![0u8; 1000];
    // trailer of the last 800 bytes: zero byte at 981, length 200 after it
    fw[982] = 200;
    fw[983] = 0;
    if with_tag {
        fw[881..890].copy_from_slice(b"Version: ");
    }
    fw
}

#[test]
fn firmware_images() {
    assert_eq!(check_valid_chipset_firmware(&firmware(true), 1000), Ok(()));
    assert_eq!(check_valid_chipset_firmware(&firmware(false), 1000), Err(DevError::Io));
    assert_eq!(check_valid_chipset_firmware(&firmware(true), 700), Err(DevError::InvalidArg));
    assert_eq!(check_valid_chipset_firmware(&firmware(true), 1001), Err(DevError::InvalidArg));
    assert_eq!(resource_len_check(8), Ok(()));
    assert_eq!(resource_len_check(6), Err(DevError::InvalidArg));
}

#[test]
fn resource_chunks_stay_inside_the_window() {
    assert_eq!(
        resource_chunk(0, 0, 200),
        Ok(ResourceChunk { dest_addr: 0, local_addr: 0x8000, start: 0, end: 64 })
    );
    assert_eq!(
        resource_chunk(0x100, 192, 200),
        Ok(ResourceChunk { dest_addr: 0x1c0, local_addr: 0x81c0, start: 192, end: 200 })
    );
    assert_eq!(resource_chunk(0x7ff0, 0, 200), Err(DevError::InvalidArg));
}

#[test]
fn nvram_and_clm() {
    assert_eq!(nvram_address(100), 524_184);
    assert_eq!(nvram_size_word(400), 4_288_348_260);
    assert_eq!(clm_chunk(0, 2500), (1024, 0x1002));
    assert_eq!(clm_chunk(1024, 2500), (1024, 0x1000));
    assert_eq!(clm_chunk(2048, 2500), (452, 0x1004));
    assert_eq!(clm_chunk(0, 100), (100, 0x1006));
    assert!(core_in_reset(1) && !core_in_reset(2));
    assert_eq!(core_up_check(1, 0), Ok(()));
    assert_eq!(core_up_check(3, 0), Err(DevError::Io));
    assert_eq!(core_up_check(1, 1), Err(DevError::Io));
    assert_eq!(core_reset_ioctrl(true), (0x23, 0x21));
    assert_eq!(core_reset_ioctrl(false), (0x3, 0x1));
}

#[test]
fn small_helpers() {
    assert_eq!(align_up(13, 4), 16);
    assert_eq!(align_up(16, 4), 16);
    assert_eq!(align_up(0, 8), 0);
    assert_eq!(combine_ticks(1, 5, 1), Some((1u64 << 32) + 5));
    assert_eq!(combine_ticks(1, 5, 2), None);
    assert_eq!(startup_wait_us(50_000), 100_000);
    assert_eq!(startup_wait_us(200_000), 0);
}

#[test]
fn sdpcm_headers_take_sequence_numbers() {
    let mut w = Cyw43Inner::new();
    assert_eq!(w.sdpcm_write_header(CONTROL_HEADER, 20), Ok(32));
    assert_eq!(w.buf_bytes(0, 12), vec![32, 0, 0xdf, 0xff, 0, 0, 0, 12, 0, 0, 0, 0]);
    assert_eq!(w.sdpcm_write_header(DATA_HEADER, 3), Ok(16));
    assert_eq!(w.buf_bytes(0, 12), vec![15, 0, 0xf0, 0xff, 1, 2, 0, 14, 0, 0, 0, 0]);
    assert_eq!(w.sdpcm_write_header(DATA_HEADER, 2040), Err(DevError::InvalidArg));
}

fn frame(channel: u8, credit: u8, body: &[u8]) -> Vec<u8> {
    let size = (12 + body.len()) as u16;
    let mut f = vec![0u8; 12];
    f[0..2].copy_from_slice(&size.to_le_bytes());
    f[2..4].copy_from_slice(&(!size).to_le_bytes());
    f[5] = channel;
    f[7] = 12;
    f[9] = credit;
    f.extend_from_slice(body);
    f
}

#[test]
fn received_frames() {
    let mut w = Cyw43Inner::new();
    // control frame answering ioctl 0, status 0, four payload bytes
    let mut body = vec![0u8; 16];
    body.extend_from_slice(&[1, 2, 3, 4]);
    w.load_rx(&frame(0, 5, &body));
    assert_eq!(w.sdpcm_process_rx_packet(32), Ok(SdpcmPacket::Control { offset: 28, len: 4, status: 0 }));
    assert!(!w.needs_tx_credit());
    // data frame: BDC header, interface 1, no extra words, 20 bytes
    let mut data = vec![0u8, 0, 1, 0];
    data.extend_from_slice(&[7u8; 20]);
    w.load_rx(&frame(2, 6, &data));
    let pkt = w.sdpcm_process_rx_packet(36).unwrap();
    assert_eq!(pkt, SdpcmPacket::Data { offset: 16, len: 20, interface: Interface::AP });
    assert_eq!(w.poll_step(pkt), Ok(PollStep::Rx));
    assert_eq!(w.handle_data_packet(16, 20, Interface::AP), Some((16, 20)));
    assert_eq!(w.handle_data_packet(16, 13, Interface::AP), None);
    // async event frame
    w.load_rx(&frame(1, 6, &[0u8; 40]));
    assert_eq!(w.sdpcm_process_rx_packet(52), Ok(SdpcmPacket::AsyncEvent { offset: 12, len: 40 }));
    // a header whose length and complement disagree
    let mut bad = frame(0, 9, &body);
    bad[2] = 0;
    w.load_rx(&bad);
    assert_eq!(w.sdpcm_process_rx_packet(32), Ok(SdpcmPacket::Nothing));
    assert_eq!(w.poll_step(SdpcmPacket::Nothing), Ok(PollStep::Idle));
}

#[test]
fn ioctl_payloads() {
    let mut w = Cyw43Inner::new();
    assert_eq!(w.ioctl_u32_payload(0x1122_3344), 4);
    assert_eq!(w.buf_bytes(28, 4), vec![0x44, 0x33, 0x22, 0x11]);
    assert_eq!(w.ioctl_u32_answer(), 0x1122_3344);
    assert_eq!(w.ioctl_u32_query_payload(), 4);
    assert_eq!(w.ioctl_u32_answer(), 0);
    assert_eq!(w.iovar_n_payload("bus:txglom", &[1, 2]), 13);
    assert_eq!(w.buf_bytes(28, 13), b"bus:txglom\0\x01\x02".to_vec());
    assert_eq!(w.iovar_u32s_payload("ampdu_ba_wsize", &[8]), 19);
    assert_eq!(w.buf_bytes(28 + 15, 4), vec![8, 0, 0, 0]);
    assert_eq!(w.ssid_payload("home"), Ok(36));
    let mut expected = vec![4u8, 0, 0, 0];
    expected.extend_from_slice(b"home");
    expected.extend_from_slice(&[0u8; 28]);
    assert_eq!(w.buf_bytes(28, 36), expected);
    assert_eq!(w.ssid_payload(&"s".repeat(33)), Err(DevError::InvalidArg));
    assert_eq!(w.country_payload(0x5858), 20);
    let mut c = b"country\0".to_vec();
    c.extend_from_slice(&[0x58, 0x58, 0, 0, 0xff, 0xff, 0xff, 0xff, 0x58, 0x58, 0, 0]);
    assert_eq!(w.buf_bytes(28, 20), c);
    assert_eq!(w.event_msgs_payload(), 41);
    assert_eq!(w.buf_bytes(28, 18), b"bsscfg:event_msgs\0".to_vec());
    assert_eq!(w.escan_payload(), 82);
    assert_eq!(w.buf_bytes(28, 6), b"escan\0".to_vec());
}

fn event(kind: u32, status: u32, bssid: [u8; 6], channel: u8) -> Vec<u8> {
    // the event record starts 32 bytes into the payload, which starts at 12
    let mut f = vec![0u8; 12 + 172];
    let rec = 12 + 32;
    f[rec + 4..rec + 8].copy_from_slice(&kind.to_be_bytes());
    f[rec + 8..rec + 12].copy_from_slice(&status.to_be_bytes());
    f[rec + 68..rec + 74].copy_from_slice(&bssid);
    f[rec + 78] = 4;
    f[rec + 79..rec + 83].copy_from_slice(b"home");
    f[rec + 132] = channel;
    f[rec + 138..rec + 140].copy_from_slice(&(-50i16).to_le_bytes());
    f
}

#[test]
fn scans_list_each_access_point_once() {
    let mut w = Cyw43Inner::new();
    w.scan_started();
    assert!(w.scan_in_progress());
    w.load_rx(&event(69, 8, [1, 2, 3, 4, 5, 6], 6));
    assert_eq!(w.handle_async_event(12, 172), Ok(()));
    assert_eq!(w.handle_async_event(12, 172), Ok(()));
    let r = w.scan_results();
    assert_eq!(r.len(), 1);
    assert_eq!(r[0].ssid_len, 4);
    assert_eq!(&r[0].ssid[..4], b"home");
    assert_eq!(r[0].bssid, [1, 2, 3, 4, 5, 6]);
    assert_eq!(r[0].channel, 6);
    assert_eq!(r[0].rssi, -50);
    w.load_rx(&event(69, 8, [1, 2, 3, 4, 5, 6], 11));
    w.handle_async_event(12, 172).unwrap();
    assert_eq!(w.scan_results().len(), 2);
    w.load_rx(&event(69, 0, [0; 6], 0));
    w.handle_async_event(12, 172).unwrap();
    assert!(w.scan_done());
    assert!(!w.scan_in_progress());
}

#[test]
fn link_events() {
    let mut w = Cyw43Inner::new();
    assert_eq!(w.get_state(), WifiState::Down);
    w.load_rx(&event(0, 0, [0; 6], 0));
    w.handle_async_event(12, 172).unwrap();
    assert_eq!(w.get_state(), WifiState::Connected);
    w.load_rx(&event(11, 0, [0; 6], 0));
    w.handle_async_event(12, 172).unwrap();
    assert_eq!(w.get_state(), WifiState::Down);
    w.load_rx(&event(0, 1, [0; 6], 0));
    w.handle_async_event(12, 172).unwrap();
    assert_eq!(w.get_state(), WifiState::ConnectFailed);
}

#[test]
fn frame_and_packet_guards() {
    let mut w = Cyw43Inner::new();
    w.load_rx(&frame(1, 0, &[0u8; 40]));
    assert!(w.rx_frame_ok());
    let mut f = frame(1, 0, &[0u8; 4]);
    f[7] = 40;
    w.load_rx(&f);
    assert!(!w.rx_frame_ok());
    let mut g = frame(0, 0, &[0u8; 4]);
    g[7] = 40;
    w.load_rx(&g);
    assert!(w.rx_frame_ok());
    assert!(is_ioctl_packet_ok(SdpcmPacket::Control { offset: 28, len: 4, status: 0 }, 28, 4));
    assert!(!is_ioctl_packet_ok(SdpcmPacket::Control { offset: 2046, len: 4, status: 0 }, 28, 4));
    assert!(is_ioctl_packet_ok(SdpcmPacket::Control { offset: 2046, len: 4, status: 1 }, 28, 4));
    assert!(is_ioctl_packet_ok(SdpcmPacket::Control { offset: 2046, len: 4, status: 0 }, 28, 2));
    assert!(is_ioctl_packet_ok(SdpcmPacket::Nothing, 28, 4));
    assert!(!is_ioctl_packet_ok(SdpcmPacket::Data { offset: 2040, len: 20, interface: Interface::STA }, 28, 4));
}

#[test]
fn radio_gpio_words() {
    assert_eq!(gpio_out_words(0, true), Ok((1, 1)));
    assert_eq!(gpio_out_words(1, false), Ok((2, 0)));
    assert_eq!(gpio_out_words(2, true), Ok((4, 4)));
    assert_eq!(gpio_out_words(3, true), Err(DevError::InvalidArg));
}

#[test]
fn clm_status_word() {
    let mut inner = Cyw43Inner::new();
    let mut frame = vec![0u8; 32];
    inner.load_rx(&frame);
    assert_eq!(inner.clm_status_check(), Ok(()));
    frame[29] = 1;
    inner.load_rx(&frame);
    assert_eq!(inner.clm_status_check(), Err(DevError::InvalidArg));
}

#[test]
fn startup_time_kept() {
    let mut inner = Cyw43Inner::new();
    assert_eq!(inner.startup_t0(), 0);
    inner.set_startup_time(1234);
    assert_eq!(inner.startup_t0(), 1234);
    inner.scan_started();
    assert_eq!(inner.startup_t0(), 1234);
}

#[test]
fn block_frames() {
    let cmd = Cyw43Bus::make_cmd(false, true, Func::Backplane, 0x8000, 5).to_le_bytes();
    let mut buf = vec![0xeeu8; 100];
    assert_eq!(Cyw43Bus::read_block_frame(Func::Backplane, 0x8000, 5, &mut buf), Ok(28));
    assert_eq!(&buf[..4], &cmd);
    assert!(buf[4..28].iter().all(|b| *b == 0));
    assert!(buf[28..].iter().all(|b| *b == 0xee));

    let mut short = vec![0xeeu8; 27];
    assert_eq!(Cyw43Bus::read_block_frame(Func::Backplane, 0x8000, 5, &mut short), Err(DevError::InvalidArg));
    assert_eq!(short, vec![0xeeu8; 27]);

    let mut wlan = vec![0u8; 12];
    assert_eq!(Cyw43Bus::read_block_frame(Func::Wlan, 0, 8, &mut wlan), Ok(12));

    // after the transfer: command, 16 dummy bytes, then the data
    let mut rx: Vec<u8> = (0u8..28).collect();
    assert_eq!(Cyw43Bus::read_block_payload(Func::Backplane, 5, &mut rx), 5);
    assert_eq!(&rx[..5], &[20, 21, 22, 23, 24]);
    assert_eq!(&rx[5..], &(5u8..28).collect::<Vec<u8>>()[..]);
    let mut rx2: Vec<u8> = (0u8..12).collect();
    assert_eq!(Cyw43Bus::read_block_payload(Func::Wlan, 6, &mut rx2), 6);
    assert_eq!(&rx2[..6], &[4, 5, 6, 7, 8, 9]);

    let wcmd = Cyw43Bus::make_cmd(true, true, Func::Wlan, 0, 6).to_le_bytes();
    let f = Cyw43Bus::write_block_frame(Func::Wlan, 0, &[1, 2, 3, 4, 5, 6]).unwrap();
    assert_eq!(&f[..4], &wcmd);
    assert_eq!(&f[4..], &[1, 2, 3, 4, 5, 6, 0, 0]);
    assert_eq!(Cyw43Bus::write_block_frame(Func::Wlan, 0, &[]), Err(DevError::InvalidArg));
    assert_eq!(Cyw43Bus::write_block_frame(Func::Backplane, 0, &[0; 65]), Err(DevError::InvalidArg));
    assert_eq!(Cyw43Bus::write_block_frame(Func::Backplane, 0, &[7; 64]).unwrap().len(), 68);
}

#[test]
fn waits_and_retries() {
    assert_eq!(retry_step(true, 1000, F2_READY_ATTEMPTS), Retry::Done);
    assert_eq!(retry_step(false, 999, F2_READY_ATTEMPTS), Retry::Again);
    assert_eq!(retry_step(false, 1000, F2_READY_ATTEMPTS), Retry::GiveUp);
    assert_eq!(STATUS_READ_ATTEMPTS, 1000);
    assert_eq!(elapsed(10, 25), 15);
    assert_eq!(elapsed(u64::MAX - 4, 5), 10);
    assert!(!send_wait_expired(0, 1_000_000));
    assert!(send_wait_expired(0, 1_000_001));
    assert!(send_wait_expired(u64::MAX, 1_000_000));
    assert!(ioctl_wait_open(100, 500_099));
    assert!(!ioctl_wait_open(100, 500_100));
}

#[test]
fn clm_chunk_plan() {
    assert_eq!(clm_plan(0), vec![]);
    assert_eq!(clm_plan(100), vec![(0, 100, 0x1006)]);
    assert_eq!(clm_plan(1024), vec![(0, 1024, 0x1006)]);
    assert_eq!(clm_plan(2500), vec![(0, 1024, 0x1002), (1024, 1024, 0x1000), (2048, 452, 0x1004)]);
}

#[test]
fn scan_request_skipped_while_scanning() {
    let mut inner = Cyw43Inner::new();
    assert_eq!(inner.escan_request(), Some(82));
    inner.scan_started();
    assert_eq!(inner.escan_request(), None);
}

#[test]
fn scan_results_into_caller_list() {
    let mut w = Cyw43Inner::new();
    w.scan_started();
    w.load_rx(&event(69, 8, [1, 2, 3, 4, 5, 6], 6));
    w.handle_async_event(12, 172).unwrap();
    w.load_rx(&event(69, 8, [9, 9, 9, 9, 9, 9], 1));
    w.handle_async_event(12, 172).unwrap();
    let mut res: heapless::Vec<minirtos::drivers::wlan::cyw43::ScanResult, 32> = heapless::Vec::new();
    let stale = w.scan_results()[1];
    res.push(stale).unwrap();
    res.push(stale).unwrap();
    res.push(stale).unwrap();
    w.wifi_scan_results(&mut res);
    assert_eq!(res.len(), 2);
    assert_eq!(res[0].bssid, [1, 2, 3, 4, 5, 6]);
    assert_eq!(res[1].bssid, [9, 9, 9, 9, 9, 9]);
}
