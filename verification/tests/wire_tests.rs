use minirtos::drivers::dma::DmaChannles;
use minirtos::drivers::{delay_ms_cycles, delay_ns_loops};
use minirtos::wire::{fill_bytes, get_be32, get_le16, get_le32, put_bytes, put_le16, put_le32};

#[test]
fn little_endian_round_trip() {
    let mut b = vec![0u8; 8];
    put_le32(&mut b, 2, 0xdead_beef);
    assert_eq!(b, vec![0, 0, 0xef, 0xbe, 0xad, 0xde, 0, 0]);
    assert_eq!(get_le32(&b, 2), 0xdead_beef);
    put_le16(&mut b, 6, 0x1234);
    assert_eq!(get_le16(&b, 6), 0x1234);
    assert_eq!(&b[6..8], &[0x34, 0x12]);
    assert_eq!(get_be32(&b, 2), 0xefbe_adde);
}

#[test]
fn byte_writes() {
    let mut b = vec![9u8; 6];
    put_bytes(&mut b, 1, &[1, 2, 3]);
    assert_eq!(b, vec![9, 1, 2, 3, 9, 9]);
    fill_bytes(&mut b, 3, 3, 0);
    assert_eq!(b, vec![9, 1, 2, 0, 0, 0]);
    put_bytes(&mut b, 6, &[]);
    assert_eq!(b.len(), 6);
}

#[test]
fn delays() {
    assert_eq!(delay_ms_cycles(10), 1_000_000);
    assert_eq!(delay_ms_cycles(50_000), u32::MAX);
    assert_eq!(delay_ns_loops(0), 1);
    assert_eq!(delay_ns_loops(100), 10);
    assert_eq!(delay_ns_loops(101), 11);
}

#[test]
fn dma_channel_numbers() {
    assert_eq!(DmaChannles::Spi0Tx.number(), 0);
    assert_eq!(DmaChannles::Spi1Rx.number(), 3);
}
