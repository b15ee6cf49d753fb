use minirtos::drivers::wlan::cyw43::pio_ctrl::{transfer_kind, tx_plan, PioCtrl, TransferKind};
use minirtos::error::DevError;

#[test]
fn forced_instructions() {
    let c = PioCtrl::new();
    assert_eq!(c.sm_index(), 1);
    assert_eq!(c.stall_mask(), 0);
    assert_eq!(c.exec_out_x_32(), 0x6020);
    assert_eq!(c.exec_out_y_32(), 0x6040);
    assert_eq!(c.exec_mov_pins_null(), 0xa003);
    assert_eq!(c.exec_jmp_start(), 0);
}

#[test]
fn loaded_program() {
    let mut c = PioCtrl::new();
    c.load_program(0, 5);
    assert_eq!(c.sm_index(), 0);
    assert_eq!(c.program_offset(), 5);
    assert_eq!(c.stall_mask(), 1);
    assert_eq!(c.exec_jmp_start(), 5);
    assert_eq!(c.wrap_tx_only(), (5, 6));
    assert_eq!(c.wrap_tx_rx(), (5, 10));
    assert!(c.is_idle(1));
    assert!(c.is_idle(0xff));
    assert!(!c.is_idle(2));
    c.load_program(3, 12);
    assert_eq!(c.stall_mask(), 8);
    assert_eq!(c.exec_jmp_start(), 12);
    assert!(c.is_idle(8));
    assert!(!c.is_idle(1));
}

#[test]
fn transfer_kinds() {
    assert_eq!(transfer_kind(4, 0), TransferKind::TxOnly);
    assert_eq!(transfer_kind(4, 4), TransferKind::TxRx);
    assert_eq!(transfer_kind(0, 4), TransferKind::RxOnly);
}

#[test]
fn transmit_plan() {
    assert_eq!(tx_plan(&[], 0), Err(DevError::InvalidArg));
    assert_eq!(tx_plan(&[1, 2, 3], 0), Err(DevError::InvalidArg));
    assert_eq!(tx_plan(&[1, 2, 3, 4, 5], 0), Err(DevError::InvalidArg));
    assert_eq!(tx_plan(&[1, 2, 3, 4, 5, 6, 7, 8], 0x2000_0000), Ok((63, vec![0x0102_0304, 0x0506_0708])));
    assert_eq!(tx_plan(&[0xaa, 0xbb, 0xcc, 0xdd], 4), Ok((31, vec![0xaabb_ccdd])));
    assert_eq!(tx_plan(&[0xaa, 0xbb, 0xcc, 0xdd], 0x2000_0002), Err(DevError::InvalidArg));
}
