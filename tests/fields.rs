use uart16550::{
    CharLen, FifoControl, InterruptIdentification, InterruptTypes, LineControl, LineStatus,
    ModemControl, ModemStatus, PendingInterrupt, TriggerLevel, PARITY,
};

#[test]
fn line_status_flags_follow_their_bits() {
    let all = LineStatus(0xff);
    assert!(all.is_data_ready() && all.is_overrun_error() && all.is_parity_error());
    assert!(all.is_framing_error() && all.is_break_interrupt());
    assert!(all.is_transmitter_fifo_empty() && all.is_transmitter_empty());
    assert!(all.is_receiver_fifo_error());
    let none = LineStatus(0);
    assert!(!none.is_data_ready() && !none.is_transmitter_fifo_empty());
    assert!(!none.is_overrun_error() && !none.is_break_interrupt());
    assert!(LineStatus(0x01).is_data_ready());
    assert!(!LineStatus(0xfe).is_data_ready());
    assert!(LineStatus(0x20).is_transmitter_fifo_empty());
    assert!(!LineStatus(0x40).is_transmitter_fifo_empty());
    assert!(LineStatus(0x40).is_transmitter_empty());
    assert!(LineStatus(0x08).is_framing_error() && !LineStatus(0x08).is_parity_error());
}

#[test]
fn line_control_fields_round_trip() {
    let lc = LineControl(0)
        .set_char_len(CharLen::Eight)
        .set_parity(PARITY::Even)
        .set_two_stop_bits(true);
    assert_eq!(lc, LineControl(0x1f));
    assert_eq!(lc.char_len(), CharLen::Eight);
    assert_eq!(lc.parity(), PARITY::Even);
    assert!(lc.is_two_stop_bits());
    assert!(!lc.is_break_enabled());
    assert_eq!(LineControl(0xff).set_char_len(CharLen::Five), LineControl(0xfc));
    assert_eq!(LineControl(0x02).char_len(), CharLen::Seven);
    assert_eq!(LineControl(0x01).char_len(), CharLen::Six);
    assert_eq!(LineControl(0xff).set_parity(PARITY::Disabled), LineControl(0xc7));
    assert_eq!(LineControl(0x08).parity(), PARITY::Odd);
    assert_eq!(LineControl(0x28).parity(), PARITY::Mark);
    assert_eq!(LineControl(0x38).parity(), PARITY::Space);
    assert_eq!(LineControl(0x30).parity(), PARITY::Disabled);
    assert_eq!(LineControl(0x40).set_break(false), LineControl(0));
    assert!(LineControl(0).set_break(true).is_break_enabled());
}

#[test]
fn divisor_latch_access_bit_leaves_other_bits() {
    let lc = LineControl(0x1b);
    assert_eq!(lc.enable_dlr_access(), LineControl(0x9b));
    assert!(lc.enable_dlr_access().is_dlr_access_enabled());
    assert!(!lc.is_dlr_access_enabled());
    assert_eq!(LineControl(0xff).disable_dlr_access(), LineControl(0x7f));
    assert_eq!(lc.enable_dlr_access().disable_dlr_access(), lc);
}

#[test]
fn fifo_control_builds_its_byte() {
    let fc = FifoControl::zero()
        .set_fifo_enabled(true)
        .reset_rx_fifo()
        .reset_tx_fifo()
        .set_trigger_level(TriggerLevel::Bytes14);
    assert_eq!(fc, FifoControl(0xc7));
    assert_eq!(fc.set_trigger_level(TriggerLevel::Bytes4), FifoControl(0x47));
    assert_eq!(fc.set_trigger_level(TriggerLevel::Bytes1), FifoControl(0x07));
    assert_eq!(FifoControl(0x3f).set_trigger_level(TriggerLevel::Bytes8), FifoControl(0xbf));
    assert_eq!(FifoControl(0x09).set_dma_mode(false).set_fifo_enabled(false), FifoControl(0));
    assert_eq!(FifoControl(0).set_dma_mode(true), FifoControl(0x08));
}

#[test]
fn interrupt_identification_decodes_causes() {
    assert!(!InterruptIdentification(0x01).is_interrupt_pending());
    assert_eq!(InterruptIdentification(0x01).pending_interrupt(), None);
    assert_eq!(
        InterruptIdentification(0xc6).pending_interrupt(),
        Some(PendingInterrupt::ReceiverLineStatus)
    );
    assert_eq!(
        InterruptIdentification(0x04).pending_interrupt(),
        Some(PendingInterrupt::ReceivedDataAvailable)
    );
    assert_eq!(InterruptIdentification(0x0c).pending_interrupt(), Some(PendingInterrupt::Timeout));
    assert_eq!(
        InterruptIdentification(0x02).pending_interrupt(),
        Some(PendingInterrupt::TransmitterHoldingRegisterEmpty)
    );
    assert_eq!(InterruptIdentification(0x00).pending_interrupt(), Some(PendingInterrupt::ModemStatus));
    assert_eq!(InterruptIdentification(0x08).pending_interrupt(), None);
    assert!(InterruptIdentification(0xc1).is_fifo_enabled());
    assert!(!InterruptIdentification(0x81).is_fifo_enabled());
}

#[test]
fn interrupt_enables_toggle_single_bits() {
    let ie = InterruptTypes::zero().set_rda(true).set_ms(true);
    assert_eq!(ie, InterruptTypes(0x09));
    assert!(ie.rda() && ie.ms() && !ie.thre() && !ie.rls());
    let ie = ie.set_thre(true).set_rls(true).set_rda(false);
    assert_eq!(ie, InterruptTypes(0x0e));
    assert!(ie.thre() && ie.rls() && !ie.rda());
    assert_eq!(InterruptTypes(0xff).set_ms(false), InterruptTypes(0xf7));
}

#[test]
fn modem_registers_hold_raw_bytes() {
    assert_eq!(ModemControl(0x0b).0, 0x0b);
    assert_eq!(ModemStatus(0xb0).0, 0xb0);
    assert_eq!(ModemControl::default(), ModemControl(0));
}
