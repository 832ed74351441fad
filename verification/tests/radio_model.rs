use esp32multical21::radio::{
    accept_packet, fifo_burst_frame, fifo_count, fifo_payload, init_actions, init_register_values,
    marc_state, read_register_frame, read_status_frame, strobe_frame, wait_outcome_action,
    write_register_frame, ArmPhase, LoopAction, RadioAction, ReceiverArming, WaitOutcome, MARCSTATE,
    MARC_IDLE, MARC_RX, SCAL, SFRX, SIDLE, SRES, SRX,
};

#[test]
fn bus_transaction_frames() {
    assert_eq!(write_register_frame(0x04, 0x54), [0x04, 0x54]);
    assert_eq!(read_register_frame(0x35), [0xB5, 0x00]);
    assert_eq!(read_status_frame(0x35), [0xF5, 0x00]);
    assert_eq!(strobe_frame(SIDLE), [0x36]);
    assert_eq!(fifo_burst_frame(3), [0xFF, 0x00, 0x00, 0x00]);
    assert_eq!(fifo_payload(&[0x0F, 0xAA, 0xBB]), [0xAA, 0xBB]);
}

#[test]
fn register_image_holds_sync_word_and_packet_length() {
    let regs = init_register_values();
    assert_eq!(regs.len(), 38);
    assert_eq!(regs[3], (0x04, 0x54)); // SYNC1
    assert_eq!(regs[4], (0x05, 0x3D)); // SYNC0
    assert_eq!(regs[5], (0x06, 0x30)); // PKTLEN: 48 bytes
    assert!(regs.contains(&(0x0D, 0x21))); // FREQ2 of the carrier setting
    assert!(regs.contains(&(0x15, 0x44))); // DEVIATN
}

#[test]
fn init_plan_resets_configures_calibrates_identifies() {
    let plan = init_actions();
    assert_eq!(plan.len(), 2 + 38 + 4);
    assert_eq!(plan[0], RadioAction::Strobe(SRES));
    assert_eq!(plan[1], RadioAction::DelayMs(100));
    assert_eq!(plan[2], RadioAction::WriteRegister(0x03, 0x01));
    assert_eq!(plan[plan.len() - 4], RadioAction::Strobe(SCAL));
    assert_eq!(plan[plan.len() - 3], RadioAction::DelayMs(100));
    assert_eq!(plan[plan.len() - 2], RadioAction::ReadStatus(0x30));
    assert_eq!(plan[plan.len() - 1], RadioAction::ReadStatus(0x31));
}

#[test]
fn status_byte_fields() {
    assert_eq!(marc_state(0xED), 0x0D);
    assert_eq!(marc_state(0x01), MARC_IDLE);
    assert_eq!(fifo_count(0x80), 0);
    assert_eq!(fifo_count(0x95), 0x15);
}

#[test]
fn arming_walks_idle_flush_rx() {
    let mut s = ReceiverArming::begin();
    assert_eq!(s.action(), Some(RadioAction::Strobe(SIDLE)));
    s.advance(0);
    assert_eq!(s.phase, ArmPhase::AwaitIdle);
    assert_eq!(s.action(), Some(RadioAction::ReadStatus(MARCSTATE)));
    s.advance(0x1F); // not idle yet: retry
    assert_eq!(s.phase, ArmPhase::AwaitIdle);
    s.advance(MARC_IDLE);
    assert_eq!(s.phase, ArmPhase::FlushFifo);
    assert_eq!(s.action(), Some(RadioAction::Strobe(SFRX)));
    s.advance(0);
    assert_eq!(s.phase, ArmPhase::StartRx);
    assert_eq!(s.action(), Some(RadioAction::Strobe(SRX)));
    s.advance(0);
    assert_eq!(s.phase, ArmPhase::AwaitRx);
    s.advance(MARC_RX);
    assert_eq!(s.phase, ArmPhase::Armed);
    assert_eq!(s.action(), None);
}

#[test]
fn arming_proceeds_after_poll_budget() {
    let mut s = ReceiverArming::begin();
    s.advance(0);
    assert_eq!(s.phase, ArmPhase::AwaitIdle);
    let mut polls = 0;
    while s.phase == ArmPhase::AwaitIdle {
        s.advance(0xFF); // never reports idle
        polls += 1;
        assert!(polls <= 36, "arming must not poll forever");
    }
    assert_eq!(s.phase, ArmPhase::FlushFifo);
    assert_eq!(polls, 36);
}

#[test]
fn accept_packet_checks_and_strips_sync() {
    assert_eq!(accept_packet(&[0x54, 0x3D, 0xAB, 0xCD]), Some(vec![0xAB, 0xCD]));
    assert_eq!(accept_packet(&[0x54, 0x3D, 0x1E]), Some(vec![0x1E]));
    assert_eq!(accept_packet(&[0x54, 0x3D]), None);
    assert_eq!(accept_packet(&[]), None);
    assert_eq!(accept_packet(&[0x55, 0x3D, 0x00]), None);
    assert_eq!(accept_packet(&[0x54, 0x3C, 0x00]), None);
}

#[test]
fn watchdog_timeout_forces_restart() {
    let a = wait_outcome_action(WaitOutcome::TimedOut);
    assert!(matches!(a, LoopAction::Restart));
}

#[test]
fn received_packet_goes_to_decoder_unchanged() {
    let a = wait_outcome_action(WaitOutcome::Packet(vec![1, 2, 3]));
    match a {
        LoopAction::Decode(p) => assert_eq!(p, vec![1, 2, 3]),
        LoopAction::Restart => panic!("a packet must not restart the radio"),
    }
}
