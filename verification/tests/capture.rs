use cynthion::engine::{Engine, EngineAction, EngineEvent, LoopError, UsbFault, NUM_TRANSFERS};
use cynthion::probe::{
    check_alt_setting, is_analyzer_device, usable_speed_list, AltSettingVerdict,
};
use cynthion::session::{combine_final, stop_verdict, CaptureError, StopError, WorkerOutcome};
use cynthion::speed::{speeds_from_mask, Speed};
use cynthion::state::{speeds_request, state_request, valid_speeds_response_len, State};
use cynthion::stream::CynthionStream;

#[test]
fn speed_masks() {
    assert_eq!(Speed::Auto.mask(), 0b0001);
    assert_eq!(Speed::Low.mask(), 0b0010);
    assert_eq!(Speed::Full.mask(), 0b0100);
    assert_eq!(Speed::High.mask(), 0b1000);
}

#[test]
fn speed_descriptions() {
    assert_eq!(Speed::Auto.description(), "Auto");
    assert_eq!(Speed::High.description(), "High (480Mbps)");
    assert_eq!(Speed::Full.description(), "Full (12Mbps)");
    assert_eq!(Speed::Low.description(), "Low (1.5Mbps)");
}

#[test]
fn speed_codes_round_trip() {
    for speed in [Speed::Auto, Speed::High, Speed::Full, Speed::Low] {
        assert_eq!(Speed::from_code(speed.code()), speed);
    }
    // Out-of-range codes fall back to High.
    assert_eq!(Speed::from_code(17), Speed::High);
}

#[test]
fn speed_byte_decodes_high_full() {
    // Speed byte 0b1100 flags the High and Full bits.
    assert_eq!(speeds_from_mask(0b1100), vec![Speed::High, Speed::Full]);
}

#[test]
fn speed_byte_decodes_in_fixed_order() {
    assert_eq!(speeds_from_mask(0), vec![]);
    assert_eq!(
        speeds_from_mask(0b1111),
        vec![Speed::Auto, Speed::High, Speed::Full, Speed::Low]
    );
    assert_eq!(speeds_from_mask(0b0011), vec![Speed::Auto, Speed::Low]);
    assert_eq!(speeds_from_mask(0b1010), vec![Speed::High, Speed::Low]);
}

#[test]
fn state_byte_layout() {
    assert_eq!(State::new(true, Speed::High).0, 0b001);
    assert_eq!(State::new(false, Speed::Full).0, 0b010);
    assert_eq!(State::new(true, Speed::Low).0, 0b101);
    assert_eq!(State::new(true, Speed::Auto).0, 0b111);
    assert_eq!(State::new(false, Speed::High).0, 0b000);
}

#[test]
fn state_byte_round_trips() {
    for enable in [false, true] {
        for speed in [Speed::Auto, Speed::High, Speed::Full, Speed::Low] {
            let state = State::new(enable, speed);
            assert_eq!(state.enable(), enable);
            assert_eq!(state.speed(), speed);
        }
    }
}

#[test]
fn control_request_parameters() {
    let read = speeds_request(5);
    assert_eq!(read.request, 2);
    assert_eq!(read.value, 0);
    assert_eq!(read.index, 5);

    let write = state_request(3, State::new(true, Speed::Auto));
    assert_eq!(write.request, 1);
    assert_eq!(write.value, 0b111);
    assert_eq!(write.index, 3);
}

#[test]
fn speeds_response_length() {
    assert!(valid_speeds_response_len(1));
    assert!(!valid_speeds_response_len(0));
    assert!(!valid_speeds_response_len(2));
    assert!(!valid_speeds_response_len(64));
}

#[test]
fn analyzer_device_identifiers() {
    assert!(is_analyzer_device(0x1d50, 0x615b));
    assert!(!is_analyzer_device(0x1d50, 0x615c));
    assert!(!is_analyzer_device(0x1d51, 0x615b));
}

#[test]
fn alt_setting_verdicts() {
    assert_eq!(check_alt_setting(0xff, 0x10, 0x00), AltSettingVerdict::Analyzer);
    assert_eq!(check_alt_setting(0xff, 0x10, 0x01), AltSettingVerdict::WrongProtocol);
    assert_eq!(check_alt_setting(0xff, 0x11, 0x00), AltSettingVerdict::NotAnalyzer);
    assert_eq!(check_alt_setting(0x03, 0x10, 0x00), AltSettingVerdict::NotAnalyzer);
    // A wrong protocol on a non-analyzer signature is still skipped.
    assert_eq!(check_alt_setting(0x03, 0x10, 0x07), AltSettingVerdict::NotAnalyzer);
}

#[test]
fn empty_speed_list_is_unusable() {
    assert!(!usable_speed_list(&vec![]));
    assert!(usable_speed_list(&vec![Speed::High]));
}

#[test]
fn deframes_two_packets_back_to_back() {
    // Payload lengths 3 and 0, serialized back-to-back.
    let mut stream = CynthionStream::new();
    stream.append_chunk(&vec![0x00, 0x03, 0xAA, 0xBB, 0xCC, 0x00, 0x00]);
    assert_eq!(stream.next_buffered_packet(), Some(vec![0xAA, 0xBB, 0xCC]));
    // The empty packet's frame is an exact fit, so it waits for more data.
    assert_eq!(stream.next_buffered_packet(), None);
    stream.append_chunk(&vec![0x00]);
    assert_eq!(stream.next_buffered_packet(), Some(vec![]));
}

#[test]
fn exact_fit_does_not_yield() {
    // Exactly two prefix bytes plus the announced payload: not enough.
    let mut stream = CynthionStream::new();
    stream.append_chunk(&vec![0x00, 0x03, 0x01, 0x02, 0x03]);
    assert_eq!(stream.next_buffered_packet(), None);
    // One byte beyond the frame makes it ready.
    stream.append_chunk(&vec![0x09]);
    assert_eq!(stream.next_buffered_packet(), Some(vec![0x01, 0x02, 0x03]));
    // The extra byte stays buffered and is not itself a frame.
    assert_eq!(stream.next_buffered_packet(), None);
}

#[test]
fn truncated_trailing_frame_yields_nothing() {
    // A length prefix announcing five bytes, with only two buffered: the
    // fragment is never extracted, however often the stream is polled.
    let mut stream = CynthionStream::new();
    stream.append_chunk(&vec![0x00, 0x05, 0x01, 0x02]);
    assert_eq!(stream.next_buffered_packet(), None);
    assert_eq!(stream.next_buffered_packet(), None);
}

#[test]
fn deframes_packets_in_order() {
    let payloads: [&[u8]; 4] = [b"ab", b"", b"cynthion", b"\x00\xff"];
    let mut bytes: Vec<u8> = Vec::new();
    for payload in payloads {
        let len = payload.len() as u16;
        bytes.extend_from_slice(&len.to_be_bytes());
        bytes.extend_from_slice(payload);
    }
    bytes.push(0x00);  // one byte beyond the last frame
    let mut stream = CynthionStream::new();
    // Chunk boundaries need not align with frames.
    for chunk in bytes.chunks(3) {
        stream.append_chunk(&chunk.to_vec());
    }
    for payload in payloads {
        assert_eq!(stream.next_buffered_packet(), Some(payload.to_vec()));
    }
    assert_eq!(stream.next_buffered_packet(), None);
}

#[test]
fn engine_forwards_while_running() {
    let mut engine = Engine::new(NUM_TRANSFERS);
    assert!(!engine.stopped);
    assert_eq!(engine.pending, 4);
    assert_eq!(engine.handle_event(EngineEvent::TransferComplete), EngineAction::Forward);
    // Forwarding resubmits, so the pool stays full.
    assert_eq!(engine.pending, 4);
}

#[test]
fn engine_cancellation_race_drains_pool() {
    let mut engine = Engine::new(NUM_TRANSFERS);
    assert_eq!(engine.handle_event(EngineEvent::StopRequested), EngineAction::CancelAll);
    // A transfer that completed successfully in flight with the
    // cancellation: its data is discarded, never forwarded, and nothing is
    // resubmitted.
    assert_eq!(engine.handle_event(EngineEvent::TransferComplete), EngineAction::Discard);
    assert_eq!(engine.pending, 3);
    // The cancelled transfers drain the pool one by one.
    assert_eq!(
        engine.handle_event(EngineEvent::TransferFailed(UsbFault::Cancelled)),
        EngineAction::Discard
    );
    assert_eq!(
        engine.handle_event(EngineEvent::TransferFailed(UsbFault::Cancelled)),
        EngineAction::Discard
    );
    // The last expected cancellation ends the loop successfully.
    assert_eq!(
        engine.handle_event(EngineEvent::TransferFailed(UsbFault::Cancelled)),
        EngineAction::FinishOk
    );
    assert_eq!(engine.pending, 0);
}

#[test]
fn engine_cancelled_without_stop_is_fatal() {
    let mut engine = Engine::new(NUM_TRANSFERS);
    assert_eq!(
        engine.handle_event(EngineEvent::TransferFailed(UsbFault::Cancelled)),
        EngineAction::FinishErr(LoopError::Transport(UsbFault::Cancelled))
    );
}

#[test]
fn engine_transport_error_wins_over_cancellation() {
    let mut engine = Engine::new(NUM_TRANSFERS);
    assert_eq!(engine.handle_event(EngineEvent::StopRequested), EngineAction::CancelAll);
    // A hardware failure during shutdown is reported, not treated as benign.
    assert_eq!(
        engine.handle_event(EngineEvent::TransferFailed(UsbFault::Stall)),
        EngineAction::FinishErr(LoopError::Transport(UsbFault::Stall))
    );
}

#[test]
fn engine_forwarding_failure_is_fatal() {
    let mut engine = Engine::new(NUM_TRANSFERS);
    assert_eq!(
        engine.handle_event(EngineEvent::ForwardFailed),
        EngineAction::FinishErr(LoopError::Forwarding)
    );
}

#[test]
fn capture_session_end_to_end() {
    // Two framed packets as the device would send them, split across
    // transfer completions that do not align with frame boundaries.
    let mut engine = Engine::new(NUM_TRANSFERS);
    let mut stream = CynthionStream::new();
    let chunks: Vec<Vec<u8>> = vec![
        vec![0x00, 0x02, 0x10],
        vec![0x20, 0x00, 0x01, 0x30, 0x00],
    ];
    let mut packets: Vec<Vec<u8>> = Vec::new();
    for chunk in &chunks {
        match engine.handle_event(EngineEvent::TransferComplete) {
            EngineAction::Forward => {
                stream.append_chunk(chunk);
                while let Some(packet) = stream.next_buffered_packet() {
                    packets.push(packet);
                }
            }
            action => panic!("unexpected action {action:?}"),
        }
    }
    assert_eq!(packets, vec![vec![0x10, 0x20], vec![0x30]]);
    // Stop: a straggling successful completion is discarded, and the
    // cancelled transfers drain the pool to a clean finish.
    assert_eq!(engine.handle_event(EngineEvent::StopRequested), EngineAction::CancelAll);
    assert_eq!(engine.handle_event(EngineEvent::TransferComplete), EngineAction::Discard);
    for _ in 0..2 {
        assert_eq!(
            engine.handle_event(EngineEvent::TransferFailed(UsbFault::Cancelled)),
            EngineAction::Discard
        );
    }
    assert_eq!(
        engine.handle_event(EngineEvent::TransferFailed(UsbFault::Cancelled)),
        EngineAction::FinishOk
    );
}

#[test]
fn loop_error_takes_priority_over_disable_failure() {
    let loop_err = CaptureError::Capture(LoopError::Transport(UsbFault::Disconnected));
    let disable_err = CaptureError::Disable(UsbFault::Fault);
    assert_eq!(combine_final(Err(loop_err), Err(disable_err)), Err(loop_err));
    assert_eq!(combine_final(Err(loop_err), Ok(())), Err(loop_err));
    assert_eq!(combine_final(Ok(()), Err(disable_err)), Err(disable_err));
    assert_eq!(combine_final(Ok(()), Ok(())), Ok(()));
}

#[test]
fn stop_reports_transport_failure() {
    // The worker loop ended with a transport error even though stop was
    // requested: stop() surfaces that error.
    let failure = CaptureError::Capture(LoopError::Transport(UsbFault::Stall));
    let verdict = stop_verdict(true, WorkerOutcome::Finished(Err(failure)));
    assert!(matches!(verdict, Err(StopError::Failed(cause)) if cause == failure));
}

#[test]
fn stop_verdicts() {
    assert!(matches!(
        stop_verdict(false, WorkerOutcome::Finished(Ok(()))),
        Err(StopError::SignalFailed)
    ));
    assert!(matches!(stop_verdict(true, WorkerOutcome::Finished(Ok(()))), Ok(())));
    let verdict = stop_verdict(true, WorkerOutcome::Panicked(String::from("boom")));
    assert!(matches!(verdict, Err(StopError::WorkerPanic(msg)) if msg == "boom"));
}
