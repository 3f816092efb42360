use razer_control::command::{standard_effect_report, EcCommand};
use razer_control::laptop::RazerLaptop;
use razer_control::link::{
    advance_tid, classify_response, expected_reply_remaining, thermal_settle_ms, LinkStep,
    ResponseAction,
};
use razer_control::packet::RazerPacket;

fn reply(command_class: u8, command_id: u8, status: u8) -> RazerPacket {
    let mut packet = RazerPacket::new(command_class, command_id, 0x00);
    packet.status = status;
    packet
}

#[test]
fn accepts_matching_success() {
    let request = RazerPacket::new(0x0d, 0x02, 0x04);
    let response = reply(0x0d, 0x02, RazerPacket::RAZER_CMD_SUCCESSFUL);
    assert_eq!(classify_response(&request, &response), ResponseAction::Accept);
}

#[test]
fn get_reply_with_metadata_remaining_is_accepted() {
    // The charger read answers with its payload length.
    let request = RazerPacket::new(0x07, 0x8c, 0x02);
    let mut response = reply(0x07, 0x8c, RazerPacket::RAZER_CMD_SUCCESSFUL);
    response.remaining_packets = 0x0002;
    assert_eq!(classify_response(&request, &response), ResponseAction::Accept);
}

#[test]
fn write_reply_with_mismatched_remaining_keeps_polling() {
    let request = RazerPacket::new(0x0d, 0x02, 0x04);
    let mut response = reply(0x0d, 0x02, RazerPacket::RAZER_CMD_SUCCESSFUL);
    response.remaining_packets = 0x0003;
    assert_eq!(
        classify_response(&request, &response),
        ResponseAction::KeepPolling
    );
}

#[test]
fn keeps_polling_while_busy() {
    let request = RazerPacket::new(0x0d, 0x02, 0x04);
    for status in [
        RazerPacket::RAZER_CMD_BUSY,
        RazerPacket::RAZER_CMD_NEW,
        RazerPacket::RAZER_CMD_TIMEOUT,
    ] {
        let response = reply(0x0d, 0x02, status);
        assert_eq!(
            classify_response(&request, &response),
            ResponseAction::KeepPolling
        );
    }
}

#[test]
fn keeps_polling_on_stale_mismatched_reply() {
    let request = RazerPacket::new(0x0d, 0x02, 0x04);
    let response = reply(0x0d, 0x01, RazerPacket::RAZER_CMD_SUCCESSFUL);
    assert_eq!(
        classify_response(&request, &response),
        ResponseAction::KeepPolling
    );
}

#[test]
fn resends_on_failure() {
    let request = RazerPacket::new(0x0d, 0x02, 0x04);
    let response = reply(0x0d, 0x02, RazerPacket::RAZER_CMD_FAILURE);
    assert_eq!(classify_response(&request, &response), ResponseAction::Resend);
}

#[test]
fn tid_cycles_one_to_thirty_and_wraps() {
    let mut id = 0u8;
    let mut seen = Vec::new();
    for _ in 0..61 {
        id = advance_tid(id);
        assert!((1..=30).contains(&id), "emitted {}", id);
        seen.push(id);
    }
    assert_eq!(seen[0], 1);
    assert_eq!(seen[29], 30);
    assert_eq!(seen[30], 1, "wrap 0x1e -> 0x01 as captured");
    assert!(!seen.contains(&0) && !seen.contains(&31));
}

#[test]
fn stale_tid_reply_keeps_polling() {
    let mut request = RazerPacket::new(0x0d, 0x02, 0x04);
    request.id = 0x05;
    let mut response = reply(0x0d, 0x02, RazerPacket::RAZER_CMD_SUCCESSFUL);
    response.id = 0x04;
    assert_eq!(
        classify_response(&request, &response),
        ResponseAction::KeepPolling
    );
}

#[test]
fn unsupported_is_terminal() {
    let request = RazerPacket::new(0x0d, 0x02, 0x04);
    let response = reply(0x0d, 0x02, RazerPacket::RAZER_CMD_NOT_SUPPORTED);
    assert_eq!(
        classify_response(&request, &response),
        ResponseAction::Unsupported
    );
}

#[test]
fn accepts_bho_reply_for_bho_request() {
    let request = RazerPacket::new(0x07, 0x92, 0x01);
    let mut response = reply(0x07, 0x92, RazerPacket::RAZER_CMD_SUCCESSFUL);
    response.remaining_packets = 0x0001;
    assert_eq!(classify_response(&request, &response), ResponseAction::Accept);
}

#[test]
fn ignores_stray_bho_reply_for_other_request() {
    let request = RazerPacket::new(0x0d, 0x02, 0x04);
    let mut response = reply(0x0d, 0x02, RazerPacket::RAZER_CMD_SUCCESSFUL);
    response.command_id = 0x92;
    assert_eq!(
        classify_response(&request, &response),
        ResponseAction::KeepPolling
    );
}

#[test]
fn bho_set_reply_echoes_its_own_id() {
    let request = RazerPacket::new(0x07, 0x12, 0x01);
    let response = reply(0x07, 0x12, RazerPacket::RAZER_CMD_SUCCESSFUL);
    assert_eq!(classify_response(&request, &response), ResponseAction::Accept);
}

#[test]
fn stray_getter_reply_for_set_request_keeps_polling() {
    let request = RazerPacket::new(0x07, 0x12, 0x01);
    let response = reply(0x07, 0x92, RazerPacket::RAZER_CMD_SUCCESSFUL);
    assert_eq!(
        classify_response(&request, &response),
        ResponseAction::KeepPolling
    );
}

#[test]
fn bho_failure_status_is_resent_not_accepted() {
    let request = RazerPacket::new(0x07, 0x12, 0x01);
    let response = reply(0x07, 0x12, RazerPacket::RAZER_CMD_FAILURE);
    assert_eq!(classify_response(&request, &response), ResponseAction::Resend);
}

#[test]
fn bho_busy_status_keeps_polling() {
    let request = RazerPacket::new(0x07, 0x92, 0x01);
    let response = reply(0x07, 0x92, RazerPacket::RAZER_CMD_BUSY);
    assert_eq!(
        classify_response(&request, &response),
        ResponseAction::KeepPolling
    );
}

#[test]
fn bho_stale_tid_keeps_polling() {
    let request = RazerPacket::new(0x07, 0x12, 0x01);
    let mut response = reply(0x07, 0x12, RazerPacket::RAZER_CMD_SUCCESSFUL);
    response.id = request.id.wrapping_add(1);
    assert_eq!(
        classify_response(&request, &response),
        ResponseAction::KeepPolling
    );
}

#[test]
fn bho_reply_from_the_wrong_class_keeps_polling() {
    let request = RazerPacket::new(0x07, 0x12, 0x01);
    let response = reply(0x03, 0x12, RazerPacket::RAZER_CMD_SUCCESSFUL);
    assert_eq!(
        classify_response(&request, &response),
        ResponseAction::KeepPolling
    );
}

#[test]
fn fan_mode_settles_longest() {
    assert_eq!(thermal_settle_ms(0x0d, 0x02), 200);
    assert_eq!(thermal_settle_ms(0x0d, 0x01), 100);
    assert_eq!(thermal_settle_ms(0x0d, 0x07), 100);
    assert_eq!(thermal_settle_ms(0x0d, 0x82), 0);
    assert_eq!(thermal_settle_ms(0x03, 0x00), 0);
}

#[test]
fn only_the_charge_limit_read_expects_a_remaining_count() {
    assert_eq!(expected_reply_remaining(0x07, 0x92), Some(1));
    assert_eq!(expected_reply_remaining(0x07, 0x8c), None);
    let request = RazerPacket::new(0x07, 0x92, 0x01);
    let response = reply(0x07, 0x92, RazerPacket::RAZER_CMD_SUCCESSFUL);
    assert_eq!(
        classify_response(&request, &response),
        ResponseAction::KeepPolling
    );
}

#[test]
fn a_report_is_framed_byte_by_byte() {
    let mut p = RazerPacket::new(0x0d, 0x02, 0x04);
    p.id = 0x1f;
    p.remaining_packets = 0x0203;
    p.args[0] = 0x00;
    p.args[1] = 0x01;
    p.args[2] = 0x05;
    p.args[79] = 0x42;
    let buf = p.calc_crc();
    assert_eq!(buf.len(), 91);
    // report, status, id, remaining (higher byte first), protocol, size, class, id
    assert_eq!(
        buf[..9],
        [0x00, 0x00, 0x1f, 0x02, 0x03, 0x00, 0x04, 0x0d, 0x02]
    );
    assert_eq!(buf[9..12], [0x00, 0x01, 0x05]);
    assert_eq!(buf[88], 0x42);
    // From the remaining count to the last argument.
    assert_eq!(buf[89], 0x02 ^ 0x03 ^ 0x04 ^ 0x0d ^ 0x02 ^ 0x01 ^ 0x05 ^ 0x42);
    assert_eq!(buf[89], p.crc);
    assert_eq!(buf[90], 0x00);
}

#[test]
fn what_was_framed_is_decoded() {
    let mut p = RazerPacket::new(0x07, 0x12, 0x01);
    p.id = 7;
    p.args[0] = 0xd0;
    p.remaining_packets = 0xbeef;
    let buf = p.calc_crc();
    let back = RazerPacket::decode(&buf).unwrap();
    assert_eq!(back, p);
    assert_eq!(back.args[0], 0xd0);
    assert_eq!(back.remaining_packets, 0xbeef);
}

#[test]
fn a_short_buffer_is_not_decoded() {
    let mut p = RazerPacket::new(0x07, 0x12, 0x01);
    let mut buf = p.calc_crc();
    buf.pop();
    assert!(RazerPacket::decode(&buf).is_none());
    assert!(RazerPacket::decode(&Vec::new()).is_none());
}

#[test]
fn bytes_behind_a_report_are_ignored() {
    let mut p = RazerPacket::new(0x03, 0x0a, 0x02);
    let mut buf = p.calc_crc();
    buf.push(0xff);
    assert_eq!(RazerPacket::decode(&buf), Some(p));
}

#[test]
fn commands_have_their_packets() {
    let mode = EcCommand::ZoneMode { zone: 1, mode: 5, manual: 1 }.packet();
    assert_eq!((mode.command_class, mode.command_id, mode.data_size), (0x0d, 0x02, 0x04));
    assert_eq!(mode.args[..4], [0x01, 0x01, 0x05, 0x01]);

    let limit = EcCommand::ChargeLimit { packed: 0xd0 }.packet();
    assert_eq!((limit.command_class, limit.command_id), (0x07, 0x12));
    assert_eq!(limit.args[0], 0xd0);

    let charger = EcCommand::ReadCharger.packet();
    assert_eq!((charger.command_class, charger.command_id), (0x07, 0x8c));
}

#[test]
fn an_effect_report_carries_its_parameters() {
    let p = standard_effect_report(0x06, &vec![1, 2, 3]);
    assert_eq!((p.command_class, p.command_id, p.data_size), (0x03, 0x0a, 0x04));
    assert_eq!(p.args[..5], [0x06, 1, 2, 3, 0]);
    let long = standard_effect_report(0x06, &vec![9; 200]);
    assert_eq!(long.data_size, 80);
    assert_eq!(long.args[79], 9);
}

fn laptop() -> RazerLaptop {
    RazerLaptop::new(String::from("Blade"), Vec::new(), vec![2000, 5100], 0x02c6)
}

fn confirm(frame: &Vec<u8>) -> Vec<u8> {
    let mut p = RazerPacket::decode(frame).unwrap();
    p.status = RazerPacket::RAZER_CMD_SUCCESSFUL;
    p.calc_crc()
}

#[test]
fn a_confirmed_exchange_ends_with_its_reply() {
    let mut l = laptop();
    let report = EcCommand::ZoneMode { zone: 1, mode: 2, manual: 0 }.packet();
    let (mut ex, step) = l.send_report(report);
    let frame = match step {
        LinkStep::Write { frame, .. } => frame,
        other => panic!("{:?}", other),
    };
    assert_eq!(l.transaction_id, 1);
    assert_eq!(frame[2], 1);
    assert!(matches!(l.report_written(&mut ex, true), LinkStep::Read { .. }));
    match l.report_received(&mut ex, Some(confirm(&frame))) {
        LinkStep::Finish { delay_ms, reply: Some(p) } => {
            assert_eq!(delay_ms, 200);
            assert_eq!(p.args[2], 2);
        }
        other => panic!("{:?}", other),
    }
}

/// Carries an exchange through; tells the writes, the reads, and whether it was
/// confirmed.
fn exchange(l: &mut RazerLaptop, writable: bool, status: Option<u8>) -> (usize, usize, bool) {
    let (mut ex, mut step) = l.send_report(RazerPacket::new(0x0d, 0x82, 0x04));
    let mut writes = 0;
    let mut reads = 0;
    let mut sent = RazerPacket::new(0, 0, 0);
    loop {
        step = match step {
            LinkStep::Write { frame, .. } => {
                writes += 1;
                sent = RazerPacket::decode(&frame).unwrap();
                l.report_written(&mut ex, writable)
            }
            LinkStep::Read { .. } => {
                reads += 1;
                let received = status.map(|s| {
                    sent.status = s;
                    sent.calc_crc()
                });
                l.report_received(&mut ex, received)
            }
            LinkStep::Finish { reply, .. } => return (writes, reads, reply.is_some()),
        };
    }
}

#[test]
fn silence_is_polled_and_not_written_to_again() {
    let mut l = laptop();
    assert_eq!(exchange(&mut l, true, None), (1, 20, false));
    assert_eq!(l.transaction_id, 1);
    let busy = Some(RazerPacket::RAZER_CMD_BUSY);
    assert_eq!(exchange(&mut l, true, busy), (1, 20, false));
}

#[test]
fn failure_is_written_three_times_under_fresh_ids() {
    let mut l = laptop();
    let failure = Some(RazerPacket::RAZER_CMD_FAILURE);
    assert_eq!(exchange(&mut l, true, failure), (3, 3, false));
    assert_eq!(l.transaction_id, 3);
    assert_eq!(exchange(&mut l, false, None), (3, 0, false));
    assert_eq!(l.transaction_id, 6);
    let success = Some(RazerPacket::RAZER_CMD_SUCCESSFUL);
    assert_eq!(exchange(&mut l, true, success), (1, 1, true));
}

#[test]
fn an_unsupported_command_is_recorded_once() {
    let mut l = laptop();
    for first in [true, false] {
        let (mut ex, step) = l.send_report(RazerPacket::new(0x03, 0x80, 0x03));
        let frame = match step {
            LinkStep::Write { frame, .. } => frame,
            other => panic!("{:?}", other),
        };
        l.report_written(&mut ex, true);
        let mut p = RazerPacket::decode(&frame).unwrap();
        p.status = RazerPacket::RAZER_CMD_NOT_SUPPORTED;
        let received = Some(p.calc_crc());
        let told = l.rejection(&ex, &received).unwrap();
        assert_eq!(told.first, first);
        let short = "Command not supported (class 0x03 id 0x80)";
        if first {
            let long = " — further rejects of this command log at debug level only; the write itself keeps being sent (wire parity)";
            assert_eq!(told.text, format!("{}{}", short, long));
        } else {
            assert_eq!(told.text, short);
        }
        let end = l.report_received(&mut ex, received);
        assert!(matches!(end, LinkStep::Finish { reply: None, .. }));
    }
    assert_eq!(l.unsupported_cmds, vec![(0x03, 0x80)]);
    let (ex, _) = l.send_report(RazerPacket::new(0x03, 0x80, 0x03));
    assert!(l.rejection(&ex, &None).is_none());
}

#[test]
fn a_stale_reply_is_told() {
    let mut l = laptop();
    let (ex, step) = l.send_report(RazerPacket::new(0x0d, 0x02, 0x04));
    let frame = match step {
        LinkStep::Write { frame, .. } => frame,
        other => panic!("{:?}", other),
    };
    let mut p = RazerPacket::decode(&frame).unwrap();
    p.status = RazerPacket::RAZER_CMD_SUCCESSFUL;
    assert_eq!(l.stale_reply(&ex, &Some(p.calc_crc())), None);
    p.id = 0x1e;
    let received = Some(p.calc_crc());
    assert_eq!(
        l.stale_reply(&ex, &received).as_deref(),
        Some("Stale reply (TID 0x1e, expected 0x01) for class 0x0d id 0x02 — polling on")
    );
    // Still busy, of another command, or no report at all.
    p.status = RazerPacket::RAZER_CMD_BUSY;
    assert_eq!(l.stale_reply(&ex, &Some(p.calc_crc())), None);
    p.status = RazerPacket::RAZER_CMD_SUCCESSFUL;
    p.command_id = 0x01;
    assert_eq!(l.stale_reply(&ex, &Some(p.calc_crc())), None);
    assert_eq!(l.stale_reply(&ex, &None), None);
}

#[test]
fn an_effect_is_sent_only_while_lighting_is_on() {
    let mut l = laptop();
    let colour = vec![1, 2, 3];
    assert_eq!(l.set_standard_effect(0x06, &colour), Some(standard_effect_report(0x06, &colour)));
    assert_eq!(
        EcCommand::StaticColor { red: 1, green: 2, blue: 3 }.packet(),
        standard_effect_report(0x06, &colour)
    );
    l.static_lighting = false;
    assert_eq!(l.set_standard_effect(0x06, &colour), None);
}
