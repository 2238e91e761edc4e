use adm1191::Adm1191;
use adm1191::codec::CONTINUOUS_VOLT_CURRENT_COMMAND;
use adm1191::codec::STATUS_READ_COMMAND;
use adm1191::decode_sample;
use adm1191::sim::SimError;
use adm1191::sim::SimOp;
use adm1191::sim::SimTransport;
use adm1191::transport::BusTransport;

fn op_addr(op: &SimOp) -> u8 {
    match op {
        SimOp::Write { addr, .. } => *addr,
        SimOp::Read { addr, .. } => *addr,
        SimOp::WriteRead { addr, .. } => *addr,
    }
}

#[test]
fn command_constants_match_wire_protocol() {
    assert_eq!(STATUS_READ_COMMAND, 0x40);
    assert_eq!(CONTINUOUS_VOLT_CURRENT_COMMAND, 0x15);
}

#[test]
fn decode_follows_bit_layout() {
    assert_eq!(decode_sample(0xAB, 0xCD, 0xEF), (0xABE, 0xCDF));
    assert_eq!(decode_sample(0x00, 0x00, 0x00), (0x000, 0x000));
    assert_eq!(decode_sample(0xFF, 0xFF, 0xFF), (0xFFF, 0xFFF));
    assert_eq!(decode_sample(0x12, 0x34, 0x56), (0x125, 0x346));
    assert_eq!(decode_sample(0x80, 0x01, 0xF0), (0x80F, 0x010));
}

#[test]
fn decode_matches_formula_and_range_on_sampled_frames() {
    let bytes = [0x00u8, 0x01, 0x0F, 0x10, 0x7F, 0x80, 0xAB, 0xF0, 0xFF];
    for &b0 in &bytes {
        for &b1 in &bytes {
            for &b2 in &bytes {
                let (voltage, current) = decode_sample(b0, b1, b2);
                assert_eq!(voltage, ((b0 as u16) << 4) | (((b2 as u16) >> 4) & 0xF));
                assert_eq!(current, ((b1 as u16) << 4) | ((b2 as u16) & 0xF));
                assert!(voltage <= 4095);
                assert!(current <= 4095);
            }
        }
    }
}

#[test]
fn status_and_continuous_round_trip() {
    let sim = SimTransport::new(vec![0x5A]);
    let mut handle = Adm1191::new(sim, 0x35).unwrap();
    assert_eq!(handle.read_status(), Ok(0x5A));
    assert_eq!(handle.continuous_volt_current(), Ok(()));
    let sim = handle.destroy();
    assert_eq!(
        sim.ops,
        vec![
            SimOp::WriteRead { addr: 0x35, wdata: vec![0x40], rdata: vec![0x5A] },
            SimOp::Write { addr: 0x35, data: vec![0x15] },
        ]
    );
}

#[test]
fn sample_read_decodes_streamed_frame() {
    let sim = SimTransport::new(vec![0xAB, 0xCD, 0xEF]);
    let mut handle = Adm1191::new(sim, 0x35).unwrap();
    assert_eq!(handle.read_volt_current(), Ok((2750, 3295)));
    let sim = handle.destroy();
    assert_eq!(
        sim.ops,
        vec![SimOp::Read { addr: 0x35, data: vec![0xAB, 0xCD, 0xEF] }]
    );
}

#[test]
fn short_read_is_a_transport_error() {
    let sim = SimTransport::new(vec![0xAB, 0xCD]);
    let mut handle = Adm1191::new(sim, 0x35).unwrap();
    assert_eq!(handle.read_volt_current(), Err(SimError));
    let sim = handle.destroy();
    assert!(sim.ops.is_empty());
    assert_eq!(sim.served, 0);
}

#[test]
fn status_read_with_empty_stream_is_a_transport_error() {
    let sim = SimTransport::new(Vec::new());
    let mut handle = Adm1191::new(sim, 0x35).unwrap();
    assert_eq!(handle.read_status(), Err(SimError));
    let sim = handle.destroy();
    assert!(sim.ops.is_empty());
}

#[test]
fn destroy_returns_the_transport_unchanged() {
    let sim = SimTransport::new(vec![1, 2, 3]);
    let handle = Adm1191::new(sim, 0x35).unwrap();
    let sim = handle.destroy();
    assert!(sim.ops.is_empty());
    assert_eq!(sim.read_data, vec![1, 2, 3]);
    assert_eq!(sim.served, 0);
    assert!(!sim.fail);
}

#[test]
fn handles_never_cross_address() {
    let sim_a = SimTransport::new(vec![0x11, 0xAB, 0xCD, 0xEF]);
    let sim_b = SimTransport::new(vec![0x22, 0x01, 0x02, 0x03]);
    let mut handle_a = Adm1191::new(sim_a, 0x35).unwrap();
    let mut handle_b = Adm1191::new(sim_b, 0x36).unwrap();
    handle_a.read_status().unwrap();
    handle_b.read_status().unwrap();
    handle_a.continuous_volt_current().unwrap();
    handle_b.continuous_volt_current().unwrap();
    handle_a.read_volt_current().unwrap();
    handle_b.read_volt_current().unwrap();
    let sim_a = handle_a.destroy();
    let sim_b = handle_b.destroy();
    assert_eq!(sim_a.ops.len(), 3);
    assert_eq!(sim_b.ops.len(), 3);
    for op in &sim_a.ops {
        assert_eq!(op_addr(op), 0x35);
    }
    for op in &sim_b.ops {
        assert_eq!(op_addr(op), 0x36);
    }
}

#[test]
fn failing_transport_errors_are_surfaced_verbatim() {
    let mut sim = SimTransport::new(vec![0xAB, 0xCD, 0xEF]);
    sim.make_failing();
    let mut handle = Adm1191::new(sim, 0x35).unwrap();
    assert_eq!(handle.read_status(), Err(SimError));
    assert_eq!(handle.continuous_volt_current(), Err(SimError));
    assert_eq!(handle.read_volt_current(), Err(SimError));
    let sim = handle.destroy();
    assert!(sim.ops.is_empty());
    assert_eq!(sim.served, 0);
}

#[test]
fn sim_transport_serves_reads_in_order() {
    let mut sim = SimTransport::new(vec![0x01, 0x02, 0x03, 0x04, 0x05]);
    let mut buf = vec![0u8; 2];
    assert_eq!(sim.read(0x35, &mut buf), Ok(()));
    assert_eq!(buf, vec![0x01, 0x02]);
    let mut buf = vec![0u8; 3];
    assert_eq!(sim.read(0x35, &mut buf), Ok(()));
    assert_eq!(buf, vec![0x03, 0x04, 0x05]);
    let mut buf = vec![0u8; 1];
    assert_eq!(sim.read(0x35, &mut buf), Err(SimError));
    assert_eq!(
        sim.ops,
        vec![
            SimOp::Read { addr: 0x35, data: vec![0x01, 0x02] },
            SimOp::Read { addr: 0x35, data: vec![0x03, 0x04, 0x05] },
        ]
    );
}

#[test]
fn sim_transport_records_writes_byte_for_byte() {
    let mut sim = SimTransport::new(Vec::new());
    let payload = vec![0xDE, 0xAD, 0xBE, 0xEF];
    assert_eq!(sim.write(0x42, &payload), Ok(()));
    assert_eq!(
        sim.ops,
        vec![SimOp::Write { addr: 0x42, data: vec![0xDE, 0xAD, 0xBE, 0xEF] }]
    );
}
