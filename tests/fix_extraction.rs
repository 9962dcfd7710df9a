use compass::fix::{
    extract, fix_type_from_code, handle_packet, process_packets, DecodedPacket, FixType, FrameError, NavPvtFields,
    NavPvtState, Position, UtcTime, VelocityNed,
};
use compass::store::SnapshotStore;

fn nav_pvt(itow_ms: u32, flags2: u8) -> NavPvtFields {
    NavPvtFields {
        itow_ms,
        year: 2024,
        month: 6,
        day: 21,
        hour: 12,
        min: 34,
        sec: 56,
        time_accuracy_ns: 25,
        nanosecond: -1200,
        fix_type_code: 3,
        flags2,
        satellites_used: 9,
        longitude_e7: 1_234_567_890,
        latitude_e7: -335_000_000,
        height_mm: 45_120,
        height_msl_mm: 22_000,
        horizontal_accuracy_mm: 1500,
        vertical_accuracy_mm: 2500,
        velocity_ned: VelocityNed { north_mm_s: 10, east_mm_s: -20, down_mm_s: 3 },
        ground_speed_mm_s: 22,
        heading_motion_e5: 9_000_000,
        speed_accuracy_mm_s: 300,
        heading_accuracy_e5: 150_000,
        position_dilution_e2: 132,
        heading_vehicle_e5: 8_900_000,
        magnetic_declination_e2: -250,
        declination_accuracy_e2: 40,
    }
}

#[test]
fn non_fix_packet_yields_nothing() {
    assert_eq!(extract(&DecodedPacket::Other { class: 0x01, id: 0x35 }), None);
    assert_eq!(extract(&DecodedPacket::Other { class: 0x05, id: 0x01 }), None);
}

#[test]
fn non_fix_packet_does_not_publish() {
    let previous = extract(&DecodedPacket::NavPvt(nav_pvt(1000, 0x20))).unwrap();
    let mut store = SnapshotStore::new(previous);
    handle_packet(&mut store, &DecodedPacket::Other { class: 0x0a, id: 0x04 });
    assert_eq!(store.read(), previous);
}

#[test]
fn confirmed_time_is_reported() {
    let fix = extract(&DecodedPacket::NavPvt(nav_pvt(7_000, 0x20))).unwrap();
    assert_eq!(
        fix.utc,
        Some(UtcTime {
            year: 2024,
            month: 6,
            day: 21,
            hour: 12,
            min: 34,
            sec: 56,
            nanosecond: -1200,
            accuracy_ns: 25,
        })
    );
}

#[test]
fn unconfirmed_time_is_omitted_not_kept() {
    let mut store = SnapshotStore::new(NavPvtState::new());
    handle_packet(&mut store, &DecodedPacket::NavPvt(nav_pvt(1_000, 0x20)));
    assert!(store.read().utc.is_some());
    // every bit but the confirmation bit set
    handle_packet(&mut store, &DecodedPacket::NavPvt(nav_pvt(2_000, 0xdf)));
    let fix = store.read();
    assert_eq!(fix.utc, None);
    assert_eq!(fix.solution.unwrap().time_of_week_ms, 2_000);
}

#[test]
fn solution_fields_are_copied() {
    let fix = extract(&DecodedPacket::NavPvt(nav_pvt(123_456, 0))).unwrap();
    let s = fix.solution.unwrap();
    assert_eq!(s.time_of_week_ms, 123_456);
    assert_eq!(s.fix_type, FixType::Fix3D);
    assert_eq!(
        s.position,
        Position { latitude_e7: -335_000_000, longitude_e7: 1_234_567_890, height_mm: 45_120 }
    );
    assert_eq!(s.height_msl_mm, 22_000);
    assert_eq!(s.velocity_ned, VelocityNed { north_mm_s: 10, east_mm_s: -20, down_mm_s: 3 });
    assert_eq!(s.speed_over_ground_mm_s, 22);
    assert_eq!(s.heading_motion_e5, 9_000_000);
    assert_eq!(s.heading_vehicle_e5, 8_900_000);
    assert_eq!(s.magnetic_declination_e2, -250);
    assert_eq!(s.position_dilution_e2, 132);
    assert_eq!(s.satellites_used, 9);
    assert_eq!(s.accuracy.horizontal_mm, 1500);
    assert_eq!(s.accuracy.vertical_mm, 2500);
    assert_eq!(s.accuracy.speed_mm_s, 300);
    assert_eq!(s.accuracy.heading_e5, 150_000);
    assert_eq!(s.accuracy.declination_e2, 40);
}

#[test]
fn no_fix_is_a_valid_fix_type() {
    let mut p = nav_pvt(5, 0);
    p.fix_type_code = 0;
    let fix = extract(&DecodedPacket::NavPvt(p)).unwrap();
    assert_eq!(fix.solution.unwrap().fix_type, FixType::NoFix);
}

#[test]
fn fix_type_codes() {
    let expected = [
        FixType::NoFix,
        FixType::DeadReckoning,
        FixType::Fix2D,
        FixType::Fix3D,
        FixType::GnssDeadReckoning,
        FixType::TimeOnly,
    ];
    for (code, t) in expected.iter().enumerate() {
        assert_eq!(fix_type_from_code(code as u8), *t);
    }
    assert_eq!(fix_type_from_code(6), FixType::Reserved(6));
    assert_eq!(fix_type_from_code(0xff), FixType::Reserved(0xff));
}

#[test]
fn initial_fix_state_knows_nothing() {
    let s = NavPvtState::new();
    assert_eq!(s.solution, None);
    assert_eq!(s.utc, None);
}

#[test]
fn last_fix_of_a_read_wins_and_errors_are_dropped() {
    let mut store = SnapshotStore::new(NavPvtState::new());
    let packets = vec![
        Ok(DecodedPacket::NavPvt(nav_pvt(1_000, 0x20))),
        Err(FrameError::InvalidChecksum),
        Ok(DecodedPacket::NavPvt(nav_pvt(2_000, 0))),
        Ok(DecodedPacket::Other { class: 0x01, id: 0x03 }),
        Err(FrameError::InvalidPacketLength),
    ];
    process_packets(&mut store, &packets);
    let fix = store.read();
    assert_eq!(fix.solution.unwrap().time_of_week_ms, 2_000);
    assert_eq!(fix.utc, None);
}

#[test]
fn read_without_fix_leaves_store() {
    let mut store = SnapshotStore::new(NavPvtState::new());
    let packets = vec![
        Err(FrameError::InvalidChecksum),
        Ok(DecodedPacket::Other { class: 0x01, id: 0x03 }),
        Err(FrameError::InvalidField),
        Err(FrameError::OutOfMemory),
    ];
    process_packets(&mut store, &packets);
    assert_eq!(store.read(), NavPvtState::new());
    process_packets(&mut store, &Vec::new());
    assert_eq!(store.read(), NavPvtState::new());
}
