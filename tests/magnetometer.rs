use compass::magnetometer::{
    assemble_axis, field_from_counts, reading_from_registers, record_sample,
    resolution_for_gain, BusError, MagneticField, MagnetometerState, SampleStep, Sampler,
};
use compass::store::SnapshotStore;

#[test]
fn gain_table() {
    let expected = [73, 92, 122, 152, 227, 256, 303, 435];
    for (code, res) in expected.iter().enumerate() {
        assert_eq!(resolution_for_gain(code as u8), *res);
    }
}

#[test]
fn gain_code_seven_is_4_35() {
    assert_eq!(resolution_for_gain(0x07), 435);
}

#[test]
fn unknown_gain_code_zeroes_reading() {
    assert_eq!(resolution_for_gain(0x08), 0);
    assert_eq!(resolution_for_gain(0xff), 0);
    assert_eq!(
        field_from_counts(0x08, 32767, -32768, 1234),
        MagneticField { x: 0, y: 0, z: 0 }
    );
}

#[test]
fn big_endian_axis_assembly() {
    assert_eq!(assemble_axis(0x00, 0x64), 100);
    assert_eq!(assemble_axis(0xff, 0xec), -20);
    assert_eq!(assemble_axis(0x7f, 0xff), 32767);
    assert_eq!(assemble_axis(0x80, 0x00), -32768);
    assert_eq!(assemble_axis(0x01, 0x00), 256);
}

#[test]
fn on_wire_axis_order_is_x_z_y() {
    // x = 100, z = 50, y = -20, gain code 7 in the top bits of the configuration byte
    let data = [0x00, 0x64, 0x00, 0x32, 0xff, 0xec];
    let field = reading_from_registers(0xe0, &data);
    assert_eq!(field.x, 100 * 435);
    assert_eq!(field.z, 50 * 435);
    assert_eq!(field.y, -20 * 435);
}

#[test]
fn gain_from_top_bits_only() {
    let data = [0x00, 0x01, 0x00, 0x01, 0x00, 0x01];
    // code 1 with the low configuration bits set
    assert_eq!(reading_from_registers(0x3f, &data), MagneticField { x: 92, y: 92, z: 92 });
    assert_eq!(reading_from_registers(0x00, &data), MagneticField { x: 73, y: 73, z: 73 });
}

#[test]
fn sampler_reads_registers_in_order() {
    let mut sampler = Sampler::new();
    assert_eq!(sampler.next_register(), 0x01);
    let bytes = [0xe0u8, 0x00, 0x64, 0x00, 0x32, 0xff, 0xec];
    let expected_next = [0x03u8, 0x04, 0x05, 0x06, 0x07, 0x08];
    for i in 0..6 {
        assert_eq!(sampler.accept(Ok(bytes[i])), SampleStep::Read(expected_next[i]));
    }
    assert_eq!(
        sampler.accept(Ok(bytes[6])),
        SampleStep::Done(MagneticField { x: 100 * 435, y: -20 * 435, z: 50 * 435 })
    );
    // a new sample starts over
    assert_eq!(sampler.next_register(), 0x01);
}

#[test]
fn sampler_aborts_on_bus_error() {
    let mut sampler = Sampler::new();
    assert_eq!(sampler.accept(Ok(0x20)), SampleStep::Read(0x03));
    assert_eq!(sampler.accept(Ok(0x01)), SampleStep::Read(0x04));
    assert_eq!(sampler.accept(Err(BusError::Timeout)), SampleStep::Failed(BusError::Timeout));
    assert_eq!(sampler.next_register(), 0x01);
    assert_eq!(
        sampler.accept(Err(BusError::NotAcknowledged)),
        SampleStep::Failed(BusError::NotAcknowledged)
    );
}

#[test]
fn bus_error_resets_published_reading() {
    let mut store = SnapshotStore::new(MagnetometerState::new());
    assert_eq!(store.read().field, None);
    let field = MagneticField { x: 1, y: 2, z: 3 };
    record_sample(&mut store, Ok(field));
    assert_eq!(store.read().field, Some(field));
    record_sample(&mut store, Err(BusError::ArbitrationLost));
    assert_eq!(store.read().field, None);
    assert_eq!(MagnetometerState::from_sample(Err(BusError::Other)), MagnetometerState::new());
}
