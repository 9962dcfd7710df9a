//! Sampling of a three-axis magnetometer through single-register reads.
//!
//! A sample reads the configuration register, whose top three bits select the
//! gain, and then the six data registers in the device's on-wire order:
//! x high, x low, z high, z low, y high, y low. Each axis is a signed 16-bit
//! big-endian count, scaled by the gain's resolution. Resolutions are held in
//! hundredths of a milligauss per count (0.73 mG per count is 73), so field
//! components are exact integers in hundredths of a milligauss.
use vstd::prelude::*;

use crate::store::SnapshotStore;

verus! {

/// Number of register reads that make one sample.
pub const SAMPLE_READS: usize = 7;

/// The register that holds the gain configuration.
pub const CONFIG_REGISTER: u8 = 0x01;

/// The first data register (x high byte); the others follow it in address order.
pub const FIRST_DATA_REGISTER: u8 = 0x03;

/// A failed transaction on the magnetometer's bus.
#[derive(Clone, Copy, Debug, PartialEq, Eq, Structural)]
pub enum BusError {
    Timeout,
    NotAcknowledged,
    ArbitrationLost,
    Other,
}

/// A magnetic field vector, each component in hundredths of a milligauss.
#[derive(Clone, Copy, Debug, PartialEq, Eq, Structural)]
pub struct MagneticField {
    pub x: i32,
    pub y: i32,
    pub z: i32,
}

/// The latest magnetometer reading; `field` is absent before the first
/// successful sample and after a failed one.
#[derive(Clone, Copy, Debug, PartialEq, Eq, Structural)]
pub struct MagnetometerState {
    pub field: Option<MagneticField>,
}

/// Resolution, in hundredths of a milligauss per count, of each gain code;
/// codes outside the table give zero.
pub open spec fn resolution_spec(code: u8) -> u32 {
    if code == 0 {
        73
    } else if code == 1 {
        92
    } else if code == 2 {
        122
    } else if code == 3 {
        152
    } else if code == 4 {
        227
    } else if code == 5 {
        256
    } else if code == 6 {
        303
    } else if code == 7 {
        435
    } else {
        0
    }
}

/// The gain code held in the top three bits of the configuration byte.
pub open spec fn gain_code(config: u8) -> u8 {
    config >> 5u8
}

/// The signed 16-bit count whose big-endian bytes are `hi` and `lo`.
pub open spec fn count_of(hi: u8, lo: u8) -> int {
    let unsigned = hi as int * 256 + lo as int;
    if unsigned >= 32768 {
        unsigned - 65536
    } else {
        unsigned
    }
}

/// The field measured with gain code `code` for the counts `x`, `y`, `z`.
pub open spec fn field_spec(code: u8, x: int, y: int, z: int) -> MagneticField {
    let res = resolution_spec(code) as int;
    MagneticField { x: (x * res) as i32, y: (y * res) as i32, z: (z * res) as i32 }
}

/// The field that a configuration byte and six data bytes, in on-wire order, give.
pub open spec fn field_of_registers(config: u8, data: Seq<u8>) -> MagneticField
    recommends
        data.len() == 6,
{
    field_spec(
        gain_code(config),
        count_of(data[0], data[1]),
        count_of(data[4], data[5]),
        count_of(data[2], data[3]),
    )
}

/// The register read at position `i` of a sample.
pub open spec fn register_at_spec(i: int) -> u8 {
    if i == 0 {
        CONFIG_REGISTER
    } else {
        (FIRST_DATA_REGISTER + i - 1) as u8
    }
}

/// The resolution of a gain code, in hundredths of a milligauss per count.
pub fn resolution_for_gain(code: u8) -> (r: u32)
    ensures
        r == resolution_spec(code),
{
    match code {
        0 => 73,
        1 => 92,
        2 => 122,
        3 => 152,
        4 => 227,
        5 => 256,
        6 => 303,
        7 => 435,
        _ => 0,
    }
}

/// The signed count whose big-endian bytes are `hi` and `lo`.
pub fn assemble_axis(hi: u8, lo: u8) -> (r: i16)
    ensures
        r as int == count_of(hi, lo),
{
    let unsigned: i32 = hi as i32 * 256 + lo as i32;
    if unsigned >= 32768 {
        (unsigned - 65536) as i16
    } else {
        unsigned as i16
    }
}

/// Scales the raw counts of each axis by the resolution of gain code `code`.
pub fn field_from_counts(code: u8, x: i16, y: i16, z: i16) -> (r: MagneticField)
    ensures
        r == field_spec(code, x as int, y as int, z as int),
        r.x == x as int * resolution_spec(code) as int,
        r.y == y as int * resolution_spec(code) as int,
        r.z == z as int * resolution_spec(code) as int,
{
    let res = resolution_for_gain(code) as i32;
    assert(-32768 * 435 <= x * res <= 32767 * 435) by (nonlinear_arith)
        requires
            -32768 <= x <= 32767,
            0 <= res <= 435,
    ;
    assert(-32768 * 435 <= y * res <= 32767 * 435) by (nonlinear_arith)
        requires
            -32768 <= y <= 32767,
            0 <= res <= 435,
    ;
    assert(-32768 * 435 <= z * res <= 32767 * 435) by (nonlinear_arith)
        requires
            -32768 <= z <= 32767,
            0 <= res <= 435,
    ;
    MagneticField { x: x as i32 * res, y: y as i32 * res, z: z as i32 * res }
}

/// The field that a configuration byte and the six data bytes, in on-wire
/// order (x, z, y, each high byte first), give.
pub fn reading_from_registers(config: u8, data: &[u8; 6]) -> (r: MagneticField)
    ensures
        r == field_of_registers(config, data@),
{
    let code = config >> 5u8;
    let x = assemble_axis(data[0], data[1]);
    let z = assemble_axis(data[2], data[3]);
    let y = assemble_axis(data[4], data[5]);
    field_from_counts(code, x, y, z)
}

/// A code outside the gain table zeroes every axis, whatever the raw counts.
pub proof fn lemma_unknown_gain_zeroes_field(code: u8, x: int, y: int, z: int)
    requires
        code > 7,
    ensures
        field_spec(code, x, y, z) == (MagneticField { x: 0, y: 0, z: 0 }),
{
}

/// What the sampler asks of its caller after taking one read.
#[derive(Clone, Copy, Debug, PartialEq, Eq, Structural)]
pub enum SampleStep {
    /// Read this register next and hand the outcome back.
    Read(u8),
    /// The sample is complete.
    Done(MagneticField),
    /// A read failed; the sample is abandoned.
    Failed(BusError),
}

/// The decisions of one magnetometer sample, one register read at a time.
///
/// The caller performs each read that the sampler names and hands back its
/// outcome; the sampler never holds the bus, so no lock is held while
/// waiting on the device.
pub struct Sampler {
    bytes: Vec<u8>,
}

impl View for Sampler {
    type V = Seq<u8>;

    /// The bytes read so far in the current sample.
    closed spec fn view(&self) -> Seq<u8> {
        self.bytes@
    }
}

impl Sampler {
    pub closed spec fn wf(&self) -> bool {
        self.bytes@.len() < SAMPLE_READS
    }

    /// A sampler at the start of a sample.
    pub fn new() -> (r: Self)
        ensures
            r.wf(),
            r@ == Seq::<u8>::empty(),
    {
        Sampler { bytes: Vec::new() }
    }

    /// The register whose value the sampler needs next.
    pub fn next_register(&self) -> (r: u8)
        requires
            self.wf(),
        ensures
            r == register_at_spec(self@.len() as int),
    {
        let i = self.bytes.len();
        if i == 0 {
            CONFIG_REGISTER
        } else {
            FIRST_DATA_REGISTER + (i - 1) as u8
        }
    }

    /// Takes the outcome of reading the register named by `next_register`.
    ///
    /// A failed read abandons the sample; the seventh successful read
    /// completes it. Either way the sampler starts over.
    pub fn accept(&mut self, read: Result<u8, BusError>) -> (r: SampleStep)
        requires
            old(self).wf(),
        ensures
            final(self).wf(),
            match read {
                Err(e) => r == SampleStep::Failed(e) && final(self)@ == Seq::<u8>::empty(),
                Ok(b) => if old(self)@.len() + 1 == SAMPLE_READS {
                    r == SampleStep::Done(
                        field_of_registers(old(self)@[0], old(self)@.push(b).subrange(1, 7)),
                    ) && final(self)@ == Seq::<u8>::empty()
                } else {
                    r == SampleStep::Read(register_at_spec(old(self)@.len() + 1int))
                        && final(self)@ == old(self)@.push(b)
                },
            },
    {
        match read {
            Err(e) => {
                self.bytes = Vec::new();
                SampleStep::Failed(e)
            },
            Ok(b) => {
                self.bytes.push(b);
                if self.bytes.len() == SAMPLE_READS {
                    let data: [u8; 6] = [
                        self.bytes[1],
                        self.bytes[2],
                        self.bytes[3],
                        self.bytes[4],
                        self.bytes[5],
                        self.bytes[6],
                    ];
                    let field = reading_from_registers(self.bytes[0], &data);
                    proof {
                        assert(data@ =~= self.bytes@.subrange(1, 7));
                    }
                    self.bytes = Vec::new();
                    SampleStep::Done(field)
                } else {
                    SampleStep::Read(self.next_register())
                }
            },
        }
    }
}

impl MagnetometerState {
    /// The state with no valid reading.
    pub fn new() -> (r: Self)
        ensures
            r.field is None,
    {
        MagnetometerState { field: None }
    }

    /// The state that the outcome of a sample leaves: the field on success,
    /// no reading on a bus error rather than the stale previous one.
    pub fn from_sample(sample: Result<MagneticField, BusError>) -> (r: Self)
        ensures
            r.field == match sample {
                Ok(f) => Some(f),
                Err(_) => None::<MagneticField>,
            },
    {
        match sample {
            Ok(f) => MagnetometerState { field: Some(f) },
            Err(_) => MagnetometerState { field: None },
        }
    }
}

/// Publishes the outcome of a sample: the new field, or no reading after a bus error.
pub fn record_sample(
    store: &mut SnapshotStore<MagnetometerState>,
    sample: Result<MagneticField, BusError>,
)
    ensures
        final(store)@.field == match sample {
            Ok(f) => Some(f),
            Err(_) => None::<MagneticField>,
        },
{
    store.publish(MagnetometerState::from_sample(sample));
}

} // verus!
