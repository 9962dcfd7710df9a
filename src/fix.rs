//! Extraction of a navigation fix from decoded GNSS protocol packets.
//!
//! Quantities keep the integer scaling of the receiver's navigation solution
//! message: angles in 1e-7 degrees (position) or 1e-5 degrees (headings),
//! lengths in millimetres, speeds in millimetres per second, declination in
//! hundredths of a degree and dilution of precision in hundredths.
use vstd::prelude::*;

use crate::store::SnapshotStore;

verus! {

/// Bit of the additional-flags byte that reports UTC date and time as confirmed.
pub const CONFIRMED_TIME_FLAG: u8 = 0x20;

/// Qualitative classification of a fix.
#[derive(Clone, Copy, Debug, PartialEq, Eq, Structural)]
pub enum FixType {
    NoFix,
    DeadReckoning,
    Fix2D,
    Fix3D,
    GnssDeadReckoning,
    TimeOnly,
    /// A code that the protocol reserves.
    Reserved(u8),
}

/// The fix type that a packet's fix-type code stands for.
pub open spec fn fix_type_spec(code: u8) -> FixType {
    if code == 0 {
        FixType::NoFix
    } else if code == 1 {
        FixType::DeadReckoning
    } else if code == 2 {
        FixType::Fix2D
    } else if code == 3 {
        FixType::Fix3D
    } else if code == 4 {
        FixType::GnssDeadReckoning
    } else if code == 5 {
        FixType::TimeOnly
    } else {
        FixType::Reserved(code)
    }
}

/// The fix type that a packet's fix-type code stands for.
pub fn fix_type_from_code(code: u8) -> (r: FixType)
    ensures
        r == fix_type_spec(code),
{
    match code {
        0 => FixType::NoFix,
        1 => FixType::DeadReckoning,
        2 => FixType::Fix2D,
        3 => FixType::Fix3D,
        4 => FixType::GnssDeadReckoning,
        5 => FixType::TimeOnly,
        _ => FixType::Reserved(code),
    }
}

/// Latitude and longitude in 1e-7 degrees, height above the ellipsoid in millimetres.
#[derive(Clone, Copy, Debug, PartialEq, Eq, Structural)]
pub struct Position {
    pub latitude_e7: i32,
    pub longitude_e7: i32,
    pub height_mm: i32,
}

/// Velocity in the north-east-down frame, in millimetres per second.
#[derive(Clone, Copy, Debug, PartialEq, Eq, Structural)]
pub struct VelocityNed {
    pub north_mm_s: i32,
    pub east_mm_s: i32,
    pub down_mm_s: i32,
}

/// Accuracy estimates that accompany a fix.
#[derive(Clone, Copy, Debug, PartialEq, Eq, Structural)]
pub struct Accuracy {
    pub horizontal_mm: u32,
    pub vertical_mm: u32,
    pub speed_mm_s: u32,
    pub heading_e5: u32,
    pub declination_e2: u16,
}

/// UTC calendar date and time of day of an epoch, with its accuracy in nanoseconds.
#[derive(Clone, Copy, Debug, PartialEq, Eq, Structural)]
pub struct UtcTime {
    pub year: u16,
    pub month: u8,
    pub day: u8,
    pub hour: u8,
    pub min: u8,
    pub sec: u8,
    pub nanosecond: i32,
    pub accuracy_ns: u32,
}

/// The fields of one position-velocity-time packet as the decoder delivers them.
#[derive(Clone, Copy, Debug, PartialEq, Eq, Structural)]
pub struct NavPvtFields {
    pub itow_ms: u32,
    pub year: u16,
    pub month: u8,
    pub day: u8,
    pub hour: u8,
    pub min: u8,
    pub sec: u8,
    pub time_accuracy_ns: u32,
    pub nanosecond: i32,
    pub fix_type_code: u8,
    pub flags2: u8,
    pub satellites_used: u8,
    pub longitude_e7: i32,
    pub latitude_e7: i32,
    pub height_mm: i32,
    pub height_msl_mm: i32,
    pub horizontal_accuracy_mm: u32,
    pub vertical_accuracy_mm: u32,
    pub velocity_ned: VelocityNed,
    pub ground_speed_mm_s: i32,
    pub heading_motion_e5: i32,
    pub speed_accuracy_mm_s: u32,
    pub heading_accuracy_e5: u32,
    pub position_dilution_e2: u16,
    pub heading_vehicle_e5: i32,
    pub magnetic_declination_e2: i16,
    pub declination_accuracy_e2: u16,
}

/// One packet out of the GNSS protocol decoder.
#[derive(Clone, Copy, Debug, PartialEq, Eq, Structural)]
pub enum DecodedPacket {
    /// A position-velocity-time solution: the only kind that carries a fix.
    NavPvt(NavPvtFields),
    /// Any other kind of packet, identified by its class and message id.
    Other { class: u8, id: u8 },
}

/// Why the decoder dropped a malformed byte sequence.
#[derive(Clone, Copy, Debug, PartialEq, Eq, Structural)]
pub enum FrameError {
    InvalidChecksum,
    InvalidField,
    InvalidPacketLength,
    OutOfMemory,
}

/// The parts of a fix that every position-velocity-time packet supplies,
/// whatever its fix quality.
#[derive(Clone, Copy, Debug, PartialEq, Eq, Structural)]
pub struct Solution {
    pub time_of_week_ms: u32,
    pub fix_type: FixType,
    pub position: Position,
    pub height_msl_mm: i32,
    pub velocity_ned: VelocityNed,
    pub speed_over_ground_mm_s: i32,
    pub heading_motion_e5: i32,
    pub heading_vehicle_e5: i32,
    pub magnetic_declination_e2: i16,
    pub position_dilution_e2: u16,
    pub satellites_used: u8,
    pub accuracy: Accuracy,
}

/// One epoch's resolved navigation state.
///
/// `solution` is absent only before any fix packet arrived; `utc` is absent
/// whenever the epoch's time was not confirmed by the receiver.
#[derive(Clone, Copy, Debug, PartialEq, Eq, Structural)]
pub struct NavPvtState {
    pub solution: Option<Solution>,
    pub utc: Option<UtcTime>,
}

/// Whether the additional-flags byte reports the UTC time as confirmed.
pub open spec fn time_confirmed(flags2: u8) -> bool {
    flags2 & CONFIRMED_TIME_FLAG != 0
}

/// The always-valid part of the fix carried by `p`.
pub open spec fn solution_of(p: NavPvtFields) -> Solution {
    Solution {
        time_of_week_ms: p.itow_ms,
        fix_type: fix_type_spec(p.fix_type_code),
        position: Position {
            latitude_e7: p.latitude_e7,
            longitude_e7: p.longitude_e7,
            height_mm: p.height_mm,
        },
        height_msl_mm: p.height_msl_mm,
        velocity_ned: p.velocity_ned,
        speed_over_ground_mm_s: p.ground_speed_mm_s,
        heading_motion_e5: p.heading_motion_e5,
        heading_vehicle_e5: p.heading_vehicle_e5,
        magnetic_declination_e2: p.magnetic_declination_e2,
        position_dilution_e2: p.position_dilution_e2,
        satellites_used: p.satellites_used,
        accuracy: Accuracy {
            horizontal_mm: p.horizontal_accuracy_mm,
            vertical_mm: p.vertical_accuracy_mm,
            speed_mm_s: p.speed_accuracy_mm_s,
            heading_e5: p.heading_accuracy_e5,
            declination_e2: p.declination_accuracy_e2,
        },
    }
}

/// The UTC time carried by `p`, whether or not it is confirmed.
pub open spec fn utc_of(p: NavPvtFields) -> UtcTime {
    UtcTime {
        year: p.year,
        month: p.month,
        day: p.day,
        hour: p.hour,
        min: p.min,
        sec: p.sec,
        nanosecond: p.nanosecond,
        accuracy_ns: p.time_accuracy_ns,
    }
}

/// The fix that a position-velocity-time packet yields.
pub open spec fn fix_of(p: NavPvtFields) -> NavPvtState {
    NavPvtState {
        solution: Some(solution_of(p)),
        utc: if time_confirmed(p.flags2) { Some(utc_of(p)) } else { None },
    }
}

/// The fix that a decoded packet yields, if it is a fix packet.
pub open spec fn extract_spec(packet: DecodedPacket) -> Option<NavPvtState> {
    match packet {
        DecodedPacket::NavPvt(p) => Some(fix_of(p)),
        DecodedPacket::Other { .. } => None,
    }
}

impl NavPvtState {
    /// The state before any fix packet has arrived: nothing known.
    pub fn new() -> (r: Self)
        ensures
            r.solution is None,
            r.utc is None,
    {
        NavPvtState { solution: None, utc: None }
    }
}

/// Maps one decoded packet to a fix; packets of any other kind yield nothing.
///
/// The fix replaces any earlier one as a whole: its UTC part is left out
/// when the packet does not report its time as confirmed.
pub fn extract(packet: &DecodedPacket) -> (r: Option<NavPvtState>)
    ensures
        r == extract_spec(*packet),
{
    match packet {
        DecodedPacket::NavPvt(p) => {
            let solution = Solution {
                time_of_week_ms: p.itow_ms,
                fix_type: fix_type_from_code(p.fix_type_code),
                position: Position {
                    latitude_e7: p.latitude_e7,
                    longitude_e7: p.longitude_e7,
                    height_mm: p.height_mm,
                },
                height_msl_mm: p.height_msl_mm,
                velocity_ned: p.velocity_ned,
                speed_over_ground_mm_s: p.ground_speed_mm_s,
                heading_motion_e5: p.heading_motion_e5,
                heading_vehicle_e5: p.heading_vehicle_e5,
                magnetic_declination_e2: p.magnetic_declination_e2,
                position_dilution_e2: p.position_dilution_e2,
                satellites_used: p.satellites_used,
                accuracy: Accuracy {
                    horizontal_mm: p.horizontal_accuracy_mm,
                    vertical_mm: p.vertical_accuracy_mm,
                    speed_mm_s: p.speed_accuracy_mm_s,
                    heading_e5: p.heading_accuracy_e5,
                    declination_e2: p.declination_accuracy_e2,
                },
            };
            let utc = if p.flags2 & CONFIRMED_TIME_FLAG != 0 {
                Some(
                    UtcTime {
                        year: p.year,
                        month: p.month,
                        day: p.day,
                        hour: p.hour,
                        min: p.min,
                        sec: p.sec,
                        nanosecond: p.nanosecond,
                        accuracy_ns: p.time_accuracy_ns,
                    },
                )
            } else {
                None
            };
            Some(NavPvtState { solution: Some(solution), utc })
        },
        DecodedPacket::Other { .. } => None,
    }
}

/// Publishes the fix of `packet` into `store`; any other packet leaves it untouched.
pub fn handle_packet(store: &mut SnapshotStore<NavPvtState>, packet: &DecodedPacket)
    ensures
        match extract_spec(*packet) {
            Some(fix) => final(store)@ == fix,
            None => *final(store) == *old(store),
        },
{
    if let Some(fix) = extract(packet) {
        store.publish(fix);
    }
}

/// A packet of any kind other than position-velocity-time yields no fix, and
/// handling it leaves the store as it was.
pub proof fn lemma_non_fix_packet_ignored(class: u8, id: u8)
    ensures
        extract_spec(DecodedPacket::Other { class, id }) is None,
{
}

/// A fix packet whose time is not confirmed yields a fix without UTC time,
/// whatever time an earlier fix carried; everything else it carries is kept.
pub proof fn lemma_unconfirmed_time_omitted(p: NavPvtFields, previous: NavPvtState)
    requires
        !time_confirmed(p.flags2),
    ensures
        extract_spec(DecodedPacket::NavPvt(p)) == Some(
            NavPvtState { solution: Some(solution_of(p)), utc: None },
        ),
        extract_spec(DecodedPacket::NavPvt(p)) != Some(
            NavPvtState { solution: Some(solution_of(p)), utc: previous.utc },
        ) || previous.utc is None,
{
}

/// The fix of the last fix packet among `packets`, if any; frame errors and
/// packets of other kinds contribute nothing.
pub open spec fn last_fix(packets: Seq<Result<DecodedPacket, FrameError>>) -> Option<NavPvtState>
    decreases packets.len(),
{
    if packets.len() == 0 {
        None
    } else {
        match packets.last() {
            Ok(packet) if extract_spec(packet) is Some => extract_spec(packet),
            _ => last_fix(packets.drop_last()),
        }
    }
}

/// Handles the packets decoded from one read of the GNSS transport, in order.
///
/// Each fix is published as it comes, so the store ends up holding the fix of
/// the last fix packet; frame errors are dropped without touching the store.
pub fn process_packets(
    store: &mut SnapshotStore<NavPvtState>,
    packets: &Vec<Result<DecodedPacket, FrameError>>,
)
    ensures
        match last_fix(packets@) {
            Some(fix) => final(store)@ == fix,
            None => *final(store) == *old(store),
        },
{
    let mut i: usize = 0;
    while i < packets.len()
        invariant
            i <= packets@.len(),
            match last_fix(packets@.take(i as int)) {
                Some(fix) => store@ == fix,
                None => *store == *old(store),
            },
        decreases packets@.len() - i,
    {
        assert(packets@.take(i + 1).drop_last() == packets@.take(i as int));
        if let Ok(packet) = &packets[i] {
            handle_packet(store, packet);
        }
        i = i + 1;
    }
    assert(packets@.take(packets@.len() as int) == packets@);
}

} // verus!
