//! The frame-rate override. The target keeps a timing record whose three
//! rotating delta-time slots feed a three-tick moving average; each tick the
//! override rewrites the record so that the target sees a steady virtual
//! frame time. The record is handled as its bytes, through a table of field
//! offsets: 32-bit fractions are carried as their IEEE-754 bit patterns.
use vstd::prelude::*;
use crate::bytes::{le32, le64, put, u32_at, le32_bytes, le64_bytes, put_bytes, read_u32};

verus! {

/// Length of the timing record.
pub const RECORD_LEN: usize = 0x5c;

pub const OFF_TOTAL_SUM: usize = 0x00;
pub const OFF_RECENT_SUM: usize = 0x04;
pub const OFF_ROLLING_SUM: usize = 0x08;
pub const OFF_INDEX: usize = 0x0c;
pub const OFF_SHORT_FRAMES: usize = 0x10;
pub const OFF_LAST_FRAME_COUNTER: usize = 0x18;
pub const OFF_PERFORMANCE_FREQUENCY: usize = 0x20;
pub const OFF_DELTATIME: usize = 0x30;
pub const OFF_FRAMETIME_ADJUSTMENT: usize = 0x34;
pub const OFF_FRAME_COUNT: usize = 0x38;
pub const OFF_LAST_FPS_UPDATE: usize = 0x40;
pub const OFF_FPS_1: usize = 0x48;
pub const OFF_FPS_2: usize = 0x4c;
pub const OFF_ENABLE_DYNAMIC_ADJUSTMENT: usize = 0x50;
pub const OFF_DYNAMIC_ADJUSTMENT_FLAG: usize = 0x51;
pub const OFF_FRAMETIME_OFFSET: usize = 0x54;
pub const OFF_TARGET_FRAMERATE: usize = 0x58;

/// Count of short frames written so that the target never shortens a tick.
pub const SHORT_FRAMES: u32 = 999;
/// Bit pattern of the frame-time offset the target always holds, -0.1.
pub const FRAMETIME_OFFSET_BITS: u32 = 0xbdcc_cccd;
pub const TARGET_FRAMERATE: u32 = 20;

/// The values of one override, fractions as `f32` bit patterns: the virtual
/// frame time, a third of it, twice that third, the frame rate it gives, the
/// current performance-counter reading and the counter's frequency.
#[derive(Clone, Copy, Debug, PartialEq, Eq, Structural)]
pub struct FpsOverride {
    pub deltatime: u32,
    pub third: u32,
    pub two_thirds: u32,
    pub fps: u32,
    pub timestamp: i64,
    pub performance_frequency: i64,
}

/// For a rotation index, how many thirds of the frame time each of the three
/// slots (total, recent, rolling) receives, and the index written back.
pub open spec fn rotation(index: u32) -> (Seq<nat>, u32) {
    if index == 1 {
        (seq![0, 2, 1], 0)
    } else if index == 2 {
        (seq![1, 0, 2], 1)
    } else {
        (seq![2, 1, 0], 2)
    }
}

pub open spec fn part_bits(v: FpsOverride, parts: nat) -> u32 {
    if parts == 0 {
        0
    } else if parts == 1 {
        v.third
    } else {
        v.two_thirds
    }
}

/// The three slots and the rotation index after one override.
pub open spec fn slots_image(s: Seq<u8>, v: FpsOverride) -> Seq<u8> {
    let rot = rotation(u32_at(s, OFF_INDEX as int));
    let s = put(s, OFF_TOTAL_SUM as int, le32(part_bits(v, rot.0[0])));
    let s = put(s, OFF_RECENT_SUM as int, le32(part_bits(v, rot.0[1])));
    let s = put(s, OFF_ROLLING_SUM as int, le32(part_bits(v, rot.0[2])));
    put(s, OFF_INDEX as int, le32(rot.1))
}

/// The fields that every override sets the same way, whatever the rotation.
pub open spec fn fixed_fields_image(s: Seq<u8>, v: FpsOverride) -> Seq<u8> {
    let s = put(s, OFF_SHORT_FRAMES as int, le32(SHORT_FRAMES));
    let s = put(s, OFF_LAST_FRAME_COUNTER as int, le64(v.timestamp as u64));
    let s = put(s, OFF_LAST_FPS_UPDATE as int, le64(v.timestamp as u64));
    let s = put(s, OFF_DELTATIME as int, le32(v.deltatime));
    let s = put(s, OFF_FRAMETIME_ADJUSTMENT as int, le32(v.deltatime));
    let s = put(s, OFF_FRAME_COUNT as int, le64(0));
    let s = put(s, OFF_FPS_1 as int, le32(v.fps));
    let s = put(s, OFF_FPS_2 as int, le32(v.fps));
    let s = put(s, OFF_ENABLE_DYNAMIC_ADJUSTMENT as int, seq![1u8]);
    let s = put(s, OFF_FRAMETIME_OFFSET as int, le32(FRAMETIME_OFFSET_BITS));
    let s = put(s, OFF_PERFORMANCE_FREQUENCY as int, le64(v.performance_frequency as u64));
    let s = put(s, OFF_DYNAMIC_ADJUSTMENT_FLAG as int, seq![0u8]);
    put(s, OFF_TARGET_FRAMERATE as int, le32(TARGET_FRAMERATE))
}

/// The timing record `s` after one override with values `v`; the fields the
/// override does not know keep their bytes.
pub open spec fn override_image(s: Seq<u8>, v: FpsOverride) -> Seq<u8> {
    fixed_fields_image(slots_image(s, v), v)
}

pub fn rotation_of(index: u32) -> (r: ([u8; 3], u32))
    ensures
        r.0@ == rotation(index).0.map_values(|p: nat| p as u8),
        r.1 == rotation(index).1,
{
    let r = if index == 1 {
        ([0u8, 2, 1], 0u32)
    } else if index == 2 {
        ([1u8, 0, 2], 1u32)
    } else {
        ([2u8, 1, 0], 2u32)
    };
    assert(r.0@ =~= rotation(index).0.map_values(|p: nat| p as u8));
    r
}

fn part_value(v: &FpsOverride, parts: u8) -> (r: u32)
    requires
        parts <= 2,
    ensures
        r == part_bits(*v, parts as nat),
{
    if parts == 0 {
        0
    } else if parts == 1 {
        v.third
    } else {
        v.two_thirds
    }
}

/// Rewrites the timing record for one tick of virtual frame time.
pub fn apply_fps_override(data: &mut Vec<u8>, v: &FpsOverride)
    requires
        old(data)@.len() == RECORD_LEN,
    ensures
        final(data)@ == override_image(old(data)@, *v),
        final(data)@.len() == RECORD_LEN,
{
    let ghost rot = rotation(u32_at(data@, OFF_INDEX as int));
    let (parts, next_index) = rotation_of(read_u32(data, OFF_INDEX));
    assert(parts@[0] as nat == rot.0[0] && parts@[1] as nat == rot.0[1] && parts@[2] as nat
        == rot.0[2]);
    put_bytes(data, OFF_TOTAL_SUM, &le32_bytes(part_value(v, parts[0])));
    put_bytes(data, OFF_RECENT_SUM, &le32_bytes(part_value(v, parts[1])));
    put_bytes(data, OFF_ROLLING_SUM, &le32_bytes(part_value(v, parts[2])));
    put_bytes(data, OFF_INDEX, &le32_bytes(next_index));
    put_bytes(data, OFF_SHORT_FRAMES, &le32_bytes(SHORT_FRAMES));
    put_bytes(data, OFF_LAST_FRAME_COUNTER, &le64_bytes(v.timestamp as u64));
    put_bytes(data, OFF_LAST_FPS_UPDATE, &le64_bytes(v.timestamp as u64));
    put_bytes(data, OFF_DELTATIME, &le32_bytes(v.deltatime));
    put_bytes(data, OFF_FRAMETIME_ADJUSTMENT, &le32_bytes(v.deltatime));
    put_bytes(data, OFF_FRAME_COUNT, &le64_bytes(0));
    put_bytes(data, OFF_FPS_1, &le32_bytes(v.fps));
    put_bytes(data, OFF_FPS_2, &le32_bytes(v.fps));
    put_bytes(data, OFF_ENABLE_DYNAMIC_ADJUSTMENT, &vec![1u8]);
    put_bytes(data, OFF_FRAMETIME_OFFSET, &le32_bytes(FRAMETIME_OFFSET_BITS));
    put_bytes(data, OFF_PERFORMANCE_FREQUENCY, &le64_bytes(v.performance_frequency as u64));
    put_bytes(data, OFF_DYNAMIC_ADJUSTMENT_FLAG, &vec![0u8]);
    put_bytes(data, OFF_TARGET_FRAMERATE, &le32_bytes(TARGET_FRAMERATE));
}

/// Each override gives the three slots three thirds of the frame time in all:
/// exactly one slot gets nothing, and it is the slot whose number becomes the
/// new rotation index; from one override to the next that index moves from
/// `i` to `(i + 2) % 3`, so the empty slot visits every slot once in three
/// ticks.
pub proof fn lemma_rotation(index: u32)
    ensures
        ({
            let (p, j) = rotation(index);
            &&& p.len() == 3
            &&& p[0] + p[1] + p[2] == 3
            &&& j < 3
            &&& p[j as int] == 0
            &&& forall|k: int| 0 <= k < 3 && k != j ==> p[k] > 0
            &&& index < 3 ==> j == (index + 2) % 3
            &&& rotation(rotation(rotation(j).1).1).1 == j
        }),
{
}

proof fn lemma_put_index(s: Seq<u8>, off: int, b: Seq<u8>, k: int)
    requires
        0 <= off,
        off + b.len() <= s.len(),
        0 <= k < s.len(),
    ensures
        put(s, off, b).len() == s.len(),
        put(s, off, b)[k] == if off <= k < off + b.len() {
            b[k - off]
        } else {
            s[k]
        },
{
}

proof fn lemma_le32_read_back(x: u32)
    ensures
        u32_at(le32(x), 0) == x,
{
    let b = le32(x);
    assert(b[0] == (x & 0xff) as u8 && b[1] == ((x >> 8) & 0xff) as u8 && b[2] == ((x >> 16) & 0xff) as u8
        && b[3] == (x >> 24) as u8);
    assert(((x & 0xff) as u8 as u32) | ((((x >> 8) & 0xff) as u8 as u32) << 8) | ((((x >> 16) & 0xff) as u8 as u32) << 16)
        | (((x >> 24) as u8 as u32) << 24) == x) by (bit_vector);
}

pub open spec fn same_index_bytes(a: Seq<u8>, b: Seq<u8>) -> bool {
    &&& a.len() == b.len()
    &&& a[12] == b[12]
    &&& a[13] == b[13]
    &&& a[14] == b[14]
    &&& a[15] == b[15]
}

proof fn lemma_put_above_index(s: Seq<u8>, off: int, b: Seq<u8>)
    requires
        16 <= off,
        off + b.len() <= s.len(),
    ensures
        same_index_bytes(s, put(s, off, b)),
{
    lemma_put_index(s, off, b, 12);
    lemma_put_index(s, off, b, 13);
    lemma_put_index(s, off, b, 14);
    lemma_put_index(s, off, b, 15);
}

proof fn lemma_fixed_fields_keep_index(s: Seq<u8>, v: FpsOverride)
    requires
        s.len() == RECORD_LEN,
    ensures
        same_index_bytes(s, fixed_fields_image(s, v)),
{
    let s1 = put(s, OFF_SHORT_FRAMES as int, le32(SHORT_FRAMES));
    lemma_put_above_index(s, 0x10, le32(SHORT_FRAMES));
    let s2 = put(s1, OFF_LAST_FRAME_COUNTER as int, le64(v.timestamp as u64));
    lemma_put_above_index(s1, 0x18, le64(v.timestamp as u64));
    let s3 = put(s2, OFF_LAST_FPS_UPDATE as int, le64(v.timestamp as u64));
    lemma_put_above_index(s2, 0x40, le64(v.timestamp as u64));
    let s4 = put(s3, OFF_DELTATIME as int, le32(v.deltatime));
    lemma_put_above_index(s3, 0x30, le32(v.deltatime));
    let s5 = put(s4, OFF_FRAMETIME_ADJUSTMENT as int, le32(v.deltatime));
    lemma_put_above_index(s4, 0x34, le32(v.deltatime));
    let s6 = put(s5, OFF_FRAME_COUNT as int, le64(0));
    lemma_put_above_index(s5, 0x38, le64(0));
    let s7 = put(s6, OFF_FPS_1 as int, le32(v.fps));
    lemma_put_above_index(s6, 0x48, le32(v.fps));
    let s8 = put(s7, OFF_FPS_2 as int, le32(v.fps));
    lemma_put_above_index(s7, 0x4c, le32(v.fps));
    let s9 = put(s8, OFF_ENABLE_DYNAMIC_ADJUSTMENT as int, seq![1u8]);
    lemma_put_above_index(s8, 0x50, seq![1u8]);
    let s10 = put(s9, OFF_FRAMETIME_OFFSET as int, le32(FRAMETIME_OFFSET_BITS));
    lemma_put_above_index(s9, 0x54, le32(FRAMETIME_OFFSET_BITS));
    let s11 = put(s10, OFF_PERFORMANCE_FREQUENCY as int, le64(v.performance_frequency as u64));
    lemma_put_above_index(s10, 0x20, le64(v.performance_frequency as u64));
    let s12 = put(s11, OFF_DYNAMIC_ADJUSTMENT_FLAG as int, seq![0u8]);
    lemma_put_above_index(s11, 0x51, seq![0u8]);
    lemma_put_above_index(s12, 0x58, le32(TARGET_FRAMERATE));
}

/// The rotation index that an override writes is the one the next override
/// reads, so successive overrides step the empty slot as `lemma_rotation` says.
pub proof fn lemma_index_read_back(s: Seq<u8>, v: FpsOverride)
    requires
        s.len() == RECORD_LEN,
    ensures
        u32_at(override_image(s, v), OFF_INDEX as int) == rotation(u32_at(s, OFF_INDEX as int)).1,
{
    let rot = rotation(u32_at(s, OFF_INDEX as int));
    let s1 = put(s, OFF_TOTAL_SUM as int, le32(part_bits(v, rot.0[0])));
    let s2 = put(s1, OFF_RECENT_SUM as int, le32(part_bits(v, rot.0[1])));
    let s3 = put(s2, OFF_ROLLING_SUM as int, le32(part_bits(v, rot.0[2])));
    let t = slots_image(s, v);
    assert(t == put(s3, 12, le32(rot.1)));
    lemma_put_index(s3, 12, le32(rot.1), 12);
    lemma_put_index(s3, 12, le32(rot.1), 13);
    lemma_put_index(s3, 12, le32(rot.1), 14);
    lemma_put_index(s3, 12, le32(rot.1), 15);
    lemma_fixed_fields_keep_index(t, v);
    lemma_le32_read_back(rot.1);
}

} // verus!
