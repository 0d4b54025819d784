//! The 14-byte fixed-point IMU frame shared by all tracker models.
//!
//! A frame holds seven little-endian signed 16-bit numbers: the rotation
//! quaternion `x y z w`, then the raw gravity vector `x y z`. Everything
//! is kept in exact fixed point:
//!
//! * a rotation component counts units of 0.01/180, so that the real value
//!   is the count divided by [`ROTATION_SCALE`];
//! * an acceleration component is a numerator over
//!   [`ACCELERATION_SCALE`].
//!
//! Turning the fixed-point values into floating point, normalizing the
//! quaternion and deriving Euler angles is left to the caller.

use crate::bindings::le_i16;
use crate::bindings::read_i16_le;
use crate::error::ErrorKind;
use crate::model::MagStatus;
use vstd::prelude::*;
use vstd::slice::slice_subrange;

verus! {

/// The number of bytes of an IMU frame that the codec reads.
pub const IMU_FRAME_LEN: usize = 14;

/// A rotation component is its count divided by this.
pub const ROTATION_SCALE: i32 = 18000;

/// A raw gravity component is its count divided by this, in g.
pub const GRAVITY_SCALE: i64 = 256;

/// An acceleration component is its numerator divided by this.
pub const ACCELERATION_SCALE: i64 = 81_000_000_000;

/// What one raw gravity count weighs in an acceleration numerator:
/// `ACCELERATION_SCALE / GRAVITY_SCALE`.
pub const GRAVITY_WEIGHT: i64 = 316_406_250;

/// What one unit of rotated gravity weighs in an acceleration numerator.
/// Gravity is 9.81 and its empirical gain 1.2; their product 2943/250,
/// divided by the squared rotation scale, is 2943 over
/// `ACCELERATION_SCALE`.
pub const ROTATED_WEIGHT: i64 = 2943;

/// A quaternion in fixed point, already in the bridge's axis convention
/// (the device's `z` and `w` negated).
#[derive(Debug, Clone, Copy, PartialEq, Eq, Structural)]
pub struct Rotation {
    pub x: i32,
    pub y: i32,
    pub z: i32,
    pub w: i32,
}

/// Linear acceleration with gravity removed, in fixed point.
#[derive(Debug, Clone, Copy, PartialEq, Eq, Structural)]
pub struct Acceleration {
    pub x: i64,
    pub y: i64,
    pub z: i64,
}

/// One decoded IMU frame.
#[derive(Debug, PartialEq, Eq)]
pub struct IMUData {
    pub tracker_name: String,
    pub rotation: Rotation,
    pub acceleration: Acceleration,
    /// The ankle sensor's reading, where the frame carries one.
    pub ankle: Option<u16>,
    pub mag_status: Option<MagStatus>,
}

/// A quaternion over the integers, scalar part first.
pub struct Quaternion {
    pub w: int,
    pub x: int,
    pub y: int,
    pub z: int,
}

/// The Hamilton product `a · b`.
pub open spec fn hamilton(a: Quaternion, b: Quaternion) -> Quaternion {
    Quaternion {
        w: a.w * b.w - a.x * b.x - a.y * b.y - a.z * b.z,
        x: a.w * b.x + a.x * b.w + a.y * b.z - a.z * b.y,
        y: a.w * b.y - a.x * b.z + a.y * b.w + a.z * b.x,
        z: a.w * b.z + a.x * b.y - a.y * b.x + a.z * b.w,
    }
}

/// The conjugate `q*`.
pub open spec fn conjugate(q: Quaternion) -> Quaternion {
    Quaternion { w: q.w, x: -q.x, y: -q.y, z: -q.z }
}

/// The direction of gravity, `(0, 0, 0, 1)`. Its magnitude is part of
/// [`ROTATED_WEIGHT`].
pub open spec fn gravity_axis() -> Quaternion {
    Quaternion { w: 0, x: 0, y: 0, z: 1 }
}

/// Gravity rotated by `q`: `q · p · q*`. The rotation need not be a unit
/// quaternion.
pub open spec fn rotated_gravity(q: Quaternion) -> Quaternion {
    hamilton(hamilton(q, gravity_axis()), conjugate(q))
}

/// The little-endian signed number at bytes `at` and `at + 1`.
pub open spec fn word_at(data: Seq<u8>, at: int) -> int {
    le_i16(data[at], data[at + 1])
}

/// The rotation that a frame holds: the first four words, the third and
/// fourth negated.
pub open spec fn frame_rotation(data: Seq<u8>) -> Quaternion {
    Quaternion {
        w: -word_at(data, 6),
        x: word_at(data, 0),
        y: word_at(data, 2),
        z: -word_at(data, 4),
    }
}

impl Rotation {
    /// The rotation as a quaternion over the integers.
    pub open spec fn quaternion(&self) -> Quaternion {
        Quaternion { w: self.w as int, x: self.x as int, y: self.y as int, z: self.z as int }
    }

    /// The squared length, in squared units.
    pub open spec fn norm_squared(&self) -> int {
        self.x * self.x + self.y * self.y + self.z * self.z + self.w * self.w
    }

    /// Whether the rotation has length zero. Such a rotation cannot be
    /// scaled to length one and tells no orientation.
    pub fn is_zero(&self) -> (r: bool)
        ensures
            r == (self.norm_squared() == 0),
    {
        proof {
            let (x, y, z, w) = (self.x as int, self.y as int, self.z as int, self.w as int);
            assert(x * x + y * y + z * z + w * w == 0 <==> x == 0 && y == 0 && z == 0 && w == 0)
                by (nonlinear_arith);
        }
        self.x == 0 && self.y == 0 && self.z == 0 && self.w == 0
    }
}

/// The acceleration that a frame holds: raw gravity plus, on `x` and `y`,
/// or minus, on `z`, the matching component of the rotated gravity.
pub open spec fn frame_acceleration(data: Seq<u8>) -> (int, int, int) {
    let h = rotated_gravity(frame_rotation(data));
    (
        word_at(data, 8) * GRAVITY_WEIGHT + h.x * ROTATED_WEIGHT,
        word_at(data, 10) * GRAVITY_WEIGHT + h.y * ROTATED_WEIGHT,
        word_at(data, 12) * GRAVITY_WEIGHT - h.z * ROTATED_WEIGHT,
    )
}

/// The rotation that a frame holds, in fixed point.
pub open spec fn decoded_rotation(data: Seq<u8>) -> Rotation {
    Rotation {
        x: frame_rotation(data).x as i32,
        y: frame_rotation(data).y as i32,
        z: frame_rotation(data).z as i32,
        w: frame_rotation(data).w as i32,
    }
}

/// The acceleration that a frame holds, in fixed point.
pub open spec fn decoded_acceleration(data: Seq<u8>) -> Acceleration {
    Acceleration {
        x: frame_acceleration(data).0 as i64,
        y: frame_acceleration(data).1 as i64,
        z: frame_acceleration(data).2 as i64,
    }
}

/// The largest magnitude of an acceleration numerator.
pub open spec fn acceleration_bound() -> int {
    32768 * GRAVITY_WEIGHT + 4 * 32768 * 32768 * ROTATED_WEIGHT
}

/// Rotated gravity written out: with `p = (0, 0, 0, 1)`, `q · p · q*` is
/// `(0, 2(xz + wy), 2(yz - wx), w² - x² - y² + z²)`.
pub proof fn lemma_rotated_gravity(q: Quaternion)
    ensures
        rotated_gravity(q).w == 0,
        rotated_gravity(q).x == 2 * (q.x * q.z + q.w * q.y),
        rotated_gravity(q).y == 2 * (q.y * q.z - q.w * q.x),
        rotated_gravity(q).z == q.w * q.w - q.x * q.x - q.y * q.y + q.z * q.z,
{
    let a = hamilton(q, gravity_axis());
    assert(a.w == -q.z && a.x == q.y && a.y == -q.x && a.z == q.w) by (nonlinear_arith)
        requires
            a == hamilton(q, gravity_axis()),
    ;
    let c = conjugate(q);
    let h = hamilton(a, c);
    assert(h.w == 0 && h.x == 2 * (q.x * q.z + q.w * q.y) && h.y == 2 * (q.y * q.z - q.w * q.x)
        && h.z == q.w * q.w - q.x * q.x - q.y * q.y + q.z * q.z) by (nonlinear_arith)
        requires
            h == hamilton(a, c),
            a.w == -q.z && a.x == q.y && a.y == -q.x && a.z == q.w,
            c.w == q.w && c.x == -q.x && c.y == -q.y && c.z == -q.z,
    ;
}

/// The product of two 16-bit magnitudes.
fn product(a: i64, b: i64) -> (r: i64)
    requires
        -32768 <= a <= 32768,
        -32768 <= b <= 32768,
    ensures
        r == a * b,
        -1073741824 <= r <= 1073741824,
{
    assert(-1073741824 <= a * b <= 1073741824) by (nonlinear_arith)
        requires
            -32768 <= a <= 32768,
            -32768 <= b <= 32768,
    ;
    a * b
}

/// Reads the word at byte offset `at`.
fn read_word(data: &[u8], at: usize) -> (r: i16)
    requires
        at <= 12,
        at + 2 <= data@.len(),
    ensures
        r as int == word_at(data@, at as int),
{
    let pair = slice_subrange(data, at, at + 2);
    read_i16_le(pair)
}

/// Decodes the IMU frame at the start of `data` for the tracker
/// `tracker_name`.
///
/// The frame is rejected with `InvalidPacket` when the name is empty or
/// fewer than 14 bytes are given; bytes past the fourteenth are ignored.
/// The ankle reading and the magnetometer status are not part of the
/// frame proper and are left unset.
pub fn decode_imu(data: &[u8], tracker_name: &str) -> (r: Result<IMUData, ErrorKind>)
    ensures
        r is Ok <==> tracker_name@.len() > 0 && data@.len() >= 14,
        r matches Err(e) ==> e == ErrorKind::InvalidPacket,
        r matches Ok(imu) ==> imu.tracker_name@ == tracker_name@,
        r matches Ok(imu) ==> imu.rotation.quaternion() == frame_rotation(data@),
        r matches Ok(imu) ==> (imu.acceleration.x as int, imu.acceleration.y as int, imu.acceleration.z as int)
            == frame_acceleration(data@),
        r matches Ok(imu) ==> imu.ankle is None && imu.mag_status is None,
        r matches Ok(imu) ==> imu.rotation == decoded_rotation(data@),
        r matches Ok(imu) ==> imu.acceleration == decoded_acceleration(data@),
{
    if tracker_name.unicode_len() == 0 || data.len() < IMU_FRAME_LEN {
        return Err(ErrorKind::InvalidPacket);
    }
    let x: i64 = read_word(data, 0) as i64;
    let y: i64 = read_word(data, 2) as i64;
    let z: i64 = -(read_word(data, 4) as i64);
    let w: i64 = -(read_word(data, 6) as i64);
    let gx: i64 = read_word(data, 8) as i64;
    let gy: i64 = read_word(data, 10) as i64;
    let gz: i64 = read_word(data, 12) as i64;

    let hx: i64 = 2 * (product(x, z) + product(w, y));
    let hy: i64 = 2 * (product(y, z) - product(w, x));
    let hz: i64 = product(w, w) - product(x, x) - product(y, y) + product(z, z);
    proof {
        lemma_rotated_gravity(frame_rotation(data@));
    }
    let acceleration = Acceleration {
        x: gx * GRAVITY_WEIGHT + hx * ROTATED_WEIGHT,
        y: gy * GRAVITY_WEIGHT + hy * ROTATED_WEIGHT,
        z: gz * GRAVITY_WEIGHT - hz * ROTATED_WEIGHT,
    };
    let rotation = Rotation { x: x as i32, y: y as i32, z: z as i32, w: w as i32 };
    Ok(
        IMUData {
            tracker_name: String::from_str(tracker_name),
            rotation,
            acceleration,
            ankle: None,
            mag_status: None,
        },
    )
}

/// Every decoded rotation has components that, divided by its length, lie
/// between -1 and 1: the square of each is at most the squared length.
/// Every decoded acceleration is finite: each numerator lies within
/// [`acceleration_bound`]. Both are held without loss: the fixed-point
/// values are those of the frame.
pub proof fn lemma_decoded_frame_bounded(data: Seq<u8>)
    requires
        data.len() >= 14,
    ensures
        ({
            let r = decoded_rotation(data);
            &&& r.quaternion() == frame_rotation(data)
            &&& r.x * r.x <= r.norm_squared()
            &&& r.y * r.y <= r.norm_squared()
            &&& r.z * r.z <= r.norm_squared()
            &&& r.w * r.w <= r.norm_squared()
        }),
        ({
            let a = decoded_acceleration(data);
            &&& (a.x as int, a.y as int, a.z as int) == frame_acceleration(data)
            &&& -acceleration_bound() <= a.x <= acceleration_bound()
            &&& -acceleration_bound() <= a.y <= acceleration_bound()
            &&& -acceleration_bound() <= a.z <= acceleration_bound()
        }),
{
    let q = frame_rotation(data);
    assert(q.x * q.x >= 0 && q.y * q.y >= 0 && q.z * q.z >= 0 && q.w * q.w >= 0)
        by (nonlinear_arith);
    lemma_rotated_gravity(q);
    lemma_products_bounded(q.x, q.z);
    lemma_products_bounded(q.w, q.y);
    lemma_products_bounded(q.y, q.z);
    lemma_products_bounded(q.w, q.x);
    lemma_products_bounded(q.w, q.w);
    lemma_products_bounded(q.x, q.x);
    lemma_products_bounded(q.y, q.y);
    lemma_products_bounded(q.z, q.z);
}

proof fn lemma_products_bounded(a: int, b: int)
    requires
        -32768 <= a <= 32768,
        -32768 <= b <= 32768,
    ensures
        -1073741824 <= a * b <= 1073741824,
        a == b ==> a * b >= 0,
{
    assert(-1073741824 <= a * b <= 1073741824) by (nonlinear_arith)
        requires
            -32768 <= a <= 32768,
            -32768 <= b <= 32768,
    ;
    assert(a == b ==> a * b >= 0) by (nonlinear_arith);
}

} // verus!
