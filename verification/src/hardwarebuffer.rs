//! Hardware buffers that the service allocates and shares.

use vstd::prelude::*;
use vstd::arithmetic::div_mod::{
    lemma_div_denominator, lemma_div_is_ordered, lemma_div_pos_is_pos, lemma_fundamental_div_mod,
    lemma_fundamental_div_mod_converse, lemma_mod_pos_bound,
};

use crate::connection::Connection;
use crate::items::{CpuUsage, CreateHardwareBufferRequest, Format, Method};
use crate::terr::{Res, TguiErr};

verus! {

/// A hardware buffer: the id the service gave it, the address of the
/// native buffer that was received, and its size.
#[derive(Debug, Clone, Copy, PartialEq, Eq, Structural)]
pub struct HardwareBuffer {
    pub id: i32,
    pub buffer: usize,
    pub width: i32,
    pub height: i32,
}

/// The value of four bytes read as a big-endian two's complement integer.
pub open spec fn be_i32(bytes: Seq<u8>) -> int {
    let u = bytes[0] * 0x100_0000 + bytes[1] * 0x1_0000 + bytes[2] * 0x100 + bytes[3];
    if u < 0x8000_0000 {
        u
    } else {
        u - 0x1_0000_0000
    }
}

/// The four bytes of `x` in big-endian order: the two's complement value
/// taken modulo 2^32, written in base 256, most significant digit first.
pub open spec fn be_bytes_of(x: int) -> Seq<u8> {
    let u = if x >= 0 {
        x
    } else {
        x + 0x1_0000_0000
    };
    seq![
        (u / 0x100_0000) as u8,
        ((u / 0x1_0000) % 0x100) as u8,
        ((u / 0x100) % 0x100) as u8,
        (u % 0x100) as u8,
    ]
}

/// Reading four bytes as a big-endian integer and writing that integer's
/// big-endian bytes gives back the same four bytes: every byte keeps its
/// place and its value, and the result is an `i32`.
pub proof fn lemma_be_i32_roundtrip(bytes: Seq<u8>)
    requires
        bytes.len() == 4,
    ensures
        i32::MIN <= be_i32(bytes) <= i32::MAX,
        be_bytes_of(be_i32(bytes)) == bytes,
{
    let b0 = bytes[0] as int;
    let b1 = bytes[1] as int;
    let b2 = bytes[2] as int;
    let b3 = bytes[3] as int;
    let u = b0 * 0x100_0000 + b1 * 0x1_0000 + b2 * 0x100 + b3;
    assert(u == bytes[0] * 0x100_0000 + bytes[1] * 0x1_0000 + bytes[2] * 0x100 + bytes[3]);
    lemma_fundamental_div_mod_converse(u, 0x100_0000, b0, b1 * 0x1_0000 + b2 * 0x100 + b3);
    lemma_fundamental_div_mod_converse(u, 0x1_0000, b0 * 0x100 + b1, b2 * 0x100 + b3);
    lemma_fundamental_div_mod_converse(b0 * 0x100 + b1, 0x100, b0, b1);
    lemma_fundamental_div_mod_converse(u, 0x100, b0 * 0x1_0000 + b1 * 0x100 + b2, b3);
    lemma_fundamental_div_mod_converse(b0 * 0x1_0000 + b1 * 0x100 + b2, 0x100, b0 * 0x100 + b1, b2);
    let back = be_bytes_of(be_i32(bytes));
    assert(back =~= bytes);
}

/// Writing an `i32` as four big-endian bytes and reading them back gives
/// the same integer: no two integers share their bytes.
pub proof fn lemma_be_bytes_roundtrip(x: i32)
    ensures
        be_i32(be_bytes_of(x as int)) == x,
{
    let u: int = if x >= 0 {
        x as int
    } else {
        x + 0x1_0000_0000
    };
    let q1 = u / 0x100;
    let q2 = q1 / 0x100;
    let q3 = q2 / 0x100;
    lemma_fundamental_div_mod(u, 0x100);
    lemma_fundamental_div_mod(q1, 0x100);
    lemma_fundamental_div_mod(q2, 0x100);
    lemma_div_denominator(u, 0x100, 0x100);
    lemma_div_denominator(q1, 0x100, 0x100);
    lemma_div_denominator(u, 0x1_0000, 0x100);
    assert(u / 0x1_0000 == q2);
    assert(u / 0x100_0000 == q3);
    lemma_div_pos_is_pos(u, 0x100_0000);
    lemma_div_is_ordered(u, 0xffff_ffff, 0x100_0000);
    assert(0xffff_ffffint / 0x100_0000 == 0xff);
    lemma_mod_pos_bound(u, 0x100);
    lemma_mod_pos_bound(q1, 0x100);
    lemma_mod_pos_bound(q2, 0x100);
    let b = be_bytes_of(x as int);
    assert(b[0] == q3 && b[1] == q2 % 0x100 && b[2] == q1 % 0x100 && b[3] == u % 0x100);
    assert(q3 * 0x100_0000 + (q2 % 0x100) * 0x1_0000 + (q1 % 0x100) * 0x100 + u % 0x100 == u)
        by (nonlinear_arith)
        requires
            u == 0x100 * q1 + u % 0x100,
            q1 == 0x100 * q2 + q1 % 0x100,
            q2 == 0x100 * q3 + q2 % 0x100,
    ;
}

/// The two low bytes of a big-endian integer whose high bytes are zero are
/// its value in base 256: `[0, 0, hi, lo]` reads as `hi * 256 + lo`.
pub proof fn lemma_be_i32_low_bytes(hi: u8, lo: u8)
    ensures
        be_i32(seq![0u8, 0u8, hi, lo]) == hi * 256 + lo,
{
}

impl Connection {

    /// The request that allocates an RGBA8888 buffer of `width` by
    /// `height`, rarely read or written by the CPU.
    pub fn hardware_buffer_request(width: i32, height: i32) -> (m: Method)
        ensures
            m == Method::CreateHardwareBuffer(
                CreateHardwareBufferRequest {
                    width,
                    height,
                    format: Format::Rgba8888,
                    cpu_read: CpuUsage::Rarely,
                    cpu_write: CpuUsage::Rarely,
                },
            ),
    {
        Method::CreateHardwareBuffer(
            CreateHardwareBufferRequest {
                width,
                height,
                format: Format::Rgba8888,
                cpu_read: CpuUsage::Rarely,
                cpu_write: CpuUsage::Rarely,
            },
        )
    }

    /// The buffer id that the service sends as four big-endian bytes after
    /// an allocation request: an id that is not positive is a refusal. An
    /// accepted id is read whole and unchanged: its own big-endian bytes are
    /// the four bytes received.
    pub fn hardware_buffer_id(bytes: [u8; 4]) -> (r: Res<i32>)
        ensures
            be_i32(bytes@) > 0 ==> r == Ok::<i32, TguiErr>(be_i32(bytes@) as i32),
            r matches Ok(id) ==> id > 0 && be_bytes_of(id as int) == bytes@,
            be_i32(bytes@) <= 0 ==> r == Err::<i32, TguiErr>(TguiErr::Msg("new_hardware_buffer")),
    {
        let u: u32 = (bytes[0] as u32) * 0x100_0000 + (bytes[1] as u32) * 0x1_0000
            + (bytes[2] as u32) * 0x100 + (bytes[3] as u32);
        let id: i32 = if u < 0x8000_0000 {
            u as i32
        } else {
            ((u - 0x8000_0000) as i32) - 0x4000_0000 - 0x4000_0000
        };
        assert(id == be_i32(bytes@));
        if id <= 0 {
            return Err(TguiErr::Msg("new_hardware_buffer"));
        }
        proof {
            lemma_be_i32_roundtrip(bytes@);
        }
        Ok(id)
    }
}

impl HardwareBuffer {
    /// The buffer with id `id` and size `width` by `height`, where the
    /// native buffer was received at `buffer`; where it was not, the
    /// refusal `failed to receive AHardwareBuffer`.
    pub fn from_parts(id: i32, buffer: Option<usize>, width: i32, height: i32) -> (r: Res<
        HardwareBuffer,
    >)
        ensures
            r == (match buffer {
                Some(b) => Ok::<HardwareBuffer, TguiErr>(HardwareBuffer { id, buffer: b, width, height }),
                None => Err(TguiErr::Msg("failed to receive AHardwareBuffer")),
            }),
    {
        match buffer {
            Some(b) => Ok(HardwareBuffer { id, buffer: b, width, height }),
            None => Err(TguiErr::Msg("failed to receive AHardwareBuffer")),
        }
    }
}

} // verus!
