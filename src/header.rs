use vstd::prelude::*;

use crate::size::Size;

verus! {

/// The largest original size that the short header form can carry.
/// A larger size selects the long form, with a 32-bit size field.
pub const MAX_SHORT_SIZE: i32 = 65535;

/// `n` as two big-endian bytes, taken modulo 2^16.
pub open spec fn be16(n: int) -> Seq<u8> {
    seq![((n % 0x1_0000) / 0x100) as u8, (n % 0x100) as u8]
}

/// `n` as four big-endian bytes, for `0 <= n < 2^32`.
pub open spec fn be32(n: int) -> Seq<u8> {
    seq![
        ((n / 0x100_0000) % 0x100) as u8,
        ((n / 0x1_0000) % 0x100) as u8,
        ((n / 0x100) % 0x100) as u8,
        (n % 0x100) as u8,
    ]
}

/// The header for a stream whose original data is `size` bytes long, coded in
/// units of `width`: a zero byte and the width code, then either the size as 16
/// bits, or two zero bytes and the size as 32 bits when it exceeds the short limit.
pub open spec fn header_bytes(size: int, width: Size) -> Seq<u8> {
    if size > MAX_SHORT_SIZE {
        seq![0u8, width.spec_code(), 0u8, 0u8] + be32(size)
    } else {
        seq![0u8, width.spec_code()] + be16(size)
    }
}

/// Writes the CMP header that precedes the compressed data.
///
/// `decompressed_size` is the length of the data before compression, and
/// `compression_type` the width that the data was compressed with. A negative
/// size is not meaningful; it is written as its low 16 bits.
pub fn create_header(decompressed_size: i32, compression_type: Size) -> (r: Vec<u8>)
    ensures
        r@ == header_bytes(decompressed_size as int, compression_type),
        r@[0] == 0,
        r@[1] == compression_type.spec_code(),
        0 <= decompressed_size <= MAX_SHORT_SIZE ==> {
            &&& r@.len() == 4
            &&& r@[2] * 0x100 + r@[3] == decompressed_size
        },
        decompressed_size > MAX_SHORT_SIZE ==> {
            &&& r@.len() == 8
            &&& r@[2] == 0 && r@[3] == 0
            &&& r@[4] * 0x100_0000 + r@[5] * 0x1_0000 + r@[6] * 0x100 + r@[7] == decompressed_size
        },
{
    let mut header: Vec<u8> = vec![0, compression_type.code()];
    if decompressed_size > MAX_SHORT_SIZE {
        let n: u32 = decompressed_size as u32;
        header.push(0);
        header.push(0);
        header.push((n / 0x100_0000 % 0x100) as u8);
        header.push((n / 0x1_0000 % 0x100) as u8);
        header.push((n / 0x100 % 0x100) as u8);
        header.push((n % 0x100) as u8);
        proof {
            lemma_be32_value(n as int);
        }
    } else {
        let n: u32 = if decompressed_size >= 0 {
            decompressed_size as u32
        } else {
            (decompressed_size as i64 + 0x1_0000_0000i64) as u32
        };
        header.push((n % 0x1_0000 / 0x100) as u8);
        header.push((n % 0x100) as u8);
        proof {
            if decompressed_size >= 0 {
                lemma_be16_value(decompressed_size as int);
            }
        }
    }
    header
}

/// Reading `be16(n)` back as a big-endian number gives `n` again.
proof fn lemma_be16_value(n: int)
    requires
        0 <= n < 0x1_0000,
    ensures
        be16(n)[0] * 0x100 + be16(n)[1] == n,
{
}

/// Reading `be32(n)` back as a big-endian number gives `n` again.
proof fn lemma_be32_value(n: int)
    requires
        0 <= n < 0x1_0000_0000,
    ensures
        be32(n)[0] * 0x100_0000 + be32(n)[1] * 0x1_0000 + be32(n)[2] * 0x100 + be32(n)[3] == n,
{
}

} // verus!
