//! The decoding capability consumed by the fixed-width specialization: a
//! record type knows its byte width under a decoding context and how to decode
//! one record at a byte offset. Decoding is total on the validated region, so
//! a bounds check made once at construction covers every later access.

use vstd::prelude::*;

verus! {

/// Byte order used as the decoding context for the integer records.
#[derive(Clone, Copy, Debug, PartialEq, Eq, Structural)]
pub enum Endian {
    Little,
    Big,
}

/// A fixed-width record decodable from a byte buffer under a context `Ctx`.
///
/// `spec_size_with` must depend on the context alone (never on an index or on
/// the bytes), so that the offset arithmetic `index * size` of the fixed-width
/// view is valid. A record of width zero is permitted and trivially decodable
/// at any index: every index then decodes the same zero-byte value.
pub trait FromCtx<Ctx>: Sized {
    /// The byte width of one record under `ctx`.
    spec fn spec_size_with(ctx: Ctx) -> nat;

    /// The record decoded from `bytes` at `offset`.
    spec fn spec_from_ctx(bytes: Seq<u8>, offset: int, ctx: Ctx) -> Self;

    /// The executable byte width; it must agree with the specification width.
    fn size_with(ctx: &Ctx) -> (r: usize)
        ensures
            r as nat == Self::spec_size_with(*ctx),
    ;

    /// Decode one record at `offset`; the caller guarantees that the record
    /// lies entirely inside `bytes`.
    fn from_ctx(bytes: &[u8], offset: usize, ctx: Ctx) -> (r: Self)
        requires
            offset + Self::spec_size_with(ctx) <= bytes@.len(),
        ensures
            r == Self::spec_from_ctx(bytes@, offset as int, ctx),
    ;
}

impl FromCtx<Endian> for u16 {
    open spec fn spec_size_with(ctx: Endian) -> nat {
        2
    }

    open spec fn spec_from_ctx(bytes: Seq<u8>, offset: int, ctx: Endian) -> u16 {
        match ctx {
            Endian::Big => ((bytes[offset] as nat) * 0x100 + (bytes[offset + 1] as nat)) as u16,
            Endian::Little => ((bytes[offset + 1] as nat) * 0x100 + (bytes[offset] as nat)) as u16,
        }
    }

    fn size_with(ctx: &Endian) -> usize {
        2
    }

    fn from_ctx(bytes: &[u8], offset: usize, ctx: Endian) -> u16 {
        let b0 = bytes[offset] as u16;
        let b1 = bytes[offset + 1] as u16;
        match ctx {
            Endian::Big => b0 * 0x100 + b1,
            Endian::Little => b1 * 0x100 + b0,
        }
    }
}

impl FromCtx<Endian> for u32 {
    open spec fn spec_size_with(ctx: Endian) -> nat {
        4
    }

    open spec fn spec_from_ctx(bytes: Seq<u8>, offset: int, ctx: Endian) -> u32 {
        match ctx {
            Endian::Big => ((bytes[offset] as nat) * 0x100_0000 + (bytes[offset + 1] as nat)
                * 0x1_0000 + (bytes[offset + 2] as nat) * 0x100 + (bytes[offset + 3] as nat)) as u32,
            Endian::Little => ((bytes[offset + 3] as nat) * 0x100_0000 + (bytes[offset + 2] as nat)
                * 0x1_0000 + (bytes[offset + 1] as nat) * 0x100 + (bytes[offset] as nat)) as u32,
        }
    }

    fn size_with(ctx: &Endian) -> usize {
        4
    }

    fn from_ctx(bytes: &[u8], offset: usize, ctx: Endian) -> u32 {
        let b0 = bytes[offset] as u32;
        let b1 = bytes[offset + 1] as u32;
        let b2 = bytes[offset + 2] as u32;
        let b3 = bytes[offset + 3] as u32;
        match ctx {
            Endian::Big => b0 * 0x100_0000 + b1 * 0x1_0000 + b2 * 0x100 + b3,
            Endian::Little => b3 * 0x100_0000 + b2 * 0x1_0000 + b1 * 0x100 + b0,
        }
    }
}

impl FromCtx<Endian> for u64 {
    open spec fn spec_size_with(ctx: Endian) -> nat {
        8
    }

    open spec fn spec_from_ctx(bytes: Seq<u8>, offset: int, ctx: Endian) -> u64 {
        match ctx {
            Endian::Big => ((bytes[offset] as nat) * 0x100_0000_0000_0000 + (bytes[offset + 1] as nat)
                * 0x1_0000_0000_0000 + (bytes[offset + 2] as nat) * 0x100_0000_0000
                + (bytes[offset + 3] as nat) * 0x1_0000_0000 + (bytes[offset + 4] as nat)
                * 0x100_0000 + (bytes[offset + 5] as nat) * 0x1_0000 + (bytes[offset + 6] as nat)
                * 0x100 + (bytes[offset + 7] as nat)) as u64,
            Endian::Little => ((bytes[offset + 7] as nat) * 0x100_0000_0000_0000
                + (bytes[offset + 6] as nat) * 0x1_0000_0000_0000 + (bytes[offset + 5] as nat)
                * 0x100_0000_0000 + (bytes[offset + 4] as nat) * 0x1_0000_0000
                + (bytes[offset + 3] as nat) * 0x100_0000 + (bytes[offset + 2] as nat) * 0x1_0000
                + (bytes[offset + 1] as nat) * 0x100 + (bytes[offset] as nat)) as u64,
        }
    }

    fn size_with(ctx: &Endian) -> usize {
        8
    }

    fn from_ctx(bytes: &[u8], offset: usize, ctx: Endian) -> u64 {
        let b0 = bytes[offset] as u64;
        let b1 = bytes[offset + 1] as u64;
        let b2 = bytes[offset + 2] as u64;
        let b3 = bytes[offset + 3] as u64;
        let b4 = bytes[offset + 4] as u64;
        let b5 = bytes[offset + 5] as u64;
        let b6 = bytes[offset + 6] as u64;
        let b7 = bytes[offset + 7] as u64;
        match ctx {
            Endian::Big => b0 * 0x100_0000_0000_0000 + b1 * 0x1_0000_0000_0000 + b2
                * 0x100_0000_0000 + b3 * 0x1_0000_0000 + b4 * 0x100_0000 + b5 * 0x1_0000 + b6
                * 0x100 + b7,
            Endian::Little => b7 * 0x100_0000_0000_0000 + b6 * 0x1_0000_0000_0000 + b5
                * 0x100_0000_0000 + b4 * 0x1_0000_0000 + b3 * 0x100_0000 + b2 * 0x1_0000 + b1
                * 0x100 + b0,
        }
    }
}

/// A composite record: an 8-byte integer followed by a 2-byte integer, laid
/// out back to back, each in the context's byte order — the shape of a
/// typical two-field packed record.
impl FromCtx<Endian> for (u64, u16) {
    open spec fn spec_size_with(ctx: Endian) -> nat {
        10
    }

    open spec fn spec_from_ctx(bytes: Seq<u8>, offset: int, ctx: Endian) -> (u64, u16) {
        (u64::spec_from_ctx(bytes, offset, ctx), u16::spec_from_ctx(bytes, offset + 8, ctx))
    }

    fn size_with(ctx: &Endian) -> usize {
        10
    }

    fn from_ctx(bytes: &[u8], offset: usize, ctx: Endian) -> (u64, u16) {
        let src_size = bytes.len();
        proof {
            // Both fields lie inside the slice, whose length fits in usize.
            assert(offset + 10 <= src_size);
        }
        (u64::from_ctx(bytes, offset, ctx), u16::from_ctx(bytes, offset + 8, ctx))
    }
}

} // verus!
