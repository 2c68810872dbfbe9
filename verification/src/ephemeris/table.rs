//! The binary ephemeris table format.
//!
//! A table file is a 40-byte little-endian header followed by `count`
//! fixed-size samples:
//!
//! | offset | size | field                                     |
//! |--------|------|-------------------------------------------|
//! | 0      | 8    | magic `DEOEPH1\0`                         |
//! | 8      | 4    | format version (`1`)                      |
//! | 12     | 4    | stable body id                            |
//! | 16     | 8    | step between samples, seconds (IEEE-754)  |
//! | 24     | 8    | time of the first sample, seconds (IEEE-754) |
//! | 32     | 4    | number of samples                         |
//! | 36     | 4    | reserved                                  |
//! | 40     | 32·n | samples: x, y, vx, vy (IEEE-754 each)     |
//!
//! Floating-point values are kept here as their IEEE-754 bit patterns; the
//! application turns them into numbers.

use vstd::prelude::*;

verus! {

/// Size of the table header in bytes.
pub const HEADER_LEN: usize = 40;

/// Size of one sample record in bytes.
pub const SAMPLE_LEN: usize = 32;

/// The supported format version.
pub const VERSION: u32 = 1;

/// Bit pattern of `f64::INFINITY`. The finite, strictly positive `f64`
/// values are exactly those whose bit pattern lies in `1 .. POSITIVE_INFINITY_BITS`.
pub const POSITIVE_INFINITY_BITS: u64 = 0x7FF0_0000_0000_0000;

/// Position and velocity of a body at one sample time, as IEEE-754 bit
/// patterns of metres and metres per second.
#[derive(Clone, Copy, Debug, PartialEq, Eq, Structural)]
pub struct State2 {
    pub pos_x: u64,
    pub pos_y: u64,
    pub vel_x: u64,
    pub vel_y: u64,
}

/// An ephemeris table as read from its binary form.
#[derive(Clone, Debug)]
pub struct EphemerisTable {
    /// Stable numeric id of the body the table describes.
    pub body_id: u32,
    /// Step between samples, in seconds (IEEE-754 bit pattern).
    pub step_seconds: u64,
    /// Time of the first sample, in seconds since J2000 (IEEE-754 bit pattern).
    pub start_t0: u64,
    /// The samples, one per step.
    pub samples: Vec<State2>,
}

/// The mathematical content of an [`EphemerisTable`].
pub struct TableModel {
    pub body_id: u32,
    pub step_seconds: u64,
    pub start_t0: u64,
    pub samples: Seq<State2>,
}

impl View for EphemerisTable {
    type V = TableModel;

    open spec fn view(&self) -> TableModel {
        TableModel {
            body_id: self.body_id,
            step_seconds: self.step_seconds,
            start_t0: self.start_t0,
            samples: self.samples@,
        }
    }
}

/// Why a table could not be read or used.
#[derive(Clone, Copy, Debug, PartialEq, Eq, Structural)]
pub enum EphemerisTableError {
    /// The file does not start with `DEOEPH1\0`.
    BadMagic,
    /// The header names a version other than [`VERSION`].
    UnsupportedVersion(u32),
    /// The table describes another body than the one it was loaded for.
    BodyIdMismatch { expected: u32, got: u32 },
    /// The table holds no sample.
    Empty,
    /// The step is not a finite, strictly positive number (IEEE-754 bit pattern).
    InvalidStepSize(u64),
}

/// The unsigned little-endian number held by the four bytes at `off`.
pub open spec fn le_u32_at(b: Seq<u8>, off: int) -> int {
    b[off] + 256 * b[off + 1] + 65536 * b[off + 2] + 16777216 * b[off + 3]
}

/// The unsigned little-endian number held by the eight bytes at `off`.
pub open spec fn le_u64_at(b: Seq<u8>, off: int) -> int {
    le_u32_at(b, off) + 4294967296 * le_u32_at(b, off + 4)
}

/// The eight magic bytes `DEOEPH1\0`.
pub open spec fn magic_bytes() -> Seq<u8> {
    seq![0x44u8, 0x45u8, 0x4Fu8, 0x45u8, 0x50u8, 0x48u8, 0x31u8, 0x00u8]
}

/// The input starts with the magic bytes.
pub open spec fn has_magic(b: Seq<u8>) -> bool {
    b.len() >= 8 && b.subrange(0, 8) == magic_bytes()
}

/// A bit pattern of a finite `f64` strictly greater than zero: sign bit clear,
/// not `+0.0`, exponent not all ones (neither infinity nor NaN).
pub open spec fn step_is_valid(bits: u64) -> bool {
    0 < bits < POSITIVE_INFINITY_BITS
}

pub open spec fn header_version(b: Seq<u8>) -> int {
    le_u32_at(b, 8)
}

pub open spec fn header_body_id(b: Seq<u8>) -> int {
    le_u32_at(b, 12)
}

pub open spec fn header_step(b: Seq<u8>) -> int {
    le_u64_at(b, 16)
}

pub open spec fn header_start(b: Seq<u8>) -> int {
    le_u64_at(b, 24)
}

pub open spec fn header_count(b: Seq<u8>) -> int {
    le_u32_at(b, 32)
}

/// The sample record that starts at byte `off`.
pub open spec fn sample_at(b: Seq<u8>, off: int) -> State2 {
    State2 {
        pos_x: le_u64_at(b, off) as u64,
        pos_y: le_u64_at(b, off + 8) as u64,
        vel_x: le_u64_at(b, off + 16) as u64,
        vel_y: le_u64_at(b, off + 24) as u64,
    }
}

/// The input holds every byte that reading it touches: reading stops at the
/// first field that is refused, and otherwise goes through the last sample.
pub open spec fn fits_layout(b: Seq<u8>) -> bool {
    &&& b.len() >= 8
    &&& has_magic(b) ==> b.len() >= 12
    &&& has_magic(b) && header_version(b) == VERSION ==> b.len() >= HEADER_LEN
    &&& has_magic(b) && header_version(b) == VERSION && b.len() >= HEADER_LEN && step_is_valid(
        header_step(b) as u64,
    ) && header_count(b) > 0 ==> b.len() >= HEADER_LEN + SAMPLE_LEN * header_count(b)
}

/// What reading a table out of `b` gives.
pub open spec fn spec_from_bytes(b: Seq<u8>) -> Result<TableModel, EphemerisTableError> {
    if !has_magic(b) {
        Err(EphemerisTableError::BadMagic)
    } else if header_version(b) != VERSION {
        Err(EphemerisTableError::UnsupportedVersion(header_version(b) as u32))
    } else if !step_is_valid(header_step(b) as u64) {
        Err(EphemerisTableError::InvalidStepSize(header_step(b) as u64))
    } else if header_count(b) == 0 {
        Err(EphemerisTableError::Empty)
    } else {
        Ok(
            TableModel {
                body_id: header_body_id(b) as u32,
                step_seconds: header_step(b) as u64,
                start_t0: header_start(b) as u64,
                samples: Seq::new(
                    header_count(b) as nat,
                    |i: int| sample_at(b, HEADER_LEN + SAMPLE_LEN * i),
                ),
            },
        )
    }
}

/// The view of a reading result.
pub open spec fn table_result_view(r: Result<EphemerisTable, EphemerisTableError>) -> Result<
    TableModel,
    EphemerisTableError,
> {
    match r {
        Ok(t) => Ok(t@),
        Err(e) => Err(e),
    }
}

/// A forward-only reader over a byte slice.
pub struct Cursor<'a> {
    pub bytes: &'a [u8],
    pub offset: usize,
}

impl<'a> Cursor<'a> {
    /// A reader at the start of `bytes`.
    pub fn new(bytes: &'a [u8]) -> (r: Self)
        ensures
            r.bytes@ == bytes@,
            r.offset == 0,
    {
        Self { bytes, offset: 0 }
    }

    /// Fill `out` with the next `out.len()` bytes and move past them.
    pub fn read_exact(&mut self, out: &mut [u8])
        requires
            old(self).offset + old(out)@.len() <= old(self).bytes@.len(),
        ensures
            final(self).bytes@ == old(self).bytes@,
            final(self).offset == old(self).offset + old(out)@.len(),
            final(out)@ == old(self).bytes@.subrange(
                old(self).offset as int,
                old(self).offset + old(out)@.len(),
            ),
    {
        let total = self.bytes.len();
        let n = out.len();
        assert(self.offset + n <= total);
        let end = self.offset + n;
        let mut i: usize = 0;
        while i < n
            invariant
                n == out@.len(),
                n == old(out)@.len(),
                end == self.offset + n,
                end <= self.bytes@.len(),
                self.bytes@ == old(self).bytes@,
                self.offset == old(self).offset,
                0 <= i <= n,
                forall|j: int| 0 <= j < i ==> out@[j] == self.bytes@[self.offset + j],
            decreases n - i,
        {
            out[i] = self.bytes[self.offset + i];
            i = i + 1;
        }
        assert(out@ =~= self.bytes@.subrange(self.offset as int, end as int));
        self.offset = end;
    }

    /// Read a little-endian `u32`.
    pub fn read_u32_le(&mut self) -> (r: u32)
        requires
            old(self).offset + 4 <= old(self).bytes@.len(),
        ensures
            final(self).bytes@ == old(self).bytes@,
            final(self).offset == old(self).offset + 4,
            r == le_u32_at(old(self).bytes@, old(self).offset as int),
    {
        let mut b = [0u8; 4];
        self.read_exact(&mut b);
        b[0] as u32 + b[1] as u32 * 256 + b[2] as u32 * 65536 + b[3] as u32 * 16777216
    }

    /// Read the IEEE-754 bit pattern of a little-endian `f64`.
    pub fn read_f64_le(&mut self) -> (r: u64)
        requires
            old(self).offset + 8 <= old(self).bytes@.len(),
        ensures
            final(self).bytes@ == old(self).bytes@,
            final(self).offset == old(self).offset + 8,
            r == le_u64_at(old(self).bytes@, old(self).offset as int),
    {
        let mut b = [0u8; 8];
        self.read_exact(&mut b);
        let lo: u64 = b[0] as u64 + b[1] as u64 * 256 + b[2] as u64 * 65536 + b[3] as u64
            * 16777216;
        let hi: u64 = b[4] as u64 + b[5] as u64 * 256 + b[6] as u64 * 65536 + b[7] as u64
            * 16777216;
        lo + hi * 4294967296
    }
}

/// The eight bytes read at the start of a table are the magic bytes.
fn is_magic(m: &[u8; 8]) -> (r: bool)
    ensures
        r == (m@ == magic_bytes()),
{
    let r = m[0] == 0x44 && m[1] == 0x45 && m[2] == 0x4F && m[3] == 0x45 && m[4] == 0x50 && m[5]
        == 0x48 && m[6] == 0x31 && m[7] == 0x00;
    if r {
        assert(m@ =~= magic_bytes());
    } else {
        assert(m@ != magic_bytes()) by {
            if m@ == magic_bytes() {
                assert(m@[0] == magic_bytes()[0] && m@[1] == magic_bytes()[1]);
                assert(m@[2] == magic_bytes()[2] && m@[3] == magic_bytes()[3]);
                assert(m@[4] == magic_bytes()[4] && m@[5] == magic_bytes()[5]);
                assert(m@[6] == magic_bytes()[6] && m@[7] == magic_bytes()[7]);
            }
        }
    }
    r
}

impl EphemerisTable {
    /// Read a table out of its binary form.
    ///
    /// Fails on a wrong magic header, an unsupported version, a step that is
    /// not a finite positive number, or a table without samples, checked in
    /// that order.
    pub fn from_bytes(bytes: &[u8]) -> (r: Result<Self, EphemerisTableError>)
        requires
            fits_layout(bytes@),
        ensures
            table_result_view(r) == spec_from_bytes(bytes@),
            (r is Ok) == (has_magic(bytes@) && le_u32_at(bytes@, 8) == 1 && 0 < le_u64_at(
                bytes@,
                16,
            ) < POSITIVE_INFINITY_BITS && le_u32_at(bytes@, 32) > 0),
            !has_magic(bytes@) ==> r == Err::<Self, _>(EphemerisTableError::BadMagic),
            has_magic(bytes@) && le_u32_at(bytes@, 8) != 1 ==> r == Err::<Self, _>(
                EphemerisTableError::UnsupportedVersion(le_u32_at(bytes@, 8) as u32),
            ),
            has_magic(bytes@) && le_u32_at(bytes@, 8) == 1 && !(0 < le_u64_at(bytes@, 16)
                < POSITIVE_INFINITY_BITS) ==> r == Err::<Self, _>(
                EphemerisTableError::InvalidStepSize(le_u64_at(bytes@, 16) as u64),
            ),
            has_magic(bytes@) && le_u32_at(bytes@, 8) == 1 && 0 < le_u64_at(bytes@, 16)
                < POSITIVE_INFINITY_BITS && le_u32_at(bytes@, 32) == 0 ==> r == Err::<Self, _>(
                EphemerisTableError::Empty,
            ),
            (r matches Ok(t) ==> {
                &&& t.body_id == le_u32_at(bytes@, 12)
                &&& t.step_seconds == le_u64_at(bytes@, 16)
                &&& t.start_t0 == le_u64_at(bytes@, 24)
                &&& t.samples@.len() == le_u32_at(bytes@, 32)
                &&& forall|i: int|
                    0 <= i < t.samples@.len() ==> {
                        &&& (#[trigger] t.samples@[i]).pos_x == le_u64_at(bytes@, 40 + 32 * i)
                        &&& t.samples@[i].pos_y == le_u64_at(bytes@, 40 + 32 * i + 8)
                        &&& t.samples@[i].vel_x == le_u64_at(bytes@, 40 + 32 * i + 16)
                        &&& t.samples@[i].vel_y == le_u64_at(bytes@, 40 + 32 * i + 24)
                    }
            }),
    {
        proof {
            lemma_table_layout(bytes@);
        }
        let mut r = Cursor::new(bytes);

        let mut magic = [0u8; 8];
        r.read_exact(&mut magic);
        if !is_magic(&magic) {
            return Err(EphemerisTableError::BadMagic);
        }
        let version = r.read_u32_le();
        if version != VERSION {
            return Err(EphemerisTableError::UnsupportedVersion(version));
        }
        let body_id = r.read_u32_le();
        let step_seconds = r.read_f64_le();
        let start_t0 = r.read_f64_le();
        let count = r.read_u32_le() as usize;
        let _reserved = r.read_u32_le();

        // The step must be a finite, strictly positive number.
        if step_seconds == 0 || step_seconds >= POSITIVE_INFINITY_BITS {
            return Err(EphemerisTableError::InvalidStepSize(step_seconds));
        }
        if count == 0 {
            return Err(EphemerisTableError::Empty);
        }

        let ghost b = bytes@;
        let mut samples: Vec<State2> = Vec::new();
        let mut k: usize = 0;
        while k < count
            invariant
                b == bytes@,
                r.bytes@ == b,
                count == header_count(b),
                b.len() >= HEADER_LEN + SAMPLE_LEN * count,
                0 <= k <= count,
                r.offset == HEADER_LEN + SAMPLE_LEN * k,
                samples@.len() == k,
                forall|j: int|
                    0 <= j < k ==> #[trigger] samples@[j] == sample_at(b, HEADER_LEN + SAMPLE_LEN * j),
            decreases count - k,
        {
            let ghost off = r.offset as int;
            let x = r.read_f64_le();
            let y = r.read_f64_le();
            let vx = r.read_f64_le();
            let vy = r.read_f64_le();
            let s = State2 { pos_x: x, pos_y: y, vel_x: vx, vel_y: vy };
            assert(s == sample_at(b, off));
            samples.push(s);
            k = k + 1;
        }
        assert(samples@ =~= Seq::new(
            header_count(b) as nat,
            |i: int| sample_at(b, HEADER_LEN + SAMPLE_LEN * i),
        ));
        Ok(Self { body_id, step_seconds, start_t0, samples })
    }

    /// Whether `bytes` holds every byte that [`EphemerisTable::from_bytes`]
    /// reads, so that it may be called on them.
    pub fn is_complete(bytes: &[u8]) -> (r: bool)
        ensures
            r == fits_layout(bytes@),
            bytes@.len() < 8 ==> !r,
            bytes@.len() >= 40 && bytes@.len() >= 40 + 32 * le_u32_at(bytes@, 32) ==> r,
            (r && spec_from_bytes(bytes@) is Ok) ==> bytes@.len() >= 40 + 32 * le_u32_at(
                bytes@,
                32,
            ),
    {
        let len = bytes.len();
        if len < 8 {
            return false;
        }
        let mut c = Cursor::new(bytes);
        let mut magic = [0u8; 8];
        c.read_exact(&mut magic);
        if !is_magic(&magic) {
            return true;
        }
        if len < 12 {
            return false;
        }
        let version = c.read_u32_le();
        if version != VERSION {
            return true;
        }
        if len < HEADER_LEN {
            return false;
        }
        let _body_id = c.read_u32_le();
        let step = c.read_f64_le();
        let _start = c.read_f64_le();
        let count = c.read_u32_le();
        if step == 0 || step >= POSITIVE_INFINITY_BITS || count == 0 {
            return true;
        }
        len as u64 >= HEADER_LEN as u64 + SAMPLE_LEN as u64 * count as u64
    }
}

/// A table that reads successfully can be sampled: it has at least one
/// sample, one per count in its header, and a finite positive step.
pub proof fn lemma_read_table_is_usable(b: Seq<u8>)
    ensures
        spec_from_bytes(b) matches Ok(t) ==> {
            &&& t.samples.len() >= 1
            &&& t.samples.len() == header_count(b)
            &&& step_is_valid(t.step_seconds)
            &&& t.body_id == header_body_id(b)
        },
{
}

/// The layout of a table file, read field by field: reading succeeds exactly
/// when the file starts with the magic bytes, names version 1, has a finite
/// positive step and at least one sample; each refusal names the first field
/// that fails, in that order; and a table that is read holds the header's
/// body id, step and start time, and as its `i`-th sample the four
/// little-endian values of the `i`-th 32-byte record after the 40-byte
/// header, for every `i` below the header's count.
pub proof fn lemma_table_layout(b: Seq<u8>)
    ensures
        (spec_from_bytes(b) is Ok) == (has_magic(b) && le_u32_at(b, 8) == 1 && 0 < le_u64_at(b, 16)
            < POSITIVE_INFINITY_BITS && le_u32_at(b, 32) > 0),
        !has_magic(b) ==> spec_from_bytes(b) == Err::<TableModel, _>(EphemerisTableError::BadMagic),
        has_magic(b) && le_u32_at(b, 8) != 1 ==> spec_from_bytes(b) == Err::<TableModel, _>(
            EphemerisTableError::UnsupportedVersion(le_u32_at(b, 8) as u32),
        ),
        has_magic(b) && le_u32_at(b, 8) == 1 && !(0 < le_u64_at(b, 16) < POSITIVE_INFINITY_BITS)
            ==> spec_from_bytes(b) == Err::<TableModel, _>(
            EphemerisTableError::InvalidStepSize(le_u64_at(b, 16) as u64),
        ),
        has_magic(b) && le_u32_at(b, 8) == 1 && 0 < le_u64_at(b, 16) < POSITIVE_INFINITY_BITS
            && le_u32_at(b, 32) == 0 ==> spec_from_bytes(b) == Err::<TableModel, _>(
            EphemerisTableError::Empty,
        ),
        (spec_from_bytes(b) matches Ok(t) ==> {
            &&& t.body_id == le_u32_at(b, 12)
            &&& t.step_seconds == le_u64_at(b, 16)
            &&& t.start_t0 == le_u64_at(b, 24)
            &&& t.samples.len() == le_u32_at(b, 32)
            &&& forall|i: int|
                0 <= i < t.samples.len() ==> {
                    &&& (#[trigger] t.samples[i]).pos_x == le_u64_at(b, 40 + 32 * i)
                    &&& t.samples[i].pos_y == le_u64_at(b, 40 + 32 * i + 8)
                    &&& t.samples[i].vel_x == le_u64_at(b, 40 + 32 * i + 16)
                    &&& t.samples[i].vel_y == le_u64_at(b, 40 + 32 * i + 24)
                }
        }),
{
}

} // verus!
