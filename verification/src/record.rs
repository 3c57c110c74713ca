//! The 17-byte file record and its packed little-endian layout.

use vstd::prelude::*;

verus! {

/// Bytes one packed record occupies.
pub const RECORD_LEN: usize = 17;

/// Width of the fixed, padded file name.
pub const NAME_LEN: usize = 8;

/// Value of the active byte of a slot that is in use.
pub const ACTIVE: u8 = 1;

/// Value of the active byte of a slot that may be claimed.
pub const FREE: u8 = 0;

/// A file record as the directory holds it.
#[derive(Clone, Copy, Debug, PartialEq, Eq)]
pub struct FileRecord {
    pub name: [u8; 8],
    pub start_sector: u32,
    pub size: u32,
    pub active: u8,
}

/// What a file record means: the name as a byte sequence beside the three numbers.
pub struct RecordModel {
    pub name: Seq<u8>,
    pub start_sector: u32,
    pub size: u32,
    pub active: u8,
}

impl View for FileRecord {
    type V = RecordModel;

    open spec fn view(&self) -> RecordModel {
        RecordModel {
            name: self.name@,
            start_sector: self.start_sector,
            size: self.size,
            active: self.active,
        }
    }
}

/// The four bytes of `v`, least significant first.
pub open spec fn le_bytes(v: u32) -> Seq<u8> {
    seq![
        (v % 256) as u8,
        (v / 256 % 256) as u8,
        (v / 65536 % 256) as u8,
        (v / 16777216) as u8,
    ]
}

/// The number whose least-significant-first bytes stand at `at .. at + 4` of `bytes`.
pub open spec fn le_value(bytes: Seq<u8>, at: int) -> u32 {
    (bytes[at] + 256 * bytes[at + 1] + 65536 * bytes[at + 2] + 16777216 * bytes[at + 3]) as u32
}

impl RecordModel {
    /// The packed form: name, start sector, size, active byte.
    pub open spec fn packed(self) -> Seq<u8> {
        self.name + le_bytes(self.start_sector) + le_bytes(self.size) + seq![self.active]
    }

    /// The record whose packed form stands at `at .. at + 17` of `bytes`.
    pub open spec fn unpacked(bytes: Seq<u8>, at: int) -> RecordModel {
        RecordModel {
            name: bytes.subrange(at, at + 8),
            start_sector: le_value(bytes, at + 8),
            size: le_value(bytes, at + 12),
            active: bytes[at + 16],
        }
    }

    /// A record is in use exactly when its active byte is 1.
    pub open spec fn in_use(self) -> bool {
        self.active == ACTIVE
    }

    /// A record may be claimed exactly when its active byte is 0.
    pub open spec fn claimable(self) -> bool {
        self.active == FREE
    }
}

/// Packing a number and reading it back gives the number.
pub proof fn le_round_trip(v: u32)
    ensures
        le_bytes(v).len() == 4,
        le_value(le_bytes(v), 0) == v,
{
}

/// Packing a record and unpacking the result gives the record back.
pub proof fn pack_round_trip(r: RecordModel)
    requires
        r.name.len() == 8,
    ensures
        r.packed().len() == 17,
        RecordModel::unpacked(r.packed(), 0) == r,
{
    let p = r.packed();
    assert(p.subrange(0, 8) =~= r.name);
    le_round_trip(r.start_sector);
    le_round_trip(r.size);
    assert(p[8] == le_bytes(r.start_sector)[0]);
    assert(p[9] == le_bytes(r.start_sector)[1]);
    assert(p[10] == le_bytes(r.start_sector)[2]);
    assert(p[11] == le_bytes(r.start_sector)[3]);
    assert(p[12] == le_bytes(r.size)[0]);
    assert(p[13] == le_bytes(r.size)[1]);
    assert(p[14] == le_bytes(r.size)[2]);
    assert(p[15] == le_bytes(r.size)[3]);
}

/// Splits a number into its four bytes, least significant first.
pub fn u32_to_le(v: u32) -> (out: [u8; 4])
    ensures
        out@ == le_bytes(v),
{
    let out: [u8; 4] = [
        (v % 256) as u8,
        (v / 256 % 256) as u8,
        (v / 65536 % 256) as u8,
        (v / 16777216) as u8,
    ];
    assert(out@ =~= le_bytes(v));
    out
}

/// Joins the four bytes at `at .. at + 4`, least significant first.
pub fn u32_from_le(bytes: &[u8], at: usize) -> (v: u32)
    requires
        at + 4 <= bytes@.len(),
    ensures
        v == le_value(bytes@, at as int),
{
    let b0: u32 = bytes[at] as u32;
    let b1: u32 = bytes[at + 1] as u32;
    let b2: u32 = bytes[at + 2] as u32;
    let b3: u32 = bytes[at + 3] as u32;
    b0 + 256 * b1 + 65536 * b2 + 16777216 * b3
}

impl FileRecord {
    /// The record's 17 packed bytes.
    pub fn pack(&self) -> (out: [u8; 17])
        ensures
            out@ == self@.packed(),
    {
        let start: [u8; 4] = u32_to_le(self.start_sector);
        let size: [u8; 4] = u32_to_le(self.size);
        let out: [u8; 17] = [
            self.name[0], self.name[1], self.name[2], self.name[3],
            self.name[4], self.name[5], self.name[6], self.name[7],
            start[0], start[1], start[2], start[3],
            size[0], size[1], size[2], size[3],
            self.active,
        ];
        assert(out@ =~= self@.packed());
        out
    }

    /// Reads the record packed at `at .. at + 17` of `bytes`.
    pub fn unpack(bytes: &[u8], at: usize) -> (rec: FileRecord)
        requires
            at + 17 <= bytes@.len(),
        ensures
            rec@ == RecordModel::unpacked(bytes@, at as int),
    {
        let name: [u8; 8] = [
            bytes[at], bytes[at + 1], bytes[at + 2], bytes[at + 3],
            bytes[at + 4], bytes[at + 5], bytes[at + 6], bytes[at + 7],
        ];
        assert(name@ =~= bytes@.subrange(at as int, at + 8));
        FileRecord {
            name,
            start_sector: u32_from_le(bytes, at + 8),
            size: u32_from_le(bytes, at + 12),
            active: bytes[at + 16],
        }
    }
}

} // verus!
