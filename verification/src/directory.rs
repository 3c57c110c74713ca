//! The directory sector: a magic byte, a 16-byte header region and fifteen
//! packed file records, all inside one 512-byte image.

use vstd::prelude::*;
use crate::record::{FileRecord, RecordModel, ACTIVE, FREE};

verus! {

/// Bytes in one disk sector.
pub const SECTOR_LEN: usize = 512;

/// Block address of the directory sector.
pub const DIR_SECTOR: u32 = 2048;

/// Bytes reserved in front of the first record.
pub const HEADER_LEN: usize = 16;

/// Record slots in the directory.
pub const SLOT_COUNT: usize = 15;

/// First byte of a formatted directory, the letter K.
pub const MAGIC: u8 = 0x4B;

/// One past the largest block address the disk protocol can carry.
pub const LBA_LIMIT: u32 = 0x1000_0000;

/// Byte offset of a slot's record inside the image.
pub open spec fn slot_offset(slot: int) -> int {
    16 + 17 * slot
}

/// The record stored in `slot` of `image`.
pub open spec fn record_at(image: Seq<u8>, slot: int) -> RecordModel {
    RecordModel::unpacked(image, slot_offset(slot))
}

/// `image` with the record of `slot` replaced by `r`, every other byte kept.
pub open spec fn with_record(image: Seq<u8>, slot: int, r: RecordModel) -> Seq<u8> {
    Seq::new(
        image.len(),
        |i: int|
            if slot_offset(slot) <= i < slot_offset(slot) + 17 {
                r.packed()[i - slot_offset(slot)]
            } else {
                image[i]
            },
    )
}

/// A freshly formatted directory: the magic byte followed by zeros.
pub open spec fn formatted_image() -> Seq<u8> {
    Seq::new(512, |i: int| if i == 0 { MAGIC } else { 0u8 })
}

/// Index of the first slot at or after `from` that is in use; 15 when there is none.
pub open spec fn first_in_use_from(image: Seq<u8>, from: int) -> int
    decreases 15 - from,
{
    if from >= 15 {
        15
    } else if record_at(image, from).in_use() {
        from
    } else {
        first_in_use_from(image, from + 1)
    }
}

/// Index of the first slot at or after `from` that may be claimed; 15 when there is none.
pub open spec fn first_claimable_from(image: Seq<u8>, from: int) -> int
    decreases 15 - from,
{
    if from >= 15 {
        15
    } else if record_at(image, from).claimable() {
        from
    } else {
        first_claimable_from(image, from + 1)
    }
}

/// The first slot in use, scanning in index order.
pub open spec fn first_in_use(image: Seq<u8>) -> Option<int> {
    let k = first_in_use_from(image, 0);
    if k < 15 { Some(k) } else { None }
}

/// The first slot that may be claimed, scanning in index order.
pub open spec fn first_claimable(image: Seq<u8>) -> Option<int> {
    let k = first_claimable_from(image, 0);
    if k < 15 { Some(k) } else { None }
}

/// The name every created file gets: `MAIN.RS` padded with one space.
pub open spec fn default_name() -> Seq<u8> {
    seq![0x4Du8, 0x41u8, 0x49u8, 0x4Eu8, 0x2Eu8, 0x52u8, 0x53u8, 0x20u8]
}

/// The record a create operation writes into `slot`: empty, in use, with its
/// content sector right behind the directory at the slot's own distance.
pub open spec fn fresh_record(slot: int) -> RecordModel {
    RecordModel {
        name: default_name(),
        start_sector: (DIR_SECTOR + 1 + slot) as u32,
        size: 0,
        active: ACTIVE,
    }
}

/// The image after a create operation; unchanged when no slot may be claimed.
pub open spec fn after_create(image: Seq<u8>) -> Seq<u8> {
    match first_claimable(image) {
        Some(slot) => with_record(image, slot, fresh_record(slot)),
        None => image,
    }
}

/// The records in use among the first `upto` slots, in index order.
pub open spec fn listing_upto(image: Seq<u8>, upto: int) -> Seq<RecordModel>
    decreases upto,
{
    if upto <= 0 {
        Seq::empty()
    } else if record_at(image, upto - 1).in_use() {
        listing_upto(image, upto - 1).push(record_at(image, upto - 1))
    } else {
        listing_upto(image, upto - 1)
    }
}

/// Every record in use, in index order.
pub open spec fn listing(image: Seq<u8>) -> Seq<RecordModel> {
    listing_upto(image, 15)
}

/// The slot of the one file that reading and writing address: the first slot in use,
/// unless its start sector is 0, which stands for no file at all.
pub open spec fn open_slot(image: Seq<u8>) -> Option<int> {
    match first_in_use(image) {
        Some(slot) => if record_at(image, slot).start_sector != 0 { Some(slot) } else { None },
        None => None,
    }
}

/// The image after the open file's size was set to `len`; unchanged when no file is open.
pub open spec fn after_resize(image: Seq<u8>, len: u32) -> Seq<u8> {
    match open_slot(image) {
        Some(slot) => with_record(
            image,
            slot,
            RecordModel { size: len, ..record_at(image, slot) },
        ),
        None => image,
    }
}

/// The views of a sequence of records.
pub open spec fn record_views(records: Seq<FileRecord>) -> Seq<RecordModel> {
    Seq::new(records.len(), |i: int| records[i]@)
}

/// Replacing one slot's record changes that record and nothing else: the other
/// slots, the header and the image's length stay as they were.
pub proof fn lemma_with_record(image: Seq<u8>, slot: int, r: RecordModel)
    requires
        image.len() == 512,
        0 <= slot < 15,
        r.name.len() == 8,
    ensures
        with_record(image, slot, r).len() == 512,
        record_at(with_record(image, slot, r), slot) == r,
        forall|other: int|
            0 <= other < 15 && other != slot ==> #[trigger] record_at(
                with_record(image, slot, r),
                other,
            ) == record_at(image, other),
        forall|i: int| 0 <= i < 16 ==> with_record(image, slot, r)[i] == image[i],
{
    let w = with_record(image, slot, r);
    let off = slot_offset(slot);
    let p = r.packed();
    crate::record::pack_round_trip(r);
    assert(w.subrange(off, off + 8) =~= p.subrange(0, 8));
    assert(record_at(w, slot) == RecordModel::unpacked(p, 0));
    assert forall|other: int| 0 <= other < 15 && other != slot implies #[trigger] record_at(
        w,
        other,
    ) == record_at(image, other) by {
        let o = slot_offset(other);
        assert(o + 17 <= off || off + 17 <= o);
        assert(w.subrange(o, o + 8) =~= image.subrange(o, o + 8));
    }
}

/// A directory is sound when it fills a sector and every record in use owns the
/// content sector that belongs to its slot, so that no two records share one.
pub open spec fn sound(image: Seq<u8>) -> bool {
    &&& image.len() == 512
    &&& forall|slot: int|
        0 <= slot < 15 && #[trigger] record_at(image, slot).in_use() ==> record_at(
            image,
            slot,
        ).start_sector == DIR_SECTOR + 1 + slot
}

/// The fifteen records lie behind the header, inside the sector, one after the
/// other without overlap.
pub proof fn law_records_fit(slot: int, other: int)
    requires
        0 <= slot < 15,
        0 <= other < 15,
    ensures
        15 * 17 <= 512 - 16,
        16 <= slot_offset(slot),
        slot_offset(slot) + 17 <= 512,
        slot < other ==> slot_offset(slot) + 17 <= slot_offset(other),
{
}

/// In a sound directory no two records in use claim the same content sector, and
/// none claims the directory's own sector or one the disk protocol cannot address.
pub proof fn law_sound_sectors_distinct(image: Seq<u8>, slot: int, other: int)
    requires
        sound(image),
        0 <= slot < 15,
        0 <= other < 15,
        slot != other,
        record_at(image, slot).in_use(),
        record_at(image, other).in_use(),
    ensures
        record_at(image, slot).start_sector != record_at(image, other).start_sector,
        DIR_SECTOR < record_at(image, slot).start_sector < LBA_LIMIT,
{
}

/// What the scan for a claimable slot finds: the slot it returns may be claimed and
/// none before it may; where it returns 15, none may.
pub proof fn lemma_first_claimable_from(image: Seq<u8>, from: int)
    requires
        0 <= from <= 15,
    ensures
        from <= first_claimable_from(image, from) <= 15,
        first_claimable_from(image, from) < 15 ==> record_at(
            image,
            first_claimable_from(image, from),
        ).claimable(),
        forall|j: int|
            from <= j < first_claimable_from(image, from) ==> !(#[trigger] record_at(
                image,
                j,
            )).claimable(),
    decreases 15 - from,
{
    if from < 15 && !record_at(image, from).claimable() {
        lemma_first_claimable_from(image, from + 1);
    }
}

/// What the scan for a slot in use finds: the slot it returns is in use and none
/// before it is; where it returns 15, none is.
pub proof fn lemma_first_in_use_from(image: Seq<u8>, from: int)
    requires
        0 <= from <= 15,
    ensures
        from <= first_in_use_from(image, from) <= 15,
        first_in_use_from(image, from) < 15 ==> record_at(
            image,
            first_in_use_from(image, from),
        ).in_use(),
        forall|j: int|
            from <= j < first_in_use_from(image, from) ==> !(#[trigger] record_at(
                image,
                j,
            )).in_use(),
    decreases 15 - from,
{
    if from < 15 && !record_at(image, from).in_use() {
        lemma_first_in_use_from(image, from + 1);
    }
}

/// A scan that meets only taken slots up to a claimable one stops exactly there.
pub proof fn lemma_claimable_found(image: Seq<u8>, from: int, slot: int)
    requires
        0 <= from <= slot <= 15,
        forall|j: int| from <= j < slot ==> !(#[trigger] record_at(image, j)).claimable(),
        slot < 15 ==> record_at(image, slot).claimable(),
    ensures
        first_claimable_from(image, from) == slot,
    decreases slot - from,
{
    if from < slot {
        lemma_claimable_found(image, from + 1, slot);
    }
}

/// A scan that meets only idle slots up to one in use stops exactly there.
pub proof fn lemma_in_use_found(image: Seq<u8>, from: int, slot: int)
    requires
        0 <= from <= slot <= 15,
        forall|j: int| from <= j < slot ==> !(#[trigger] record_at(image, j)).in_use(),
        slot < 15 ==> record_at(image, slot).in_use(),
    ensures
        first_in_use_from(image, from) == slot,
    decreases slot - from,
{
    if from < slot {
        lemma_in_use_found(image, from + 1, slot);
    }
}

/// With no slot in use among the first `upto`, the listing of those slots is empty.
pub proof fn lemma_listing_empty(image: Seq<u8>, upto: int)
    requires
        0 <= upto <= 15,
        forall|j: int| 0 <= j < upto ==> !(#[trigger] record_at(image, j)).in_use(),
    ensures
        listing_upto(image, upto).len() == 0,
    decreases upto,
{
    if upto > 0 {
        lemma_listing_empty(image, upto - 1);
    }
}

/// The listing starts with the record of the first slot in use.
pub proof fn lemma_listing_head(image: Seq<u8>, slot: int, upto: int)
    requires
        0 <= slot < upto <= 15,
        record_at(image, slot).in_use(),
        forall|j: int| 0 <= j < slot ==> !(#[trigger] record_at(image, j)).in_use(),
    ensures
        listing_upto(image, upto).len() >= 1,
        listing_upto(image, upto)[0] == record_at(image, slot),
    decreases upto,
{
    if upto == slot + 1 {
        lemma_listing_empty(image, slot);
    } else {
        lemma_listing_head(image, slot, upto - 1);
    }
}

/// A formatted directory is sound and has fifteen claimable slots.
pub proof fn lemma_formatted(slot: int)
    requires
        0 <= slot < 15,
    ensures
        sound(formatted_image()),
        formatted_image()[0] == MAGIC,
        record_at(formatted_image(), slot).claimable(),
        !record_at(formatted_image(), slot).in_use(),
{
    assert forall|s: int| 0 <= s < 15 implies !(#[trigger] record_at(
        formatted_image(),
        s,
    )).in_use() by {}
}

/// Creating a file keeps a sound directory sound.
pub proof fn lemma_create_keeps_sound(image: Seq<u8>)
    requires
        sound(image),
    ensures
        sound(after_create(image)),
{
    lemma_first_claimable_from(image, 0);
    match first_claimable(image) {
        Some(slot) => {
            lemma_with_record(image, slot, fresh_record(slot));
            let after = after_create(image);
            assert forall|s: int| 0 <= s < 15 && #[trigger] record_at(
                after,
                s,
            ).in_use() implies record_at(after, s).start_sector == DIR_SECTOR + 1 + s by {
                if s != slot {
                    assert(record_at(after, s) == record_at(image, s));
                }
            }
        },
        None => {},
    }
}

/// Setting the open file's size keeps a sound directory sound.
pub proof fn lemma_resize_keeps_sound(image: Seq<u8>, len: u32)
    requires
        sound(image),
    ensures
        sound(after_resize(image, len)),
{
    lemma_first_in_use_from(image, 0);
    match open_slot(image) {
        Some(slot) => {
            let r = RecordModel { size: len, ..record_at(image, slot) };
            assert(r.name.len() == 8);
            lemma_with_record(image, slot, r);
            let after = after_resize(image, len);
            assert forall|s: int| 0 <= s < 15 && #[trigger] record_at(
                after,
                s,
            ).in_use() implies record_at(after, s).start_sector == DIR_SECTOR + 1 + s by {
                if s != slot {
                    assert(record_at(after, s) == record_at(image, s));
                }
            }
        },
        None => {},
    }
}

/// Builds the image of an empty, formatted directory.
pub fn format_image() -> (image: [u8; 512])
    ensures
        image@ == formatted_image(),
{
    let mut image: [u8; 512] = [0u8; 512];
    image[0] = MAGIC;
    assert(image@ =~= formatted_image());
    image
}

/// Tells whether the image starts with the magic byte.
pub fn is_formatted(image: &[u8; 512]) -> (yes: bool)
    ensures
        yes == (image@[0] == MAGIC),
{
    image[0] == MAGIC
}

/// Reads the record of one slot.
pub fn read_record(image: &[u8; 512], slot: usize) -> (rec: FileRecord)
    requires
        slot < 15,
    ensures
        rec@ == record_at(image@, slot as int),
{
    FileRecord::unpack(image.as_slice(), HEADER_LEN + 17 * slot)
}

/// Overwrites the record of one slot, leaving every other byte of the image alone.
pub fn write_record(image: &mut [u8; 512], slot: usize, rec: &FileRecord)
    requires
        slot < 15,
    ensures
        final(image)@ == with_record(old(image)@, slot as int, rec@),
{
    let packed: [u8; 17] = rec.pack();
    let base: usize = HEADER_LEN + 17 * slot;
    let mut k: usize = 0;
    while k < 17
        invariant
            k <= 17,
            base == slot_offset(slot as int),
            base + 17 <= 512,
            packed@ == rec@.packed(),
            forall|i: int| 0 <= i < 512 && !(base <= i < base + k) ==> image@[i] == old(image)@[i],
            forall|i: int| base <= i < base + k ==> image@[i] == packed@[i - base],
        decreases 17 - k,
    {
        image[base + k] = packed[k];
        k += 1;
    }
    assert(image@ =~= with_record(old(image)@, slot as int, rec@));
}

/// Finds the first slot in use.
pub fn first_active(image: &[u8; 512]) -> (found: Option<usize>)
    ensures
        match found {
            Some(slot) => first_in_use(image@) == Some(slot as int),
            None => first_in_use(image@) is None,
        },
{
    let mut slot: usize = 0;
    while slot < 15
        invariant
            slot <= 15,
            first_in_use_from(image@, 0) == first_in_use_from(image@, slot as int),
        decreases 15 - slot,
    {
        if image[HEADER_LEN + 17 * slot + 16] == ACTIVE {
            return Some(slot);
        }
        slot += 1;
    }
    None
}

/// Finds the first slot that may be claimed.
pub fn first_free(image: &[u8; 512]) -> (found: Option<usize>)
    ensures
        match found {
            Some(slot) => first_claimable(image@) == Some(slot as int),
            None => first_claimable(image@) is None,
        },
{
    let mut slot: usize = 0;
    while slot < 15
        invariant
            slot <= 15,
            first_claimable_from(image@, 0) == first_claimable_from(image@, slot as int),
        decreases 15 - slot,
    {
        if image[HEADER_LEN + 17 * slot + 16] == FREE {
            return Some(slot);
        }
        slot += 1;
    }
    None
}

/// Claims the first free slot for a new, empty file and returns the slot's index.
/// With every slot taken the image is left as it was and `None` comes back.
pub fn create(image: &mut [u8; 512]) -> (slot: Option<usize>)
    ensures
        match slot {
            Some(s) => first_claimable(old(image)@) == Some(s as int),
            None => first_claimable(old(image)@) is None,
        },
        final(image)@ == after_create(old(image)@),
{
    match first_free(image) {
        Some(s) => {
            let name: [u8; 8] = [0x4D, 0x41, 0x49, 0x4E, 0x2E, 0x52, 0x53, 0x20];
            assert(name@ =~= default_name());
            let rec = FileRecord {
                name,
                start_sector: DIR_SECTOR + 1 + s as u32,
                size: 0,
                active: ACTIVE,
            };
            write_record(image, s, &rec);
            Some(s)
        },
        None => None,
    }
}

/// Collects every record in use, in slot order.
pub fn list(image: &[u8; 512]) -> (records: Vec<FileRecord>)
    ensures
        record_views(records@) == listing(image@),
{
    let mut records: Vec<FileRecord> = Vec::new();
    let mut slot: usize = 0;
    while slot < 15
        invariant
            slot <= 15,
            record_views(records@) =~= listing_upto(image@, slot as int),
        decreases 15 - slot,
    {
        let rec = read_record(image, slot);
        if rec.active == ACTIVE {
            records.push(rec);
        }
        slot += 1;
    }
    records
}

/// Finds the file that reading and writing address, with its slot.
pub fn open_file(image: &[u8; 512]) -> (found: Option<(usize, FileRecord)>)
    ensures
        match found {
            Some((slot, rec)) => open_slot(image@) == Some(slot as int) && rec@ == record_at(
                image@,
                slot as int,
            ),
            None => open_slot(image@) is None,
        },
{
    match first_active(image) {
        Some(slot) => {
            let rec = read_record(image, slot);
            if rec.start_sector != 0 {
                Some((slot, rec))
            } else {
                None
            }
        },
        None => None,
    }
}

/// Sets the size of the open file and returns its start sector. With no file open
/// the image is left as it was and `None` comes back.
pub fn resize_open_file(image: &mut [u8; 512], len: u32) -> (start: Option<u32>)
    ensures
        match start {
            Some(lba) => match open_slot(old(image)@) {
                Some(slot) => lba == record_at(old(image)@, slot).start_sector,
                None => false,
            },
            None => open_slot(old(image)@) is None,
        },
        final(image)@ == after_resize(old(image)@, len),
{
    match open_file(image) {
        Some((slot, rec)) => {
            let resized = FileRecord { size: len, ..rec };
            write_record(image, slot, &resized);
            Some(rec.start_sector)
        },
        None => None,
    }
}

} // verus!
