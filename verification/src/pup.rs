//! The firmware-archive boundary: header validation and entry selection.
//!
//! Opening and memory-mapping the archive file is input/output and lives
//! with the caller; this module holds the checks and the selection rules
//! the opened bytes are run through.

use vstd::prelude::*;

verus! {

/// An error while opening an archive.
#[derive(Debug, Clone, Copy, PartialEq, Eq, Structural)]
pub enum OpenError {
    /// The file could not be opened.
    OpenFailed,
    /// The file could not be mapped into memory.
    MapFailed,
    /// The file is too small to hold the fixed header or an entry record.
    TooSmall,
    /// The magic bytes at the start of the file are wrong.
    InvalidMagic,
}

/// Whether the fixed archive header is present and carries the right magic.
pub open spec fn header_ok(data: Seq<u8>) -> bool {
    data.len() >= 32 && data[0] == 0x4fu8 && data[1] == 0x15u8 && data[2] == 0x3du8 && data[3]
        == 0x1du8
}

/// The entry count stored little-endian at offset 24 of the header.
pub open spec fn entry_count_spec(data: Seq<u8>) -> usize
    recommends
        data.len() >= 32,
{
    (data[24] as usize + 256 * (data[25] as usize)) as usize
}

/// Validate the fixed archive header and read the entry count out of it: a
/// file under 32 bytes is too small, wrong magic bytes are rejected, and
/// otherwise the count at offset 24 is returned.
pub fn parse_header(data: &Vec<u8>) -> (r: Result<usize, OpenError>)
    ensures
        data@.len() < 32 ==> r == Err::<usize, OpenError>(OpenError::TooSmall),
        data@.len() >= 32 && !header_ok(data@) ==> r == Err::<usize, OpenError>(
            OpenError::InvalidMagic,
        ),
        header_ok(data@) ==> r == Ok::<usize, OpenError>(entry_count_spec(data@)),
{
    if data.len() < 32 {
        return Err(OpenError::TooSmall);
    }
    if !(data[0] == 0x4f && data[1] == 0x15 && data[2] == 0x3d && data[3] == 0x1d) {
        return Err(OpenError::InvalidMagic);
    }
    Ok(data[24] as usize + 256 * (data[25] as usize))
}

/// What the selection rules read of one archive entry.
#[derive(Debug, Clone, Copy, PartialEq, Eq, Structural)]
pub struct EntryMeta {
    /// The entry's identifier.
    pub id: u32,
    /// The entry's flag word.
    pub flags: u32,
    /// Whether the entry's data is blocked (stored through a table).
    pub blocked: bool,
}

/// The identifier of the system image entry.
pub const SYSTEM_IMAGE_ID: u32 = 6;

/// Whether the entry at index `i` is the system image: special entries and
/// entries claimed as someone's table are skipped, and the identifier must
/// match.
pub open spec fn is_system_image(e: EntryMeta, table: Option<usize>) -> bool {
    (e.flags & 0xf0000000) != 0xe0000000 && (e.flags & 0xf0000000) != 0xf0000000 && table is None
        && e.id == SYSTEM_IMAGE_ID
}

/// An archive layout the table pass does not model.
#[derive(Debug, Clone, Copy, PartialEq, Eq, Structural)]
pub enum TableError {
    /// A blocked entry whose identifier class is masked out.
    MaskedId,
    /// A blocked entry with no table entry naming it.
    MissingTable,
    /// A table entry claimed by two blocked entries.
    DoubleClaim,
}

/// Whether entry `j` is the table for the blocked entry at index `i`.
pub open spec fn is_table_for(e: EntryMeta, i: int) -> bool {
    (e.flags & 1) != 0 && e.id == i
}

/// The first index at or after `from` whose entry is the table for the
/// blocked entry at index `i`.
pub open spec fn find_table(entries: Seq<EntryMeta>, i: int, from: int) -> Option<int>
    decreases entries.len() - from,
{
    if from < 0 || from >= entries.len() {
        None
    } else if is_table_for(entries[from], i) {
        Some(from)
    } else {
        find_table(entries, i, from + 1)
    }
}

/// What the table pass does with the entry at index `i`: a blocked entry
/// claims the slot of the first table entry naming it, unless its
/// identifier class is masked, no table names it, or the slot is already
/// claimed; any other entry clears its own slot.
pub open spec fn table_step(entries: Seq<EntryMeta>, i: int, t: Seq<Option<usize>>) -> Result<
    Seq<Option<usize>>,
    TableError,
>
    recommends
        entries.len() == t.len(),
        0 <= i < entries.len(),
{
    if entries[i].blocked {
        if ((entries[i].id | 0x100) & 0xf00) == 0xf00 {
            Err(TableError::MaskedId)
        } else {
            match find_table(entries, i, 0) {
                None => Err(TableError::MissingTable),
                Some(j) => if t[j] is Some {
                    Err(TableError::DoubleClaim)
                } else {
                    Ok(t.update(j, Some(i as usize)))
                },
            }
        }
    } else {
        Ok(t.update(i, None))
    }
}

/// The table pass over the first `upto` entries, starting from all slots
/// unclaimed.
pub open spec fn resolve_tables_spec(entries: Seq<EntryMeta>, upto: int, t: Seq<Option<usize>>) -> Result<
    Seq<Option<usize>>,
    TableError,
>
    decreases upto,
{
    if upto <= 0 {
        Ok(t)
    } else {
        match resolve_tables_spec(entries, upto - 1, t) {
            Err(e) => Err(e),
            Ok(t2) => table_step(entries, upto - 1, t2),
        }
    }
}

/// The index of the first table entry naming the blocked entry at index
/// `i`, as the table pass looks it up.
pub fn find_table_index(entries: &Vec<EntryMeta>, i: usize) -> (r: Option<usize>)
    ensures
        match r {
            Some(j) => j < entries@.len() && find_table(entries@, i as int, 0) == Some(j as int),
            None => find_table(entries@, i as int, 0) is None,
        },
{
    let mut j: usize = 0;
    while j < entries.len()
        invariant
            j <= entries@.len(),
            find_table(entries@, i as int, 0) == find_table(entries@, i as int, j as int),
        decreases entries@.len() - j,
    {
        let c = entries[j];
        if (c.flags & 1) != 0 && c.id as usize == i {
            return Some(j);
        }
        j = j + 1;
    }
    None
}

/// A step failure anywhere in the table pass fails the whole pass.
proof fn lemma_resolve_error_propagates(
    entries: Seq<EntryMeta>,
    k: int,
    t: Seq<Option<usize>>,
    e: TableError,
    upto: int,
)
    requires
        k <= upto,
        resolve_tables_spec(entries, k, t) == Err::<Seq<Option<usize>>, TableError>(e),
    ensures
        resolve_tables_spec(entries, upto, t) == Err::<Seq<Option<usize>>, TableError>(e),
    decreases upto - k,
{
    if k < upto {
        lemma_resolve_error_propagates(entries, k, t, e, upto - 1);
    }
}

/// Run the table pass over the archive's entries: one claim slot per entry,
/// exactly as [`resolve_tables_spec`] folds over them.
#[verifier::loop_isolation(false)]
pub fn resolve_tables(entries: &Vec<EntryMeta>) -> (r: Result<Vec<Option<usize>>, TableError>)
    ensures
        match r {
            Ok(t) => resolve_tables_spec(entries@, entries@.len() as int, Seq::new(entries@.len(), |j: int| None::<usize>))
                == Ok::<Seq<Option<usize>>, TableError>(t@),
            Err(e) => resolve_tables_spec(entries@, entries@.len() as int, Seq::new(entries@.len(), |j: int| None::<usize>))
                == Err::<Seq<Option<usize>>, TableError>(e),
        },
{
    let ghost init = Seq::new(entries@.len(), |j: int| None::<usize>);
    let mut table: Vec<Option<usize>> = Vec::new();
    let mut k: usize = 0;
    while k < entries.len()
        invariant
            k <= entries@.len(),
            table@.len() == k,
            forall|j: int| 0 <= j < k ==> table@[j] is None,
        decreases entries@.len() - k,
    {
        table.push(None);
        k = k + 1;
    }
    proof {
        assert(table@ =~= init);
    }
    let mut i: usize = 0;
    while i < entries.len()
        invariant
            i <= entries@.len(),
            table@.len() == entries@.len(),
            resolve_tables_spec(entries@, i as int, init) == Ok::<Seq<Option<usize>>, TableError>(
                table@,
            ),
        decreases entries@.len() - i,
    {
        let e = entries[i];
        if e.blocked {
            if ((e.id | 0x100) & 0xf00) == 0xf00 {
                proof {
                    lemma_resolve_error_propagates(
                        entries@,
                        i as int + 1,
                        init,
                        TableError::MaskedId,
                        entries@.len() as int,
                    );
                }
                return Err(TableError::MaskedId);
            }
            let j = match find_table_index(entries, i) {
                Some(j) => j,
                None => {
                    proof {
                        lemma_resolve_error_propagates(
                            entries@,
                            i as int + 1,
                            init,
                            TableError::MissingTable,
                            entries@.len() as int,
                        );
                    }
                    return Err(TableError::MissingTable);
                },
            };
            if table[j].is_some() {
                proof {
                    lemma_resolve_error_propagates(
                        entries@,
                        i as int + 1,
                        init,
                        TableError::DoubleClaim,
                        entries@.len() as int,
                    );
                }
                return Err(TableError::DoubleClaim);
            }
            table.set(j, Some(i));
        } else {
            table.set(i, None);
        }
        i = i + 1;
    }
    Ok(table)
}

/// The metadata of an opened archive: what the selection rules read of each
/// entry, and which entries are claimed as another entry's table.
pub struct Pup {
    entries: Vec<EntryMeta>,
    table_entries: Vec<Option<usize>>,
}

impl Pup {
    pub closed spec fn entries_spec(&self) -> Seq<EntryMeta> {
        self.entries@
    }

    pub closed spec fn tables_spec(&self) -> Seq<Option<usize>> {
        self.table_entries@
    }

    /// One table-claim slot per entry.
    pub closed spec fn inv(&self) -> bool {
        self.entries@.len() == self.table_entries@.len()
    }

    /// Assemble an archive's metadata from its parsed entries and table
    /// claims, one claim slot per entry.
    pub fn new(entries: Vec<EntryMeta>, table_entries: Vec<Option<usize>>) -> (p: Pup)
        requires
            entries@.len() == table_entries@.len(),
        ensures
            p.inv(),
            p.entries_spec() == entries@,
            p.tables_spec() == table_entries@,
    {
        Pup { entries, table_entries }
    }

    /// Find the system image among the archive's entries: the first entry
    /// that is neither special nor a table and carries the system-image
    /// identifier. The caller builds a reader over that entry's data.
    #[verifier::loop_isolation(false)]
    pub fn get_system_image(&self) -> (r: Option<usize>)
        requires
            self.inv(),
        ensures
            match r {
                Some(i) => 0 <= i < self.entries_spec().len() && is_system_image(
                    self.entries_spec()[i as int],
                    self.tables_spec()[i as int],
                ) && forall|j: int|
                    0 <= j < i ==> !is_system_image(self.entries_spec()[j], self.tables_spec()[j]),
                None => forall|j: int|
                    0 <= j < self.entries_spec().len() ==> !is_system_image(
                        self.entries_spec()[j],
                        self.tables_spec()[j],
                    ),
            },
    {
        let mut i: usize = 0;
        while i < self.entries.len()
            invariant
                i <= self.entries@.len(),
                forall|j: int| 0 <= j < i ==> !is_system_image(self.entries@[j], self.table_entries@[j]),
            decreases self.entries@.len() - i,
        {
            let e = self.entries[i];
            let special = e.flags & 0xf0000000;
            let claimed = match self.table_entries[i] {
                Some(_) => true,
                None => false,
            };
            if special != 0xe0000000 && special != 0xf0000000 && !claimed && e.id == SYSTEM_IMAGE_ID {
                return Some(i);
            }
            i = i + 1;
        }
        None
    }
}

} // verus!
