//! The file-allocation-table side of the virtual filesystem: loading the
//! table's entries and walking cluster chains through them.
//!
//! Reading the table's bytes from an image is input/output and lives with
//! the caller; this module holds the computation — where the table region
//! starts, and how a cluster chain threads through the loaded entries.

use vstd::prelude::*;

verus! {

/// The filesystem parameters that locate and size the table.
#[derive(Debug, Clone, Copy, PartialEq, Eq, Structural)]
pub struct Params {
    /// The sector offset of the table region.
    pub fat_offset: u64,
    /// The size of one sector in bytes.
    pub bytes_per_sector: u64,
    /// The number of clusters the table describes.
    pub cluster_count: usize,
}

/// An error while loading the table.
#[derive(Debug, Clone, Copy, PartialEq, Eq, Structural)]
pub enum LoadError {
    /// The table offset and sector size multiply out of range.
    InvalidFatOffset,
    /// The underlying image could not be read.
    IoFailed,
}

/// The end-of-chain marker: an entry holding this value ends the chain.
pub const BAD_CLUSTER: u32 = 0xfffffff7;

/// A loaded file-allocation table.
pub struct Fat {
    params: Params,
    entries: Vec<u32>,
}

impl Fat {
    pub closed spec fn params_spec(&self) -> Params {
        self.params
    }

    pub closed spec fn entries_spec(&self) -> Seq<u32> {
        self.entries@
    }

    /// The byte offset of the table region inside the image: the computing
    /// half of loading, which rejects an offset that multiplies out of
    /// range. The caller seeks there and reads `cluster_count + 2` entries.
    pub fn region_offset(params: &Params) -> (r: Result<u64, LoadError>)
        ensures
            params.fat_offset * params.bytes_per_sector <= u64::MAX ==> r == Ok::<u64, LoadError>(
                (params.fat_offset * params.bytes_per_sector) as u64,
            ),
            params.fat_offset * params.bytes_per_sector > u64::MAX ==> r == Err::<u64, LoadError>(
                LoadError::InvalidFatOffset,
            ),
    {
        match params.fat_offset.checked_mul(params.bytes_per_sector) {
            Some(v) => Ok(v),
            None => Err(LoadError::InvalidFatOffset),
        }
    }

    /// Assemble a table from its parameters and the entries read out of the
    /// image.
    pub fn from_entries(params: Params, entries: Vec<u32>) -> (f: Fat)
        ensures
            f.params_spec() == params,
            f.entries_spec() == entries@,
    {
        Fat { params, entries }
    }

    /// Start walking the cluster chain that begins at `first`.
    pub fn get_cluster_chain(&self, first: usize) -> (c: ClusterChain)
        ensures
            c.entries@ == self.entries_spec(),
            c.next == first,
    {
        ClusterChain { entries: &self.entries, next: first }
    }
}

/// A walk along one cluster chain: each step yields the current cluster and
/// moves to the one its table entry names, ending on a reserved cluster, a
/// cluster out of range, or a bad-cluster entry.
pub struct ClusterChain<'fat> {
    pub entries: &'fat Vec<u32>,
    pub next: usize,
}

impl<'fat> ClusterChain<'fat> {
    /// Yield the current cluster and advance, or end the chain.
    pub fn next(&mut self) -> (r: Option<usize>)
        ensures
            final(self).entries@ == old(self).entries@,
            ({
                let n = old(self).next;
                let entries = old(self).entries@;
                if 2 <= n && n < entries.len() && entries[n as int] != BAD_CLUSTER {
                    r == Some(n) && final(self).next == entries[n as int] as usize
                } else {
                    r == None::<usize> && final(self).next == old(self).next
                }
            }),
    {
        let next = self.next;
        if next < 2 || next >= self.entries.len() || self.entries[next] == BAD_CLUSTER {
            return None;
        }
        self.next = self.entries[next] as usize;
        Some(next)
    }
}

} // verus!
