use lifter::errno;
use lifter::fat::{Fat, LoadError, Params};
use lifter::llvm;
use lifter::pup::{self, EntryMeta, OpenError, Pup, TableError};

#[test]
fn strerror_known_codes() {
    assert_eq!(errno::strerror(errno::EPERM), "operation not permitted");
    assert_eq!(errno::strerror(errno::ENOENT), "no such file or directory");
    assert_eq!(errno::strerror(errno::ESRCH), "no such process");
    assert_eq!(errno::strerror(errno::E2BIG), "argument list too long");
    assert_eq!(errno::strerror(errno::ENOEXEC), "exec format error");
    assert_eq!(errno::strerror(errno::ENOMEM), "cannot allocate memory");
    assert_eq!(errno::strerror(errno::EFAULT), "bad address");
    assert_eq!(errno::strerror(errno::EINVAL), "invalid argument");
    assert_eq!(errno::strerror(errno::EAGAIN), "resource temporarily unavailable");
    assert_eq!(errno::strerror(errno::ENAMETOOLONG), "file name too long");
}

#[test]
fn fat_region_offset() {
    let p = Params { fat_offset: 24, bytes_per_sector: 512, cluster_count: 8 };
    assert_eq!(Fat::region_offset(&p), Ok(24 * 512));
}

#[test]
fn fat_region_offset_overflow() {
    let p = Params { fat_offset: u64::MAX, bytes_per_sector: 2, cluster_count: 8 };
    assert_eq!(Fat::region_offset(&p), Err(LoadError::InvalidFatOffset));
}

#[test]
fn cluster_chain_walk() {
    let p = Params { fat_offset: 24, bytes_per_sector: 512, cluster_count: 3 };
    // Cluster 2 links to 3, 3 links to 4, 4 is marked bad (end of chain).
    let fat = Fat::from_entries(p, vec![0, 0, 3, 4, 0xfffffff7]);
    let mut chain = fat.get_cluster_chain(2);
    assert_eq!(chain.next(), Some(2));
    assert_eq!(chain.next(), Some(3));
    assert_eq!(chain.next(), None);
    assert_eq!(chain.next(), None);
}

#[test]
fn cluster_chain_rejects_reserved_and_out_of_range() {
    let p = Params { fat_offset: 0, bytes_per_sector: 512, cluster_count: 1 };
    let fat = Fat::from_entries(p, vec![9, 9, 9]);
    assert_eq!(fat.get_cluster_chain(0).next(), None);
    assert_eq!(fat.get_cluster_chain(1).next(), None);
    assert_eq!(fat.get_cluster_chain(3).next(), None);
}

#[test]
fn llvm_error_trims_trailing_periods() {
    let e = llvm::Error::new(b"something went wrong..".to_vec());
    assert_eq!(e.message(), &b"something went wrong".to_vec());
    let e = llvm::Error::new(b"no periods".to_vec());
    assert_eq!(e.message(), &b"no periods".to_vec());
    let e = llvm::Error::new(b"...".to_vec());
    assert_eq!(e.message(), &Vec::<u8>::new());
}

#[test]
fn pup_header_too_small() {
    assert_eq!(pup::parse_header(&vec![0x4f, 0x15, 0x3d, 0x1d]), Err(OpenError::TooSmall));
}

#[test]
fn pup_header_bad_magic() {
    assert_eq!(pup::parse_header(&vec![0u8; 32]), Err(OpenError::InvalidMagic));
}

#[test]
fn pup_header_entry_count() {
    let mut h = vec![0u8; 32];
    h[0] = 0x4f;
    h[1] = 0x15;
    h[2] = 0x3d;
    h[3] = 0x1d;
    h[24] = 0x03;
    h[25] = 0x01;
    assert_eq!(pup::parse_header(&h), Ok(0x0103));
}

#[test]
fn pup_system_image_selection() {
    let entries = vec![
        EntryMeta { id: 6, flags: 0xe0000000, blocked: false },
        EntryMeta { id: 6, flags: 0, blocked: false },
        EntryMeta { id: 6, flags: 0, blocked: false },
    ];
    // The first entry is special and the second is claimed as a table, so
    // the third wins.
    let tables = vec![None, Some(0), None];
    assert_eq!(Pup::new(entries, tables).get_system_image(), Some(2));
}

#[test]
fn pup_system_image_absent() {
    let entries = vec![
        EntryMeta { id: 5, flags: 0, blocked: false },
        EntryMeta { id: 6, flags: 0xf0000000, blocked: false },
    ];
    let tables = vec![None, None];
    assert_eq!(Pup::new(entries, tables).get_system_image(), None);
}

#[test]
fn pup_table_pass_claims_for_blocked_entry() {
    // Entry 0 is the table naming entry 1; entry 1 is blocked and claims
    // slot 0.
    let entries = vec![
        EntryMeta { id: 1, flags: 1, blocked: false },
        EntryMeta { id: 7, flags: 0, blocked: true },
    ];
    assert_eq!(pup::resolve_tables(&entries), Ok(vec![Some(1), None]));
}

#[test]
fn pup_table_pass_later_entry_clears_its_slot() {
    // Entry 0 is blocked and claims slot 1, but entry 1 itself is processed
    // afterwards and clears its own slot again: the pass is order-sensitive.
    let entries = vec![
        EntryMeta { id: 9, flags: 0, blocked: true },
        EntryMeta { id: 0, flags: 1, blocked: false },
    ];
    assert_eq!(pup::resolve_tables(&entries), Ok(vec![None, None]));
}

#[test]
fn pup_table_pass_masked_id() {
    let entries = vec![EntryMeta { id: 0xe00, flags: 0, blocked: true }];
    assert_eq!(pup::resolve_tables(&entries), Err(TableError::MaskedId));
}

#[test]
fn pup_table_pass_missing_table() {
    let entries = vec![EntryMeta { id: 3, flags: 0, blocked: true }];
    assert_eq!(pup::resolve_tables(&entries), Err(TableError::MissingTable));
}
