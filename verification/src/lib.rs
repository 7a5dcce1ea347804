//! A verified function lifter: walks raw x86-64 instruction bytes one
//! function at a time, classifies each decoded instruction against a small
//! known-safe subset of semantics, tracks abstract register provenance to
//! recover a calling-convention-independent parameter list, and memoizes the
//! lifted functions in an address-keyed map driven by a FIFO worklist.

pub mod cpu;
pub mod disasm;
pub mod ee;
pub mod errno;
pub mod fat;
pub mod llvm;
pub mod pup;
