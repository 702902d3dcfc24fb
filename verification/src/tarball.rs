//! The tar writer of the `tar` crate, filling a byte buffer in memory.

use vstd::prelude::*;

verus! {

/// One entry of an archive as plain values: the name it is stored under, its
/// permission bits, its modification time and its bytes.
pub type Record = (Seq<char>, u32, u64, Seq<u8>);

/// A `tar::Builder` that writes into a `Vec<u8>`.
#[verifier::external_body]
pub struct TarBuilder {
    inner: tar::Builder<Vec<u8>>,
}

/// The entries appended so far, oldest first.
pub uninterp spec fn tar_entries(builder: TarBuilder) -> Seq<Record>;

/// The bytes of the finished archive that holds these entries in this order.
pub uninterp spec fn tar_bytes(entries: Seq<Record>) -> Seq<u8>;

/// Whether the tar format, as the `tar` crate writes it, takes an entry of
/// this name.
pub uninterp spec fn tar_accepts(name: Seq<char>) -> bool;

/// Calls `tar::Builder::new` on an empty `Vec<u8>`: a builder without entries.
#[verifier::external_body]
pub(crate) fn tar_builder_new() -> (builder: TarBuilder)
    ensures
        tar_entries(builder) == Seq::<Record>::empty(),
{
    TarBuilder { inner: tar::Builder::new(Vec::new()) }
}

/// Calls `tar::Builder::append_data` with a fresh GNU header that carries the
/// length of `data`, `mode` and `mtime`. The call fails only on the name (the
/// buffer in memory takes every write), and on success the entry is the
/// last one of the builder.
#[verifier::external_body]
pub(crate) fn tar_append(builder: &mut TarBuilder, name: &str, mode: u32, mtime: u64, data: &Vec<u8>) -> (res: Result<(), std::io::Error>)
    ensures
        res is Ok <==> tar_accepts(name@),
        res is Ok ==> tar_entries(*final(builder)) == tar_entries(*old(builder)).push((name@, mode, mtime, data@)),
{
    let mut header = tar::Header::new_gnu();
    header.set_size(data.len() as u64);
    header.set_mode(mode);
    header.set_mtime(mtime);
    builder.inner.append_data(&mut header, name, data.as_slice())
}

/// Calls `tar::Builder::into_inner`: writes the end of the archive and hands
/// the buffer out. Writing into a `Vec<u8>` cannot fail, so the result is `Ok`.
#[verifier::external_body]
pub(crate) fn tar_into_inner(builder: TarBuilder) -> (res: Result<Vec<u8>, std::io::Error>)
    ensures
        res is Ok,
        res->Ok_0@ == tar_bytes(tar_entries(builder)),
{
    builder.inner.into_inner()
}

} // verus!
