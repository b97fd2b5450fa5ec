//! The file-backed adapter's verified core.
//!
//! A file adapter owns a fixed length, captured once when the file is
//! opened, and a single reusable scratch buffer kept in a slot. A read
//! takes the buffer out of the slot, hands it to a worker that performs the
//! positioned read, then copies the bytes the worker produced into the
//! caller's buffer and puts the scratch buffer back. If the slot is found
//! empty at the start of a read, an earlier read was cancelled mid-flight
//! and the buffer was lost: the instance is dead, and every read on it
//! fails immediately without any I/O.
//!
//! The unverified surroundings serialize reads with a lock and run the
//! actual positioned read; this module holds every decision and every byte
//! movement in between.

use vstd::prelude::*;

verus! {

/// The error a file read can fail with before any I/O is attempted.
#[derive(Clone, Copy, Debug, PartialEq, Eq, Structural)]
pub enum Error {
    /// A previous read was cancelled while it held the scratch buffer; the
    /// instance can no longer be read from.
    DeadFile,
}

/// State of the scratch-buffer slot after an attempt to take the buffer,
/// and whether the attempt succeeded: a take from an occupied slot empties
/// it and succeeds; a take from an empty slot leaves it empty and fails.
pub open spec fn spec_take_slot(occupied: bool) -> (bool, bool) {
    if occupied {
        (false, true)
    } else {
        (false, false)
    }
}

/// State of the scratch-buffer slot after `n` take attempts with nothing
/// returned in between.
pub open spec fn spec_slot_after_takes(occupied: bool, n: nat) -> bool
    decreases n,
{
    if n == 0 {
        occupied
    } else {
        spec_take_slot(spec_slot_after_takes(occupied, (n - 1) as nat)).0
    }
}

/// The file-backed adapter: a fixed length and the scratch-buffer slot.
///
/// The open file handle itself stays outside the verified library; a read
/// is driven as `begin_read`, then the positioned read at the given offset,
/// then `complete_read` (or `return_scratch` when the read failed).
pub struct File {
    len: u64,
    slot: Option<Vec<u8>>,
}

impl File {
    /// The total size of the resource, fixed at open time.
    pub closed spec fn spec_len(self) -> u64 {
        self.len
    }

    /// Whether the scratch buffer is in its slot. Empty means a read is in
    /// flight, or — seen from the start of a new read — that the instance
    /// is dead.
    pub closed spec fn slot_occupied(self) -> bool {
        self.slot is Some
    }

    /// Builds the adapter for an already-open file of the given length.
    /// The length is never re-validated afterwards.
    pub fn new(len: u64) -> (f: File)
        ensures
            f.spec_len() == len,
            f.slot_occupied(),
    {
        File { len, slot: Some(Vec::new()) }
    }

    /// Returns the fixed total size.
    pub fn len(&self) -> (n: u64)
        ensures
            n == self.spec_len(),
    {
        self.len
    }

    /// Starts a read of `want` bytes: takes the scratch buffer out of its
    /// slot and sizes it for the request. If the slot is empty, the
    /// instance is dead and the read fails at once, without any I/O and
    /// without changing the state.
    pub fn begin_read(&mut self, want: usize) -> (r: Result<Vec<u8>, Error>)
        ensures
            final(self).spec_len() == old(self).spec_len(),
            (final(self).slot_occupied(), r is Ok) == spec_take_slot(old(self).slot_occupied()),
            old(self).slot_occupied() ==> (r matches Ok(scratch) && scratch@.len() == want),
            !old(self).slot_occupied() ==> r == Err::<Vec<u8>, Error>(Error::DeadFile)
                && *final(self) == *old(self),
    {
        match self.slot.take() {
            None => Err(Error::DeadFile),
            Some(mut scratch) => {
                scratch.clear();
                scratch.resize(want, 0);
                Ok(scratch)
            },
        }
    }

    /// Finishes a successful read: copies the first `n` bytes the worker
    /// placed in the scratch buffer into the caller's buffer and returns
    /// the scratch buffer to its slot. Bytes of `dst` past `n` are left as
    /// they were.
    pub fn complete_read(&mut self, scratch: Vec<u8>, n: usize, dst: &mut [u8])
        requires
            n <= scratch@.len(),
            n <= old(dst)@.len(),
        ensures
            final(self).spec_len() == old(self).spec_len(),
            final(self).slot_occupied(),
            final(dst)@.len() == old(dst)@.len(),
            final(dst)@.subrange(0, n as int) == scratch@.subrange(0, n as int),
            final(dst)@.skip(n as int) == old(dst)@.skip(n as int),
    {
        let mut i: usize = 0;
        while i < n
            invariant
                i <= n,
                n <= scratch@.len(),
                n <= dst@.len(),
                dst@.len() == old(dst)@.len(),
                forall|j: int| 0 <= j < i ==> dst@[j] == scratch@[j],
                forall|j: int| i <= j < dst@.len() ==> dst@[j] == old(dst)@[j],
            decreases n - i,
        {
            let b = scratch[i];
            dst[i] = b;
            i += 1;
        }
        proof {
            assert(final(dst)@.subrange(0, n as int) =~= scratch@.subrange(0, n as int));
            assert(final(dst)@.skip(n as int) =~= old(dst)@.skip(n as int));
        }
        self.slot = Some(scratch);
    }

    /// Finishes a failed read: the worker reported an I/O error, so nothing
    /// is copied, but the scratch buffer still goes back to its slot and
    /// the instance stays usable.
    pub fn return_scratch(&mut self, scratch: Vec<u8>)
        ensures
            final(self).spec_len() == old(self).spec_len(),
            final(self).slot_occupied(),
    {
        self.slot = Some(scratch);
    }
}

/// Law: the dead-file state is permanent. Once the scratch-buffer slot is
/// empty and nothing returns the buffer, every one of the following read
/// attempts finds the slot empty and fails, however many were made before.
pub proof fn lemma_dead_file_permanent(n: nat)
    ensures
        !spec_slot_after_takes(false, n),
        !spec_take_slot(spec_slot_after_takes(false, n)).1,
    decreases n,
{
    if n > 0 {
        lemma_dead_file_permanent((n - 1) as nat);
    }
}

/// Law: at most one read holds the scratch buffer at a time. Taking the
/// buffer from an occupied slot succeeds and leaves the slot empty, so a
/// second take before the buffer is returned fails.
pub proof fn lemma_scratch_exclusive()
    ensures
        spec_take_slot(true).1,
        !spec_take_slot(spec_take_slot(true).0).1,
{
}

/// Law: a completed read hands the caller exactly the source bytes in
/// `[offset, offset + n)`. If the worker filled the scratch buffer's first
/// `n` bytes with the bytes of the resource at `offset`, and the caller's
/// buffer received the scratch buffer's first `n` bytes, then the caller's
/// first `n` bytes are exactly that slice of the resource.
pub proof fn lemma_read_exact(
    source: Seq<u8>,
    offset: int,
    n: int,
    scratch: Seq<u8>,
    dst: Seq<u8>,
)
    requires
        0 <= offset,
        0 <= n,
        offset + n <= source.len(),
        n <= scratch.len(),
        n <= dst.len(),
        scratch.subrange(0, n) == source.subrange(offset, offset + n),
        dst.subrange(0, n) == scratch.subrange(0, n),
    ensures
        dst.subrange(0, n) == source.subrange(offset, offset + n),
{
}

} // verus!
