use vstd::prelude::*;

use crate::error::FillError;

verus! {

/// A snapshot of one storage area of a device, taken when the device was
/// last queried. `id` is an opaque token that only the backend interprets.
/// A device never reports more free space than capacity.
#[derive(Debug)]
pub struct StoragePool {
    id: u32,
    description: String,
    capacity: u64,
    free: u64,
}

impl StoragePool {
    pub closed spec fn id_spec(&self) -> u32 {
        self.id
    }

    pub closed spec fn description_spec(&self) -> Seq<char> {
        self.description@
    }

    pub closed spec fn capacity_spec(&self) -> u64 {
        self.capacity
    }

    pub closed spec fn free_spec(&self) -> u64 {
        self.free
    }

    #[verifier::type_invariant]
    closed spec fn inv(&self) -> bool {
        self.free <= self.capacity
    }

    /// Records a pool as the device reported it; a report with more free space
    /// than capacity is refused.
    pub fn new(id: u32, description: String, capacity: u64, free: u64) -> (r: Result<StoragePool, FillError>)
        ensures
            free <= capacity <==> r is Ok,
            free > capacity ==> r == Err::<StoragePool, FillError>(FillError::StorageQuery),
            r matches Ok(p) ==> {
                &&& p.id_spec() == id
                &&& p.description_spec() == description@
                &&& p.capacity_spec() == capacity
                &&& p.free_spec() == free
            },
    {
        if free > capacity {
            Err(FillError::StorageQuery)
        } else {
            Ok(StoragePool { id, description, capacity, free })
        }
    }

    /// The pool's identifier.
    pub fn id(&self) -> (r: u32)
        ensures
            r == self.id_spec(),
    {
        self.id
    }

    /// The pool's human description.
    pub fn description(&self) -> (r: &String)
        ensures
            r@ == self.description_spec(),
    {
        &self.description
    }

    /// The pool's maximum capacity in bytes.
    pub fn capacity(&self) -> (r: u64)
        ensures
            r == self.capacity_spec(),
    {
        self.capacity
    }

    /// The pool's free space in bytes, as last read; never above capacity.
    pub fn free(&self) -> (r: u64)
        ensures
            r == self.free_spec(),
            r <= self.capacity_spec(),
    {
        proof { use_type_invariant(self); }
        self.free
    }
}

/// The free space of the pool `id` in a fresh listing of a device's pools;
/// `StorageQuery` when the id no longer resolves. The value is that of the
/// first pool with the id, and never exceeds its capacity.
pub fn free_space_of(pools: &Vec<StoragePool>, id: u32) -> (r: Result<u64, FillError>)
    ensures
        (exists|i: int| 0 <= i < pools@.len() && pools@[i].id_spec() == id) <==> r is Ok,
        r is Err ==> r == Err::<u64, FillError>(FillError::StorageQuery),
        r matches Ok(f) ==> exists|i: int|
            0 <= i < pools@.len() && pools@[i].id_spec() == id && pools@[i].free_spec() == f
            && f <= pools@[i].capacity_spec()
            && forall|j: int| 0 <= j < i ==> pools@[j].id_spec() != id,
{
    let mut i: usize = 0;
    while i < pools.len()
        invariant
            i <= pools@.len(),
            forall|j: int| 0 <= j < i ==> pools@[j].id_spec() != id,
        decreases pools@.len() - i,
    {
        let p = &pools[i];
        if p.id() == id {
            return Ok(p.free());
        }
        i = i + 1;
    }
    Err(FillError::StorageQuery)
}

/// The content kind announced for a pushed file. The filler is synthetic, so
/// its kind is never inferred.
#[derive(Debug, Clone, Copy, PartialEq, Eq, Structural)]
pub enum ContentKind {
    Unknown,
}

/// What accompanies a file pushed to a device.
#[derive(Debug, Clone)]
pub struct TransferMetadata {
    pub file_name: String,
    pub file_size: u64,
    /// Last modification, in seconds since the Unix epoch.
    pub modified: i64,
    pub kind: ContentKind,
}

/// Metadata for pushing the local file `file_name` of `file_size` bytes.
pub fn transfer_metadata(file_name: String, file_size: u64, modified: i64) -> (r: TransferMetadata)
    ensures
        r.file_name@ == file_name@,
        r.file_size == file_size,
        r.modified == modified,
        r.kind == ContentKind::Unknown,
{
    TransferMetadata { file_name, file_size, modified, kind: ContentKind::Unknown }
}

} // verus!
