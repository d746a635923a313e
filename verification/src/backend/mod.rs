//! What the engine asks of the machine it runs on: threads, memory with
//! permissions, a raw lock, and what the system can do.
//!
//! Addresses are plain integers here. An implementation turns them into
//! pointers behind its own boundary.

use vstd::prelude::*;

pub mod mutex;

pub use self::mutex::{Mutex, RawMutex};

verus! {

/// Which strategy keeps sandboxed code inside its memory.
#[derive(Copy, Clone, PartialEq, Eq, Debug, Structural)]
pub enum SandboxImplementation {
    /// Accesses beyond the usable bound fault in uncommitted guard pages.
    UncommittedPages,
    /// Generated code checks every access against the bound.
    BoundsChecks,
}

/// The bit of [`MemPerms`] that allows reading.
pub const READ: u8 = 0x1;

/// The bit of [`MemPerms`] that allows writing.
pub const WRITE: u8 = 0x2;

/// The bit of [`MemPerms`] that allows executing.
pub const EXEC: u8 = 0x4;

/// What may be done with a region of memory: any of reading, writing and
/// executing.
#[derive(Copy, Clone, PartialEq, Eq, Debug, Structural)]
pub struct MemPerms {
    bits: u8,
}

impl MemPerms {
    /// The permissions as bits: [`READ`], [`WRITE`] and [`EXEC`], and no
    /// other.
    pub closed spec fn spec_bits(self) -> u8 {
        self.bits
    }

    /// Whether the bits are permission bits only. This holds of every value
    /// that the functions of this type hand out.
    pub open spec fn wf(self) -> bool {
        self.spec_bits() & !(READ | WRITE | EXEC) == 0
    }

    /// Whether reading is allowed.
    pub open spec fn allows_read(self) -> bool {
        self.spec_bits() & READ != 0
    }

    /// Whether writing is allowed.
    pub open spec fn allows_write(self) -> bool {
        self.spec_bits() & WRITE != 0
    }

    /// Whether executing is allowed.
    pub open spec fn allows_exec(self) -> bool {
        self.spec_bits() & EXEC != 0
    }

    /// No access at all.
    pub fn none() -> (perms: Self)
        ensures
            perms.spec_bits() == 0,
            perms.wf(),
            !perms.allows_read() && !perms.allows_write() && !perms.allows_exec(),
    {
        assert(0u8 & !(0x1u8 | 0x2u8 | 0x4u8) == 0 && 0u8 & 0x1u8 == 0 && 0u8 & 0x2u8 == 0 && 0u8
            & 0x4u8 == 0) by (bit_vector);
        Self { bits: 0 }
    }

    /// Reading only.
    pub fn read() -> (perms: Self)
        ensures
            perms.spec_bits() == READ,
            perms.wf(),
            perms.allows_read() && !perms.allows_write() && !perms.allows_exec(),
    {
        assert(0x1u8 & !(0x1u8 | 0x2u8 | 0x4u8) == 0 && 0x1u8 & 0x1u8 != 0 && 0x1u8 & 0x2u8 == 0
            && 0x1u8 & 0x4u8 == 0) by (bit_vector);
        Self { bits: READ }
    }

    /// Writing only.
    pub fn write() -> (perms: Self)
        ensures
            perms.spec_bits() == WRITE,
            perms.wf(),
            !perms.allows_read() && perms.allows_write() && !perms.allows_exec(),
    {
        assert(0x2u8 & !(0x1u8 | 0x2u8 | 0x4u8) == 0 && 0x2u8 & 0x1u8 == 0 && 0x2u8 & 0x2u8 != 0
            && 0x2u8 & 0x4u8 == 0) by (bit_vector);
        Self { bits: WRITE }
    }

    /// Executing only.
    pub fn exec() -> (perms: Self)
        ensures
            perms.spec_bits() == EXEC,
            perms.wf(),
            !perms.allows_read() && !perms.allows_write() && perms.allows_exec(),
    {
        assert(0x4u8 & !(0x1u8 | 0x2u8 | 0x4u8) == 0 && 0x4u8 & 0x1u8 == 0 && 0x4u8 & 0x2u8 == 0
            && 0x4u8 & 0x4u8 != 0) by (bit_vector);
        Self { bits: EXEC }
    }

    /// The permissions as bits.
    #[verifier::when_used_as_spec(spec_bits)]
    pub fn bits(self) -> (bits: u8)
        ensures
            bits == self.spec_bits(),
    {
        self.bits
    }

    /// The permissions that `bits` stands for; none where a bit is set that
    /// is no permission.
    pub fn from_bits(bits: u8) -> (perms: Option<Self>)
        ensures
            perms is Some <==> bits & !(READ | WRITE | EXEC) == 0,
            perms matches Some(perms) ==> perms.spec_bits() == bits && perms.wf(),
    {
        if bits & !(READ | WRITE | EXEC) == 0 {
            Some(Self { bits })
        } else {
            None
        }
    }

    /// What either of the two allows.
    pub fn union(self, other: Self) -> (perms: Self)
        ensures
            perms.spec_bits() == self.spec_bits() | other.spec_bits(),
            perms.allows_read() <==> self.allows_read() || other.allows_read(),
            perms.allows_write() <==> self.allows_write() || other.allows_write(),
            perms.allows_exec() <==> self.allows_exec() || other.allows_exec(),
            self.wf() && other.wf() ==> perms.wf(),
    {
        let a = self.bits;
        let b = other.bits;
        assert(((a | b) & 0x1u8 != 0 <==> a & 0x1u8 != 0 || b & 0x1u8 != 0) && ((a | b) & 0x2u8
            != 0 <==> a & 0x2u8 != 0 || b & 0x2u8 != 0) && ((a | b) & 0x4u8 != 0 <==> a & 0x4u8
            != 0 || b & 0x4u8 != 0) && (a & !(0x1u8 | 0x2u8 | 0x4u8) == 0 && b & !(0x1u8 | 0x2u8
            | 0x4u8) == 0 ==> (a | b) & !(0x1u8 | 0x2u8 | 0x4u8) == 0)) by (bit_vector);
        Self { bits: a | b }
    }

    /// Whether this allows all that `other` allows.
    pub fn contains(self, other: Self) -> (contained: bool)
        ensures
            contained <==> self.spec_bits() & other.spec_bits() == other.spec_bits(),
            other.wf() ==> (contained <==> (other.allows_read() ==> self.allows_read()) && (
            other.allows_write() ==> self.allows_write()) && (other.allows_exec()
                ==> self.allows_exec())),
    {
        let a = self.bits;
        let b = other.bits;
        assert(b & !(0x1u8 | 0x2u8 | 0x4u8) == 0 ==> (a & b == b <==> (b & 0x1u8 != 0 ==> a & 0x1u8
            != 0) && (b & 0x2u8 != 0 ==> a & 0x2u8 != 0) && (b & 0x4u8 != 0 ==> a & 0x4u8 != 0)))
            by (bit_vector);
        a & b == b
    }
}

/// A region of memory that a backend has allocated and not yet taken back.
///
/// A region is handed out by [`Backend::allocate`] and consumed by
/// [`Backend::deallocate`]; it can be neither copied nor cloned.
#[derive(Debug)]
pub struct Region {
    address: usize,
    size: usize,
}

impl Region {
    pub closed spec fn spec_address(&self) -> usize {
        self.address
    }

    pub closed spec fn spec_size(&self) -> usize {
        self.size
    }

    /// The region of `size` bytes at `address`. Only a backend that has just
    /// allocated these bytes makes a region of them.
    pub fn new(address: usize, size: usize) -> (region: Self)
        ensures
            region.spec_address() == address,
            region.spec_size() == size,
    {
        Self { address, size }
    }

    /// The address of the first byte.
    #[verifier::when_used_as_spec(spec_address)]
    pub fn address(&self) -> (address: usize)
        ensures
            address == self.spec_address(),
    {
        self.address
    }

    /// The number of bytes, as asked for when the region was allocated.
    #[verifier::when_used_as_spec(spec_size)]
    pub fn size(&self) -> (size: usize)
        ensures
            size == self.spec_size(),
    {
        self.size
    }
}

/// What a system can do.
pub trait SystemInfo {
    /// The number of hardware threads.
    fn hardware_thread_num(&self) -> usize;

    /// How the system keeps sandboxed code inside its memory. Generated code
    /// is safe under either strategy.
    fn sandbox_implementation(&self) -> SandboxImplementation;
}

/// The machine under the engine.
pub trait Backend: Send + Sync {
    /// Stands for a running thread until the thread is destroyed.
    type ThreadToken;

    type Info: SystemInfo;

    type RawMutex: RawMutex;

    /// Starts a thread that runs the code at address `entry` with the
    /// argument `arg`.
    fn create_thread(&self, entry: usize, arg: usize) -> Self::ThreadToken;

    /// Ends the thread that `token` stands for. The token is used up.
    fn destroy_thread(&self, token: Self::ThreadToken);

    /// Allocates `size` bytes that may be accessed as `perms` allows.
    fn allocate(&self, size: usize, perms: MemPerms) -> (region: Region)
        ensures
            region.spec_size() == size,
    ;

    /// Takes back a region. The caller states the size the region was
    /// allocated with: to state another size is the caller's fault, and no
    /// implementation has to check it. The region is used up.
    fn deallocate(&self, region: Region, size: usize)
        requires
            size == region.spec_size(),
    ;

    /// What the system can do.
    fn system_info(&self) -> &Self::Info;
}

} // verus!
