//! Firmware memory-map descriptors and the usable-memory policy.

use vstd::prelude::*;

verus! {

/// Size in bytes of one firmware page and of one physical frame.
pub const PAGE_SIZE: usize = 4096;

/// Physical addresses are below 2^52.
pub const PHYS_LIMIT: u64 = 0x10_0000_0000_0000;

/// Attribute bit marking a region that firmware runtime services need.
pub const RUNTIME_ATTRIBUTE: u64 = 0x8000_0000_0000_0000;

/// The region kinds that firmware reports in its memory map.
#[derive(Clone, Copy, PartialEq, Eq, Structural, Debug)]
pub enum MemoryType {
    Reserved,
    LoaderCode,
    LoaderData,
    BootServicesCode,
    BootServicesData,
    RuntimeServicesCode,
    RuntimeServicesData,
    Conventional,
    Unusable,
    ACPIReclaim,
    ACPINVS,
    MemoryMappedIO,
    MemoryMappedIOPortSpace,
    PalCode,
    PersistentMemory,
    MaxMemoryType,
}

/// The firmware's numeric code of a region kind.
pub open spec fn type_code(t: MemoryType) -> u32 {
    match t {
        MemoryType::Reserved => 0,
        MemoryType::LoaderCode => 1,
        MemoryType::LoaderData => 2,
        MemoryType::BootServicesCode => 3,
        MemoryType::BootServicesData => 4,
        MemoryType::RuntimeServicesCode => 5,
        MemoryType::RuntimeServicesData => 6,
        MemoryType::Conventional => 7,
        MemoryType::Unusable => 8,
        MemoryType::ACPIReclaim => 9,
        MemoryType::ACPINVS => 10,
        MemoryType::MemoryMappedIO => 11,
        MemoryType::MemoryMappedIOPortSpace => 12,
        MemoryType::PalCode => 13,
        MemoryType::PersistentMemory => 14,
        MemoryType::MaxMemoryType => 15,
    }
}

/// The allocation policy: only conventional memory and boot-services code
/// may be handed out once firmware services are gone.
pub open spec fn usable_type(t: MemoryType) -> bool {
    t == MemoryType::Conventional || t == MemoryType::BootServicesCode
}

impl MemoryType {
    /// Whether regions of this kind may be used for allocation.
    pub fn is_usable(&self) -> (r: bool)
        ensures
            r == usable_type(*self),
    {
        match self {
            MemoryType::BootServicesCode | MemoryType::Conventional => true,
            _ => false,
        }
    }

    /// The firmware's numeric code of this kind.
    pub fn as_u8(&self) -> (r: u32)
        ensures
            r == type_code(*self),
    {
        match self {
            MemoryType::Reserved => 0,
            MemoryType::LoaderCode => 1,
            MemoryType::LoaderData => 2,
            MemoryType::BootServicesCode => 3,
            MemoryType::BootServicesData => 4,
            MemoryType::RuntimeServicesCode => 5,
            MemoryType::RuntimeServicesData => 6,
            MemoryType::Conventional => 7,
            MemoryType::Unusable => 8,
            MemoryType::ACPIReclaim => 9,
            MemoryType::ACPINVS => 10,
            MemoryType::MemoryMappedIO => 11,
            MemoryType::MemoryMappedIOPortSpace => 12,
            MemoryType::PalCode => 13,
            MemoryType::PersistentMemory => 14,
            MemoryType::MaxMemoryType => 15,
        }
    }

    /// The kind with the given firmware code. Codes outside the enumeration
    /// (vendor-specific kinds) are read as `Reserved`, so that they are never
    /// allocated from.
    pub fn from_code(code: u32) -> (r: MemoryType)
        ensures
            code <= 15 ==> type_code(r) == code,
            code > 15 ==> r == MemoryType::Reserved,
    {
        match code {
            1 => MemoryType::LoaderCode,
            2 => MemoryType::LoaderData,
            3 => MemoryType::BootServicesCode,
            4 => MemoryType::BootServicesData,
            5 => MemoryType::RuntimeServicesCode,
            6 => MemoryType::RuntimeServicesData,
            7 => MemoryType::Conventional,
            8 => MemoryType::Unusable,
            9 => MemoryType::ACPIReclaim,
            10 => MemoryType::ACPINVS,
            11 => MemoryType::MemoryMappedIO,
            12 => MemoryType::MemoryMappedIOPortSpace,
            13 => MemoryType::PalCode,
            14 => MemoryType::PersistentMemory,
            15 => MemoryType::MaxMemoryType,
            _ => MemoryType::Reserved,
        }
    }
}

impl Default for MemoryType {
    fn default() -> (r: MemoryType)
        ensures
            r == MemoryType::Reserved,
    {
        MemoryType::Reserved
    }
}

/// One firmware-reported region: `size` counts 4096-byte pages.
#[derive(Clone, Copy, PartialEq, Eq, Structural, Debug)]
pub struct MemoryDescriptor {
    pub memory_type: MemoryType,
    pub physical_address: usize,
    pub virtual_address: usize,
    pub size: usize,
    pub attributes: u64,
}

/// The all-zero entry that ends the meaningful part of a map buffer.
pub open spec fn is_terminator(d: MemoryDescriptor) -> bool {
    d.physical_address == 0 && d.virtual_address == 0 && d.size == 0
}

/// Region length in bytes.
pub open spec fn region_bytes(d: MemoryDescriptor) -> nat {
    d.size as nat * PAGE_SIZE as nat
}

impl MemoryDescriptor {
    /// Whether firmware runtime services keep using this region.
    pub fn is_runtime(&self) -> (r: bool)
        ensures
            r == (self.attributes >= RUNTIME_ATTRIBUTE),
    {
        let a = self.attributes;
        let r = a & 0x8000_0000_0000_0000u64 > 0;
        assert(r == (a >= 0x8000_0000_0000_0000u64)) by (bit_vector)
            requires
                r == (a & 0x8000_0000_0000_0000u64 > 0),
        ;
        r
    }

    /// Whether this is the all-zero terminator entry.
    pub fn is_terminator(&self) -> (r: bool)
        ensures
            r == is_terminator(*self),
    {
        self.physical_address == 0 && self.virtual_address == 0 && self.size == 0
    }
}

impl Default for MemoryDescriptor {
    fn default() -> (r: MemoryDescriptor)
        ensures
            is_terminator(r),
            r.memory_type == MemoryType::Reserved,
            r.attributes == 0,
    {
        MemoryDescriptor {
            memory_type: MemoryType::Reserved,
            physical_address: 0,
            virtual_address: 0,
            size: 0,
            attributes: 0,
        }
    }
}

/// Bytes described by the map up to its terminator, of every kind.
pub open spec fn mem_size(map: Seq<MemoryDescriptor>) -> nat
    decreases map.len(),
{
    if map.len() == 0 || is_terminator(map[0]) {
        0
    } else {
        region_bytes(map[0]) + mem_size(map.drop_first())
    }
}

/// Total size in bytes of the regions before the terminator.
pub fn get_mem_size(map: &[MemoryDescriptor]) -> (r: usize)
    requires
        mem_size(map@) <= usize::MAX,
    ensures
        r == mem_size(map@),
{
    let mut all: usize = 0;
    let mut i: usize = 0;
    assert(map@.skip(0) =~= map@);
    while i < map.len()
        invariant
            i <= map@.len(),
            all + mem_size(map@.skip(i as int)) == mem_size(map@),
            mem_size(map@) <= usize::MAX,
        decreases map@.len() - i,
    {
        let d = map[i];
        assert(map@.skip(i as int)[0] == d);
        if d.is_terminator() {
            return all;
        }
        assert(map@.skip(i as int).drop_first() =~= map@.skip(i + 1));
        all = all + d.size * PAGE_SIZE;
        i = i + 1;
    }
    all
}

/// Total size in bytes of the regions before the terminator, or `None`
/// when that total does not fit in a `usize`.
pub fn try_mem_size(map: &[MemoryDescriptor]) -> (r: Option<usize>)
    ensures
        r is Some <==> mem_size(map@) <= usize::MAX,
        r is Some ==> r->Some_0 == mem_size(map@),
{
    let mut all: usize = 0;
    let mut i: usize = 0;
    assert(map@.skip(0) =~= map@);
    while i < map.len()
        invariant
            i <= map@.len(),
            all + mem_size(map@.skip(i as int)) == mem_size(map@),
        decreases map@.len() - i,
    {
        let d = map[i];
        assert(map@.skip(i as int)[0] == d);
        if d.is_terminator() {
            return Some(all);
        }
        assert(map@.skip(i as int).drop_first() =~= map@.skip(i + 1));
        let total = (all as u128) + (d.size as u128) * 4096;
        if total > usize::MAX as u128 {
            return None;
        }
        all = total as usize;
        i = i + 1;
    }
    Some(all)
}

} // verus!
