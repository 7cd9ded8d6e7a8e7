//! The human-readable listing of a memory map, one line per region and a
//! closing line with the totals.

use vstd::prelude::*;
use vstd::string::{StrSliceExecFns, StringExecFns};
use crate::memory::{
    is_terminator,
    mem_size,
    region_bytes,
    MemoryDescriptor,
    MemoryType,
    PAGE_SIZE,
    RUNTIME_ATTRIBUTE,
};

verus! {

/// The lower-case hexadecimal digit of `v < 16`.
pub open spec fn hex_char(v: nat) -> char {
    "0123456789abcdef"@[v as int]
}

/// `v` in hexadecimal, zero-padded to `width` digits.
pub open spec fn hex_fixed(v: nat, width: nat) -> Seq<char>
    decreases width,
{
    if width == 0 {
        Seq::empty()
    } else {
        hex_fixed(v / 16, (width - 1) as nat).push(hex_char(v % 16))
    }
}

/// `v` in hexadecimal, without leading zeros.
pub open spec fn hex_min(v: nat) -> Seq<char>
    decreases v,
{
    if v < 16 {
        seq![hex_char(v)]
    } else {
        hex_min(v / 16).push(hex_char(v % 16))
    }
}

/// The name a region kind is listed under.
pub open spec fn kind_name(t: MemoryType) -> Seq<char> {
    match t {
        MemoryType::Reserved => "Reserved"@,
        MemoryType::LoaderCode => "LoaderCode"@,
        MemoryType::LoaderData => "LoaderData"@,
        MemoryType::BootServicesCode => "BootServicesCode"@,
        MemoryType::BootServicesData => "BootServicesData"@,
        MemoryType::RuntimeServicesCode => "RuntimeServicesCode"@,
        MemoryType::RuntimeServicesData => "RuntimeServicesData"@,
        MemoryType::Conventional => "Conventional"@,
        MemoryType::Unusable => "Unusable"@,
        MemoryType::ACPIReclaim => "ACPIReclaim"@,
        MemoryType::ACPINVS => "ACPINVS"@,
        MemoryType::MemoryMappedIO => "MemoryMappedIO"@,
        MemoryType::MemoryMappedIOPortSpace => "MemoryMappedIOPortSpace"@,
        MemoryType::PalCode => "PalCode"@,
        MemoryType::PersistentMemory => "PersistentMemory"@,
        MemoryType::MaxMemoryType => "MaxMemoryType"@,
    }
}

pub open spec fn bool_text(b: bool) -> Seq<char> {
    if b {
        "true"@
    } else {
        "false"@
    }
}

/// One region's line: physical address, virtual address and length in
/// bytes as 16 hexadecimal digits each, the kind, and whether runtime
/// services keep the region.
pub open spec fn listing_line(d: MemoryDescriptor) -> Seq<char> {
    hex_fixed(d.physical_address as nat, 16) + " "@ + hex_fixed(d.virtual_address as nat, 16)
        + " "@ + hex_fixed(region_bytes(d), 16) + " "@ + kind_name(d.memory_type) + " Runtime "@
        + bool_text(d.attributes >= RUNTIME_ATTRIBUTE) + "\r\n"@
}

/// The lines of the regions before the terminator.
pub open spec fn listing_lines(map: Seq<MemoryDescriptor>) -> Seq<char>
    decreases map.len(),
{
    if map.len() == 0 || is_terminator(map[0]) {
        Seq::empty()
    } else {
        listing_line(map[0]) + listing_lines(map.drop_first())
    }
}

/// Bytes of conventional memory before the terminator.
pub open spec fn conventional_size(map: Seq<MemoryDescriptor>) -> nat
    decreases map.len(),
{
    if map.len() == 0 || is_terminator(map[0]) {
        0
    } else {
        (if map[0].memory_type == MemoryType::Conventional {
            region_bytes(map[0])
        } else {
            0
        }) + conventional_size(map.drop_first())
    }
}

/// The whole listing: the region lines, then the total size and the
/// conventional size in hexadecimal.
pub open spec fn memory_map_listing(map: Seq<MemoryDescriptor>) -> Seq<char> {
    listing_lines(map) + "all: "@ + hex_min(mem_size(map)) + ", conv: "@ + hex_min(
        conventional_size(map),
    ) + "\r\n"@
}

fn push_hex_digit(out: &mut String, v: u64)
    requires
        v < 16,
    ensures
        final(out)@ == old(out)@.push(hex_char(v as nat)),
{
    let digits = "0123456789abcdef";
    proof {
        reveal_strlit("0123456789abcdef");
    }
    let i = v as usize;
    let digit = digits.substring_char(i, i + 1);
    assert(digit@ =~= seq![hex_char(v as nat)]);
    out.append(digit);
    assert(final(out)@ =~= old(out)@.push(hex_char(v as nat)));
}

pub(crate) fn push_hex_fixed(out: &mut String, v: u64, width: usize)
    ensures
        final(out)@ == old(out)@ + hex_fixed(v as nat, width as nat),
    decreases width,
{
    if width == 0 {
        assert(old(out)@ + hex_fixed(v as nat, 0) =~= old(out)@);
    } else {
        push_hex_fixed(out, v / 16, width - 1);
        push_hex_digit(out, v % 16);
        assert(final(out)@ =~= old(out)@ + hex_fixed(v as nat, width as nat));
    }
}

fn push_hex_min(out: &mut String, v: u64)
    ensures
        final(out)@ == old(out)@ + hex_min(v as nat),
    decreases v,
{
    if v < 16 {
        push_hex_digit(out, v);
        assert(final(out)@ =~= old(out)@ + hex_min(v as nat));
    } else {
        push_hex_min(out, v / 16);
        push_hex_digit(out, v % 16);
        assert(final(out)@ =~= old(out)@ + hex_min(v as nat));
    }
}

fn kind_name_text(t: MemoryType) -> (r: &'static str)
    ensures
        r@ == kind_name(t),
{
    match t {
            MemoryType::Reserved => "Reserved",
            MemoryType::LoaderCode => "LoaderCode",
            MemoryType::LoaderData => "LoaderData",
            MemoryType::BootServicesCode => "BootServicesCode",
            MemoryType::BootServicesData => "BootServicesData",
            MemoryType::RuntimeServicesCode => "RuntimeServicesCode",
            MemoryType::RuntimeServicesData => "RuntimeServicesData",
            MemoryType::Conventional => "Conventional",
            MemoryType::Unusable => "Unusable",
            MemoryType::ACPIReclaim => "ACPIReclaim",
            MemoryType::ACPINVS => "ACPINVS",
            MemoryType::MemoryMappedIO => "MemoryMappedIO",
            MemoryType::MemoryMappedIOPortSpace => "MemoryMappedIOPortSpace",
            MemoryType::PalCode => "PalCode",
            MemoryType::PersistentMemory => "PersistentMemory",
            MemoryType::MaxMemoryType => "MaxMemoryType",
    }
}

fn append_listing_line(out: &mut String, d: MemoryDescriptor)
    requires
        region_bytes(d) <= usize::MAX,
    ensures
        final(out)@ == old(out)@ + listing_line(d),
{
    push_hex_fixed(out, d.physical_address as u64, 16);
    out.append(" ");
    push_hex_fixed(out, d.virtual_address as u64, 16);
    out.append(" ");
    push_hex_fixed(out, (d.size * PAGE_SIZE) as u64, 16);
    out.append(" ");
    out.append(kind_name_text(d.memory_type));
    out.append(" Runtime ");
    if d.is_runtime() {
        out.append("true");
    } else {
        out.append("false");
    }
    out.append("\r\n");
    assert(final(out)@ =~= old(out)@ + listing_line(d));
}

/// The listing of `map` that the boot console shows: one line per region
/// up to the terminator, then the totals.
pub fn print_memory_map(map: &[MemoryDescriptor]) -> (r: String)
    requires
        mem_size(map@) <= usize::MAX,
    ensures
        r@ == memory_map_listing(map@),
{
    let mut out = String::new();
    let mut all: usize = 0;
    let mut conventional: usize = 0;
    let mut i: usize = 0;
    let mut at_terminator = false;
    assert(map@.skip(0) =~= map@);
    proof {
        lemma_conventional_within(map@);
    }
    while i < map.len() && !at_terminator
        invariant
            i <= map@.len(),
            mem_size(map@) <= usize::MAX,
            out@ + listing_lines(map@.skip(i as int)) == listing_lines(map@),
            all + mem_size(map@.skip(i as int)) == mem_size(map@),
            conventional + conventional_size(map@.skip(i as int)) == conventional_size(map@),
            conventional_size(map@.skip(i as int)) <= mem_size(map@.skip(i as int)),
            conventional <= all,
            at_terminator ==> i < map@.len() && is_terminator(map@[i as int]),
        decreases map@.len() - i + if at_terminator { 0int } else { 1int },
    {
        let d = map[i];
        let ghost rest = map@.skip(i as int);
        assert(rest[0] == d);
        if d.is_terminator() {
            at_terminator = true;
        } else {
            assert(rest.drop_first() =~= map@.skip(i + 1));
            proof {
                lemma_conventional_within(map@.skip(i + 1));
            }
            append_listing_line(&mut out, d);
            assert(out@ + listing_lines(map@.skip(i + 1)) =~= listing_lines(map@));
            let bytes = d.size * PAGE_SIZE;
            all = all + bytes;
            if d.memory_type == MemoryType::Conventional {
                conventional = conventional + bytes;
            }
            i = i + 1;
        }
    }
    assert(out@ =~= listing_lines(map@)) by {
        if at_terminator {
            assert(map@.skip(i as int)[0] == map@[i as int]);
        }
    }
    out.append("all: ");
    push_hex_min(&mut out, all as u64);
    out.append(", conv: ");
    push_hex_min(&mut out, conventional as u64);
    out.append("\r\n");
    assert(out@ =~= memory_map_listing(map@));
    out
}

proof fn lemma_conventional_within(map: Seq<MemoryDescriptor>)
    ensures
        conventional_size(map) <= mem_size(map),
    decreases map.len(),
{
    if map.len() > 0 && !is_terminator(map[0]) {
        lemma_conventional_within(map.drop_first());
    }
}

} // verus!
