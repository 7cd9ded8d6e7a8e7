use bootmem::listing::print_memory_map;
use bootmem::memory::{get_mem_size, try_mem_size, MemoryDescriptor, MemoryType};

fn region(memory_type: MemoryType, physical_address: usize, size: usize) -> MemoryDescriptor {
    MemoryDescriptor {
        memory_type,
        physical_address,
        virtual_address: 0,
        size,
        attributes: 0,
    }
}

const ALL_TYPES: [MemoryType; 16] = [
    MemoryType::Reserved,
    MemoryType::LoaderCode,
    MemoryType::LoaderData,
    MemoryType::BootServicesCode,
    MemoryType::BootServicesData,
    MemoryType::RuntimeServicesCode,
    MemoryType::RuntimeServicesData,
    MemoryType::Conventional,
    MemoryType::Unusable,
    MemoryType::ACPIReclaim,
    MemoryType::ACPINVS,
    MemoryType::MemoryMappedIO,
    MemoryType::MemoryMappedIOPortSpace,
    MemoryType::PalCode,
    MemoryType::PersistentMemory,
    MemoryType::MaxMemoryType,
];

#[test]
fn only_conventional_and_boot_services_code_are_usable() {
    for t in ALL_TYPES {
        let expected = t == MemoryType::Conventional || t == MemoryType::BootServicesCode;
        assert_eq!(t.is_usable(), expected, "{:?}", t);
    }
    assert!(!MemoryType::BootServicesData.is_usable());
    assert!(!MemoryType::PersistentMemory.is_usable());
}

#[test]
fn type_codes_round_trip() {
    for (code, t) in ALL_TYPES.iter().enumerate() {
        assert_eq!(t.as_u8(), code as u32);
        assert_eq!(MemoryType::from_code(code as u32), *t);
    }
    assert_eq!(MemoryType::from_code(16), MemoryType::Reserved);
    assert_eq!(MemoryType::from_code(0x7000_0000), MemoryType::Reserved);
    assert_eq!(MemoryType::default(), MemoryType::Reserved);
}

#[test]
fn runtime_attribute_is_the_top_bit() {
    let mut d = region(MemoryType::RuntimeServicesCode, 0x1000, 1);
    assert!(!d.is_runtime());
    d.attributes = 0x8000_0000_0000_000f;
    assert!(d.is_runtime());
    d.attributes = 0x7fff_ffff_ffff_ffff;
    assert!(!d.is_runtime());
}

#[test]
fn terminator_is_the_all_zero_entry() {
    assert!(MemoryDescriptor::default().is_terminator());
    assert!(region(MemoryType::Conventional, 0, 0).is_terminator());
    assert!(!region(MemoryType::Reserved, 0, 1).is_terminator());
    assert!(!region(MemoryType::Reserved, 0x1000, 0).is_terminator());
}

#[test]
fn mem_size_counts_every_kind_up_to_the_terminator() {
    let map = [
        region(MemoryType::Conventional, 0x1000, 2),
        region(MemoryType::Reserved, 0x10000, 3),
        MemoryDescriptor::default(),
        region(MemoryType::Conventional, 0x90000, 100),
    ];
    assert_eq!(get_mem_size(&map), 5 * 4096);
    assert_eq!(get_mem_size(&[]), 0);
}

#[test]
fn listing_shows_each_region_and_totals() {
    let mut runtime = region(MemoryType::RuntimeServicesData, 0x2000, 1);
    runtime.virtual_address = 0xabc;
    runtime.attributes = 0x8000_0000_0000_0000;
    let map = [
        region(MemoryType::Conventional, 0x100000, 4),
        runtime,
        MemoryDescriptor::default(),
        region(MemoryType::Conventional, 0x900000, 4),
    ];
    let expected = "0000000000100000 0000000000000000 0000000000004000 Conventional Runtime false\r\n\
                    0000000000002000 0000000000000abc 0000000000001000 RuntimeServicesData Runtime true\r\n\
                    all: 5000, conv: 4000\r\n";
    assert_eq!(print_memory_map(&map), expected);
}

#[test]
fn listing_of_empty_map() {
    assert_eq!(print_memory_map(&[]), "all: 0, conv: 0\r\n");
}

#[test]
fn checked_mem_size_reports_overflow() {
    let map = [
        region(MemoryType::Conventional, 0x1000, 2),
        region(MemoryType::Reserved, 0x10000, 3),
        MemoryDescriptor::default(),
        region(MemoryType::Conventional, 0x90000, usize::MAX),
    ];
    assert_eq!(try_mem_size(&map), Some(5 * 4096));
    let huge = [
        region(MemoryType::Conventional, 0x1000, usize::MAX / 4096),
        region(MemoryType::Reserved, 0x10000, 1),
    ];
    assert_eq!(try_mem_size(&huge), None);
    assert_eq!(try_mem_size(&[region(MemoryType::Reserved, 0x1000, usize::MAX)]), None);
    assert_eq!(try_mem_size(&[]), Some(0));
}
