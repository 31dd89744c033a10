use mu_pi::base::{Boolean, Guid};
use mu_pi::hob::header;
use mu_pi::hob::{has_length_of_kind, hob_kind, HobKind};
use mu_pi::hob::{
    Capsule, Cpu, FirmwareVolume, FirmwareVolume2, FirmwareVolume3, GuidHob, Hob, HobList,
    HobTrait, MemoryAllocation, MemoryAllocationModule, PhaseHandoffInformationTable,
    ResourceDescriptor,
};

// Generate a test firmware volume hob
fn gen_firmware_volume() -> FirmwareVolume {
    let header = header::Hob { hob_type: mu_pi::hob::FV, length: 24, reserved: 0 };

    FirmwareVolume { header, base_address: 0, length: 0x0123456789abcdef }
}

// Generate a test firmware volume 2 hob
fn gen_firmware_volume2() -> FirmwareVolume2 {
    let header = header::Hob { hob_type: mu_pi::hob::FV2, length: 56, reserved: 0 };

    FirmwareVolume2 {
        header,
        base_address: 0,
        length: 0x0123456789abcdef,
        fv_name: Guid::from_fields(1, 2, 3, 4, 5, &[6, 7, 8, 9, 10, 11]),
        file_name: Guid::from_fields(1, 2, 3, 4, 5, &[6, 7, 8, 9, 10, 11]),
    }
}

// Generate a test firmware volume 3 hob
fn gen_firmware_volume3() -> FirmwareVolume3 {
    let header = header::Hob { hob_type: mu_pi::hob::FV3, length: 64, reserved: 0 };

    FirmwareVolume3 {
        header,
        base_address: 0,
        length: 0x0123456789abcdef,
        authentication_status: 0,
        extracted_fv: Boolean::from_bool(false),
        fv_name: Guid::from_fields(1, 2, 3, 4, 5, &[6, 7, 8, 9, 10, 11]),
        file_name: Guid::from_fields(1, 2, 3, 4, 5, &[6, 7, 8, 9, 10, 11]),
    }
}

// Generate a test resource descriptor hob
fn gen_resource_descriptor() -> ResourceDescriptor {
    let header = header::Hob { hob_type: mu_pi::hob::RESOURCE_DESCRIPTOR, length: 48, reserved: 0 };

    ResourceDescriptor {
        header,
        owner: Guid::from_fields(1, 2, 3, 4, 5, &[6, 7, 8, 9, 10, 11]),
        resource_type: mu_pi::hob::EFI_RESOURCE_SYSTEM_MEMORY,
        resource_attribute: mu_pi::hob::EFI_RESOURCE_ATTRIBUTE_PRESENT,
        physical_start: 0,
        resource_length: 0x0123456789abcdef,
    }
}

// Generate a test memory allocation hob
fn gen_memory_allocation() -> MemoryAllocation {
    let header = header::Hob { hob_type: mu_pi::hob::MEMORY_ALLOCATION, length: 48, reserved: 0 };

    let alloc_descriptor = header::MemoryAllocation {
        name: Guid::from_fields(1, 2, 3, 4, 5, &[6, 7, 8, 9, 10, 11]),
        memory_base_address: 0,
        memory_length: 0x0123456789abcdef,
        memory_type: 0,
        reserved: [0; 4],
    };

    MemoryAllocation { header, alloc_descriptor }
}

fn gen_memory_allocation_module() -> MemoryAllocationModule {
    let header = header::Hob { hob_type: mu_pi::hob::MEMORY_ALLOCATION, length: 72, reserved: 0 };

    let alloc_descriptor = header::MemoryAllocation {
        name: Guid::from_fields(1, 2, 3, 4, 5, &[6, 7, 8, 9, 10, 11]),
        memory_base_address: 0,
        memory_length: 0x0123456789abcdef,
        memory_type: 0,
        reserved: [0; 4],
    };

    MemoryAllocationModule {
        header,
        alloc_descriptor,
        module_name: Guid::from_fields(1, 2, 3, 4, 5, &[6, 7, 8, 9, 10, 11]),
        entry_point: 0,
    }
}

fn gen_capsule() -> Capsule {
    let header = header::Hob { hob_type: mu_pi::hob::UEFI_CAPSULE, length: 12, reserved: 0 };

    Capsule { header, base_address: 0, length: 0x12 }
}

fn gen_guid_hob() -> GuidHob {
    let header = header::Hob { hob_type: mu_pi::hob::GUID_EXTENSION, length: 24, reserved: 0 };

    GuidHob { header, name: Guid::from_fields(1, 2, 3, 4, 5, &[6, 7, 8, 9, 10, 11]) }
}

// Generate a test end of hoblist hob
fn gen_end_of_hoblist() -> PhaseHandoffInformationTable {
    let header = header::Hob { hob_type: mu_pi::hob::END_OF_HOB_LIST, length: 56, reserved: 0 };

    PhaseHandoffInformationTable {
        header,
        version: 0x00010000,
        boot_mode: 0,
        memory_top: 0xdeadbeef,
        memory_bottom: 0xdeadc0de,
        free_memory_top: 104,
        free_memory_bottom: 255,
        end_of_hob_list: 0xdeaddeadc0dec0de,
    }
}

fn gen_cpu() -> Cpu {
    let header = header::Hob { hob_type: mu_pi::hob::CPU, length: 16, reserved: 0 };

    Cpu { header, size_of_memory_space: 0, size_of_io_space: 0, reserved: [0; 6] }
}

#[test]
fn test_hoblist_empty() {
    let hoblist = HobList::new();
    assert_eq!(hoblist.len(), 0);
    assert!(hoblist.is_empty());
}

#[test]
fn test_hoblist_push() {
    let mut hoblist = HobList::new();
    let resource = gen_resource_descriptor();
    hoblist.push(Hob::ResourceDescriptor(&resource));
    assert_eq!(hoblist.len(), 1);

    let firmware_volume = gen_firmware_volume();
    hoblist.push(Hob::FirmwareVolume(&firmware_volume));

    assert_eq!(hoblist.len(), 2);
}

#[test]
fn test_hoblist_iterate() {
    let mut hoblist = HobList::default();
    let resource = gen_resource_descriptor();
    let firmware_volume = gen_firmware_volume();
    let firmware_volume2 = gen_firmware_volume2();
    let firmware_volume3 = gen_firmware_volume3();
    let end_of_hob_list = gen_end_of_hoblist();
    let capsule = gen_capsule();
    let guid_hob = gen_guid_hob();
    let memory_allocation = gen_memory_allocation();
    let memory_allocation_module = gen_memory_allocation_module();

    hoblist.push(Hob::ResourceDescriptor(&resource));
    hoblist.push(Hob::FirmwareVolume(&firmware_volume));
    hoblist.push(Hob::FirmwareVolume2(&firmware_volume2));
    hoblist.push(Hob::FirmwareVolume3(&firmware_volume3));
    hoblist.push(Hob::Capsule(&capsule));
    hoblist.push(Hob::GuidHob(&guid_hob));
    hoblist.push(Hob::MemoryAllocation(&memory_allocation));
    hoblist.push(Hob::MemoryAllocationModule(&memory_allocation_module));
    hoblist.push(Hob::Handoff(&end_of_hob_list));

    let mut count = 0;
    hoblist.iter().iter().for_each(|hob| {
        match hob {
            Hob::ResourceDescriptor(resource) => {
                assert_eq!(resource.resource_type, mu_pi::hob::EFI_RESOURCE_SYSTEM_MEMORY);
            }
            Hob::MemoryAllocation(memory_allocation) => {
                assert_eq!(memory_allocation.alloc_descriptor.memory_length, 0x0123456789abcdef);
            }
            Hob::MemoryAllocationModule(memory_allocation_module) => {
                assert_eq!(memory_allocation_module.alloc_descriptor.memory_length, 0x0123456789abcdef);
            }
            Hob::Capsule(capsule) => {
                assert_eq!(capsule.base_address, 0);
            }
            Hob::GuidHob(guid_hob) => {
                assert_eq!(guid_hob.name, Guid::from_fields(1, 2, 3, 4, 5, &[6, 7, 8, 9, 10, 11]));
            }
            Hob::FirmwareVolume(firmware_volume) => {
                assert_eq!(firmware_volume.length, 0x0123456789abcdef);
            }
            Hob::FirmwareVolume2(firmware_volume) => {
                assert_eq!(firmware_volume.length, 0x0123456789abcdef);
            }
            Hob::FirmwareVolume3(firmware_volume) => {
                assert_eq!(firmware_volume.length, 0x0123456789abcdef);
            }
            Hob::Handoff(handoff) => {
                assert_eq!(handoff.memory_top, 0xdeadbeef);
            }
            _ => {
                panic!("Unexpected hob type");
            }
        }
        count += 1;
    });
    assert_eq!(count, 9);
}

#[test]
fn hoblist_keeps_the_order_of_the_pushes() {
    let mut hoblist = HobList::new();
    let cpu = gen_cpu();
    let capsule = gen_capsule();
    hoblist.push(Hob::Cpu(&cpu));
    hoblist.push(Hob::Misc(0x1234));
    hoblist.push(Hob::Capsule(&capsule));
    assert!(!hoblist.is_empty());
    let hobs = hoblist.iter();
    assert_eq!(hobs.len(), 3);
    assert!(matches!(hobs[0], Hob::Cpu(_)));
    assert!(matches!(hobs[1], Hob::Misc(0x1234)));
    assert!(matches!(hobs[2], Hob::Capsule(_)));
}

#[test]
fn hob_sizes_are_those_of_the_binary_layout() {
    let resource = gen_resource_descriptor();
    let firmware_volume = gen_firmware_volume();
    let firmware_volume2 = gen_firmware_volume2();
    let firmware_volume3 = gen_firmware_volume3();
    let handoff = gen_end_of_hoblist();
    let capsule = gen_capsule();
    let guid_hob = gen_guid_hob();
    let memory_allocation = gen_memory_allocation();
    let memory_allocation_module = gen_memory_allocation_module();
    let cpu = gen_cpu();
    assert_eq!(Hob::Handoff(&handoff).size(), 56);
    assert_eq!(Hob::MemoryAllocation(&memory_allocation).size(), 48);
    assert_eq!(Hob::MemoryAllocationModule(&memory_allocation_module).size(), 72);
    assert_eq!(Hob::Capsule(&capsule).size(), 12);
    assert_eq!(Hob::ResourceDescriptor(&resource).size(), 48);
    assert_eq!(Hob::GuidHob(&guid_hob).size(), 24);
    assert_eq!(Hob::FirmwareVolume(&firmware_volume).size(), 24);
    assert_eq!(Hob::FirmwareVolume2(&firmware_volume2).size(), 56);
    assert_eq!(Hob::FirmwareVolume3(&firmware_volume3).size(), 64);
    assert_eq!(Hob::Cpu(&cpu).size(), 16);
    assert_eq!(Hob::Misc(7).size(), 2);
}

#[test]
fn hoblist_size_adds_up_the_hob_sizes() {
    let mut hoblist = HobList::new();
    assert_eq!(hoblist.size(), 0);
    let resource = gen_resource_descriptor();
    let firmware_volume3 = gen_firmware_volume3();
    let capsule = gen_capsule();
    hoblist.push(Hob::ResourceDescriptor(&resource));
    hoblist.push(Hob::FirmwareVolume3(&firmware_volume3));
    hoblist.push(Hob::Capsule(&capsule));
    hoblist.push(Hob::Misc(0x77));
    assert_eq!(hoblist.size(), 48 + 64 + 12 + 2);
}

#[test]
fn hob_header_is_that_of_the_hob() {
    let cpu = gen_cpu();
    let header = Hob::Cpu(&cpu).header();
    assert_eq!(header.hob_type, mu_pi::hob::CPU);
    assert_eq!(header.length, 16);
    assert_eq!(header.reserved, 0);

    let handoff = gen_end_of_hoblist();
    let header = Hob::Handoff(&handoff).header();
    assert_eq!(header.hob_type, mu_pi::hob::END_OF_HOB_LIST);
    assert_eq!(header.length, 56);

    let header = Hob::Misc(0x00A5).header();
    assert_eq!(header.hob_type, 0x00A5);
    assert_eq!(header.length, 8);
    assert_eq!(header.reserved, 0);
}

#[test]
fn resource_attributes_are_valid_when_protections_are_supported() {
    let mut resource = gen_resource_descriptor();
    assert!(resource.attributes_valid());

    resource.resource_attribute = mu_pi::hob::EFI_RESOURCE_ATTRIBUTE_WRITE_PROTECTED;
    assert!(!resource.attributes_valid());
    resource.resource_attribute =
        mu_pi::hob::EFI_RESOURCE_ATTRIBUTE_WRITE_PROTECTED | mu_pi::hob::EFI_RESOURCE_ATTRIBUTE_WRITE_PROTECTABLE;
    assert!(resource.attributes_valid());

    // read protection is held against the read-only capability
    resource.resource_attribute = mu_pi::hob::EFI_RESOURCE_ATTRIBUTE_READ_PROTECTED;
    assert!(!resource.attributes_valid());
    resource.resource_attribute =
        mu_pi::hob::EFI_RESOURCE_ATTRIBUTE_READ_PROTECTED | mu_pi::hob::EFI_RESOURCE_ATTRIBUTE_READ_PROTECTABLE;
    assert!(!resource.attributes_valid());
    resource.resource_attribute = mu_pi::hob::EFI_RESOURCE_ATTRIBUTE_READ_PROTECTED
        | mu_pi::hob::EFI_RESOURCE_ATTRIBUTE_READ_ONLY_PROTECTABLE;
    assert!(resource.attributes_valid());

    resource.resource_attribute = mu_pi::hob::EFI_RESOURCE_ATTRIBUTE_EXECUTION_PROTECTED;
    assert!(!resource.attributes_valid());
    resource.resource_attribute = mu_pi::hob::EFI_RESOURCE_ATTRIBUTE_EXECUTION_PROTECTED
        | mu_pi::hob::EFI_RESOURCE_ATTRIBUTE_EXECUTION_PROTECTABLE;
    assert!(resource.attributes_valid());

    resource.resource_attribute = mu_pi::hob::EFI_RESOURCE_ATTRIBUTE_READ_ONLY_PROTECTED;
    assert!(!resource.attributes_valid());

    resource.resource_attribute = mu_pi::hob::EFI_RESOURCE_ATTRIBUTE_PERSISTENT;
    assert!(!resource.attributes_valid());
    resource.resource_attribute =
        mu_pi::hob::EFI_RESOURCE_ATTRIBUTE_PERSISTENT | mu_pi::hob::EFI_RESOURCE_ATTRIBUTE_PERSISTABLE;
    assert!(resource.attributes_valid());
}

#[test]
fn hob_kinds_are_told_from_type_and_length() {
    let kinds = [
        (mu_pi::hob::HANDOFF, 56u16, HobKind::Handoff),
        (mu_pi::hob::MEMORY_ALLOCATION, 48, HobKind::MemoryAllocation),
        (mu_pi::hob::MEMORY_ALLOCATION, 72, HobKind::MemoryAllocationModule),
        (mu_pi::hob::RESOURCE_DESCRIPTOR, 48, HobKind::ResourceDescriptor),
        (mu_pi::hob::GUID_EXTENSION, 24, HobKind::GuidHob),
        (mu_pi::hob::FV, 24, HobKind::FirmwareVolume),
        (mu_pi::hob::FV2, 56, HobKind::FirmwareVolume2),
        (mu_pi::hob::FV3, 64, HobKind::FirmwareVolume3),
        (mu_pi::hob::CPU, 16, HobKind::Cpu),
        (mu_pi::hob::UEFI_CAPSULE, 12, HobKind::Capsule),
        (mu_pi::hob::END_OF_HOB_LIST, 8, HobKind::EndOfHobList),
        (mu_pi::hob::MEMORY_POOL, 8, HobKind::Misc),
        (mu_pi::hob::UNUSED, 8, HobKind::Misc),
        (0x1234, 40, HobKind::Misc),
    ];
    for (hob_type, length, kind) in kinds {
        let header = header::Hob { hob_type, length, reserved: 0 };
        assert_eq!(hob_kind(&header), kind);
        assert!(has_length_of_kind(&header));
        // another length is refused where the kind has one length
        let longer = header::Hob { hob_type, length: length + 8, reserved: 0 };
        let free = matches!(kind, HobKind::GuidHob | HobKind::EndOfHobList | HobKind::Misc);
        assert_eq!(has_length_of_kind(&longer), free);
    }
    // a memory allocation HOB of any other length is a plain one, of the wrong length
    let header = header::Hob { hob_type: mu_pi::hob::MEMORY_ALLOCATION, length: 71, reserved: 0 };
    assert_eq!(hob_kind(&header), HobKind::MemoryAllocation);
    assert!(!has_length_of_kind(&header));
}
