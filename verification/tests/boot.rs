use boot_paging::bios_enums;
use boot_paging::constants;
use boot_paging::disk::DiskAddressPacket;
use boot_paging::enums;
use boot_paging::protected_mode::{
    enter_protected_mode, enter_unreal_mode, BootStep, GdtPointer, GdtProtectedMode,
    ProcessorMode, FLAT_CODE_SELECTOR, FLAT_DATA_SELECTOR,
};

#[test]
fn gdt_descriptors_have_flat_model_values() {
    let gdt = GdtProtectedMode::new();
    assert_eq!(gdt.zero, 0);
    assert_eq!(gdt.code, 0x00cf_9a00_0000_ffff);
    assert_eq!(gdt.data, 0x00cf_9200_0000_ffff);
}

#[test]
fn gdt_load_masks_interrupts_first() {
    let gdt = GdtProtectedMode::new();
    let steps = gdt.clear_interrupts_and_load(0x7e00);
    assert_eq!(
        steps,
        vec![
            BootStep::DisableInterrupts,
            BootStep::LoadGdt(GdtPointer { limit: 23, base: 0x7e00 }),
        ]
    );
}

#[test]
fn unreal_mode_transition_sequence() {
    let gdt = GdtProtectedMode::new();
    let t = enter_unreal_mode(&gdt, 0x60000010, 0x0, 0x0, 0x7e00);
    assert_eq!(t.from, ProcessorMode::RealMode16);
    assert_eq!(t.to, ProcessorMode::UnrealMode16);
    assert_eq!(
        t.steps,
        vec![
            BootStep::DisableInterrupts,
            BootStep::LoadGdt(GdtPointer { limit: 23, base: 0x7e00 }),
            BootStep::WriteCr0(0x60000011),
            BootStep::LoadDataSegments(FLAT_DATA_SELECTOR),
            BootStep::WriteCr0(0x60000010),
            BootStep::RestoreDataSegment(0x0),
            BootStep::RestoreStackSegment(0x0),
            BootStep::EnableInterrupts,
        ]
    );
}

#[test]
fn unreal_mode_restores_saved_selectors() {
    let gdt = GdtProtectedMode::new();
    let t = enter_unreal_mode(&gdt, 0, 0x1234, 0x5678, 0x7e00);
    assert_eq!(t.steps[5], BootStep::RestoreDataSegment(0x1234));
    assert_eq!(t.steps[6], BootStep::RestoreStackSegment(0x5678));
    assert_eq!(t.steps[7], BootStep::EnableInterrupts);
}

#[test]
fn protected_mode_transition_sequence() {
    let t = enter_protected_mode(ProcessorMode::UnrealMode16, 0x60000010, 0x7e00);
    assert_eq!(t.from, ProcessorMode::UnrealMode16);
    assert_eq!(t.to, ProcessorMode::ProtectedMode32);
    assert_eq!(
        t.steps,
        vec![
            BootStep::DisableInterrupts,
            BootStep::WriteCr0(0x60000011),
            BootStep::AlignStack,
            BootStep::PushEntryPoint(0x7e00),
            BootStep::FarJumpToSelector(FLAT_CODE_SELECTOR),
            BootStep::ReloadProtectedSegments(FLAT_DATA_SELECTOR),
            BootStep::CallPushedEntryPoint,
            BootStep::HaltLoop,
        ]
    );
}

#[test]
fn protected_mode_never_reenables_interrupts() {
    let t = enter_protected_mode(ProcessorMode::RealMode16, 0, 0x9000);
    assert_eq!(t.steps[0], BootStep::DisableInterrupts);
    assert!(t.steps.iter().all(|s| *s != BootStep::EnableInterrupts));
}

#[test]
fn disk_address_packet_layout() {
    let p = DiskAddressPacket::new(63, 0x7e00, 0, 1);
    assert_eq!(p.packet_size, 0x10);
    assert_eq!(p.zero, 0);
    assert_eq!(p.num_of_blocks, 63);
    assert_eq!(p.memory_address, 0x7e00);
    assert_eq!(p.segment, 0);
    assert_eq!(p.abs_block_num, 1);
}

#[test]
fn bios_service_numbers() {
    assert_eq!(enums::Interrupts::VIDEO.as_u8(), 0x10);
    assert_eq!(enums::Interrupts::DISK.as_u8(), 0x13);
    assert_eq!(enums::Sections::Null.as_u8(), 0x0);
    assert_eq!(enums::Sections::KernelCode.as_u8(), 0x8);
    assert_eq!(enums::Sections::KernelData.as_u8(), 0x10);
    assert_eq!(enums::Disk::ExtendedRead.as_u8(), 0x42);
    assert_eq!(enums::Video::SetMode.as_u8(), 0x0);
    assert_eq!(enums::VideoModes::VGA_TX_80X25_PB_9X16_PR_720X400.as_u8(), 0x3);
    assert_eq!(enums::PacketSize::Default.as_u8(), 0x10);
}

#[test]
fn second_stage_bios_numbers() {
    assert_eq!(bios_enums::Interrupts::VIDEO.as_u8(), 0x10);
    assert_eq!(bios_enums::Video::SetMode.as_u8(), 0x0);
    assert_eq!(bios_enums::Video::DisplayChar.as_u8(), 0xE);
    assert_eq!(bios_enums::Video::DisplayStr.as_u8(), 0x13);
    assert_eq!(bios_enums::VideoModes::VGA_TX_80X25_PB_9X16_PR_720X400.as_u8(), 0x3);
    assert_eq!(bios_enums::PacketSize::Default.as_u8(), 0x10);
    assert_eq!(bios_enums::Color::Black.as_u8(), 0);
    assert_eq!(bios_enums::Color::Blue.as_u8(), 1);
    assert_eq!(bios_enums::Color::LightGray.as_u8(), 7);
    assert_eq!(bios_enums::Color::White.as_u8(), 15);
}

#[test]
fn memory_layout_constants() {
    assert_eq!(constants::FIRST_STAGE_OFFSET, 0x7c00);
    assert_eq!(constants::MASTER_BOOT_RECORD_OFFSET, 0x7c00 + 446);
    assert_eq!(constants::SECOND_STAGE_OFFSET, 0x7e00);
    assert_eq!(constants::KERNEL_OFFSET, 0x9000);
    assert_eq!(constants::IDENTITY_PAGE_TABLE_L4_OFFSET, 0x10000);
    assert_eq!(constants::IDENTITY_PAGE_TABLE_L3_OFFSET, 0x11000);
    assert_eq!(constants::IDENTITY_PAGE_TABLE_L2_OFFSET, 0x12000);
    assert_eq!(constants::TOP_IDENTITY_PAGE_TABLE_L3_OFFSET, 0x13000);
    assert_eq!(constants::TOP_IDENTITY_PAGE_TABLE_L2_OFFSET, 0x14000);
    assert_eq!(constants::PAGE_ALLOCATOR_OFFSET, 0x15000);
    assert_eq!(constants::PHYSICAL_MEMORY_OFFSET, 0xffff_8000_0000_0000);
    assert_eq!(constants::REGULAR_PAGE_SIZE, 4096);
    assert_eq!(constants::BIG_PAGE_SIZE, 0x200000);
    assert_eq!(constants::PAGE_DIRECTORY_ENTRIES, 512);
}
