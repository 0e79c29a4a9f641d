use bitvisor_bootloader::elf::Elf64Header;
use bitvisor_bootloader::loader::{
    effective_entry, pages_for, parse_kernel_header, BootAction, BootEvent, BootLoader, BootStage, HeaderFault,
    LoadError, ENTRY_BOOTSTRAP_CODE_SIZE, ENTRY_MASK, UPPER_LOAD_ADDR,
};

fn elf64_image(machine: u16, version: u32, entry: u64, flags: u32) -> Vec<u8> {
    let mut b = vec![0u8; 64 + 56];
    b[..8].copy_from_slice(&[0x7f, 0x45, 0x4c, 0x46, 2, 1, 1, 0]);
    b[16..18].copy_from_slice(&2u16.to_le_bytes());
    b[18..20].copy_from_slice(&machine.to_le_bytes());
    b[20..24].copy_from_slice(&version.to_le_bytes());
    b[24..32].copy_from_slice(&entry.to_le_bytes());
    b[32..40].copy_from_slice(&64u64.to_le_bytes());
    b[52..54].copy_from_slice(&64u16.to_le_bytes());
    b[54..56].copy_from_slice(&56u16.to_le_bytes());
    b[56..58].copy_from_slice(&1u16.to_le_bytes());
    b[64..68].copy_from_slice(&1u32.to_le_bytes());
    b[68..72].copy_from_slice(&flags.to_le_bytes());
    b
}

#[test]
fn effective_entry_keeps_window_offset() {
    assert_eq!(effective_entry(0x1040, 0x3F00_0000), 0x3F00_1040);
    assert_eq!(effective_entry(0xffff_ffff_8012_3456, 0x1000), 0x3456 + 0x1000);
    assert_eq!(effective_entry(0, 0), 0);
    assert_eq!(effective_entry(usize::MAX, 0), ENTRY_MASK);
    for (e, b) in [(0x1234usize, 0x2000usize), (0x10000, 0x5000), (0xabcdef, 0)] {
        assert_eq!(effective_entry(e, b), (e & ENTRY_MASK) + b);
    }
}

#[test]
fn pages_round_up() {
    assert_eq!(pages_for(ENTRY_BOOTSTRAP_CODE_SIZE), 16);
    assert_eq!(pages_for(0), 0);
    assert_eq!(pages_for(1), 1);
    assert_eq!(pages_for(4096), 1);
    assert_eq!(pages_for(4097), 2);
}

#[test]
fn header_faults_name_the_field() {
    let good = elf64_image(62, 1, 0x1040, 7);
    assert!(parse_kernel_header(&good[..64], 2).is_ok());
    let mut bad = good.clone();
    bad[0] = 0x7e;
    assert_eq!(parse_kernel_header(&bad[..64], 2).err(), Some(LoadError::InvalidHeader(HeaderFault::Identifier)));
    let bad = elf64_image(3, 1, 0, 7);
    assert_eq!(parse_kernel_header(&bad[..64], 2).err(), Some(LoadError::InvalidHeader(HeaderFault::Machine(3))));
    let bad = elf64_image(62, 0, 0, 7);
    assert_eq!(parse_kernel_header(&bad[..64], 2).err(), Some(LoadError::InvalidHeader(HeaderFault::Version(0))));
    assert_eq!(
        parse_kernel_header(&good[..60], 2).err(),
        Some(LoadError::ReadSizeMismatch { expected: 64, actual: 60 })
    );
}

#[test]
fn end_to_end_elf64_boot() {
    let image = elf64_image(62, 1, 0x1040, 7);
    let (mut l, a) = BootLoader::new();
    assert_eq!(a, BootAction::ReadHeader { len: 52 });
    let a = l.step(BootEvent::BytesRead(image[..52].to_vec()));
    assert_eq!(a, BootAction::ReadHeader { len: 64 });
    let a = l.step(BootEvent::BytesRead(image[..64].to_vec()));
    assert_eq!(a, BootAction::AllocatePages { pages: 16, max_address: UPPER_LOAD_ADDR });
    let a = l.step(BootEvent::Allocated(Some(0x3F00_0000)));
    assert_eq!(a, BootAction::ReadWindow { base: 0x3F00_0000, len: ENTRY_BOOTSTRAP_CODE_SIZE });
    let a = l.step(BootEvent::WindowRead(ENTRY_BOOTSTRAP_CODE_SIZE));
    assert_eq!(a, BootAction::InvokeKernel { entry: 0x3F00_1040, base: 0x3F00_0000 });
    let a = l.step(BootEvent::KernelReturned(1));
    assert_eq!(a, BootAction::Cleanup { base: 0x3F00_0000, pages: 16 });
    assert_eq!(l.stage, BootStage::Done);
}

#[test]
fn end_to_end_elf32_boot() {
    let mut b = vec![0u8; 52];
    b[..8].copy_from_slice(&[0x7f, 0x45, 0x4c, 0x46, 1, 1, 1, 0]);
    b[18..20].copy_from_slice(&3u16.to_le_bytes());
    b[20..24].copy_from_slice(&1u32.to_le_bytes());
    b[24..28].copy_from_slice(&0x0012_0200u32.to_le_bytes());
    let (mut l, _) = BootLoader::new();
    assert_eq!(l.step(BootEvent::BytesRead(b.clone())), BootAction::ReadHeader { len: 52 });
    assert_eq!(
        l.step(BootEvent::BytesRead(b)),
        BootAction::AllocatePages { pages: 16, max_address: UPPER_LOAD_ADDR }
    );
    l.step(BootEvent::Allocated(Some(0x100_0000)));
    assert_eq!(
        l.step(BootEvent::WindowRead(ENTRY_BOOTSTRAP_CODE_SIZE)),
        BootAction::InvokeKernel { entry: 0x100_0200, base: 0x100_0000 }
    );
}

#[test]
fn short_prefix_is_a_size_mismatch() {
    let image = elf64_image(62, 1, 0x1040, 7);
    let (mut l, _) = BootLoader::new();
    let a = l.step(BootEvent::BytesRead(image[..20].to_vec()));
    let e = LoadError::ReadSizeMismatch { expected: 52, actual: 20 };
    assert_eq!(a, BootAction::Stop(e));
    assert_eq!(l.stage, BootStage::Failed(e));
    assert!(e.is_fatal());
}

#[test]
fn unknown_class_stops() {
    let mut image = elf64_image(62, 1, 0x1040, 7);
    image[4] = 3;
    let (mut l, _) = BootLoader::new();
    assert_eq!(
        l.step(BootEvent::BytesRead(image[..52].to_vec())),
        BootAction::Stop(LoadError::InvalidHeader(HeaderFault::Class(3)))
    );
}

#[test]
fn invalid_machine_stops_before_allocation() {
    let image = elf64_image(40, 1, 0x1040, 7);
    let (mut l, _) = BootLoader::new();
    l.step(BootEvent::BytesRead(image[..52].to_vec()));
    assert_eq!(
        l.step(BootEvent::BytesRead(image[..64].to_vec())),
        BootAction::Stop(LoadError::InvalidHeader(HeaderFault::Machine(40)))
    );
}

#[test]
fn read_failure_stops() {
    let (mut l, _) = BootLoader::new();
    assert_eq!(l.step(BootEvent::ReadFailed), BootAction::Stop(LoadError::ReadFailed));
    assert_eq!(l.stage, BootStage::Failed(LoadError::ReadFailed));
}

fn loader_waiting_for_pages() -> BootLoader {
    let image = elf64_image(62, 1, 0x1040, 7);
    let (mut l, _) = BootLoader::new();
    l.step(BootEvent::BytesRead(image[..52].to_vec()));
    l.step(BootEvent::BytesRead(image[..64].to_vec()));
    l
}

#[test]
fn allocation_failures_stop() {
    let mut l = loader_waiting_for_pages();
    assert_eq!(l.step(BootEvent::Allocated(None)), BootAction::Stop(LoadError::AllocationFailed));
    let mut l = loader_waiting_for_pages();
    assert_eq!(l.step(BootEvent::Allocated(Some(0x3F00_0010))), BootAction::Stop(LoadError::AllocationFailed));
    let mut l = loader_waiting_for_pages();
    assert_eq!(l.step(BootEvent::Allocated(Some(0x3FFF_F000))), BootAction::Stop(LoadError::AllocationFailed));
    let mut l = loader_waiting_for_pages();
    assert_eq!(
        l.step(BootEvent::Allocated(Some(UPPER_LOAD_ADDR - ENTRY_BOOTSTRAP_CODE_SIZE))),
        BootAction::ReadWindow { base: UPPER_LOAD_ADDR - ENTRY_BOOTSTRAP_CODE_SIZE, len: ENTRY_BOOTSTRAP_CODE_SIZE }
    );
}

#[test]
fn short_window_read_stops() {
    let mut l = loader_waiting_for_pages();
    l.step(BootEvent::Allocated(Some(0x3F00_0000)));
    assert_eq!(
        l.step(BootEvent::WindowRead(0x8000)),
        BootAction::Stop(LoadError::ReadSizeMismatch { expected: ENTRY_BOOTSTRAP_CODE_SIZE, actual: 0x8000 })
    );
}

#[test]
fn kernel_returning_zero_is_a_load_error() {
    let mut l = loader_waiting_for_pages();
    l.step(BootEvent::Allocated(Some(0x3F00_0000)));
    l.step(BootEvent::WindowRead(ENTRY_BOOTSTRAP_CODE_SIZE));
    let a = l.step(BootEvent::KernelReturned(0));
    assert_eq!(a, BootAction::Stop(LoadError::KernelReturnedFailure));
    assert!(!LoadError::KernelReturnedFailure.is_fatal());
}

#[test]
fn loader_accepts_only_the_awaited_event() {
    let (l, _) = BootLoader::new();
    assert!(l.accepts(&BootEvent::BytesRead(vec![])));
    assert!(l.accepts(&BootEvent::ReadFailed));
    assert!(!l.accepts(&BootEvent::Allocated(None)));
    assert!(!l.accepts(&BootEvent::KernelReturned(1)));
    let l = loader_waiting_for_pages();
    assert!(l.accepts(&BootEvent::Allocated(None)));
    assert!(!l.accepts(&BootEvent::WindowRead(0)));
}

#[test]
fn end_to_end_elf64_header_segment_and_entry() {
    let image = elf64_image(62, 1, 0x1040, 7);
    let h = Elf64Header::from_bytes(&image).unwrap();
    assert!(h.check_elf_header());
    let s = h.get_segment_info(0, &image[h.get_program_header_offset()..]).unwrap();
    assert!(s.readable && s.writable && s.executable);
    assert_eq!(effective_entry(h.get_entry_point(), 0x3F00_0000), 0x3F00_1040);
}
