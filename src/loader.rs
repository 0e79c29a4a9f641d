//! Loading the kernel image: the decisions taken between the firmware calls.
//!
//! The loader is a state machine. Its caller performs each action it asks for
//! (a read from the image file, a page allocation, the call into the kernel)
//! and hands back what came of it as an event.
use vstd::prelude::*;
use crate::elf::{
    elf_identifier, Elf32Header, Elf64Header, is_elf32_header_of, is_elf64_header_of, ELF32_HEADER_SIZE,
    ELF64_HEADER_SIZE, ELF_CLASS32, ELF_CLASS64, ELF_VERSION, EM_386, EM_AARCH64, EM_X86_64,
};

verus! {

/// Highest physical address the image may occupy.
pub const UPPER_LOAD_ADDR: usize = 0x4000_0000;
/// Bytes of the image, from file offset 0, loaded before entering it.
pub const ENTRY_BOOTSTRAP_CODE_SIZE: usize = 0x10000;
/// Mask keeping the offset of the entry point inside the bootstrap window.
pub const ENTRY_MASK: usize = 0xFFFF;
pub const PAGE_SIZE: usize = 4096;

/// The address at which the loaded image is entered.
pub open spec fn effective_entry_spec(entry: usize, base: usize) -> int {
    (entry & ENTRY_MASK) + base
}

/// Only the entry point's offset inside the bootstrap window is kept; the
/// image is entered at that offset from where it was loaded.
pub fn effective_entry(entry: usize, base: usize) -> (r: usize)
    requires
        base <= usize::MAX - ENTRY_MASK,
    ensures
        r == effective_entry_spec(entry, base),
{
    assert(entry & 0xFFFF <= 0xFFFF) by (bit_vector);
    (entry & ENTRY_MASK) + base
}

/// The entry address lies inside the bootstrap window, at the entry point's
/// offset modulo the window size, for every entry point and load address.
pub proof fn lemma_effective_entry_in_window(entry: usize, base: usize)
    ensures
        effective_entry_spec(entry, base) == entry % 0x10000 + base,
        base <= effective_entry_spec(entry, base) < base + ENTRY_BOOTSTRAP_CODE_SIZE,
{
    assert(entry & 0xFFFF == entry % 0x10000) by (bit_vector);
}

/// Number of pages that hold `size` bytes, rounded up.
pub fn pages_for(size: usize) -> (r: usize)
    ensures
        r * PAGE_SIZE >= size,
        r * PAGE_SIZE < size + PAGE_SIZE,
{
    let r = size / PAGE_SIZE + if size % PAGE_SIZE == 0 { 0 } else { 1 };
    r
}

/// Which check a header failed.
#[derive(Debug, Clone, Copy, PartialEq, Eq, Structural)]
pub enum HeaderFault {
    /// The class byte names neither a 32-bit nor a 64-bit image.
    Class(u8),
    Identifier,
    Machine(u16),
    Version(u32),
}

/// Why loading stopped.
#[derive(Debug, Clone, Copy, PartialEq, Eq, Structural)]
pub enum LoadError {
    /// The image file could not be read or repositioned.
    ReadFailed,
    ReadSizeMismatch { expected: usize, actual: usize },
    InvalidHeader(HeaderFault),
    /// The firmware gave no memory, or memory outside the allowed region.
    AllocationFailed,
    /// The kernel was entered and returned zero.
    KernelReturnedFailure,
}

impl LoadError {
    /// Whether the error stops the boot on the spot; a failure the kernel
    /// reports is instead returned to the firmware as a load error.
    pub fn is_fatal(&self) -> (r: bool)
        ensures
            r == !(*self is KernelReturnedFailure),
    {
        !matches!(self, LoadError::KernelReturnedFailure)
    }
}

/// A validated kernel header of either width.
pub enum KernelHeader {
    Elf32(Elf32Header),
    Elf64(Elf64Header),
}

impl KernelHeader {
    pub open spec fn entry_spec(&self) -> usize {
        match *self {
            KernelHeader::Elf32(h) => h.e_entry as usize,
            KernelHeader::Elf64(h) => h.e_entry as usize,
        }
    }

    pub fn get_entry_point(&self) -> (r: usize)
        ensures
            r == self.entry_spec(),
    {
        match self {
            KernelHeader::Elf32(h) => h.get_entry_point(),
            KernelHeader::Elf64(h) => h.get_entry_point(),
        }
    }
}

/// Size of the header of an image of the given class.
pub open spec fn header_size(class: u8) -> int {
    if class == ELF_CLASS32 { ELF32_HEADER_SIZE as int } else { ELF64_HEADER_SIZE as int }
}

/// The first check that the header held in `b` (at least a header long, of
/// the given class) fails, in the order identifier, machine, version.
pub open spec fn header_fault(b: Seq<u8>, class: u8) -> Option<HeaderFault> {
    let machine = crate::bytes::le16(b, 18);
    let version = crate::bytes::le32(b, 20);
    if b.subrange(0, 16) != elf_identifier(class) {
        Some(HeaderFault::Identifier)
    } else if !(if class == ELF_CLASS32 { machine == EM_386 } else { machine == EM_X86_64 || machine == EM_AARCH64 }) {
        Some(HeaderFault::Machine(machine as u16))
    } else if version < ELF_VERSION {
        Some(HeaderFault::Version(version as u32))
    } else {
        None
    }
}

/// Reads and validates a header of the given class from `b`.
pub fn parse_kernel_header(b: &[u8], class: u8) -> (r: Result<KernelHeader, LoadError>)
    requires
        class == ELF_CLASS32 || class == ELF_CLASS64,
    ensures
        b@.len() != header_size(class) ==> r == Err::<KernelHeader, LoadError>(
            LoadError::ReadSizeMismatch { expected: header_size(class) as usize, actual: b@.len() as usize }),
        b@.len() == header_size(class) ==> match header_fault(b@, class) {
            Some(f) => r == Err::<KernelHeader, LoadError>(LoadError::InvalidHeader(f)),
            None => r matches Ok(h) && match h {
                KernelHeader::Elf32(h) => class == ELF_CLASS32 && is_elf32_header_of(h, b@) && h.is_valid(),
                KernelHeader::Elf64(h) => class == ELF_CLASS64 && is_elf64_header_of(h, b@) && h.is_valid(),
            },
        },
{
    if class == ELF_CLASS32 {
        if b.len() != ELF32_HEADER_SIZE {
            return Err(LoadError::ReadSizeMismatch { expected: ELF32_HEADER_SIZE, actual: b.len() });
        }
        let h = match Elf32Header::from_bytes(b) {
            Some(h) => h,
            None => return Err(LoadError::ReadFailed),
        };
        if !h.check_elf_header() {
            return Err(LoadError::InvalidHeader(fault32(&h)));
        }
        Ok(KernelHeader::Elf32(h))
    } else {
        if b.len() != ELF64_HEADER_SIZE {
            return Err(LoadError::ReadSizeMismatch { expected: ELF64_HEADER_SIZE, actual: b.len() });
        }
        let h = match Elf64Header::from_bytes(b) {
            Some(h) => h,
            None => return Err(LoadError::ReadFailed),
        };
        if !h.check_elf_header() {
            return Err(LoadError::InvalidHeader(fault64(&h)));
        }
        Ok(KernelHeader::Elf64(h))
    }
}

fn fault32(h: &Elf32Header) -> (r: HeaderFault)
    requires
        !h.is_valid(),
    ensures
        h.e_ident@ != elf_identifier(ELF_CLASS32) ==> r == HeaderFault::Identifier,
        h.e_ident@ == elf_identifier(ELF_CLASS32) && h.e_machine != EM_386 ==> r == HeaderFault::Machine(h.e_machine),
        h.e_ident@ == elf_identifier(ELF_CLASS32) && h.e_machine == EM_386 ==> r == HeaderFault::Version(h.e_version),
{
    if h.e_machine == EM_386 && h.e_version >= ELF_VERSION {
        HeaderFault::Identifier
    } else if h.e_machine != EM_386 && crate::elf::identifier_matches(&h.e_ident, ELF_CLASS32) {
        HeaderFault::Machine(h.e_machine)
    } else if crate::elf::identifier_matches(&h.e_ident, ELF_CLASS32) {
        HeaderFault::Version(h.e_version)
    } else {
        HeaderFault::Identifier
    }
}

fn fault64(h: &Elf64Header) -> (r: HeaderFault)
    requires
        !h.is_valid(),
    ensures
        h.e_ident@ != elf_identifier(ELF_CLASS64) ==> r == HeaderFault::Identifier,
        h.e_ident@ == elf_identifier(ELF_CLASS64) && h.e_machine != EM_X86_64 && h.e_machine != EM_AARCH64
            ==> r == HeaderFault::Machine(h.e_machine),
        h.e_ident@ == elf_identifier(ELF_CLASS64) && (h.e_machine == EM_X86_64 || h.e_machine == EM_AARCH64)
            ==> r == HeaderFault::Version(h.e_version),
{
    let machine_ok = h.e_machine == EM_X86_64 || h.e_machine == EM_AARCH64;
    if machine_ok && h.e_version >= ELF_VERSION {
        HeaderFault::Identifier
    } else if !crate::elf::identifier_matches(&h.e_ident, ELF_CLASS64) {
        HeaderFault::Identifier
    } else if !machine_ok {
        HeaderFault::Machine(h.e_machine)
    } else {
        HeaderFault::Version(h.e_version)
    }
}

/// Whether the firmware's allocation at `base` can hold the bootstrap window:
/// page-aligned, and the whole window at or below the upper load address.
pub open spec fn allocation_acceptable(base: usize) -> bool {
    base as int % PAGE_SIZE as int == 0 && base + ENTRY_BOOTSTRAP_CODE_SIZE <= UPPER_LOAD_ADDR
}

/// Where the loader stands between two firmware calls.
#[derive(Debug, Clone, Copy, PartialEq, Eq, Structural)]
pub enum BootStage {
    /// Waiting for the ELF32-header-sized prefix of the image.
    ReadPrefix,
    /// Waiting for the full header of the detected class, read again from offset 0.
    ReadHeader { class: u8 },
    /// Waiting for pages for the bootstrap window.
    Allocate { entry: usize },
    /// Waiting for the bootstrap window to be read into memory at `base`.
    ReadWindow { entry: usize, base: usize },
    /// Waiting for the kernel, entered at `entry`, to return.
    Enter { entry: usize, base: usize },
    /// The kernel returned success and the loader cleaned up.
    Done,
    Failed(LoadError),
}

/// What the firmware call asked for gave.
pub enum BootEvent {
    /// Bytes read from the image file, from offset 0.
    BytesRead(Vec<u8>),
    /// The image file could not be read or repositioned.
    ReadFailed,
    /// Base of the pages the firmware allocated, if it allocated any.
    Allocated(Option<usize>),
    /// Number of bytes read into the bootstrap window.
    WindowRead(usize),
    /// Value the kernel's entry returned.
    KernelReturned(i32),
}

/// The firmware call the loader asks for next.
#[derive(Debug, Clone, Copy, PartialEq, Eq, Structural)]
pub enum BootAction {
    /// Move to file offset 0 and read `len` bytes.
    ReadHeader { len: usize },
    /// Allocate `pages` pages at the highest addresses at or below `max_address`.
    AllocatePages { pages: usize, max_address: usize },
    /// Move to file offset 0 and read `len` bytes into memory at `base`.
    ReadWindow { base: usize, len: usize },
    /// Build the handoff table for the image at `base` and call `entry`.
    InvokeKernel { entry: usize, base: usize },
    /// Free `pages` pages at `base`, close the open files, report success.
    Cleanup { base: usize, pages: usize },
    /// Report the error; a fatal one halts.
    Stop(LoadError),
}

/// Whether the loader at `stage` is waiting for an event of this kind.
pub open spec fn accepts(stage: BootStage, event: BootEvent) -> bool {
    match stage {
        BootStage::ReadPrefix | BootStage::ReadHeader { .. } => event is BytesRead || event is ReadFailed,
        BootStage::Allocate { .. } => event is Allocated,
        BootStage::ReadWindow { .. } => event is WindowRead || event is ReadFailed,
        BootStage::Enter { .. } => event is KernelReturned,
        _ => false,
    }
}

/// Stage and action that stop the loader with `e`.
pub open spec fn stopped(stage: BootStage, action: BootAction, e: LoadError) -> bool {
    stage == BootStage::Failed(e) && action == BootAction::Stop(e)
}

/// The boot decisions for one kernel image.
pub struct BootLoader {
    pub stage: BootStage,
}

impl BootLoader {
    /// Once pages are allocated, they are the acceptable ones.
    pub open spec fn wf(&self) -> bool {
        match self.stage {
            BootStage::ReadWindow { entry: _, base } | BootStage::Enter { entry: _, base } => allocation_acceptable(base),
            _ => true,
        }
    }

    /// A loader that first asks for the ELF32-header-sized prefix.
    pub fn new() -> (r: (BootLoader, BootAction))
        ensures
            r.0.wf(),
            r.0.stage == BootStage::ReadPrefix,
            r.1 == (BootAction::ReadHeader { len: ELF32_HEADER_SIZE }),
    {
        (BootLoader { stage: BootStage::ReadPrefix }, BootAction::ReadHeader { len: ELF32_HEADER_SIZE })
    }

    /// Whether the loader is waiting for an event of this kind.
    pub fn accepts(&self, event: &BootEvent) -> (r: bool)
        ensures
            r == accepts(self.stage, *event),
    {
        match self.stage {
            BootStage::ReadPrefix | BootStage::ReadHeader { .. } => match event {
                BootEvent::BytesRead(_) | BootEvent::ReadFailed => true,
                _ => false,
            },
            BootStage::Allocate { .. } => matches!(event, BootEvent::Allocated(_)),
            BootStage::ReadWindow { .. } => match event {
                BootEvent::WindowRead(_) | BootEvent::ReadFailed => true,
                _ => false,
            },
            BootStage::Enter { .. } => matches!(event, BootEvent::KernelReturned(_)),
            _ => false,
        }
    }

    /// Takes the outcome of the last action and decides the next one.
    pub fn step(&mut self, event: BootEvent) -> (r: BootAction)
        requires
            old(self).wf(),
            accepts(old(self).stage, event),
        ensures
            final(self).wf(),
            event is ReadFailed ==> stopped(final(self).stage, r, LoadError::ReadFailed),
            match (old(self).stage, event) {
                (BootStage::ReadPrefix, BootEvent::BytesRead(b)) =>
                    if b@.len() != ELF32_HEADER_SIZE {
                        stopped(final(self).stage, r, LoadError::ReadSizeMismatch {
                            expected: ELF32_HEADER_SIZE, actual: b@.len() as usize })
                    } else if b@[4] != ELF_CLASS32 && b@[4] != ELF_CLASS64 {
                        stopped(final(self).stage, r, LoadError::InvalidHeader(HeaderFault::Class(b@[4])))
                    } else {
                        final(self).stage == (BootStage::ReadHeader { class: b@[4] })
                        && r == (BootAction::ReadHeader { len: header_size(b@[4]) as usize })
                    },
                (BootStage::ReadHeader { class }, BootEvent::BytesRead(b)) =>
                    if class != ELF_CLASS32 && class != ELF_CLASS64 {
                        stopped(final(self).stage, r, LoadError::InvalidHeader(HeaderFault::Class(class)))
                    } else if b@.len() != header_size(class) {
                        stopped(final(self).stage, r, LoadError::ReadSizeMismatch {
                            expected: header_size(class) as usize, actual: b@.len() as usize })
                    } else {
                        match header_fault(b@, class) {
                            Some(f) => stopped(final(self).stage, r, LoadError::InvalidHeader(f)),
                            None => final(self).stage == (BootStage::Allocate {
                                entry: (if class == ELF_CLASS32 { crate::bytes::le32(b@, 24) as usize }
                                    else { crate::bytes::le64(b@, 24) as usize }) })
                                && r == (BootAction::AllocatePages { pages: 16, max_address: UPPER_LOAD_ADDR }),
                        }
                    },
                (BootStage::Allocate { entry }, BootEvent::Allocated(a)) => match a {
                    Some(base) if allocation_acceptable(base) =>
                        final(self).stage == (BootStage::ReadWindow { entry, base })
                        && r == (BootAction::ReadWindow { base, len: ENTRY_BOOTSTRAP_CODE_SIZE }),
                    _ => stopped(final(self).stage, r, LoadError::AllocationFailed),
                },
                (BootStage::ReadWindow { entry, base }, BootEvent::WindowRead(n)) =>
                    if n != ENTRY_BOOTSTRAP_CODE_SIZE {
                        stopped(final(self).stage, r, LoadError::ReadSizeMismatch {
                            expected: ENTRY_BOOTSTRAP_CODE_SIZE, actual: n })
                    } else {
                        final(self).stage == (BootStage::Enter { entry: effective_entry_spec(entry, base) as usize, base })
                        && r == (BootAction::InvokeKernel { entry: effective_entry_spec(entry, base) as usize, base })
                    },
                (BootStage::Enter { entry, base }, BootEvent::KernelReturned(v)) =>
                    if v == 0 {
                        stopped(final(self).stage, r, LoadError::KernelReturnedFailure)
                    } else {
                        final(self).stage == BootStage::Done
                        && r == (BootAction::Cleanup { base, pages: 16 })
                    },
                _ => true,
            },
    {
        let stage = self.stage;
        let (next, action) = match (stage, event) {
            (_, BootEvent::ReadFailed) => Self::stop(LoadError::ReadFailed),
            (BootStage::ReadPrefix, BootEvent::BytesRead(b)) => {
                if b.len() != ELF32_HEADER_SIZE {
                    Self::stop(LoadError::ReadSizeMismatch { expected: ELF32_HEADER_SIZE, actual: b.len() })
                } else {
                    let class = b[4];
                    if class == ELF_CLASS32 {
                        (BootStage::ReadHeader { class }, BootAction::ReadHeader { len: ELF32_HEADER_SIZE })
                    } else if class == ELF_CLASS64 {
                        (BootStage::ReadHeader { class }, BootAction::ReadHeader { len: ELF64_HEADER_SIZE })
                    } else {
                        Self::stop(LoadError::InvalidHeader(HeaderFault::Class(class)))
                    }
                }
            },
            (BootStage::ReadHeader { class }, BootEvent::BytesRead(b)) => {
                if class != ELF_CLASS32 && class != ELF_CLASS64 {
                    Self::stop(LoadError::InvalidHeader(HeaderFault::Class(class)))
                } else {
                    match parse_kernel_header(b.as_slice(), class) {
                        Ok(h) => (
                            BootStage::Allocate { entry: h.get_entry_point() },
                            BootAction::AllocatePages {
                                pages: pages_for(ENTRY_BOOTSTRAP_CODE_SIZE),
                                max_address: UPPER_LOAD_ADDR,
                            },
                        ),
                        Err(e) => Self::stop(e),
                    }
                }
            },
            (BootStage::Allocate { entry }, BootEvent::Allocated(a)) => match a {
                Some(base) if base % PAGE_SIZE == 0 && base <= UPPER_LOAD_ADDR - ENTRY_BOOTSTRAP_CODE_SIZE => (
                    BootStage::ReadWindow { entry, base },
                    BootAction::ReadWindow { base, len: ENTRY_BOOTSTRAP_CODE_SIZE },
                ),
                _ => Self::stop(LoadError::AllocationFailed),
            },
            (BootStage::ReadWindow { entry, base }, BootEvent::WindowRead(n)) => {
                if n != ENTRY_BOOTSTRAP_CODE_SIZE {
                    Self::stop(LoadError::ReadSizeMismatch { expected: ENTRY_BOOTSTRAP_CODE_SIZE, actual: n })
                } else {
                    let e = effective_entry(entry, base);
                    (BootStage::Enter { entry: e, base }, BootAction::InvokeKernel { entry: e, base })
                }
            },
            (BootStage::Enter { entry: _, base }, BootEvent::KernelReturned(v)) => {
                if v == 0 {
                    Self::stop(LoadError::KernelReturnedFailure)
                } else {
                    (BootStage::Done, BootAction::Cleanup { base, pages: pages_for(ENTRY_BOOTSTRAP_CODE_SIZE) })
                }
            },
            _ => (stage, BootAction::Stop(LoadError::ReadFailed)),
        };
        self.stage = next;
        action
    }

    fn stop(e: LoadError) -> (r: (BootStage, BootAction))
        ensures
            stopped(r.0, r.1, e),
    {
        (BootStage::Failed(e), BootAction::Stop(e))
    }
}

} // verus!
