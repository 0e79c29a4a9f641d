//! The boot-service driver: a second image, embedded in the loader, that
//! exports functions the running kernel reaches through the loader's
//! trampoline. It is loaded on first use, at most once; the outcome, success
//! or failure, is kept for the rest of the boot.
use vstd::prelude::*;
use crate::uefi::EfiStatus;

verus! {

/// Function table the driver publishes once started.
#[derive(Debug, Clone, Copy, PartialEq, Eq, Structural)]
pub struct BootServiceDriver {
    /// Entry address of the driver's ACPI-table modification function.
    pub acpi_table_mod: usize,
}

/// Firmware calls of the load sequence, in order.
#[derive(Debug, Clone, Copy, PartialEq, Eq, Structural)]
pub enum DriverCall {
    /// Load the embedded image through its device-path node.
    LoadImage,
    /// Open the loaded-image protocol of the new image and point its load
    /// options at the slot where the image publishes its function table.
    OpenProtocol,
    CloseProtocol,
    /// Start the image; afterwards the slot is read.
    StartImage,
}

/// Load state of the driver: not tried yet, being loaded (waiting for the
/// outcome of a call), loaded, or known to be unavailable.
#[derive(Debug, Clone, Copy, PartialEq, Eq, Structural)]
pub enum DriverCache {
    Unattempted,
    Loading(DriverCall),
    Loaded(BootServiceDriver),
    Unavailable,
}

/// Answer to a request for the driver: a firmware call to perform first, or
/// the outcome (absent when the driver is unavailable).
#[derive(Debug, Clone, Copy, PartialEq, Eq, Structural)]
pub enum DriverQuery {
    Perform(DriverCall),
    Ready(Option<BootServiceDriver>),
}

/// State after a request for the driver.
pub open spec fn request_next(c: DriverCache) -> DriverCache {
    match c {
        DriverCache::Unattempted => DriverCache::Loading(DriverCall::LoadImage),
        _ => c,
    }
}

/// Answer to a request for the driver.
pub open spec fn request_result(c: DriverCache) -> DriverQuery {
    match c {
        DriverCache::Unattempted => DriverQuery::Perform(DriverCall::LoadImage),
        DriverCache::Loading(call) => DriverQuery::Perform(call),
        DriverCache::Loaded(d) => DriverQuery::Ready(Some(d)),
        DriverCache::Unavailable => DriverQuery::Ready(None),
    }
}

/// The call after `call` in the load sequence, if any.
pub open spec fn next_call(call: DriverCall) -> Option<DriverCall> {
    match call {
        DriverCall::LoadImage => Some(DriverCall::OpenProtocol),
        DriverCall::OpenProtocol => Some(DriverCall::CloseProtocol),
        DriverCall::CloseProtocol => Some(DriverCall::StartImage),
        DriverCall::StartImage => None,
    }
}

/// State after the call `call` answered `status`; `published` is what the slot
/// held after the last call.
pub open spec fn advance_next(call: DriverCall, status: EfiStatus, published: usize) -> DriverCache {
    if status != EfiStatus::EfiSuccess {
        DriverCache::Unavailable
    } else {
        match next_call(call) {
            Some(n) => DriverCache::Loading(n),
            None => if published == 0 {
                DriverCache::Unavailable
            } else {
                DriverCache::Loaded(BootServiceDriver { acpi_table_mod: published })
            },
        }
    }
}

impl DriverCache {
    pub fn new() -> (r: DriverCache)
        ensures
            r == DriverCache::Unattempted,
    {
        DriverCache::Unattempted
    }
}

/// Asks for the driver. The first request starts the load sequence; once it
/// has ended, every request answers with its kept outcome.
pub fn load_bsdriver(cache: &mut DriverCache) -> (r: DriverQuery)
    ensures
        *final(cache) == request_next(*old(cache)),
        r == request_result(*old(cache)),
{
    match *cache {
        DriverCache::Unattempted => {
            *cache = DriverCache::Loading(DriverCall::LoadImage);
            DriverQuery::Perform(DriverCall::LoadImage)
        },
        DriverCache::Loading(call) => DriverQuery::Perform(call),
        DriverCache::Loaded(d) => DriverQuery::Ready(Some(d)),
        DriverCache::Unavailable => DriverQuery::Ready(None),
    }
}

/// Takes the status of the pending call of the load sequence. A failed call
/// ends the sequence for good; after the image has started, `published` is the
/// content of the slot the image was to fill, zero when it did not.
pub fn advance_bsdriver(cache: &mut DriverCache, status: EfiStatus, published: usize) -> (r: DriverQuery)
    requires
        *old(cache) is Loading,
    ensures
        *final(cache) == advance_next(old(cache)->Loading_0, status, published),
        r == request_result(*final(cache)),
{
    let call = match *cache {
        DriverCache::Loading(call) => call,
        _ => DriverCall::LoadImage,
    };
    let next = if status != EfiStatus::EfiSuccess {
        DriverCache::Unavailable
    } else {
        match call {
            DriverCall::LoadImage => DriverCache::Loading(DriverCall::OpenProtocol),
            DriverCall::OpenProtocol => DriverCache::Loading(DriverCall::CloseProtocol),
            DriverCall::CloseProtocol => DriverCache::Loading(DriverCall::StartImage),
            DriverCall::StartImage => if published == 0 {
                DriverCache::Unavailable
            } else {
                DriverCache::Loaded(BootServiceDriver { acpi_table_mod: published })
            },
        }
    };
    *cache = next;
    match next {
        DriverCache::Loading(c) => DriverQuery::Perform(c),
        DriverCache::Loaded(d) => DriverQuery::Ready(Some(d)),
        _ => DriverQuery::Ready(None),
    }
}

/// The load sequence runs at most once: a request asks for the image to be
/// loaded only on an untried cache, or again while that same call is still
/// pending; no step goes back to either state;
/// and once the sequence has ended a request changes nothing and answers with
/// the kept outcome, a failure included.
pub proof fn lemma_driver_loaded_at_most_once(c: DriverCache, call: DriverCall, status: EfiStatus, published: usize)
    ensures
        (request_result(c) == DriverQuery::Perform(DriverCall::LoadImage))
            <==> (c is Unattempted || c == DriverCache::Loading(DriverCall::LoadImage)),
        !(request_next(c) is Unattempted),
        !(advance_next(call, status, published) is Unattempted),
        !(advance_next(call, status, published) == DriverCache::Loading(DriverCall::LoadImage)),
        c is Loaded ==> request_next(c) == c && request_result(c) == DriverQuery::Ready(Some(c->Loaded_0)),
        c is Unavailable ==> request_next(c) == c && request_result(c) == DriverQuery::Ready(None),
{
}

/// What the trampoline does when the kernel calls it.
#[derive(Debug, Clone, Copy, PartialEq, Eq, Structural)]
pub enum AcpiModAction {
    /// Call the driver's function at `function` with the pair and return its status.
    Forward { function: usize, signature: u32, table_addr: u64 },
    /// Return this status without calling anything.
    Return(EfiStatus),
}

/// Trampoline for the kernel's ACPI-modification requests: forwards the
/// signature and table address to the driver, or reports a load error when
/// the driver is unavailable.
pub fn acpi_table_mod(driver: Option<BootServiceDriver>, signature: u32, table_addr: u64) -> (r: AcpiModAction)
    ensures
        r == (match driver {
            Some(d) => AcpiModAction::Forward { function: d.acpi_table_mod, signature, table_addr },
            None => AcpiModAction::Return(EfiStatus::EfiLoadError),
        }),
{
    match driver {
        Some(d) => AcpiModAction::Forward { function: d.acpi_table_mod, signature, table_addr },
        None => AcpiModAction::Return(EfiStatus::EfiLoadError),
    }
}

/// What lives across the call into the kernel: the loader's image handle, the
/// system table, and the driver's load state, which the trampoline reads and
/// advances.
pub struct BootContext {
    pub image_handle: usize,
    pub system_table: usize,
    pub driver: DriverCache,
}

impl BootContext {
    pub fn new(image_handle: usize, system_table: usize) -> (r: BootContext)
        ensures
            r.image_handle == image_handle,
            r.system_table == system_table,
            r.driver == DriverCache::Unattempted,
    {
        BootContext { image_handle, system_table, driver: DriverCache::new() }
    }
}

} // verus!
