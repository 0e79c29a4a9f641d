use bitvisor_bootloader::bsdriver::{
    acpi_table_mod, advance_bsdriver, load_bsdriver, AcpiModAction, BootContext, BootServiceDriver, DriverCache,
    DriverCall, DriverQuery,
};
use bitvisor_bootloader::uefi::EfiStatus;

/// Runs the load sequence with the given statuses, counting image loads.
fn run(cache: &mut DriverCache, statuses: &[EfiStatus], published: usize, loads: &mut u32) -> Option<BootServiceDriver> {
    let mut q = load_bsdriver(cache);
    let mut i = 0;
    loop {
        match q {
            DriverQuery::Ready(d) => return d,
            DriverQuery::Perform(call) => {
                if call == DriverCall::LoadImage {
                    *loads += 1;
                }
                let status = statuses.get(i).copied().unwrap_or(EfiStatus::EfiSuccess);
                i += 1;
                q = advance_bsdriver(cache, status, published);
            }
        }
    }
}

#[test]
fn driver_loads_once_and_is_cached() {
    let mut c = BootContext::new(0x11, 0x22);
    let mut loads = 0;
    let first = run(&mut c.driver, &[], 0xabc0, &mut loads);
    assert_eq!(first, Some(BootServiceDriver { acpi_table_mod: 0xabc0 }));
    let second = run(&mut c.driver, &[], 0x9999, &mut loads);
    assert_eq!(second, first);
    assert_eq!(loads, 1);
}

#[test]
fn failed_load_is_cached_and_not_retried() {
    let mut cache = DriverCache::new();
    let mut loads = 0;
    let first = run(&mut cache, &[EfiStatus::EfiSuccess, EfiStatus::EfiNotFound], 0xabc0, &mut loads);
    assert_eq!(first, None);
    assert_eq!(cache, DriverCache::Unavailable);
    let second = run(&mut cache, &[], 0xabc0, &mut loads);
    assert_eq!(second, None);
    assert_eq!(loads, 1);
}

#[test]
fn empty_slot_after_start_means_unavailable() {
    let mut cache = DriverCache::new();
    let mut loads = 0;
    assert_eq!(run(&mut cache, &[], 0, &mut loads), None);
    assert_eq!(cache, DriverCache::Unavailable);
}

#[test]
fn sequence_runs_the_calls_in_order() {
    let mut cache = DriverCache::new();
    assert_eq!(load_bsdriver(&mut cache), DriverQuery::Perform(DriverCall::LoadImage));
    let s = EfiStatus::EfiSuccess;
    assert_eq!(advance_bsdriver(&mut cache, s, 0), DriverQuery::Perform(DriverCall::OpenProtocol));
    assert_eq!(advance_bsdriver(&mut cache, s, 0), DriverQuery::Perform(DriverCall::CloseProtocol));
    assert_eq!(advance_bsdriver(&mut cache, s, 0), DriverQuery::Perform(DriverCall::StartImage));
    assert_eq!(
        advance_bsdriver(&mut cache, s, 0x4000),
        DriverQuery::Ready(Some(BootServiceDriver { acpi_table_mod: 0x4000 }))
    );
}

#[test]
fn each_failing_call_makes_driver_unavailable() {
    for fail_at in 0..4 {
        let mut statuses = vec![EfiStatus::EfiSuccess; 4];
        statuses[fail_at] = EfiStatus::EfiDeviceError;
        let mut cache = DriverCache::new();
        let mut loads = 0;
        assert_eq!(run(&mut cache, &statuses, 0x4000, &mut loads), None);
        assert_eq!(cache, DriverCache::Unavailable);
    }
}

#[test]
fn trampoline_forwards_or_reports_load_error() {
    let d = BootServiceDriver { acpi_table_mod: 0x7000 };
    assert_eq!(
        acpi_table_mod(Some(d), 0x5444_5346, 0xfeed_0000),
        AcpiModAction::Forward { function: 0x7000, signature: 0x5444_5346, table_addr: 0xfeed_0000 }
    );
    assert_eq!(acpi_table_mod(None, 1, 2), AcpiModAction::Return(EfiStatus::EfiLoadError));
}
