//! Locating a device-tree blob among the firmware's configuration tables.
use vstd::prelude::*;
use crate::uefi::{EfiConfigurationTable, EfiSystemTable, EFI_DTB_TABLE_GUID};

verus! {

/// Result of scanning entries `i..n` of `s`: the table address of the first
/// device-tree entry, absent when that address is zero or when no entry
/// before `n` (and inside `s`) carries the device-tree identifier.
pub open spec fn dtb_scan(s: Seq<EfiConfigurationTable>, i: int, n: int) -> Option<usize>
    decreases n - i,
{
    if i < 0 || i >= n || i >= s.len() {
        None
    } else if s[i].vendor_guid == EFI_DTB_TABLE_GUID {
        if s[i].vendor_table == 0 { None } else { Some(s[i].vendor_table) }
    } else {
        dtb_scan(s, i + 1, n)
    }
}

/// Scans the first `num_table_entries` configuration tables (and no more than
/// the array holds) for the device-tree identifier.
pub fn detect_dtb(system_table: &EfiSystemTable) -> (r: Option<usize>)
    ensures
        r == dtb_scan(system_table.configuration_table@, 0, system_table.num_table_entries as int),
{
    let tables = &system_table.configuration_table;
    let n = system_table.num_table_entries;
    let mut i: usize = 0;
    while i < n && i < tables.len()
        invariant
            i <= n,
            tables@ == system_table.configuration_table@,
            n == system_table.num_table_entries,
            dtb_scan(tables@, 0, n as int) == dtb_scan(tables@, i as int, n as int),
        decreases n - i,
    {
        let entry = tables[i];
        if entry.vendor_guid == EFI_DTB_TABLE_GUID {
            if entry.vendor_table == 0 {
                return None;
            }
            return Some(entry.vendor_table);
        }
        i = i + 1;
    }
    None
}

/// The scan reads nothing at or past index `n`: entries there do not change its result.
pub proof fn lemma_dtb_scan_bounded(s: Seq<EfiConfigurationTable>, t: Seq<EfiConfigurationTable>, i: int, n: int)
    requires
        0 <= i,
        n <= s.len(),
        n <= t.len(),
        s.subrange(0, n) == t.subrange(0, n),
    ensures
        dtb_scan(s, i, n) == dtb_scan(t, i, n),
    decreases n - i,
{
    if i < n {
        assert(s[i] == s.subrange(0, n)[i]);
        assert(t[i] == t.subrange(0, n)[i]);
        lemma_dtb_scan_bounded(s, t, i + 1, n);
    }
}

/// With no device-tree entry among the first `n`, the scan finds nothing.
pub proof fn lemma_dtb_scan_none(s: Seq<EfiConfigurationTable>, i: int, n: int)
    requires
        0 <= i,
        forall|j: int| i <= j < n && j < s.len() ==> s[j].vendor_guid != EFI_DTB_TABLE_GUID,
    ensures
        dtb_scan(s, i, n) is None,
    decreases n - i,
{
    if i < n && i < s.len() {
        lemma_dtb_scan_none(s, i + 1, n);
    }
}

/// With exactly one device-tree entry among the first `n`, at index `k`, the
/// scan gives that entry's address (absent only when the address is zero).
pub proof fn lemma_dtb_scan_unique(s: Seq<EfiConfigurationTable>, i: int, n: int, k: int)
    requires
        0 <= i <= k < n,
        k < s.len(),
        s[k].vendor_guid == EFI_DTB_TABLE_GUID,
        forall|j: int| 0 <= j < n && j < s.len() && j != k ==> s[j].vendor_guid != EFI_DTB_TABLE_GUID,
    ensures
        dtb_scan(s, i, n) == (if s[k].vendor_table == 0 { None } else { Some(s[k].vendor_table) }),
    decreases k - i,
{
    if i < k {
        lemma_dtb_scan_unique(s, i + 1, n, k);
    }
}

} // verus!
