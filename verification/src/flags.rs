//! Numeric values of the operating-system flags that the tuning requests carry.
//!
//! The values that the Windows bindings export are read from the bindings at
//! run time; the constants below name them for contracts.

use vstd::prelude::*;

verus! {

/// Error mode bit: the system does not show the critical-error dialog.
pub const ERROR_MODE_FAIL_CRITICAL: u32 = 0x1;

/// Error mode bit: the system does not show the general-protection-fault dialog.
pub const ERROR_MODE_NO_FAULT_BOX: u32 = 0x2;

/// Both dialog-suppressing error mode bits together.
pub const ERROR_MODE_SUPPRESSED: u32 = 0x3;

/// Priority class of a process scheduled like any other.
pub const PRIORITY_NORMAL: u32 = 0x20;

/// Priority class one tier above normal.
pub const PRIORITY_ABOVE_NORMAL: u32 = 0x8000;

/// Priority class for time-critical work.
pub const PRIORITY_HIGH: u32 = 0x80;

/// Highest priority class there is.
pub const PRIORITY_REALTIME: u32 = 0x100;

/// Execution state bit: the request stays in force until it is changed.
pub const EXEC_CONTINUOUS: u32 = 0x8000_0000;

/// Execution state bit: the system must not go to sleep.
pub const EXEC_SYSTEM_REQUIRED: u32 = 0x1;

/// Execution state bit: the display must stay on.
pub const EXEC_DISPLAY_REQUIRED: u32 = 0x2;

/// The continuous system-and-display request.
pub const EXEC_STAY_AWAKE: u32 = 0x8000_0003;

/// Reason code with which the host announces that the agent was loaded.
pub const HOOK_ATTACH: u32 = 1;

/// Reason code with which the host announces that the agent is unloaded.
pub const HOOK_DETACH: u32 = 0;

/// Timer resolution asked of the native interface, in units of 100 ns: 0.5 ms.
pub const TIMER_NATIVE_RESOLUTION: u32 = 5000;

/// Timer period asked of the legacy multimedia interface, in milliseconds.
pub const TIMER_LEGACY_PERIOD: u32 = 1;

/// Memory priority tier asked for the process.
pub const MEMORY_PRIORITY_HIGH: u32 = 7;

/// Lower bound asked for the working set: 512 MB.
pub const WORKING_SET_MIN: u64 = 536_870_912;

/// Upper bound asked for the working set: 2 GB.
pub const WORKING_SET_MAX: u64 = 2_147_483_648;

/// Working-set flags: neither bound is a hard limit.
pub const WORKING_SET_FLAGS: u32 = 0;

/// Version of the power-throttling state record.
pub const THROTTLING_VERSION: u32 = 1;

/// Power-throttling control bit for execution speed.
pub const THROTTLING_EXECUTION_SPEED: u32 = 1;

/// I/O priority hint of the high tier.
pub const IO_PRIORITY_HIGH: u32 = 3;

/// Sound of the confirmation tone.
pub const BEEP_EXCLAMATION: u32 = 0x30;

/// Reads `windows_sys::Win32::System::Diagnostics::Debug::SEM_FAILCRITICALERRORS`,
/// which the bindings define as 1.
#[verifier::external_body]
pub(crate) fn sem_failcriticalerrors() -> (r: u32)
    ensures
        r == ERROR_MODE_FAIL_CRITICAL,
{
    windows_sys::Win32::System::Diagnostics::Debug::SEM_FAILCRITICALERRORS
}

/// Reads `windows_sys::Win32::System::Diagnostics::Debug::SEM_NOGPFAULTERRORBOX`,
/// which the bindings define as 2.
#[verifier::external_body]
pub(crate) fn sem_nogpfaulterrorbox() -> (r: u32)
    ensures
        r == ERROR_MODE_NO_FAULT_BOX,
{
    windows_sys::Win32::System::Diagnostics::Debug::SEM_NOGPFAULTERRORBOX
}

/// Reads `windows_sys::Win32::System::Threading::NORMAL_PRIORITY_CLASS`,
/// which the bindings define as 32.
#[verifier::external_body]
pub(crate) fn normal_priority_class() -> (r: u32)
    ensures
        r == PRIORITY_NORMAL,
{
    windows_sys::Win32::System::Threading::NORMAL_PRIORITY_CLASS
}

/// Reads `windows_sys::Win32::System::Threading::ABOVE_NORMAL_PRIORITY_CLASS`,
/// which the bindings define as 32768.
#[verifier::external_body]
pub(crate) fn above_normal_priority_class() -> (r: u32)
    ensures
        r == PRIORITY_ABOVE_NORMAL,
{
    windows_sys::Win32::System::Threading::ABOVE_NORMAL_PRIORITY_CLASS
}

/// Reads `windows_sys::Win32::System::Threading::HIGH_PRIORITY_CLASS`,
/// which the bindings define as 128.
#[verifier::external_body]
pub(crate) fn high_priority_class() -> (r: u32)
    ensures
        r == PRIORITY_HIGH,
{
    windows_sys::Win32::System::Threading::HIGH_PRIORITY_CLASS
}

/// Reads `windows_sys::Win32::System::Threading::REALTIME_PRIORITY_CLASS`,
/// which the bindings define as 256.
#[verifier::external_body]
pub(crate) fn realtime_priority_class() -> (r: u32)
    ensures
        r == PRIORITY_REALTIME,
{
    windows_sys::Win32::System::Threading::REALTIME_PRIORITY_CLASS
}

/// Reads `windows_sys::Win32::System::Power::ES_CONTINUOUS`, which the
/// bindings define as 2147483648.
#[verifier::external_body]
pub(crate) fn es_continuous() -> (r: u32)
    ensures
        r == EXEC_CONTINUOUS,
{
    windows_sys::Win32::System::Power::ES_CONTINUOUS
}

/// Reads `windows_sys::Win32::System::Power::ES_SYSTEM_REQUIRED`, which the
/// bindings define as 1.
#[verifier::external_body]
pub(crate) fn es_system_required() -> (r: u32)
    ensures
        r == EXEC_SYSTEM_REQUIRED,
{
    windows_sys::Win32::System::Power::ES_SYSTEM_REQUIRED
}

/// Reads `windows_sys::Win32::System::Power::ES_DISPLAY_REQUIRED`, which the
/// bindings define as 2.
#[verifier::external_body]
pub(crate) fn es_display_required() -> (r: u32)
    ensures
        r == EXEC_DISPLAY_REQUIRED,
{
    windows_sys::Win32::System::Power::ES_DISPLAY_REQUIRED
}

/// Reads `windows_sys::Win32::System::SystemServices::DLL_PROCESS_ATTACH`,
/// which the bindings define as 1.
#[verifier::external_body]
pub(crate) fn dll_process_attach() -> (r: u32)
    ensures
        r == HOOK_ATTACH,
{
    windows_sys::Win32::System::SystemServices::DLL_PROCESS_ATTACH
}

/// Reads `windows_sys::Win32::System::SystemServices::DLL_PROCESS_DETACH`,
/// which the bindings define as 0.
#[verifier::external_body]
pub(crate) fn dll_process_detach() -> (r: u32)
    ensures
        r == HOOK_DETACH,
{
    windows_sys::Win32::System::SystemServices::DLL_PROCESS_DETACH
}

/// The error mode that suppresses both dialogs.
pub fn suppressed_error_mode() -> (r: u32)
    ensures
        r == ERROR_MODE_SUPPRESSED,
{
    let critical: u32 = sem_failcriticalerrors();
    let fault: u32 = sem_nogpfaulterrorbox();
    assert(0x1u32 | 0x2u32 == 0x3u32) by (bit_vector);
    critical | fault
}

/// The execution state that keeps system and display awake until changed.
pub fn stay_awake_state() -> (r: u32)
    ensures
        r == EXEC_STAY_AWAKE,
{
    let continuous: u32 = es_continuous();
    let system: u32 = es_system_required();
    let display: u32 = es_display_required();
    assert(0x8000_0000u32 | 0x1u32 | 0x2u32 == 0x8000_0003u32) by (bit_vector);
    continuous | system | display
}

/// Spec form of [`priority_class`].
pub open spec fn priority_class_of(level: u32) -> u32 {
    if level == 1 {
        PRIORITY_ABOVE_NORMAL
    } else if level == 2 {
        PRIORITY_HIGH
    } else if level == 3 {
        PRIORITY_REALTIME
    } else {
        PRIORITY_NORMAL
    }
}

/// The priority class for a configured priority level: 1 is above normal,
/// 2 is high, 3 is realtime, and every other level, 0 included, is normal.
pub fn priority_class(level: u32) -> (class: u32)
    ensures
        class == priority_class_of(level),
        level == 0 ==> class == PRIORITY_NORMAL,
        level == 1 ==> class == PRIORITY_ABOVE_NORMAL,
        level == 2 ==> class == PRIORITY_HIGH,
        level == 3 ==> class == PRIORITY_REALTIME,
        level > 3 ==> class == PRIORITY_NORMAL,
{
    match level {
        1 => above_normal_priority_class(),
        2 => high_priority_class(),
        3 => realtime_priority_class(),
        _ => normal_priority_class(),
    }
}

/// Affinity mask with a bit for every logical processor.
pub const AFFINITY_ALL: u64 = 0xFFFF_FFFF_FFFF_FFFF;

/// Affinity mask with a bit for every logical processor but the first.
pub const AFFINITY_ALL_BUT_FIRST: u64 = 0xFFFF_FFFF_FFFF_FFFE;

/// Whether an affinity mask admits the logical processor of the given number.
pub open spec fn mask_admits(mask: u64, core: u64) -> bool {
    core < 64 && (mask >> core) & 1 == 1
}

/// Spec form of [`affinity_mask`].
pub open spec fn affinity_mask_of(bypass_first: bool) -> u64 {
    if bypass_first {
        AFFINITY_ALL_BUT_FIRST
    } else {
        AFFINITY_ALL
    }
}

/// The affinity mask to ask for: every processor, or every processor but
/// the first where the first is to be bypassed.
pub fn affinity_mask(bypass_first: bool) -> (mask: u64)
    ensures
        mask == affinity_mask_of(bypass_first),
{
    let mut mask: u64 = !0;
    assert(!0u64 == 0xFFFF_FFFF_FFFF_FFFFu64) by (bit_vector);
    if bypass_first {
        mask &= !1;
        assert(0xFFFF_FFFF_FFFF_FFFFu64 & !1u64 == 0xFFFF_FFFF_FFFF_FFFEu64) by (bit_vector);
    }
    mask
}

/// The mask asked for leaves the first processor out exactly when it is to
/// be bypassed, and admits every other processor up to the number the mask
/// can hold, whatever the count of processors reported.
pub proof fn lemma_affinity_mask_bits(bypass_first: bool, core: u64)
    requires
        core < 64,
    ensures
        mask_admits(affinity_mask_of(bypass_first), core) <==> !(bypass_first && core == 0),
{
    assert((0xFFFF_FFFF_FFFF_FFFFu64 >> core) & 1 == 1) by (bit_vector)
        requires
            core < 64,
    ;
    assert(((0xFFFF_FFFF_FFFF_FFFEu64 >> core) & 1 == 1) <==> core != 0) by (bit_vector)
        requires
            core < 64,
    ;
}

} // verus!
