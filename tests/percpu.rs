use x86_vcpu::{HvError, VmxHostInfo, VmxPerCpuState};

#[test]
fn test_vmx_per_cpu_state_new() {
    let result = VmxPerCpuState::new(0);
    assert!(result.is_ok());

    let state = result.unwrap();
    assert_eq!(state.vmcs_revision_id, 0);
}

#[test]
fn test_vmx_per_cpu_state_default_values() {
    let state = VmxPerCpuState::new(0).unwrap();

    // Test that vmcs_revision_id is initialized to 0
    assert_eq!(state.vmcs_revision_id, 0);
}

#[test]
fn test_multiple_cpu_states_independence() {
    let mut states = Vec::new();

    // Create states for multiple CPUs
    for cpu_id in 0..4 {
        let state = VmxPerCpuState::new(cpu_id).unwrap();
        states.push(state);
    }

    // Test independence by modifying one state and verifying others are unaffected
    states[0].vmcs_revision_id = 0x12345678;
    states[1].vmcs_revision_id = 0x87654321;

    // Verify each state maintains its own value
    assert_eq!(states[0].vmcs_revision_id, 0x12345678);
    assert_eq!(states[1].vmcs_revision_id, 0x87654321);
    assert_eq!(states[2].vmcs_revision_id, 0);
    assert_eq!(states[3].vmcs_revision_id, 0);
}

#[test]
fn test_vmx_per_cpu_state_debug() {
    let state = VmxPerCpuState::new(0).unwrap();

    // Test that Debug trait is implemented and doesn't panic
    let debug_str = format!("{:?}", state);
    assert!(!debug_str.is_empty());
}

#[test]
fn test_vmx_per_cpu_state_size() {

    // Test that the struct has a reasonable size
    let size = std::mem::size_of::<VmxPerCpuState>();

    // Should not be zero-sized: it holds at least the revision identifier
    assert!(size >= 4);

    // But shouldn't be excessively large (this is a sanity check)
    assert!(size < 1024);
}

/// A processor that can turn VMX on: CR0 = PE|NE|PG, CR4 = PAE, fixed masks that
/// these satisfy (CR4 once VMXE is set), and a VMX_BASIC with revision 0x12, 4 KiB regions, write-back,
/// I/O exit information and true controls.
fn good_host() -> VmxHostInfo {
    VmxHostInfo {
        has_vmx: true,
        cr0: 0x8000_0021,
        cr4: 0x20,
        feature_control: 0,
        cr0_fixed0: 0x8000_0021,
        cr0_fixed1: 0xffff_ffff,
        cr4_fixed0: 1 << 13, // VMXE must be set in VMX operation
        cr4_fixed1: 0x3f_ffff,
        vmx_basic: (1u64 << 55) | (1u64 << 54) | (6u64 << 50) | (0x1000u64 << 32) | 0x12,
    }
}

#[test]
fn hardware_enable_plans_vmxon() {
    let mut state = VmxPerCpuState::new(0).unwrap();
    let plan = state.hardware_enable(&good_host()).unwrap();
    assert_eq!(plan.revision_id, 0x12);
    assert_eq!(plan.feature_control, Some(0b101));
    assert_eq!(plan.cr4, 0x20 | (1 << 13));
    assert_eq!(state.vmcs_revision_id, 0x12);
}

#[test]
fn hardware_enable_errors() {
    let mut state = VmxPerCpuState::new(0).unwrap();
    let mut h = good_host();
    h.has_vmx = false;
    assert_eq!(state.hardware_enable(&h), Err(HvError::Unsupported));

    let mut h = good_host();
    h.cr4 |= 1 << 13;
    assert_eq!(state.hardware_enable(&h), Err(HvError::AlreadyEnabled));

    let mut h = good_host();
    h.feature_control = 1; // locked, VMXON outside SMX off
    assert_eq!(state.hardware_enable(&h), Err(HvError::Unsupported));

    let mut h = good_host();
    h.feature_control = 0b101; // locked and allowed: nothing to write
    assert_eq!(state.hardware_enable(&h).unwrap().feature_control, None);

    let mut h = good_host();
    h.cr0 = 0x21; // PG missing though fixed0 asks for it
    assert_eq!(state.hardware_enable(&h), Err(HvError::BadState));

    let mut fresh = VmxPerCpuState::new(1).unwrap();
    let mut h = good_host();
    h.vmx_basic &= !(1u64 << 54);
    assert_eq!(fresh.hardware_enable(&h), Err(HvError::Unsupported));
    assert_eq!(fresh.vmcs_revision_id, 0);
}

#[test]
fn hardware_disable_needs_vmx_on() {
    let mut state = VmxPerCpuState::new(0).unwrap();
    assert_eq!(state.hardware_disable(0x20), Err(HvError::NotEnabled));
    assert_eq!(state.hardware_disable(0x2020), Ok(0x20));
    assert!(state.is_enabled(0x2020));
    assert!(!state.is_enabled(0x20));
}

#[test]
fn hardware_enable_checks_cr4_with_vmxe() {
    let mut state = VmxPerCpuState::new(0).unwrap();
    // the masks demand VMXE, which the current CR4 lacks: fine, VMX will set it
    assert!(state.hardware_enable(&good_host()).is_ok());
    // the masks forbid VMXE: VMX cannot run with this CR4
    let mut h = good_host();
    h.cr4_fixed0 = 0;
    h.cr4_fixed1 = 0x3f_ffff & !(1 << 13);
    let mut fresh = VmxPerCpuState::new(1).unwrap();
    assert_eq!(fresh.hardware_enable(&h), Err(HvError::BadState));
    // the masks demand a bit CR4 lacks
    let mut h = good_host();
    h.cr4_fixed0 = (1 << 13) | (1 << 7);
    assert_eq!(fresh.hardware_enable(&h), Err(HvError::BadState));
}
