use x86_vcpu::{calculate_instruction_length, HvError, ModRm, RexPrefix, Sib, VmCpuMode};

#[test]
fn test_simple_mov_instruction() {
    // MOV EAX, EBX (89 D8)
    let bytes = [0x89, 0xD8];
    let length = calculate_instruction_length(&bytes, VmCpuMode::Mode64).unwrap();
    assert_eq!(length, 2);
}

#[test]
fn test_mov_with_immediate() {
    // MOV EAX, 0x12345678 (B8 78 56 34 12)
    let bytes = [0xB8, 0x78, 0x56, 0x34, 0x12];
    let length = calculate_instruction_length(&bytes, VmCpuMode::Mode64).unwrap();
    assert_eq!(length, 5);
}

#[test]
fn test_rex_prefix() {
    // REX.W + MOV RAX, RBX (48 89 D8)
    let bytes = [0x48, 0x89, 0xD8];
    let length = calculate_instruction_length(&bytes, VmCpuMode::Mode64).unwrap();
    assert_eq!(length, 3);
}

#[test]
fn test_memory_operand() {
    // MOV EAX, [RBX] (8B 03)
    let bytes = [0x8B, 0x03];
    let length = calculate_instruction_length(&bytes, VmCpuMode::Mode64).unwrap();
    assert_eq!(length, 2);
}

#[test]
fn test_memory_with_displacement() {
    // MOV EAX, [RBX+0x12345678] (8B 83 78 56 34 12)
    let bytes = [0x8B, 0x83, 0x78, 0x56, 0x34, 0x12];
    let length = calculate_instruction_length(&bytes, VmCpuMode::Mode64).unwrap();
    assert_eq!(length, 6);
}

#[test]
fn test_prefix_combinations() {
    // LOCK REP MOV EAX, EBX (F0 F3 89 D8)
    let bytes = [0xF0, 0xF3, 0x89, 0xD8];
    let length = calculate_instruction_length(&bytes, VmCpuMode::Mode64).unwrap();
    assert_eq!(length, 4);
}

#[test]
fn decode_rejects_bad_lengths() {
    assert_eq!(calculate_instruction_length(&[], VmCpuMode::Mode64), Err(HvError::InvalidInput));
    assert_eq!(calculate_instruction_length(&[0x90; 16], VmCpuMode::Mode64), Err(HvError::InvalidInput));
    // MOV EAX, imm32 cut short
    assert_eq!(calculate_instruction_length(&[0xB8, 0x78], VmCpuMode::Mode64), Err(HvError::InvalidInput));
    // only prefixes
    assert_eq!(calculate_instruction_length(&[0x66, 0x67], VmCpuMode::Mode64), Err(HvError::InvalidInput));
}

#[test]
fn decode_sizes_follow_mode_and_prefixes() {
    // MOV AX, imm16 in real mode; with 66h it takes imm32
    assert_eq!(calculate_instruction_length(&[0xB8, 1, 2], VmCpuMode::Real), Ok(3));
    assert_eq!(calculate_instruction_length(&[0x66, 0xB8, 1, 2, 3, 4], VmCpuMode::Real), Ok(6));
    // REX.W MOV RAX, imm64
    assert_eq!(calculate_instruction_length(&[0x48, 0xB8, 1, 2, 3, 4, 5, 6, 7, 8], VmCpuMode::Mode64), Ok(10));
    // REX.W ADD RAX, imm32 (sign-extended)
    assert_eq!(calculate_instruction_length(&[0x48, 0x05, 1, 2, 3, 4], VmCpuMode::Mode64), Ok(6));
    // MOV EAX, [RIP+disp32]
    assert_eq!(calculate_instruction_length(&[0x8B, 0x05, 1, 2, 3, 4], VmCpuMode::Mode64), Ok(6));
    // MOV EAX, [RSP+disp8] with SIB
    assert_eq!(calculate_instruction_length(&[0x8B, 0x44, 0x24, 0x08], VmCpuMode::Mode64), Ok(4));
    // MOV EAX, [disp32 + index] with SIB base 5
    assert_eq!(calculate_instruction_length(&[0x8B, 0x04, 0x25, 1, 2, 3, 4], VmCpuMode::Mode64), Ok(7));
    // two-byte opcode MOVZX EAX, BYTE [RBX]
    assert_eq!(calculate_instruction_length(&[0x0F, 0xB6, 0x03], VmCpuMode::Mode64), Ok(3));
    // 16-bit addressing in real mode: MOV AX, [BX+disp16]
    assert_eq!(calculate_instruction_length(&[0x8B, 0x87, 1, 2], VmCpuMode::Real), Ok(4));
}

#[test]
fn decode_prefix_of_longer_input_is_stable() {
    let bytes = [0xF0, 0x48, 0x81, 0x00, 1, 2, 3, 4, 0x90, 0x90];
    let n = calculate_instruction_length(&bytes, VmCpuMode::Mode64).unwrap();
    assert_eq!(n, 8);
    assert_eq!(calculate_instruction_length(&bytes[..n], VmCpuMode::Mode64), Ok(n));
}

#[test]
fn decode_field_helpers() {
    let rex = RexPrefix::from_byte(0x4D).unwrap();
    assert!(rex.w && rex.r && !rex.x && rex.b);
    assert!(RexPrefix::from_byte(0x50).is_none());
    let m = ModRm::from_byte(0b10_011_100);
    assert_eq!((m.mode, m.reg, m.rm), (2, 3, 4));
    assert!(m.needs_sib());
    assert_eq!(m.displacement_length(8), 4);
    assert_eq!(m.displacement_length(2), 2);
    let s = Sib::from_byte(0b01_100_101);
    assert_eq!((s.scale, s.index, s.base), (1, 4, 5));
    assert!(s.needs_displacement(&m));
}
