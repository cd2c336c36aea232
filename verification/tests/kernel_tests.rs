use brig::devices::{pci_driver, PciDriver};
use brig::page_fault::{
    backing_page_address, device_read_size, device_write_bytes, device_write_value, guest_fault_address,
    merge_eax, resume_address, DestinationClass, DeviceWriteSource,
};
use brig::pcie::PciId;

#[test]
fn guest_faults_are_unmasked() {
    assert_eq!(guest_fault_address(0x0000_0000_1234_5000), Some(0x1234_5000));
    // bit 39 set: the upper guest half, sign-extended
    assert_eq!(guest_fault_address(0x0000_00ff_ffff_f000), Some(0xffff_ffff_ffff_f000));
    assert_eq!(guest_fault_address(0x0000_7fff_ffff_ffff), Some(0xffff_ffff_ffff_ffff));
    assert_eq!(guest_fault_address(0xffff_8000_0000_0000), None);
}

#[test]
fn backing_page_is_aligned() {
    assert_eq!(backing_page_address(0x4000_1234), 0xffff_9000_4000_1000);
    assert_eq!(backing_page_address(0), 0xffff_9000_0000_0000);
}

#[test]
fn device_write_values() {
    assert_eq!(device_write_value(DeviceWriteSource::RegisterCl, 0x1234), Some((0x1234, 1)));
    assert_eq!(device_write_value(DeviceWriteSource::RegisterEcx, 0x1234), Some((0x1234, 4)));
    assert_eq!(device_write_value(DeviceWriteSource::Immediate16(0xbeef), 0), Some((0xbeef, 2)));
    assert_eq!(device_write_value(DeviceWriteSource::Immediate8to64(-1), 0), Some((u64::MAX, 8)));
    assert_eq!(device_write_value(DeviceWriteSource::Other, 0), None);
    assert_eq!(device_write_bytes(0x1122_3344_5566_7788, 3), vec![0x88, 0x77, 0x66]);
    assert_eq!(device_write_bytes(0xff, 0), Vec::<u8>::new());
}

#[test]
fn device_reads() {
    assert_eq!(device_read_size(DestinationClass::Gpr32), 32);
    assert_eq!(merge_eax(0xaaaa_bbbb_cccc_dddd, &vec![0x78, 0x56, 0x34, 0x12, 0xff]), 0xaaaa_bbbb_1234_5678);
    assert_eq!(resume_address(0x1000, 3), 0x1003);
}

#[test]
fn pci_drivers() {
    assert_eq!(pci_driver(PciId::new(0x1af4, 0x1001)), Some(PciDriver::VirtioBlock));
    assert_eq!(pci_driver(PciId::new(0x8086, 0x2922)), Some(PciDriver::Ich9r));
    assert_eq!(pci_driver(PciId::new(0x1af4, 0x1110)), Some(PciDriver::Ivshmem));
    assert_eq!(pci_driver(PciId::new(0x1af4, 0x1000)), None);
}

use brig::device_access::{REGISTER_CL, REGISTER_ECX};
use iced_x86::{Code, OpKind, Register};
use brig::device_access::{
    destination_class, device_access_plan, plan_device_access, write_source, AccessError, AccessPlan, DecodedAccess,
    DeviceAction, CODE_MOV_R32_RM32, REGISTER_EAX,
};

#[test]
fn device_read_into_eax_is_planned() {
    // mov eax, [rbx]
    let r = plan_device_access(&[0x8B, 0x03], false, 0, 0x1000);
    assert_eq!(r, Ok(AccessPlan { action: DeviceAction::Read { size: 32, into_eax: true }, resume: Some(0x1002) }));
}

#[test]
fn device_read_into_other_register_is_flagged() {
    // mov ecx, [rbx]
    let r = plan_device_access(&[0x8B, 0x0B], false, 0, 0x1000);
    assert_eq!(r, Ok(AccessPlan { action: DeviceAction::Read { size: 32, into_eax: false }, resume: Some(0x1002) }));
}

#[test]
fn device_read_by_byte_move_is_refused() {
    // mov al, [rbx]
    let r = plan_device_access(&[0x8A, 0x03], false, 0, 0x1000);
    assert!(matches!(r, Err(AccessError::UnsupportedReadCode { code }) if code != CODE_MOV_R32_RM32));
}

#[test]
fn device_write_of_byte_immediate() {
    // mov byte [rbx], 0x12
    let r = plan_device_access(&[0xC6, 0x03, 0x12], true, 0, 0x2000);
    assert_eq!(r, Ok(AccessPlan { action: DeviceAction::Write { value: 0x12, size: 1 }, resume: Some(0x2003) }));
}

#[test]
fn device_write_of_dword_immediate() {
    // mov dword [rbx], 0x12345678
    let r = plan_device_access(&[0xC7, 0x03, 0x78, 0x56, 0x34, 0x12], true, 0, 0x2000);
    assert_eq!(r, Ok(AccessPlan { action: DeviceAction::Write { value: 0x1234_5678, size: 4 }, resume: Some(0x2006) }));
}

#[test]
fn device_write_of_sign_extended_immediate() {
    // mov qword [rbx], -1 (imm32 sign-extended to 64 bits)
    let r = plan_device_access(&[0x48, 0xC7, 0x03, 0xFF, 0xFF, 0xFF, 0xFF], true, 0, 0x2000);
    assert_eq!(r, Ok(AccessPlan { action: DeviceAction::Write { value: u64::MAX, size: 8 }, resume: Some(0x2007) }));
}

#[test]
fn device_write_from_ecx_takes_rcx() {
    // mov [rbx], ecx
    let r = plan_device_access(&[0x89, 0x0B], true, 0xdead_beef, 0x2000);
    assert_eq!(r, Ok(AccessPlan { action: DeviceAction::Write { value: 0xdead_beef, size: 4 }, resume: Some(0x2002) }));
}

#[test]
fn device_write_from_other_register_is_refused() {
    // mov [rbx], edx
    let r = plan_device_access(&[0x89, 0x13], true, 0, 0x2000);
    assert_eq!(r, Err(AccessError::UnsupportedWriteSource { op1_kind: 0 }));
}

#[test]
fn device_access_past_the_address_space_has_no_resume_address() {
    let r = plan_device_access(&[0x8B, 0x03], false, 0, u64::MAX - 1);
    assert_eq!(r, Ok(AccessPlan { action: DeviceAction::Read { size: 32, into_eax: true }, resume: None }));
}

#[test]
fn device_access_plan_of_a_decoded_read() {
    let d = DecodedAccess {
        code: CODE_MOV_R32_RM32,
        length: 3,
        op0_register: 60,
        op1_kind: 0,
        op1_register: 0,
        immediate32: 0,
        immediate64: 0,
        immediate8_2nd: 0,
    };
    assert_eq!(
        device_access_plan(d, false, 0, 10),
        Ok(AccessPlan { action: DeviceAction::Read { size: 64, into_eax: false }, resume: Some(13) })
    );
    let bad = DecodedAccess { op0_register: 100, ..d };
    assert_eq!(device_access_plan(bad, false, 0, 10), Err(AccessError::UnsupportedDestination { register: 100 }));
    let eax = DecodedAccess { op0_register: REGISTER_EAX, ..d };
    assert_eq!(
        device_access_plan(eax, false, 0, 10),
        Ok(AccessPlan { action: DeviceAction::Read { size: 32, into_eax: true }, resume: Some(13) })
    );
}

#[test]
fn destination_classes_follow_the_register_numbering() {
    assert_eq!(destination_class(0), None);
    assert_eq!(destination_class(1), Some(DestinationClass::Gpr8));
    assert_eq!(destination_class(20), Some(DestinationClass::Gpr8));
    assert_eq!(destination_class(21), Some(DestinationClass::Gpr16));
    assert_eq!(destination_class(37), Some(DestinationClass::Gpr32));
    assert_eq!(destination_class(68), Some(DestinationClass::Gpr64));
    assert_eq!(destination_class(69), None);
}

#[test]
fn write_sources_extend_their_immediates() {
    let d = DecodedAccess {
        code: 0,
        length: 1,
        op0_register: 0,
        op1_kind: 12,
        op1_register: 0,
        immediate32: 0x80,
        immediate64: 0x80,
        immediate8_2nd: 0,
    };
    assert_eq!(write_source(&d), DeviceWriteSource::Immediate8to32(-128));
    let d16 = DecodedAccess { op1_kind: 8, immediate32: 0x1_2345, ..d };
    assert_eq!(write_source(&d16), DeviceWriteSource::Immediate16(0x2345));
}

#[test]
fn decoder_numbers_match_the_decoder() {
    assert_eq!(CODE_MOV_R32_RM32, Code::Mov_r32_rm32 as u16);
    assert_eq!(REGISTER_CL, Register::CL as u8);
    assert_eq!(REGISTER_ECX, Register::ECX as u8);
    assert_eq!(REGISTER_EAX, Register::EAX as u8);
    assert_eq!(OpKind::Register as u8, 0);
    assert_eq!(OpKind::Immediate8 as u8, 6);
    assert_eq!(OpKind::Immediate8_2nd as u8, 7);
    assert_eq!(OpKind::Immediate16 as u8, 8);
    assert_eq!(OpKind::Immediate32 as u8, 9);
    assert_eq!(OpKind::Immediate64 as u8, 10);
    assert_eq!(OpKind::Immediate8to16 as u8, 11);
    assert_eq!(OpKind::Immediate8to32 as u8, 12);
    assert_eq!(OpKind::Immediate8to64 as u8, 13);
    assert_eq!(OpKind::Immediate32to64 as u8, 14);
    for n in 0u8..=255 {
        let class = destination_class(n);
        if let Some(r) = Register::values().nth(n as usize) {
            assert_eq!(r as u8, n);
            let expected = if r.is_gpr8() {
                Some(DestinationClass::Gpr8)
            } else if r.is_gpr16() {
                Some(DestinationClass::Gpr16)
            } else if r.is_gpr32() {
                Some(DestinationClass::Gpr32)
            } else if r.is_gpr64() {
                Some(DestinationClass::Gpr64)
            } else {
                None
            };
            assert_eq!(class, expected);
        }
    }
}
