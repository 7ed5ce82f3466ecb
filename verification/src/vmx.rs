//! VMX definitions: guest general-purpose registers, VM-instruction error
//! numbers and VM-entry interruption types.
use vstd::prelude::*;

verus! {

/// Guest general-purpose registers in hardware encoding order
/// (RAX, RCX, RDX, RBX, RSP, RBP, RSI, RDI, R8..R15).
#[derive(Clone, Copy, Debug, PartialEq, Eq, Structural)]
pub struct GeneralRegisters {
    pub rax: u64,
    pub rcx: u64,
    pub rdx: u64,
    pub rbx: u64,
    pub rsp: u64,
    pub rbp: u64,
    pub rsi: u64,
    pub rdi: u64,
    pub r8: u64,
    pub r9: u64,
    pub r10: u64,
    pub r11: u64,
    pub r12: u64,
    pub r13: u64,
    pub r14: u64,
    pub r15: u64,
}

/// Encoding index of RSP, whose guest value lives in the VMCS instead.
pub const RSP_INDEX: u8 = 4;

impl GeneralRegisters {
    pub open spec fn spec_reg(self, index: u8) -> u64 {
        if index == 0 { self.rax }
        else if index == 1 { self.rcx }
        else if index == 2 { self.rdx }
        else if index == 3 { self.rbx }
        else if index == 4 { self.rsp }
        else if index == 5 { self.rbp }
        else if index == 6 { self.rsi }
        else if index == 7 { self.rdi }
        else if index == 8 { self.r8 }
        else if index == 9 { self.r9 }
        else if index == 10 { self.r10 }
        else if index == 11 { self.r11 }
        else if index == 12 { self.r12 }
        else if index == 13 { self.r13 }
        else if index == 14 { self.r14 }
        else { self.r15 }
    }

    /// Value of the register with encoding `index` (0..16).
    pub fn get_reg_of_index(&self, index: u8) -> (v: u64)
        requires
            index < 16,
        ensures
            v == self.spec_reg(index),
    {
        match index {
            0 => self.rax,
            1 => self.rcx,
            2 => self.rdx,
            3 => self.rbx,
            4 => self.rsp,
            5 => self.rbp,
            6 => self.rsi,
            7 => self.rdi,
            8 => self.r8,
            9 => self.r9,
            10 => self.r10,
            11 => self.r11,
            12 => self.r12,
            13 => self.r13,
            14 => self.r14,
            _ => self.r15,
        }
    }
}

/// The comparison of all general-purpose registers before and after a change.
pub struct GeneralRegistersDiff {
    old: GeneralRegisters,
    new: GeneralRegisters,
}

/// Whether register `index` counts as changed between `old` and `new`
/// (RSP is never reported).
pub open spec fn spec_reg_changed(old: GeneralRegisters, new: GeneralRegisters, index: u8) -> bool {
    index < 16 && index != RSP_INDEX && old.spec_reg(index) != new.spec_reg(index)
}

impl GeneralRegistersDiff {
    pub closed spec fn old_regs(&self) -> GeneralRegisters {
        self.old
    }

    pub closed spec fn new_regs(&self) -> GeneralRegisters {
        self.new
    }

    /// Compares `old` with `new`.
    pub fn new(old: GeneralRegisters, new: GeneralRegisters) -> (d: GeneralRegistersDiff)
        ensures
            d.old_regs() == old,
            d.new_regs() == new,
    {
        GeneralRegistersDiff { old, new }
    }

    /// Whether every general-purpose register is unchanged.
    pub fn is_same(&self) -> (r: bool)
        ensures
            r == (self.old_regs() == self.new_regs()),
    {
        self.old == self.new
    }

    /// Encoding indices of the registers that changed, in increasing order.
    pub fn changed_registers(&self) -> (r: Vec<u8>)
        ensures
            forall|i: int| 0 <= i < r.len() ==> spec_reg_changed(self.old_regs(), self.new_regs(), #[trigger] r@[i]),
            forall|i: int, j: int| 0 <= i < j < r.len() ==> r@[i] < r@[j],
            forall|k: u8| spec_reg_changed(self.old_regs(), self.new_regs(), k) ==> r@.contains(k),
    {
        let mut r: Vec<u8> = Vec::new();
        let mut i: u8 = 0;
        while i < 16
            invariant
                i <= 16,
                forall|j: int| 0 <= j < r.len() ==> spec_reg_changed(self.old, self.new, #[trigger] r@[j]) && r@[j] < i,
                forall|a: int, b: int| 0 <= a < b < r.len() ==> r@[a] < r@[b],
                forall|k: u8| k < i && spec_reg_changed(self.old, self.new, k) ==> r@.contains(k),
            decreases 16 - i,
        {
            let ghost r0 = r@;
            if i != RSP_INDEX {
                let o = self.old.get_reg_of_index(i);
                let n = self.new.get_reg_of_index(i);
                if o != n {
                    r.push(i);
                    assert(r@[r.len() - 1] == i);
                }
            }
            proof {
                assert forall|k: u8| k < i + 1 && spec_reg_changed(self.old, self.new, k) implies r@.contains(k) by {
                    if k == i {
                        assert(r@[r.len() - 1] == i);
                    } else {
                        assert(r0.contains(k));
                        let j = choose|j: int| 0 <= j < r0.len() && r0[j] == k;
                        assert(r@[j] == k);
                    }
                }
            }
            i = i + 1;
        }
        r
    }
}

/// A diff reports "same" exactly when no register is listed as changed;
/// a change confined to RSP is not listed.
pub proof fn lemma_same_means_nothing_changed(old: GeneralRegisters, new: GeneralRegisters, k: u8)
    requires
        old == new,
    ensures
        !spec_reg_changed(old, new, k),
{
}

/// VM-instruction error number (SDM Vol. 3C, Section 30.4).
#[derive(Clone, Copy, Debug, PartialEq, Eq, Structural)]
pub struct VmxInstructionError(pub u32);

pub open spec fn spec_vmx_instruction_error_str(code: u32) -> &'static str {
    if code == 0 { "OK" }
    else if code == 1 { "VMCALL executed in VMX root operation" }
    else if code == 2 { "VMCLEAR with invalid physical address" }
    else if code == 3 { "VMCLEAR with VMXON pointer" }
    else if code == 4 { "VMLAUNCH with non-clear VMCS" }
    else if code == 5 { "VMRESUME with non-launched VMCS" }
    else if code == 6 { "VMRESUME after VMXOFF (VMXOFF and VMXON between VMLAUNCH and VMRESUME)" }
    else if code == 7 { "VM entry with invalid control field(s)" }
    else if code == 8 { "VM entry with invalid host-state field(s)" }
    else if code == 9 { "VMPTRLD with invalid physical address" }
    else if code == 10 { "VMPTRLD with VMXON pointer" }
    else if code == 11 { "VMPTRLD with incorrect VMCS revision identifier" }
    else if code == 12 { "VMREAD/VMWRITE from/to unsupported VMCS component" }
    else if code == 13 { "VMWRITE to read-only VMCS component" }
    else if code == 15 { "VMXON executed in VMX root operation" }
    else if code == 16 { "VM entry with invalid executive-VMCS pointer" }
    else if code == 17 { "VM entry with non-launched executive VMCS" }
    else if code == 18 { "VM entry with executive-VMCS pointer not VMXON pointer (when attempting to deactivate the dual-monitor treatment of SMIs and SMM)" }
    else if code == 19 { "VMCALL with non-clear VMCS (when attempting to activate the dual-monitor treatment of SMIs and SMM)" }
    else if code == 20 { "VMCALL with invalid VM-exit control fields" }
    else if code == 22 { "VMCALL with incorrect MSEG revision identifier (when attempting to activate the dual-monitor treatment of SMIs and SMM)" }
    else if code == 23 { "VMXOFF under dual-monitor treatment of SMIs and SMM" }
    else if code == 24 { "VMCALL with invalid SMM-monitor features (when attempting to activate the dual-monitor treatment of SMIs and SMM)" }
    else if code == 25 { "VM entry with invalid VM-execution control fields in executive VMCS (when attempting to return from SMM)" }
    else if code == 26 { "VM entry with events blocked by MOV SS" }
    else if code == 28 { "Invalid operand to INVEPT/INVVPID" }
    else { "[INVALID]" }
}

impl VmxInstructionError {
    /// The error number read from the VM-instruction error field.
    pub fn from_code(value: u32) -> (e: VmxInstructionError)
        ensures
            e == VmxInstructionError(value),
    {
        VmxInstructionError(value)
    }

    /// Description of the error number.
    pub fn as_str(&self) -> (s: &'static str)
        ensures
            s == spec_vmx_instruction_error_str(self.0),
    {
        match self.0 {
            0 => "OK",
            1 => "VMCALL executed in VMX root operation",
            2 => "VMCLEAR with invalid physical address",
            3 => "VMCLEAR with VMXON pointer",
            4 => "VMLAUNCH with non-clear VMCS",
            5 => "VMRESUME with non-launched VMCS",
            6 => "VMRESUME after VMXOFF (VMXOFF and VMXON between VMLAUNCH and VMRESUME)",
            7 => "VM entry with invalid control field(s)",
            8 => "VM entry with invalid host-state field(s)",
            9 => "VMPTRLD with invalid physical address",
            10 => "VMPTRLD with VMXON pointer",
            11 => "VMPTRLD with incorrect VMCS revision identifier",
            12 => "VMREAD/VMWRITE from/to unsupported VMCS component",
            13 => "VMWRITE to read-only VMCS component",
            15 => "VMXON executed in VMX root operation",
            16 => "VM entry with invalid executive-VMCS pointer",
            17 => "VM entry with non-launched executive VMCS",
            18 => "VM entry with executive-VMCS pointer not VMXON pointer (when attempting to deactivate the dual-monitor treatment of SMIs and SMM)",
            19 => "VMCALL with non-clear VMCS (when attempting to activate the dual-monitor treatment of SMIs and SMM)",
            20 => "VMCALL with invalid VM-exit control fields",
            22 => "VMCALL with incorrect MSEG revision identifier (when attempting to activate the dual-monitor treatment of SMIs and SMM)",
            23 => "VMXOFF under dual-monitor treatment of SMIs and SMM",
            24 => "VMCALL with invalid SMM-monitor features (when attempting to activate the dual-monitor treatment of SMIs and SMM)",
            25 => "VM entry with invalid VM-execution control fields in executive VMCS (when attempting to return from SMM)",
            26 => "VM entry with events blocked by MOV SS",
            28 => "Invalid operand to INVEPT/INVVPID",
            _ => "[INVALID]",
        }
    }
}

pub const DIVIDE_ERROR_VECTOR: u8 = 0;
pub const DEBUG_VECTOR: u8 = 1;
pub const NONMASKABLE_INTERRUPT_VECTOR: u8 = 2;
pub const BREAKPOINT_VECTOR: u8 = 3;
pub const OVERFLOW_VECTOR: u8 = 4;
pub const DOUBLE_FAULT_VECTOR: u8 = 8;
pub const INVALID_TSS_VECTOR: u8 = 10;
pub const SEGMENT_NOT_PRESENT_VECTOR: u8 = 11;
pub const STACK_SEGEMENT_FAULT_VECTOR: u8 = 12;
pub const GENERAL_PROTECTION_FAULT_VECTOR: u8 = 13;
pub const PAGE_FAULT_VECTOR: u8 = 14;
pub const ALIGNMENT_CHECK_VECTOR: u8 = 17;
pub const VIRTUALIZATION_VECTOR: u8 = 20;

/// Interruption type (bits 10:8) of the VM-entry and VM-exit
/// interruption-information fields (SDM Vol. 3C, 24.8.3 and 24.9.2).
#[derive(Clone, Copy, Debug, PartialEq, Eq, Structural)]
pub enum VmxInterruptionType {
    External,
    Reserved,
    NMI,
    HardException,
    SoftIntr,
    PrivSoftException,
    SoftException,
    Other,
}

impl VmxInterruptionType {
    /// Whether the exception with `vector` pushes an error code.
    pub fn vector_has_error_code(vector: u8) -> (r: bool)
        ensures
            r == (vector == 8 || vector == 10 || vector == 11 || vector == 12 || vector == 13
                || vector == 14 || vector == 17),
    {
        vector == DOUBLE_FAULT_VECTOR || vector == INVALID_TSS_VECTOR || vector
            == SEGMENT_NOT_PRESENT_VECTOR || vector == STACK_SEGEMENT_FAULT_VECTOR || vector
            == GENERAL_PROTECTION_FAULT_VECTOR || vector == PAGE_FAULT_VECTOR || vector
            == ALIGNMENT_CHECK_VECTOR
    }

    /// Interruption type of an event with `vector`: #DB is a privileged
    /// software exception, NMI is NMI, #BP and #OF are software exceptions,
    /// the other vectors 0..=20 are hardware exceptions, vectors 32..=255
    /// are external interrupts and the rest (21..=31) are other events.
    pub fn from_vector(vector: u8) -> (t: VmxInterruptionType)
        ensures
            t == (if vector == 1 {
                VmxInterruptionType::PrivSoftException
            } else if vector == 2 {
                VmxInterruptionType::NMI
            } else if vector == 3 || vector == 4 {
                VmxInterruptionType::SoftException
            } else if vector <= 20 {
                VmxInterruptionType::HardException
            } else if vector >= 32 {
                VmxInterruptionType::External
            } else {
                VmxInterruptionType::Other
            }),
    {
        if vector == DEBUG_VECTOR {
            VmxInterruptionType::PrivSoftException
        } else if vector == NONMASKABLE_INTERRUPT_VECTOR {
            VmxInterruptionType::NMI
        } else if vector == BREAKPOINT_VECTOR || vector == OVERFLOW_VECTOR {
            VmxInterruptionType::SoftException
        } else if vector <= VIRTUALIZATION_VECTOR {
            VmxInterruptionType::HardException
        } else if vector >= 32 {
            VmxInterruptionType::External
        } else {
            VmxInterruptionType::Other
        }
    }

    /// Whether the VM-entry instruction-length field must be set: software
    /// interrupts and (privileged) software exceptions.
    pub fn is_soft(&self) -> (r: bool)
        ensures
            r == (*self == VmxInterruptionType::SoftIntr || *self == VmxInterruptionType::SoftException
                || *self == VmxInterruptionType::PrivSoftException),
    {
        matches!(*self, VmxInterruptionType::SoftIntr | VmxInterruptionType::SoftException | VmxInterruptionType::PrivSoftException)
    }
}

/// Events that are injected with an instruction length are exactly the
/// software-generated ones: an event classified from a vector is soft only
/// for #DB, #BP and #OF.
pub proof fn lemma_soft_vectors(vector: u8)
    ensures
        ({
            let t = if vector == 1 {
                VmxInterruptionType::PrivSoftException
            } else if vector == 2 {
                VmxInterruptionType::NMI
            } else if vector == 3 || vector == 4 {
                VmxInterruptionType::SoftException
            } else if vector <= 20 {
                VmxInterruptionType::HardException
            } else if vector >= 32 {
                VmxInterruptionType::External
            } else {
                VmxInterruptionType::Other
            };
            (t == VmxInterruptionType::SoftIntr || t == VmxInterruptionType::SoftException
                || t == VmxInterruptionType::PrivSoftException) <==> (vector == 1 || vector == 3 || vector == 4)
        }),
{
}

/// VMCS revision identifier: bits 30:0 of the IA32_VMX_BASIC MSR value.
pub fn read_vmcs_revision_id(vmx_basic: u64) -> (id: u32)
    ensures
        id == vmx_basic % 0x8000_0000,
{
    proof {
        assert(vmx_basic & 0x7fff_ffffu64 == vmx_basic % 0x8000_0000u64) by (bit_vector);
    }
    (vmx_basic & 0x7fff_ffff) as u32
}

} // verus!
