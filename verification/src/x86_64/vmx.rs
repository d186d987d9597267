//! What the host lets a control word hold, and the control word that comes
//! of it.

use vstd::prelude::*;

use crate::x86_64::call::{hv_vmx_capability_t, Call};
use crate::x86_64::vmcs::{
    VMCS_CTRL_CPU_BASED, VMCS_CTRL_CPU_BASED2, VMCS_CTRL_PIN_BASED, VMCS_CTRL_VMENTRY_CONTROLS,
    VMCS_CTRL_VMEXIT_CONTROLS,
};

verus! {

/// VMX cabability
#[allow(non_camel_case_types)]
#[derive(Clone, Copy, Debug, PartialEq, Eq, Structural)]
pub enum VMXCap {
    /// Pin-based VMX capabilities
    PINBASED,
    /// Primary proc-based VMX capabilities
    PROCBASED,
    /// Secondary proc-based VMX capabilities
    PROCBASED2,
    /// VM-entry VMX capabilities
    ENTRY,
    /// VM-exit VMX capabilities
    EXIT,
    /// VMX preemption timer frequency
    PREEMPTION_TIMER,
}

impl VMXCap {
    /// The native identifier of the class.
    pub open spec fn spec_native_id(&self) -> hv_vmx_capability_t {
        match *self {
            VMXCap::PINBASED => 0,
            VMXCap::PROCBASED => 1,
            VMXCap::PROCBASED2 => 2,
            VMXCap::ENTRY => 3,
            VMXCap::EXIT => 4,
            VMXCap::PREEMPTION_TIMER => 32,
        }
    }

    /// The native identifier of the class.
    #[verifier::when_used_as_spec(spec_native_id)]
    pub fn native_id(&self) -> (id: hv_vmx_capability_t)
        ensures
            id == self.spec_native_id(),
    {
        match self {
            VMXCap::PINBASED => 0,
            VMXCap::PROCBASED => 1,
            VMXCap::PROCBASED2 => 2,
            VMXCap::ENTRY => 3,
            VMXCap::EXIT => 4,
            VMXCap::PREEMPTION_TIMER => 32,
        }
    }

    /// The field of the control structure whose control word the class
    /// constrains.
    pub open spec fn spec_control_field(&self) -> Option<u32> {
        match *self {
            VMXCap::PINBASED => Some(VMCS_CTRL_PIN_BASED),
            VMXCap::PROCBASED => Some(VMCS_CTRL_CPU_BASED),
            VMXCap::PROCBASED2 => Some(VMCS_CTRL_CPU_BASED2),
            VMXCap::ENTRY => Some(VMCS_CTRL_VMENTRY_CONTROLS),
            VMXCap::EXIT => Some(VMCS_CTRL_VMEXIT_CONTROLS),
            VMXCap::PREEMPTION_TIMER => None,
        }
    }

    /// The field of the control structure that holds the control word which
    /// a capability word of this class constrains. The frequency of the
    /// preemption timer is a number and constrains no control word.
    #[verifier::when_used_as_spec(spec_control_field)]
    pub fn control_field(&self) -> (field: Option<u32>)
        ensures
            field == self.spec_control_field(),
    {
        match self {
            VMXCap::PINBASED => Some(VMCS_CTRL_PIN_BASED),
            VMXCap::PROCBASED => Some(VMCS_CTRL_CPU_BASED),
            VMXCap::PROCBASED2 => Some(VMCS_CTRL_CPU_BASED2),
            VMXCap::ENTRY => Some(VMCS_CTRL_VMENTRY_CONTROLS),
            VMXCap::EXIT => Some(VMCS_CTRL_VMEXIT_CONTROLS),
            VMXCap::PREEMPTION_TIMER => None,
        }
    }

    /// The text of [`VMXCap::description`].
    pub open spec fn description_text(self) -> Seq<char> {
        match self {
            VMXCap::PINBASED => "Pin-based VMX capabilities"@,
            VMXCap::PROCBASED => "Primary proc-based VMX capabilities"@,
            VMXCap::PROCBASED2 => "Secondary proc-based VMX capabilities"@,
            VMXCap::ENTRY => "VM-entry VMX capabilities"@,
            VMXCap::EXIT => "VM-exit VMX capabilities"@,
            VMXCap::PREEMPTION_TIMER => "VMX preemption timer frequency"@,
        }
    }

    /// What the class is, in words.
    pub fn description(&self) -> (text: &'static str)
        ensures
            text@ == self.description_text(),
    {
        match self {
            VMXCap::PINBASED => "Pin-based VMX capabilities",
            VMXCap::PROCBASED => "Primary proc-based VMX capabilities",
            VMXCap::PROCBASED2 => "Secondary proc-based VMX capabilities",
            VMXCap::ENTRY => "VM-entry VMX capabilities",
            VMXCap::EXIT => "VM-exit VMX capabilities",
            VMXCap::PREEMPTION_TIMER => "VMX preemption timer frequency",
        }
    }
}

/// Asks for a capability of the host processor. The word that comes back is
/// read once for each class of controls and handed to [`cap2ctrl`].
pub fn read_vmx_cap(vmx_cap: &VMXCap) -> (call: Call)
    ensures
        call == (Call::VmxReadCapability { capability: vmx_cap.native_id() }),
{
    Call::VmxReadCapability { capability: vmx_cap.native_id() }
}

/// Bit `i` of `word` is set.
pub open spec fn bit(word: u64, i: u64) -> bool {
    (word >> i) & 1 == 1
}

/// The capability word `cap` fixes bit `i` of a control word to 1: the bit
/// is set in its low half.
pub open spec fn forced_one(cap: u64, i: u64) -> bool {
    bit(cap & 0xffff_ffff, i)
}

/// The capability word `cap` fixes bit `i` of a control word to 0: the bit
/// is clear in its high half. A control word has 32 bits, so every bit
/// above them is fixed to 0.
pub open spec fn forced_zero(cap: u64, i: u64) -> bool {
    !bit(cap >> 32, i)
}

/// The control word that `cap2ctrl` computes.
pub open spec fn enforced(cap: u64, ctrl: u64) -> u64 {
    (ctrl | (cap & 0xffff_ffff)) & (cap >> 32)
}

/// The control word closest to the desired `ctrl` that the capability word
/// `cap` allows: the bits that the hardware fixes to 1 are set, those that
/// it fixes to 0 are clear, and the others are as in `ctrl`. To be applied
/// to every control word before the first run of a virtual CPU.
pub fn cap2ctrl(cap: u64, ctrl: u64) -> (word: u64)
    ensures
        word == enforced(cap, ctrl),
        word <= 0xffff_ffff,
        forall|i: u64| i < 64 && forced_zero(cap, i) ==> !#[trigger] bit(word, i),
        forall|i: u64|
            i < 64 && forced_one(cap, i) && !forced_zero(cap, i) ==> #[trigger] bit(word, i),
        forall|i: u64|
            i < 64 && !forced_one(cap, i) && !forced_zero(cap, i) ==> (#[trigger] bit(word, i)
                <==> bit(ctrl, i)),
{
    let word = (ctrl | (cap & 0xffff_ffff)) & (cap >> 32);
    proof {
        assert(word <= 0xffff_ffff) by (bit_vector)
            requires
                word == (ctrl | (cap & 0xffff_ffff)) & (cap >> 32),
        ;
        assert forall|i: u64| i < 64 implies {
            &&& forced_zero(cap, i) ==> !#[trigger] bit(word, i)
            &&& forced_one(cap, i) && !forced_zero(cap, i) ==> bit(word, i)
            &&& !forced_one(cap, i) && !forced_zero(cap, i) ==> (bit(word, i) <==> bit(ctrl, i))
        } by {
            lemma_cap2ctrl_bit(cap, ctrl, i);
        }
    }
    word
}

/// Bit by bit, what a capability word makes of a desired control word. Where
/// the capability word fixes the bit to 1 the result has 1, where it fixes
/// it to 0 the result has 0, and where it leaves the bit free the result has
/// the desired bit. Left out are the bits that a capability word would fix
/// both ways; no hardware reports such a word.
pub proof fn lemma_cap2ctrl_bit(cap: u64, ctrl: u64, i: u64)
    requires
        i < 64,
    ensures
        forced_zero(cap, i) ==> !bit(enforced(cap, ctrl), i),
        forced_one(cap, i) && !forced_zero(cap, i) ==> bit(enforced(cap, ctrl), i),
        !forced_one(cap, i) && !forced_zero(cap, i) ==> (bit(enforced(cap, ctrl), i) <==> bit(
            ctrl,
            i,
        )),
{
    assert(i < 64 ==> ((((cap >> 32) >> i) & 1 != 1) ==> ((((ctrl | (cap & 0xffff_ffff)) & (cap
        >> 32)) >> i) & 1 != 1))) by (bit_vector);
    assert(i < 64 ==> ((((cap & 0xffff_ffff) >> i) & 1 == 1 && ((cap >> 32) >> i) & 1 == 1)
        ==> ((((ctrl | (cap & 0xffff_ffff)) & (cap >> 32)) >> i) & 1 == 1))) by (bit_vector);
    assert(i < 64 ==> ((((cap & 0xffff_ffff) >> i) & 1 != 1 && ((cap >> 32) >> i) & 1 == 1)
        ==> (((((ctrl | (cap & 0xffff_ffff)) & (cap >> 32)) >> i) & 1 == 1) <==> ((ctrl >> i) & 1
        == 1)))) by (bit_vector);
}

/// A capability word that fixes no bit both ways is obeyed in full: the
/// result has every bit that it fixes to 1, no bit that it fixes to 0, and
/// elsewhere the desired bits.
pub proof fn lemma_cap2ctrl_consistent(cap: u64, ctrl: u64, i: u64)
    requires
        i < 64,
        !(forced_one(cap, i) && forced_zero(cap, i)),
    ensures
        forced_one(cap, i) ==> bit(enforced(cap, ctrl), i),
        forced_zero(cap, i) ==> !bit(enforced(cap, ctrl), i),
        !forced_one(cap, i) && !forced_zero(cap, i) ==> (bit(enforced(cap, ctrl), i) <==> bit(
            ctrl,
            i,
        )),
{
    lemma_cap2ctrl_bit(cap, ctrl, i);
}

} // verus!
