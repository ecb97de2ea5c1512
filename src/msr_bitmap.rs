//! The MSR bitmap of the VMCS: one bit per MSR and access kind, set where an
//! RDMSR or WRMSR of the guest causes a VM exit.

use vstd::prelude::*;

verus! {

/// Bytes in the bitmap.
pub const MSR_BITMAP_SIZE: usize = 4096;

/// IA32_FEATURE_CONTROL, which locks the VMX configuration.
pub const IA32_FEATURE_CONTROL: u32 = 0x3a;

/// IA32_LSTAR, the 64-bit syscall entry point.
pub const IA32_LSTAR: u32 = 0xc000_0082;

/// IA32_GS_BASE, written once per core early in kernel start-up.
pub const IA32_GS_BASE: u32 = 0xc000_0101;

/// The kind of an MSR access.
#[derive(Debug, Clone, Copy, PartialEq, Eq, Structural)]
pub enum MsrAccessType {
    Read,
    Write,
}

/// Whether an interception is switched on or off.
#[derive(Debug, Clone, Copy, PartialEq, Eq, Structural)]
pub enum MsrOperation {
    Hook,
    Unhook,
}

/// Bit of the bitmap that governs `access` to `msr`: the read bits of the
/// low MSRs (0 to 1FFFh) fill the first KiB, those of the high MSRs
/// (C0000000h to C0001FFFh) the second; the write bits follow in the same
/// order. No bit governs an MSR outside both ranges: accessing it always exits.
pub open spec fn msr_bit_index(msr: u32, access: MsrAccessType) -> Option<int> {
    let base: int = if access == MsrAccessType::Read {
        0int
    } else {
        16384int
    };
    if msr <= 0x1fff {
        Some(base + msr as int)
    } else if 0xc000_0000 <= msr <= 0xc000_1fff {
        Some(base + 1024 * 8 + (msr - 0xc000_0000))
    } else {
        None
    }
}

/// Bit `b` of `bytes`, counted from bit 0 of byte 0.
pub open spec fn bit_at(bytes: Seq<u8>, b: int) -> bool {
    (bytes[b / 8] >> ((b % 8) as u8)) & 1u8 == 1u8
}

proof fn lemma_set_bit_u8(x: u8, k: u8, j: u8)
    requires
        k < 8,
        j < 8,
    ensures
        j == k ==> ((x | (1u8 << k)) >> j) & 1u8 == 1u8,
        j != k ==> ((x | (1u8 << k)) >> j) & 1u8 == (x >> j) & 1u8,
{
    assert(j == k ==> ((x | (1u8 << k)) >> j) & 1u8 == 1u8) by (bit_vector)
        requires
            k < 8,
            j < 8,
    ;
    assert(j != k ==> ((x | (1u8 << k)) >> j) & 1u8 == (x >> j) & 1u8) by (bit_vector)
        requires
            k < 8,
            j < 8,
    ;
}

proof fn lemma_clear_bit_u8(x: u8, k: u8, j: u8)
    requires
        k < 8,
        j < 8,
    ensures
        j == k ==> ((x & !(1u8 << k)) >> j) & 1u8 == 0u8,
        j != k ==> ((x & !(1u8 << k)) >> j) & 1u8 == (x >> j) & 1u8,
{
    assert(j == k ==> ((x & !(1u8 << k)) >> j) & 1u8 == 0u8) by (bit_vector)
        requires
            k < 8,
            j < 8,
    ;
    assert(j != k ==> ((x & !(1u8 << k)) >> j) & 1u8 == (x >> j) & 1u8) by (bit_vector)
        requires
            k < 8,
            j < 8,
    ;
}

pub struct MsrBitmap {
    pub bytes: Vec<u8>,
}

impl MsrBitmap {
    pub open spec fn wf(&self) -> bool {
        self.bytes@.len() == MSR_BITMAP_SIZE
    }

    /// Whether `access` to `msr` causes a VM exit.
    pub open spec fn intercepts(&self, msr: u32, access: MsrAccessType) -> bool {
        match msr_bit_index(msr, access) {
            Some(b) => bit_at(self.bytes@, b),
            None => true,
        }
    }

    /// A bitmap that lets every access to an MSR of the two ranges through.
    pub fn new() -> (r: MsrBitmap)
        ensures
            r.wf(),
            forall|msr: u32, access: MsrAccessType|
                #[trigger] r.intercepts(msr, access) <==> msr_bit_index(msr, access) is None,
    {
        let mut bytes: Vec<u8> = Vec::new();
        while bytes.len() < MSR_BITMAP_SIZE
            invariant
                bytes@.len() <= 4096,
                forall|i: int| 0 <= i < bytes@.len() ==> bytes@[i] == 0u8,
            decreases 4096 - bytes@.len(),
        {
            bytes.push(0u8);
        }
        let r = MsrBitmap { bytes };
        assert forall|msr: u32, access: MsrAccessType| #[trigger] r.intercepts(msr, access) <==> msr_bit_index(
            msr,
            access,
        ) is None by {
            if let Some(b) = msr_bit_index(msr, access) {
                let k = (b % 8) as u8;
                assert((0u8 >> k) & 1u8 == 0u8) by (bit_vector);
            }
        }
        r
    }

    /// Whether `access` to `msr` causes a VM exit.
    pub fn is_intercepted(&self, msr: u32, access: MsrAccessType) -> (r: bool)
        requires
            self.wf(),
        ensures
            r == self.intercepts(msr, access),
    {
        let base: u32 = if access == MsrAccessType::Read {
            0
        } else {
            2048 * 8
        };
        let index: u32 = if msr <= 0x1fff {
            base + msr
        } else if 0xc000_0000 <= msr && msr <= 0xc000_1fff {
            base + 1024 * 8 + (msr - 0xc000_0000)
        } else {
            return true;
        };
        let byte: usize = (index / 8) as usize;
        let k: u8 = (index % 8) as u8;
        (self.bytes[byte] >> k) & 1u8 == 1u8
    }

    /// Switches the interception of `access` to `msr` on or off. Every other
    /// MSR and access kind keeps its interception; so does an MSR that no bit
    /// governs.
    pub fn modify_msr_interception(&mut self, msr: u32, access: MsrAccessType, operation: MsrOperation)
        requires
            old(self).wf(),
        ensures
            final(self).wf(),
            forall|m: u32, a: MsrAccessType| #[trigger]
                final(self).intercepts(m, a) == if m == msr && a == access && msr_bit_index(msr, access) is Some {
                    operation == MsrOperation::Hook
                } else {
                    old(self).intercepts(m, a)
                },
    {
        let base: u32 = if access == MsrAccessType::Read {
            0
        } else {
            2048 * 8
        };
        let index: u32 = if msr <= 0x1fff {
            base + msr
        } else if 0xc000_0000 <= msr && msr <= 0xc000_1fff {
            base + 1024 * 8 + (msr - 0xc000_0000)
        } else {
            return;
        };
        let byte: usize = (index / 8) as usize;
        let k: u8 = (index % 8) as u8;
        let old_byte = self.bytes[byte];
        let new_byte = if operation == MsrOperation::Hook {
            old_byte | (1u8 << k)
        } else {
            old_byte & !(1u8 << k)
        };
        self.bytes.set(byte, new_byte);
        assert forall|m: u32, a: MsrAccessType| #[trigger]
            self.intercepts(m, a) == if m == msr && a == access && msr_bit_index(msr, access) is Some {
                operation == MsrOperation::Hook
            } else {
                old(self).intercepts(m, a)
            } by {
            if let Some(b) = msr_bit_index(m, a) {
                let j = (b % 8) as u8;
                if b / 8 == byte as int {
                    if operation == MsrOperation::Hook {
                        lemma_set_bit_u8(old_byte, k, j);
                    } else {
                        lemma_clear_bit_u8(old_byte, k, j);
                    }
                }
            }
        }
    }
}

} // verus!
