//! AArch64 system-register identifiers and the encoding of a system register
//! into its 16-bit instruction index (op0, op1, CRn, CRm, op2).

use vstd::prelude::*;

verus! {

/// General-purpose and special registers of the AArch64 vCPU state.
#[derive(Debug, Copy, Clone, PartialEq, Eq, Structural)]
pub enum Reg {
    X0,
    X1,
    X2,
    X3,
    X4,
    X5,
    X6,
    X7,
    X8,
    X9,
    X10,
    X11,
    X12,
    X13,
    X14,
    X15,
    X16,
    X17,
    X18,
    X19,
    X20,
    X21,
    X22,
    X23,
    X24,
    X25,
    X26,
    X27,
    X28,
    X29,
    X30,
    Sp,
    Pc,
    Pstate,
}

/// The packed form of a system-register index: op0 in bits 15:14, op1 in
/// bits 13:11, CRn in bits 10:7, CRm in bits 6:3, op2 in bits 2:0.
pub open spec fn spec_encode(op0: u16, op1: u16, crn: u16, crm: u16, op2: u16) -> u16 {
    op0 << 14 | op1 << 11 | crn << 7 | crm << 3 | op2
}

/// Packs the five fields of a system-register index into one 16-bit value.
pub fn encode(op0: u16, op1: u16, crn: u16, crm: u16, op2: u16) -> (r: u16)
    ensures
        r == spec_encode(op0, op1, crn, crm, op2),
{
    op0 << 14 | op1 << 11 | crn << 7 | crm << 3 | op2
}

/// When every field is within its architectural width (op0 two bits, op1 and
/// op2 three bits, CRn and CRm four bits), the packed value determines each
/// field again: the encoding loses nothing.
pub proof fn lemma_encode_fields(op0: u16, op1: u16, crn: u16, crm: u16, op2: u16)
    requires
        op0 < 4,
        op1 < 8,
        crn < 16,
        crm < 16,
        op2 < 8,
    ensures
        spec_encode(op0, op1, crn, crm, op2) >> 14 == op0,
        (spec_encode(op0, op1, crn, crm, op2) >> 11) & 0x7 == op1,
        (spec_encode(op0, op1, crn, crm, op2) >> 7) & 0xf == crn,
        (spec_encode(op0, op1, crn, crm, op2) >> 3) & 0xf == crm,
        spec_encode(op0, op1, crn, crm, op2) & 0x7 == op2,
{
    assert((op0 << 14 | op1 << 11 | crn << 7 | crm << 3 | op2) >> 14 == op0
        && ((op0 << 14 | op1 << 11 | crn << 7 | crm << 3 | op2) >> 11) & 0x7 == op1
        && ((op0 << 14 | op1 << 11 | crn << 7 | crm << 3 | op2) >> 7) & 0xf == crn
        && ((op0 << 14 | op1 << 11 | crn << 7 | crm << 3 | op2) >> 3) & 0xf == crm
        && (op0 << 14 | op1 << 11 | crn << 7 | crm << 3 | op2) & 0x7 == op2) by (bit_vector)
        requires
            op0 < 4,
            op1 < 8,
            crn < 16,
            crm < 16,
            op2 < 8,
    ;
}

/// The multiprocessor affinity register MPIDR_EL1, encoded as
/// (op0, op1, CRn, CRm, op2) = (3, 0, 0, 0, 5).
pub const MPIDR_EL1: u16 = 0xc005;

/// The named MPIDR_EL1 constant is the packed form of its five fields.
pub proof fn lemma_mpidr_el1_encoding()
    ensures
        MPIDR_EL1 == spec_encode(3, 0, 0, 0, 5),
{
    assert(3u16 << 14 | 0u16 << 11 | 0u16 << 7 | 0u16 << 3 | 5u16 == 0xc005u16) by (bit_vector);
}

} // verus!
