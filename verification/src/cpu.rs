//! Typed CPU contexts.
//!
//! The host hands out one kind of raw CPU context. Which registers it holds
//! depends on the architecture of the instrumented process, so a raw
//! context is decoded into exactly one of six register layouts. All six
//! start with the program counter `pc` and the stack pointer `sp`.
use vstd::prelude::*;
use vstd::pervasive::unreached;
use crate::arch::{
    architecture_named, arm64_registers, arm_registers, ia32_registers, mips_registers,
    portable_registers, register_names, x64_registers, Architecture,
};
use crate::error::MissingField;
use crate::extract::{decode_registers, has_all, holds_values, reports_first_missing};
use crate::fromsys::FromSys;
use crate::nativepointer::NativePointer;
use crate::sys;
use crate::sys::{has_value, lookup};

verus! {

/// The registers of 32-bit x86.
#[derive(Clone, Debug, PartialEq, Eq)]
pub struct Ia32CpuContext {
    pub pc: NativePointer,
    pub sp: NativePointer,
    pub eax: NativePointer,
    pub ecx: NativePointer,
    pub edx: NativePointer,
    pub ebx: NativePointer,
    pub esp: NativePointer,
    pub ebp: NativePointer,
    pub esi: NativePointer,
    pub edi: NativePointer,
    pub eip: NativePointer,
    sys: sys::CpuContext,
}

impl Ia32CpuContext {
    /// The registers, in layout order.
    pub closed spec fn registers(&self) -> Seq<NativePointer> {
        seq![
            self.pc,
            self.sp,
            self.eax,
            self.ecx,
            self.edx,
            self.ebx,
            self.esp,
            self.ebp,
            self.esi,
            self.edi,
            self.eip,
        ]
    }

    /// Whether every register holds the value that the raw context has
    /// under the register's name.
    pub open spec fn well_formed(&self) -> bool {
        &&& has_all(self.raw().properties@, ia32_registers())
        &&& holds_values(self.registers(), self.raw().properties@, ia32_registers())
    }

    /// Decodes a raw context by this layout.
    ///
    /// Succeeds exactly when the raw context has a value for every register
    /// of the layout; the error names the first one that is missing.
    pub fn decode(m: sys::CpuContext) -> (r: Result<Self, MissingField>)
        ensures
            r is Ok <==> has_all(m.properties@, ia32_registers()),
            r matches Ok(c) ==> c.raw() == m && c.well_formed(),
            r matches Err(e) ==> reports_first_missing(e, m.properties@, Architecture::Ia32),
    {
        match decode_registers(&m, Architecture::Ia32) {
            Ok(registers) => {
                let c = Ia32CpuContext {
                    pc: registers[0],
                    sp: registers[1],
                    eax: registers[2],
                    ecx: registers[3],
                    edx: registers[4],
                    ebx: registers[5],
                    esp: registers[6],
                    ebp: registers[7],
                    esi: registers[8],
                    edi: registers[9],
                    eip: registers[10],
                    sys: m,
                };
                assert(c.registers() =~= registers@);
                Ok(c)
            },
            Err(e) => Err(e),
        }
    }
}

impl FromSys<sys::CpuContext> for Ia32CpuContext {
    /// A raw context can be decoded when it has a value for every register
    /// of the layout.
    open spec fn decodable(s: &sys::CpuContext) -> bool {
        has_all(s.properties@, ia32_registers())
    }

    closed spec fn raw(&self) -> sys::CpuContext {
        self.sys
    }

    fn from_sys(m: sys::CpuContext) -> (c: Self)
        ensures
            c.well_formed(),
    {
        match Self::decode(m) {
            Ok(c) => c,
            Err(_) => unreached(),
        }
    }

    fn into_sys(self) -> (m: sys::CpuContext) {
        self.sys
    }
}

/// The registers of 64-bit x86.
#[derive(Clone, Debug, PartialEq, Eq)]
pub struct X64CpuContext {
    pub pc: NativePointer,
    pub sp: NativePointer,
    pub rax: NativePointer,
    pub rcx: NativePointer,
    pub rdx: NativePointer,
    pub rbx: NativePointer,
    pub rsp: NativePointer,
    pub rbp: NativePointer,
    pub rsi: NativePointer,
    pub rdi: NativePointer,
    pub r8: NativePointer,
    pub r10: NativePointer,
    pub r11: NativePointer,
    pub r12: NativePointer,
    pub r13: NativePointer,
    pub r14: NativePointer,
    pub r15: NativePointer,
    pub rip: NativePointer,
    sys: sys::CpuContext,
}

impl X64CpuContext {
    /// The registers, in layout order.
    pub closed spec fn registers(&self) -> Seq<NativePointer> {
        seq![
            self.pc,
            self.sp,
            self.rax,
            self.rcx,
            self.rdx,
            self.rbx,
            self.rsp,
            self.rbp,
            self.rsi,
            self.rdi,
            self.r8,
            self.r10,
            self.r11,
            self.r12,
            self.r13,
            self.r14,
            self.r15,
            self.rip,
        ]
    }

    /// Whether every register holds the value that the raw context has
    /// under the register's name.
    pub open spec fn well_formed(&self) -> bool {
        &&& has_all(self.raw().properties@, x64_registers())
        &&& holds_values(self.registers(), self.raw().properties@, x64_registers())
    }

    /// Decodes a raw context by this layout.
    ///
    /// Succeeds exactly when the raw context has a value for every register
    /// of the layout; the error names the first one that is missing.
    pub fn decode(m: sys::CpuContext) -> (r: Result<Self, MissingField>)
        ensures
            r is Ok <==> has_all(m.properties@, x64_registers()),
            r matches Ok(c) ==> c.raw() == m && c.well_formed(),
            r matches Err(e) ==> reports_first_missing(e, m.properties@, Architecture::X64),
    {
        match decode_registers(&m, Architecture::X64) {
            Ok(registers) => {
                let c = X64CpuContext {
                    pc: registers[0],
                    sp: registers[1],
                    rax: registers[2],
                    rcx: registers[3],
                    rdx: registers[4],
                    rbx: registers[5],
                    rsp: registers[6],
                    rbp: registers[7],
                    rsi: registers[8],
                    rdi: registers[9],
                    r8: registers[10],
                    r10: registers[11],
                    r11: registers[12],
                    r12: registers[13],
                    r13: registers[14],
                    r14: registers[15],
                    r15: registers[16],
                    rip: registers[17],
                    sys: m,
                };
                assert(c.registers() =~= registers@);
                Ok(c)
            },
            Err(e) => Err(e),
        }
    }
}

impl FromSys<sys::CpuContext> for X64CpuContext {
    /// A raw context can be decoded when it has a value for every register
    /// of the layout.
    open spec fn decodable(s: &sys::CpuContext) -> bool {
        has_all(s.properties@, x64_registers())
    }

    closed spec fn raw(&self) -> sys::CpuContext {
        self.sys
    }

    fn from_sys(m: sys::CpuContext) -> (c: Self)
        ensures
            c.well_formed(),
    {
        match Self::decode(m) {
            Ok(c) => c,
            Err(_) => unreached(),
        }
    }

    fn into_sys(self) -> (m: sys::CpuContext) {
        self.sys
    }
}

/// The registers of 32-bit ARM.
#[derive(Clone, Debug, PartialEq, Eq)]
pub struct ArmCpuContext {
    pub pc: NativePointer,
    pub sp: NativePointer,
    pub r0: NativePointer,
    pub r1: NativePointer,
    pub r2: NativePointer,
    pub r3: NativePointer,
    pub r4: NativePointer,
    pub r5: NativePointer,
    pub r6: NativePointer,
    pub r7: NativePointer,
    pub r8: NativePointer,
    pub r9: NativePointer,
    pub r10: NativePointer,
    pub r11: NativePointer,
    pub r12: NativePointer,
    pub lr: NativePointer,
    sys: sys::CpuContext,
}

impl ArmCpuContext {
    /// The registers, in layout order.
    pub closed spec fn registers(&self) -> Seq<NativePointer> {
        seq![
            self.pc,
            self.sp,
            self.r0,
            self.r1,
            self.r2,
            self.r3,
            self.r4,
            self.r5,
            self.r6,
            self.r7,
            self.r8,
            self.r9,
            self.r10,
            self.r11,
            self.r12,
            self.lr,
        ]
    }

    /// Whether every register holds the value that the raw context has
    /// under the register's name.
    pub open spec fn well_formed(&self) -> bool {
        &&& has_all(self.raw().properties@, arm_registers())
        &&& holds_values(self.registers(), self.raw().properties@, arm_registers())
    }

    /// Decodes a raw context by this layout.
    ///
    /// Succeeds exactly when the raw context has a value for every register
    /// of the layout; the error names the first one that is missing.
    pub fn decode(m: sys::CpuContext) -> (r: Result<Self, MissingField>)
        ensures
            r is Ok <==> has_all(m.properties@, arm_registers()),
            r matches Ok(c) ==> c.raw() == m && c.well_formed(),
            r matches Err(e) ==> reports_first_missing(e, m.properties@, Architecture::Arm),
    {
        match decode_registers(&m, Architecture::Arm) {
            Ok(registers) => {
                let c = ArmCpuContext {
                    pc: registers[0],
                    sp: registers[1],
                    r0: registers[2],
                    r1: registers[3],
                    r2: registers[4],
                    r3: registers[5],
                    r4: registers[6],
                    r5: registers[7],
                    r6: registers[8],
                    r7: registers[9],
                    r8: registers[10],
                    r9: registers[11],
                    r10: registers[12],
                    r11: registers[13],
                    r12: registers[14],
                    lr: registers[15],
                    sys: m,
                };
                assert(c.registers() =~= registers@);
                Ok(c)
            },
            Err(e) => Err(e),
        }
    }
}

impl FromSys<sys::CpuContext> for ArmCpuContext {
    /// A raw context can be decoded when it has a value for every register
    /// of the layout.
    open spec fn decodable(s: &sys::CpuContext) -> bool {
        has_all(s.properties@, arm_registers())
    }

    closed spec fn raw(&self) -> sys::CpuContext {
        self.sys
    }

    fn from_sys(m: sys::CpuContext) -> (c: Self)
        ensures
            c.well_formed(),
    {
        match Self::decode(m) {
            Ok(c) => c,
            Err(_) => unreached(),
        }
    }

    fn into_sys(self) -> (m: sys::CpuContext) {
        self.sys
    }
}

/// The registers of 64-bit ARM.
#[derive(Clone, Debug, PartialEq, Eq)]
pub struct Arm64CpuContext {
    pub pc: NativePointer,
    pub sp: NativePointer,
    pub x0: NativePointer,
    pub x1: NativePointer,
    pub x2: NativePointer,
    pub x3: NativePointer,
    pub x4: NativePointer,
    pub x5: NativePointer,
    pub x6: NativePointer,
    pub x7: NativePointer,
    pub x8: NativePointer,
    pub x9: NativePointer,
    pub x10: NativePointer,
    pub x11: NativePointer,
    pub x12: NativePointer,
    pub x13: NativePointer,
    pub x14: NativePointer,
    pub x15: NativePointer,
    pub x16: NativePointer,
    pub x17: NativePointer,
    pub x18: NativePointer,
    pub x19: NativePointer,
    pub x20: NativePointer,
    pub x21: NativePointer,
    pub x22: NativePointer,
    pub x23: NativePointer,
    pub x24: NativePointer,
    pub x25: NativePointer,
    pub x26: NativePointer,
    pub x27: NativePointer,
    pub x28: NativePointer,
    pub fp: NativePointer,
    pub lr: NativePointer,
    sys: sys::CpuContext,
}

impl Arm64CpuContext {
    /// The registers, in layout order.
    pub closed spec fn registers(&self) -> Seq<NativePointer> {
        seq![
            self.pc,
            self.sp,
            self.x0,
            self.x1,
            self.x2,
            self.x3,
            self.x4,
            self.x5,
            self.x6,
            self.x7,
            self.x8,
            self.x9,
            self.x10,
            self.x11,
            self.x12,
            self.x13,
            self.x14,
            self.x15,
            self.x16,
            self.x17,
            self.x18,
            self.x19,
            self.x20,
            self.x21,
            self.x22,
            self.x23,
            self.x24,
            self.x25,
            self.x26,
            self.x27,
            self.x28,
            self.fp,
            self.lr,
        ]
    }

    /// Whether every register holds the value that the raw context has
    /// under the register's name.
    pub open spec fn well_formed(&self) -> bool {
        &&& has_all(self.raw().properties@, arm64_registers())
        &&& holds_values(self.registers(), self.raw().properties@, arm64_registers())
    }

    /// Decodes a raw context by this layout.
    ///
    /// Succeeds exactly when the raw context has a value for every register
    /// of the layout; the error names the first one that is missing.
    pub fn decode(m: sys::CpuContext) -> (r: Result<Self, MissingField>)
        ensures
            r is Ok <==> has_all(m.properties@, arm64_registers()),
            r matches Ok(c) ==> c.raw() == m && c.well_formed(),
            r matches Err(e) ==> reports_first_missing(e, m.properties@, Architecture::Arm64),
    {
        match decode_registers(&m, Architecture::Arm64) {
            Ok(registers) => {
                let c = Arm64CpuContext {
                    pc: registers[0],
                    sp: registers[1],
                    x0: registers[2],
                    x1: registers[3],
                    x2: registers[4],
                    x3: registers[5],
                    x4: registers[6],
                    x5: registers[7],
                    x6: registers[8],
                    x7: registers[9],
                    x8: registers[10],
                    x9: registers[11],
                    x10: registers[12],
                    x11: registers[13],
                    x12: registers[14],
                    x13: registers[15],
                    x14: registers[16],
                    x15: registers[17],
                    x16: registers[18],
                    x17: registers[19],
                    x18: registers[20],
                    x19: registers[21],
                    x20: registers[22],
                    x21: registers[23],
                    x22: registers[24],
                    x23: registers[25],
                    x24: registers[26],
                    x25: registers[27],
                    x26: registers[28],
                    x27: registers[29],
                    x28: registers[30],
                    fp: registers[31],
                    lr: registers[32],
                    sys: m,
                };
                assert(c.registers() =~= registers@);
                Ok(c)
            },
            Err(e) => Err(e),
        }
    }
}

impl FromSys<sys::CpuContext> for Arm64CpuContext {
    /// A raw context can be decoded when it has a value for every register
    /// of the layout.
    open spec fn decodable(s: &sys::CpuContext) -> bool {
        has_all(s.properties@, arm64_registers())
    }

    closed spec fn raw(&self) -> sys::CpuContext {
        self.sys
    }

    fn from_sys(m: sys::CpuContext) -> (c: Self)
        ensures
            c.well_formed(),
    {
        match Self::decode(m) {
            Ok(c) => c,
            Err(_) => unreached(),
        }
    }

    fn into_sys(self) -> (m: sys::CpuContext) {
        self.sys
    }
}

/// The registers of MIPS.
#[derive(Clone, Debug, PartialEq, Eq)]
pub struct MipsCpuContext {
    pub pc: NativePointer,
    pub sp: NativePointer,
    pub gp: NativePointer,
    pub fp: NativePointer,
    pub ra: NativePointer,
    pub hi: NativePointer,
    pub lo: NativePointer,
    pub at: NativePointer,
    pub v0: NativePointer,
    pub v1: NativePointer,
    pub a0: NativePointer,
    pub a1: NativePointer,
    pub a2: NativePointer,
    pub a3: NativePointer,
    pub t0: NativePointer,
    pub t1: NativePointer,
    pub t2: NativePointer,
    pub t3: NativePointer,
    pub t4: NativePointer,
    pub t5: NativePointer,
    pub t6: NativePointer,
    pub t7: NativePointer,
    pub t8: NativePointer,
    pub t9: NativePointer,
    pub s0: NativePointer,
    pub s1: NativePointer,
    pub s2: NativePointer,
    pub s3: NativePointer,
    pub s4: NativePointer,
    pub s5: NativePointer,
    pub s6: NativePointer,
    pub s7: NativePointer,
    pub k0: NativePointer,
    pub k1: NativePointer,
    sys: sys::CpuContext,
}

impl MipsCpuContext {
    /// The registers, in layout order.
    pub closed spec fn registers(&self) -> Seq<NativePointer> {
        seq![
            self.pc,
            self.sp,
            self.gp,
            self.fp,
            self.ra,
            self.hi,
            self.lo,
            self.at,
            self.v0,
            self.v1,
            self.a0,
            self.a1,
            self.a2,
            self.a3,
            self.t0,
            self.t1,
            self.t2,
            self.t3,
            self.t4,
            self.t5,
            self.t6,
            self.t7,
            self.t8,
            self.t9,
            self.s0,
            self.s1,
            self.s2,
            self.s3,
            self.s4,
            self.s5,
            self.s6,
            self.s7,
            self.k0,
            self.k1,
        ]
    }

    /// Whether every register holds the value that the raw context has
    /// under the register's name.
    pub open spec fn well_formed(&self) -> bool {
        &&& has_all(self.raw().properties@, mips_registers())
        &&& holds_values(self.registers(), self.raw().properties@, mips_registers())
    }

    /// Decodes a raw context by this layout.
    ///
    /// Succeeds exactly when the raw context has a value for every register
    /// of the layout; the error names the first one that is missing.
    pub fn decode(m: sys::CpuContext) -> (r: Result<Self, MissingField>)
        ensures
            r is Ok <==> has_all(m.properties@, mips_registers()),
            r matches Ok(c) ==> c.raw() == m && c.well_formed(),
            r matches Err(e) ==> reports_first_missing(e, m.properties@, Architecture::Mips),
    {
        match decode_registers(&m, Architecture::Mips) {
            Ok(registers) => {
                let c = MipsCpuContext {
                    pc: registers[0],
                    sp: registers[1],
                    gp: registers[2],
                    fp: registers[3],
                    ra: registers[4],
                    hi: registers[5],
                    lo: registers[6],
                    at: registers[7],
                    v0: registers[8],
                    v1: registers[9],
                    a0: registers[10],
                    a1: registers[11],
                    a2: registers[12],
                    a3: registers[13],
                    t0: registers[14],
                    t1: registers[15],
                    t2: registers[16],
                    t3: registers[17],
                    t4: registers[18],
                    t5: registers[19],
                    t6: registers[20],
                    t7: registers[21],
                    t8: registers[22],
                    t9: registers[23],
                    s0: registers[24],
                    s1: registers[25],
                    s2: registers[26],
                    s3: registers[27],
                    s4: registers[28],
                    s5: registers[29],
                    s6: registers[30],
                    s7: registers[31],
                    k0: registers[32],
                    k1: registers[33],
                    sys: m,
                };
                assert(c.registers() =~= registers@);
                Ok(c)
            },
            Err(e) => Err(e),
        }
    }
}

impl FromSys<sys::CpuContext> for MipsCpuContext {
    /// A raw context can be decoded when it has a value for every register
    /// of the layout.
    open spec fn decodable(s: &sys::CpuContext) -> bool {
        has_all(s.properties@, mips_registers())
    }

    closed spec fn raw(&self) -> sys::CpuContext {
        self.sys
    }

    fn from_sys(m: sys::CpuContext) -> (c: Self)
        ensures
            c.well_formed(),
    {
        match Self::decode(m) {
            Ok(c) => c,
            Err(_) => unreached(),
        }
    }

    fn into_sys(self) -> (m: sys::CpuContext) {
        self.sys
    }
}

/// The registers of any architecture: the two registers that every architecture has.
#[derive(Clone, Debug, PartialEq, Eq)]
pub struct PortableCpuContext {
    pub pc: NativePointer,
    pub sp: NativePointer,
    sys: sys::CpuContext,
}

impl PortableCpuContext {
    /// The registers, in layout order.
    pub closed spec fn registers(&self) -> Seq<NativePointer> {
        seq![
            self.pc,
            self.sp,
        ]
    }

    /// Whether every register holds the value that the raw context has
    /// under the register's name.
    pub open spec fn well_formed(&self) -> bool {
        &&& has_all(self.raw().properties@, portable_registers())
        &&& holds_values(self.registers(), self.raw().properties@, portable_registers())
    }

    /// Decodes a raw context by this layout.
    ///
    /// Succeeds exactly when the raw context has a value for every register
    /// of the layout; the error names the first one that is missing.
    pub fn decode(m: sys::CpuContext) -> (r: Result<Self, MissingField>)
        ensures
            r is Ok <==> has_all(m.properties@, portable_registers()),
            r matches Ok(c) ==> c.raw() == m && c.well_formed(),
            r matches Err(e) ==> reports_first_missing(e, m.properties@, Architecture::Portable),
    {
        match decode_registers(&m, Architecture::Portable) {
            Ok(registers) => {
                let c = PortableCpuContext {
                    pc: registers[0],
                    sp: registers[1],
                    sys: m,
                };
                assert(c.registers() =~= registers@);
                Ok(c)
            },
            Err(e) => Err(e),
        }
    }
}

impl FromSys<sys::CpuContext> for PortableCpuContext {
    /// A raw context can be decoded when it has a value for every register
    /// of the layout.
    open spec fn decodable(s: &sys::CpuContext) -> bool {
        has_all(s.properties@, portable_registers())
    }

    closed spec fn raw(&self) -> sys::CpuContext {
        self.sys
    }

    fn from_sys(m: sys::CpuContext) -> (c: Self)
        ensures
            c.well_formed(),
    {
        match Self::decode(m) {
            Ok(c) => c,
            Err(_) => unreached(),
        }
    }

    fn into_sys(self) -> (m: sys::CpuContext) {
        self.sys
    }
}

/// A decoded CPU context: one of the six register layouts.
#[derive(Clone, Debug, PartialEq, Eq)]
pub enum CpuContext {
    Ia32CpuContext(Ia32CpuContext),
    X64CpuContext(X64CpuContext),
    ArmCpuContext(ArmCpuContext),
    Arm64CpuContext(Arm64CpuContext),
    MipsCpuContext(MipsCpuContext),
    PortableCpuContext(PortableCpuContext),
}

impl CpuContext {
    /// The architecture whose layout the context has.
    pub open spec fn spec_architecture(&self) -> Architecture {
        match self {
            CpuContext::Ia32CpuContext(c) => Architecture::Ia32,
            CpuContext::X64CpuContext(c) => Architecture::X64,
            CpuContext::ArmCpuContext(c) => Architecture::Arm,
            CpuContext::Arm64CpuContext(c) => Architecture::Arm64,
            CpuContext::MipsCpuContext(c) => Architecture::Mips,
            CpuContext::PortableCpuContext(c) => Architecture::Portable,
        }
    }

    /// The registers, in the order of the layout.
    pub open spec fn registers(&self) -> Seq<NativePointer> {
        match self {
            CpuContext::Ia32CpuContext(c) => c.registers(),
            CpuContext::X64CpuContext(c) => c.registers(),
            CpuContext::ArmCpuContext(c) => c.registers(),
            CpuContext::Arm64CpuContext(c) => c.registers(),
            CpuContext::MipsCpuContext(c) => c.registers(),
            CpuContext::PortableCpuContext(c) => c.registers(),
        }
    }

    /// The raw context that the value was decoded from.
    pub open spec fn raw(&self) -> sys::CpuContext {
        match self {
            CpuContext::Ia32CpuContext(c) => c.raw(),
            CpuContext::X64CpuContext(c) => c.raw(),
            CpuContext::ArmCpuContext(c) => c.raw(),
            CpuContext::Arm64CpuContext(c) => c.raw(),
            CpuContext::MipsCpuContext(c) => c.raw(),
            CpuContext::PortableCpuContext(c) => c.raw(),
        }
    }

    /// Whether every register holds the value that the raw context has
    /// under the register's name.
    pub open spec fn well_formed(&self) -> bool {
        match self {
            CpuContext::Ia32CpuContext(c) => c.well_formed(),
            CpuContext::X64CpuContext(c) => c.well_formed(),
            CpuContext::ArmCpuContext(c) => c.well_formed(),
            CpuContext::Arm64CpuContext(c) => c.well_formed(),
            CpuContext::MipsCpuContext(c) => c.well_formed(),
            CpuContext::PortableCpuContext(c) => c.well_formed(),
        }
    }

    /// The architecture whose layout the context has.
    #[verifier::when_used_as_spec(spec_architecture)]
    pub fn architecture(&self) -> (a: Architecture)
        ensures
            a == self.spec_architecture(),
    {
        match self {
            CpuContext::Ia32CpuContext(_) => Architecture::Ia32,
            CpuContext::X64CpuContext(_) => Architecture::X64,
            CpuContext::ArmCpuContext(_) => Architecture::Arm,
            CpuContext::Arm64CpuContext(_) => Architecture::Arm64,
            CpuContext::MipsCpuContext(_) => Architecture::Mips,
            CpuContext::PortableCpuContext(_) => Architecture::Portable,
        }
    }

    /// The program counter, which every layout has.
    pub fn pc(&self) -> (p: NativePointer)
        ensures
            p == self.registers()[0],
    {
        match self {
            CpuContext::Ia32CpuContext(c) => c.pc,
            CpuContext::X64CpuContext(c) => c.pc,
            CpuContext::ArmCpuContext(c) => c.pc,
            CpuContext::Arm64CpuContext(c) => c.pc,
            CpuContext::MipsCpuContext(c) => c.pc,
            CpuContext::PortableCpuContext(c) => c.pc,
        }
    }

    /// The stack pointer, which every layout has.
    pub fn sp(&self) -> (p: NativePointer)
        ensures
            p == self.registers()[1],
    {
        match self {
            CpuContext::Ia32CpuContext(c) => c.sp,
            CpuContext::X64CpuContext(c) => c.sp,
            CpuContext::ArmCpuContext(c) => c.sp,
            CpuContext::Arm64CpuContext(c) => c.sp,
            CpuContext::MipsCpuContext(c) => c.sp,
            CpuContext::PortableCpuContext(c) => c.sp,
        }
    }

    /// Reads a register by name from the raw context that the value was
    /// decoded from. For the names of the layout this is the value of the
    /// field of that name.
    pub fn register(&self, name: &str) -> (p: Option<NativePointer>)
        ensures
            p == match lookup(self.raw().properties@, name@) {
                Some(h) => Some(NativePointer(h)),
                None => None,
            },
    {
        let raw = match self {
            CpuContext::Ia32CpuContext(c) => &c.sys,
            CpuContext::X64CpuContext(c) => &c.sys,
            CpuContext::ArmCpuContext(c) => &c.sys,
            CpuContext::Arm64CpuContext(c) => &c.sys,
            CpuContext::MipsCpuContext(c) => &c.sys,
            CpuContext::PortableCpuContext(c) => &c.sys,
        };
        match raw.get_named_property(name) {
            Some(h) => Some(NativePointer::from_sys(h)),
            None => None,
        }
    }

    /// Decodes a raw context by the layout of `architecture`.
    ///
    /// This is the one place where the layout is chosen. Decoding succeeds
    /// exactly when the raw context has a value for every register of the
    /// chosen layout; the error names the first one that is missing.
    pub fn decode(m: sys::CpuContext, architecture: Architecture) -> (r: Result<Self, MissingField>)
        ensures
            r is Ok <==> has_all(m.properties@, register_names(architecture)),
            r matches Ok(c) ==> {
                &&& c.spec_architecture() == architecture
                &&& c.raw() == m
                &&& c.well_formed()
                &&& holds_values(c.registers(), m.properties@, register_names(architecture))
            },
            r matches Err(e) ==> reports_first_missing(e, m.properties@, architecture),
    {
        match architecture {
            Architecture::Ia32 => match Ia32CpuContext::decode(m) {
                Ok(c) => Ok(CpuContext::Ia32CpuContext(c)),
                Err(e) => Err(e),
            },
            Architecture::X64 => match X64CpuContext::decode(m) {
                Ok(c) => Ok(CpuContext::X64CpuContext(c)),
                Err(e) => Err(e),
            },
            Architecture::Arm => match ArmCpuContext::decode(m) {
                Ok(c) => Ok(CpuContext::ArmCpuContext(c)),
                Err(e) => Err(e),
            },
            Architecture::Arm64 => match Arm64CpuContext::decode(m) {
                Ok(c) => Ok(CpuContext::Arm64CpuContext(c)),
                Err(e) => Err(e),
            },
            Architecture::Mips => match MipsCpuContext::decode(m) {
                Ok(c) => Ok(CpuContext::MipsCpuContext(c)),
                Err(e) => Err(e),
            },
            Architecture::Portable => match PortableCpuContext::decode(m) {
                Ok(c) => Ok(CpuContext::PortableCpuContext(c)),
                Err(e) => Err(e),
            },
        }
    }

    /// Decodes a raw context by the layout that the host's architecture
    /// identifier `arch` selects.
    ///
    /// An identifier that is not known is no error: it selects the portable
    /// layout, which holds `pc` and `sp` only.
    pub fn from_sys(m: sys::CpuContext, arch: &str) -> (r: Result<Self, MissingField>)
        ensures
            r is Ok <==> has_all(m.properties@, register_names(architecture_named(arch@))),
            r matches Ok(c) ==> {
                &&& c.spec_architecture() == architecture_named(arch@)
                &&& c.raw() == m
                &&& c.well_formed()
                &&& holds_values(
                    c.registers(),
                    m.properties@,
                    register_names(architecture_named(arch@)),
                )
            },
            r matches Err(e) ==> reports_first_missing(
                e,
                m.properties@,
                architecture_named(arch@),
            ),
    {
        Self::decode(m, Architecture::from_name(arch))
    }

    /// Gives back the raw context that the value was decoded from, as it
    /// was received.
    pub fn into_sys(self) -> (m: sys::CpuContext)
        ensures
            m == self.raw(),
    {
        match self {
            CpuContext::Ia32CpuContext(c) => c.into_sys(),
            CpuContext::X64CpuContext(c) => c.into_sys(),
            CpuContext::ArmCpuContext(c) => c.into_sys(),
            CpuContext::Arm64CpuContext(c) => c.into_sys(),
            CpuContext::MipsCpuContext(c) => c.into_sys(),
            CpuContext::PortableCpuContext(c) => c.into_sys(),
        }
    }
}

/// In a well-formed context every register of its layout is populated: it
/// holds the value that the raw context has under the register's name, and
/// that value is neither `null` nor `undefined`. The first two registers
/// are the ones called `pc` and `sp`, whatever the layout.
pub proof fn every_register_is_populated(c: CpuContext, k: int)
    requires
        c.well_formed(),
        0 <= k < register_names(c.spec_architecture()).len(),
    ensures
        c.registers().len() == register_names(c.spec_architecture()).len(),
        lookup(c.raw().properties@, register_names(c.spec_architecture())[k]) == Some(
            c.registers()[k].0,
        ),
        !c.registers()[k].0.spec_is_nullish(),
        lookup(c.raw().properties@, "pc"@) == Some(c.registers()[0].0),
        lookup(c.raw().properties@, "sp"@) == Some(c.registers()[1].0),
{
    let names = register_names(c.spec_architecture());
    assert(has_value(c.raw().properties@, names[k]));
    assert(names[0] == "pc"@);
    assert(names[1] == "sp"@);
}

} // verus!
