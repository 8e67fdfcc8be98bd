//! The instruction-set architectures whose register layouts are known.
use vstd::prelude::*;
use crate::text::same_text;

verus! {

/// The instruction-set family of the instrumented process.
#[derive(Clone, Copy, Debug, PartialEq, Eq, Structural)]
pub enum Architecture {
    /// 32-bit x86.
    Ia32,
    /// 64-bit x86.
    X64,
    /// 32-bit ARM.
    Arm,
    /// 64-bit ARM.
    Arm64,
    /// MIPS.
    Mips,
    /// Any other architecture: only the program counter and the stack
    /// pointer are known.
    Portable,
}

/// The architecture that the host's identifier `name` stands for.
///
/// Only the five known identifiers select a specific architecture, and only
/// when matched exactly; every other string selects the portable fallback.
pub open spec fn architecture_named(name: Seq<char>) -> Architecture {
    if name == "ia32"@ {
        Architecture::Ia32
    } else if name == "x64"@ {
        Architecture::X64
    } else if name == "arm"@ {
        Architecture::Arm
    } else if name == "arm64"@ {
        Architecture::Arm64
    } else if name == "mips"@ {
        Architecture::Mips
    } else {
        Architecture::Portable
    }
}

/// The register names of 32-bit x86, in layout order.
pub open spec fn ia32_registers() -> Seq<Seq<char>> {
    seq![
        "pc"@,
        "sp"@,
        "eax"@,
        "ecx"@,
        "edx"@,
        "ebx"@,
        "esp"@,
        "ebp"@,
        "esi"@,
        "edi"@,
        "eip"@,
    ]
}

/// The register names of 64-bit x86, in layout order.
pub open spec fn x64_registers() -> Seq<Seq<char>> {
    seq![
        "pc"@,
        "sp"@,
        "rax"@,
        "rcx"@,
        "rdx"@,
        "rbx"@,
        "rsp"@,
        "rbp"@,
        "rsi"@,
        "rdi"@,
        "r8"@,
        "r10"@,
        "r11"@,
        "r12"@,
        "r13"@,
        "r14"@,
        "r15"@,
        "rip"@,
    ]
}

/// The register names of 32-bit ARM, in layout order.
pub open spec fn arm_registers() -> Seq<Seq<char>> {
    seq![
        "pc"@,
        "sp"@,
        "r0"@,
        "r1"@,
        "r2"@,
        "r3"@,
        "r4"@,
        "r5"@,
        "r6"@,
        "r7"@,
        "r8"@,
        "r9"@,
        "r10"@,
        "r11"@,
        "r12"@,
        "lr"@,
    ]
}

/// The register names of 64-bit ARM, in layout order.
pub open spec fn arm64_registers() -> Seq<Seq<char>> {
    seq![
        "pc"@,
        "sp"@,
        "x0"@,
        "x1"@,
        "x2"@,
        "x3"@,
        "x4"@,
        "x5"@,
        "x6"@,
        "x7"@,
        "x8"@,
        "x9"@,
        "x10"@,
        "x11"@,
        "x12"@,
        "x13"@,
        "x14"@,
        "x15"@,
        "x16"@,
        "x17"@,
        "x18"@,
        "x19"@,
        "x20"@,
        "x21"@,
        "x22"@,
        "x23"@,
        "x24"@,
        "x25"@,
        "x26"@,
        "x27"@,
        "x28"@,
        "fp"@,
        "lr"@,
    ]
}

/// The register names of MIPS, in layout order.
pub open spec fn mips_registers() -> Seq<Seq<char>> {
    seq![
        "pc"@,
        "sp"@,
        "gp"@,
        "fp"@,
        "ra"@,
        "hi"@,
        "lo"@,
        "at"@,
        "v0"@,
        "v1"@,
        "a0"@,
        "a1"@,
        "a2"@,
        "a3"@,
        "t0"@,
        "t1"@,
        "t2"@,
        "t3"@,
        "t4"@,
        "t5"@,
        "t6"@,
        "t7"@,
        "t8"@,
        "t9"@,
        "s0"@,
        "s1"@,
        "s2"@,
        "s3"@,
        "s4"@,
        "s5"@,
        "s6"@,
        "s7"@,
        "k0"@,
        "k1"@,
    ]
}

/// The register names of an architecture without a layout of its own, in layout order.
pub open spec fn portable_registers() -> Seq<Seq<char>> {
    seq![
        "pc"@,
        "sp"@,
    ]
}

/// The fixed, ordered list of register names of an architecture.
///
/// Every list starts with the program counter `pc` and the stack pointer
/// `sp`; what follows is the architecture's own register set.
pub open spec fn register_names(arch: Architecture) -> Seq<Seq<char>> {
    match arch {
        Architecture::Ia32 => ia32_registers(),
        Architecture::X64 => x64_registers(),
        Architecture::Arm => arm_registers(),
        Architecture::Arm64 => arm64_registers(),
        Architecture::Mips => mips_registers(),
        Architecture::Portable => portable_registers(),
    }
}

impl Architecture {
    /// Maps the host's architecture identifier to an architecture.
    pub fn from_name(name: &str) -> (arch: Architecture)
        ensures
            arch == architecture_named(name@),
    {
        if same_text(name, "ia32") {
            Architecture::Ia32
        } else if same_text(name, "x64") {
            Architecture::X64
        } else if same_text(name, "arm") {
            Architecture::Arm
        } else if same_text(name, "arm64") {
            Architecture::Arm64
        } else if same_text(name, "mips") {
            Architecture::Mips
        } else {
            Architecture::Portable
        }
    }

    /// The identifier under which the architecture is reported; the
    /// fallback is called `portable`.
    pub open spec fn spec_name(&self) -> Seq<char> {
        match self {
            Architecture::Ia32 => "ia32"@,
            Architecture::X64 => "x64"@,
            Architecture::Arm => "arm"@,
            Architecture::Arm64 => "arm64"@,
            Architecture::Mips => "mips"@,
            Architecture::Portable => "portable"@,
        }
    }

    /// The identifier under which the architecture is reported.
    pub fn name(&self) -> (name: &'static str)
        ensures
            name@ == self.spec_name(),
    {
        match self {
            Architecture::Ia32 => "ia32",
            Architecture::X64 => "x64",
            Architecture::Arm => "arm",
            Architecture::Arm64 => "arm64",
            Architecture::Mips => "mips",
            Architecture::Portable => "portable",
        }
    }

    /// The number of registers in the architecture's layout.
    pub fn register_count(&self) -> (n: usize)
        ensures
            n == register_names(*self).len(),
    {
        match self {
            Architecture::Ia32 => 11,
            Architecture::X64 => 18,
            Architecture::Arm => 16,
            Architecture::Arm64 => 33,
            Architecture::Mips => 34,
            Architecture::Portable => 2,
        }
    }

    /// The architecture's register names, in layout order.
    pub fn field_names(&self) -> (names: Vec<&'static str>)
        ensures
            names@.len() == register_names(*self).len(),
            forall|i: int| 0 <= i < names@.len() ==> (#[trigger] names@[i])@ == register_names(*self)[i],
    {
        let mut names: Vec<&'static str> = Vec::new();
        match self {
            Architecture::Ia32 => {
                names.push("pc");
                names.push("sp");
                names.push("eax");
                names.push("ecx");
                names.push("edx");
                names.push("ebx");
                names.push("esp");
                names.push("ebp");
                names.push("esi");
                names.push("edi");
                names.push("eip");
            },
            Architecture::X64 => {
                names.push("pc");
                names.push("sp");
                names.push("rax");
                names.push("rcx");
                names.push("rdx");
                names.push("rbx");
                names.push("rsp");
                names.push("rbp");
                names.push("rsi");
                names.push("rdi");
                names.push("r8");
                names.push("r10");
                names.push("r11");
                names.push("r12");
                names.push("r13");
                names.push("r14");
                names.push("r15");
                names.push("rip");
            },
            Architecture::Arm => {
                names.push("pc");
                names.push("sp");
                names.push("r0");
                names.push("r1");
                names.push("r2");
                names.push("r3");
                names.push("r4");
                names.push("r5");
                names.push("r6");
                names.push("r7");
                names.push("r8");
                names.push("r9");
                names.push("r10");
                names.push("r11");
                names.push("r12");
                names.push("lr");
            },
            Architecture::Arm64 => {
                names.push("pc");
                names.push("sp");
                names.push("x0");
                names.push("x1");
                names.push("x2");
                names.push("x3");
                names.push("x4");
                names.push("x5");
                names.push("x6");
                names.push("x7");
                names.push("x8");
                names.push("x9");
                names.push("x10");
                names.push("x11");
                names.push("x12");
                names.push("x13");
                names.push("x14");
                names.push("x15");
                names.push("x16");
                names.push("x17");
                names.push("x18");
                names.push("x19");
                names.push("x20");
                names.push("x21");
                names.push("x22");
                names.push("x23");
                names.push("x24");
                names.push("x25");
                names.push("x26");
                names.push("x27");
                names.push("x28");
                names.push("fp");
                names.push("lr");
            },
            Architecture::Mips => {
                names.push("pc");
                names.push("sp");
                names.push("gp");
                names.push("fp");
                names.push("ra");
                names.push("hi");
                names.push("lo");
                names.push("at");
                names.push("v0");
                names.push("v1");
                names.push("a0");
                names.push("a1");
                names.push("a2");
                names.push("a3");
                names.push("t0");
                names.push("t1");
                names.push("t2");
                names.push("t3");
                names.push("t4");
                names.push("t5");
                names.push("t6");
                names.push("t7");
                names.push("t8");
                names.push("t9");
                names.push("s0");
                names.push("s1");
                names.push("s2");
                names.push("s3");
                names.push("s4");
                names.push("s5");
                names.push("s6");
                names.push("s7");
                names.push("k0");
                names.push("k1");
            },
            Architecture::Portable => {
                names.push("pc");
                names.push("sp");
            },
        }
        names
    }
}

/// An identifier that is none of the five known ones selects the portable
/// fallback.
pub proof fn unknown_name_is_portable(name: Seq<char>)
    requires
        name != "ia32"@,
        name != "x64"@,
        name != "arm"@,
        name != "arm64"@,
        name != "mips"@,
    ensures
        architecture_named(name) == Architecture::Portable,
{
}

/// Every layout starts with the program counter `pc` and the stack pointer
/// `sp`, and the portable layout holds nothing else.
pub proof fn every_layout_starts_with_pc_and_sp(arch: Architecture)
    ensures
        register_names(arch).len() >= 2,
        register_names(arch)[0] == "pc"@,
        register_names(arch)[1] == "sp"@,
        register_names(Architecture::Portable) =~= seq!["pc"@, "sp"@],
{
}

/// The number of registers in each layout.
pub proof fn layout_sizes()
    ensures
        register_names(Architecture::Ia32).len() == 11,
        register_names(Architecture::X64).len() == 18,
        register_names(Architecture::Arm).len() == 16,
        register_names(Architecture::Arm64).len() == 33,
        register_names(Architecture::Mips).len() == 34,
        register_names(Architecture::Portable).len() == 2,
{
}

/// The architecture of the instrumented process, asked of the host once and
/// kept from then on.
///
/// The selector starts empty. The first identifier that it is given is
/// kept; whatever it is given later is ignored, so that every selection
/// made through one selector names the same architecture.
#[derive(Clone, Debug, PartialEq, Eq)]
pub struct ArchitectureSelector {
    reported: Option<String>,
}

impl View for ArchitectureSelector {
    type V = Option<Seq<char>>;

    closed spec fn view(&self) -> Option<Seq<char>> {
        match self.reported {
            Some(name) => Some(name@),
            None => None,
        }
    }
}

/// What a selector holds after it was given the identifier `reported`: what
/// it held before, or `reported` if it was empty.
pub open spec fn kept_after(before: Option<Seq<char>>, reported: Seq<char>) -> Seq<char> {
    match before {
        Some(name) => name,
        None => reported,
    }
}

/// Once a selector has been given an identifier, giving it another one
/// changes neither what it holds nor the architecture it selects.
pub proof fn selection_is_idempotent(before: Option<Seq<char>>, first: Seq<char>, second: Seq<char>)
    ensures
        kept_after(Some(kept_after(before, first)), second) == kept_after(before, first),
        architecture_named(kept_after(Some(kept_after(before, first)), second))
            == architecture_named(kept_after(before, first)),
{
}

impl ArchitectureSelector {
    /// A selector that has not heard from the host yet.
    pub fn new() -> (selector: Self)
        ensures
            selector@ is None,
    {
        ArchitectureSelector { reported: None }
    }

    /// Whether the host still has to be asked.
    pub fn needs_query(&self) -> (needed: bool)
        ensures
            needed == (self@ is None),
    {
        self.reported.is_none()
    }

    /// The identifier that the selector holds, if it holds one.
    pub fn get_arch(&self) -> (name: Option<&str>)
        ensures
            name is Some == self@ is Some,
            name matches Some(text) ==> self@ == Some(text@),
    {
        match &self.reported {
            Some(name) => Some(name.as_str()),
            None => None,
        }
    }

    /// The architecture that the selector has settled on, if it has heard
    /// from the host.
    pub fn cached(&self) -> (arch: Option<Architecture>)
        ensures
            arch == match self@ {
                Some(name) => Some(architecture_named(name)),
                None => None,
            },
    {
        match &self.reported {
            Some(name) => Some(Architecture::from_name(name.as_str())),
            None => None,
        }
    }

    /// Selects the architecture, given what the host reports now.
    ///
    /// An empty selector keeps `reported`. A selector that already holds an
    /// identifier ignores `reported` and stays as it is.
    pub fn select(&mut self, reported: &str) -> (arch: Architecture)
        ensures
            final(self)@ == Some(kept_after(old(self)@, reported@)),
            arch == architecture_named(kept_after(old(self)@, reported@)),
    {
        if self.reported.is_none() {
            self.reported = Some(reported.to_owned());
        }
        match &self.reported {
            Some(name) => Architecture::from_name(name.as_str()),
            None => Architecture::from_name(reported),
        }
    }
}

} // verus!
