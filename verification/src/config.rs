use vstd::prelude::*;

verus! {

/// The instruction sets a caller can select, one per supported
/// family/mode combination of the external engine.
#[derive(Clone, Copy, Debug, PartialEq, Eq, Structural)]
pub enum Architecture {
    Arm,
    ArmThumb,
    Arm64,
    Evm,
    M680x6811,
    M68k040,
    Mips32,
    Mips64,
    Ppc32,
    Ppc64,
    Riscv32,
    Riscv64,
    Sparc,
    Sysz,
    Tms320c64x,
    X86_16,
    X86_32,
    X86_64,
    Xcore,
}

/// The instruction-set family an engine is built for.
#[derive(Clone, Copy, Debug, PartialEq, Eq, Structural)]
pub enum ArchFamily {
    Arm,
    Arm64,
    Evm,
    M680x,
    M68k,
    Mips,
    Ppc,
    Riscv,
    Sparc,
    SystemZ,
    Tms320c64x,
    X86,
    Xcore,
}

/// The addressing/decoding mode an engine is built with.
#[derive(Clone, Copy, Debug, PartialEq, Eq, Structural)]
pub enum ModeSelect {
    Arm,
    Thumb,
    Default,
    M680x6811,
    M68k040,
    Mips32,
    Mips64,
    Mode16,
    Mode32,
    Mode64,
    RiscV32,
    RiscV64,
}

/// The assembly syntax flavor requested from the engine, where one applies.
#[derive(Clone, Copy, Debug, PartialEq, Eq, Structural)]
pub enum SyntaxSelect {
    Intel,
}

/// One engine build configuration: instruction-set family, addressing mode,
/// optional syntax flavor, and whether per-instruction detail is requested.
#[derive(Clone, Copy, Debug, PartialEq, Eq)]
pub struct EngineConfig {
    pub family: ArchFamily,
    pub mode: ModeSelect,
    pub syntax: Option<SyntaxSelect>,
    pub detail: bool,
}

/// The configuration that each architecture selector maps to. The match is
/// total: every selector has exactly one configuration and none falls back
/// to a default instruction set.
pub open spec fn spec_engine_config(arch: Architecture) -> EngineConfig {
    match arch {
        Architecture::Arm => EngineConfig {
            family: ArchFamily::Arm,
            mode: ModeSelect::Arm,
            syntax: None,
            detail: true,
        },
        Architecture::ArmThumb => EngineConfig {
            family: ArchFamily::Arm,
            mode: ModeSelect::Thumb,
            syntax: None,
            detail: true,
        },
        Architecture::Arm64 => EngineConfig {
            family: ArchFamily::Arm64,
            mode: ModeSelect::Arm,
            syntax: None,
            detail: true,
        },
        Architecture::Evm => EngineConfig {
            family: ArchFamily::Evm,
            mode: ModeSelect::Default,
            syntax: None,
            detail: true,
        },
        Architecture::M680x6811 => EngineConfig {
            family: ArchFamily::M680x,
            mode: ModeSelect::M680x6811,
            syntax: None,
            detail: true,
        },
        Architecture::M68k040 => EngineConfig {
            family: ArchFamily::M68k,
            mode: ModeSelect::M68k040,
            syntax: None,
            detail: true,
        },
        Architecture::Mips32 => EngineConfig {
            family: ArchFamily::Mips,
            mode: ModeSelect::Mips32,
            syntax: None,
            detail: true,
        },
        Architecture::Mips64 => EngineConfig {
            family: ArchFamily::Mips,
            mode: ModeSelect::Mips64,
            syntax: None,
            detail: true,
        },
        Architecture::Ppc32 => EngineConfig {
            family: ArchFamily::Ppc,
            mode: ModeSelect::Mode32,
            syntax: None,
            detail: true,
        },
        Architecture::Ppc64 => EngineConfig {
            family: ArchFamily::Ppc,
            mode: ModeSelect::Mode64,
            syntax: None,
            detail: true,
        },
        Architecture::Riscv32 => EngineConfig {
            family: ArchFamily::Riscv,
            mode: ModeSelect::RiscV32,
            syntax: None,
            detail: true,
        },
        Architecture::Riscv64 => EngineConfig {
            family: ArchFamily::Riscv,
            mode: ModeSelect::RiscV64,
            syntax: None,
            detail: true,
        },
        Architecture::Sparc => EngineConfig {
            family: ArchFamily::Sparc,
            mode: ModeSelect::Default,
            syntax: None,
            detail: true,
        },
        Architecture::Sysz => EngineConfig {
            family: ArchFamily::SystemZ,
            mode: ModeSelect::Default,
            syntax: None,
            detail: true,
        },
        Architecture::Tms320c64x => EngineConfig {
            family: ArchFamily::Tms320c64x,
            mode: ModeSelect::Default,
            syntax: None,
            detail: true,
        },
        Architecture::X86_16 => EngineConfig {
            family: ArchFamily::X86,
            mode: ModeSelect::Mode16,
            syntax: Some(SyntaxSelect::Intel),
            detail: true,
        },
        Architecture::X86_32 => EngineConfig {
            family: ArchFamily::X86,
            mode: ModeSelect::Mode32,
            syntax: Some(SyntaxSelect::Intel),
            detail: true,
        },
        Architecture::X86_64 => EngineConfig {
            family: ArchFamily::X86,
            mode: ModeSelect::Mode64,
            syntax: Some(SyntaxSelect::Intel),
            detail: true,
        },
        Architecture::Xcore => EngineConfig {
            family: ArchFamily::Xcore,
            mode: ModeSelect::Default,
            syntax: None,
            detail: true,
        },
    }
}

/// Maps an architecture selector to its engine configuration. The match is
/// total over the selector enum and the result is pinned per selector, so
/// no selector silently falls back to a default instruction set.
pub fn engine_config(arch: Architecture) -> (c: EngineConfig)
    ensures
        c == spec_engine_config(arch),
{
    match arch {
        Architecture::Arm => EngineConfig {
            family: ArchFamily::Arm,
            mode: ModeSelect::Arm,
            syntax: None,
            detail: true,
        },
        Architecture::ArmThumb => EngineConfig {
            family: ArchFamily::Arm,
            mode: ModeSelect::Thumb,
            syntax: None,
            detail: true,
        },
        Architecture::Arm64 => EngineConfig {
            family: ArchFamily::Arm64,
            mode: ModeSelect::Arm,
            syntax: None,
            detail: true,
        },
        Architecture::Evm => EngineConfig {
            family: ArchFamily::Evm,
            mode: ModeSelect::Default,
            syntax: None,
            detail: true,
        },
        Architecture::M680x6811 => EngineConfig {
            family: ArchFamily::M680x,
            mode: ModeSelect::M680x6811,
            syntax: None,
            detail: true,
        },
        Architecture::M68k040 => EngineConfig {
            family: ArchFamily::M68k,
            mode: ModeSelect::M68k040,
            syntax: None,
            detail: true,
        },
        Architecture::Mips32 => EngineConfig {
            family: ArchFamily::Mips,
            mode: ModeSelect::Mips32,
            syntax: None,
            detail: true,
        },
        Architecture::Mips64 => EngineConfig {
            family: ArchFamily::Mips,
            mode: ModeSelect::Mips64,
            syntax: None,
            detail: true,
        },
        Architecture::Ppc32 => EngineConfig {
            family: ArchFamily::Ppc,
            mode: ModeSelect::Mode32,
            syntax: None,
            detail: true,
        },
        Architecture::Ppc64 => EngineConfig {
            family: ArchFamily::Ppc,
            mode: ModeSelect::Mode64,
            syntax: None,
            detail: true,
        },
        Architecture::Riscv32 => EngineConfig {
            family: ArchFamily::Riscv,
            mode: ModeSelect::RiscV32,
            syntax: None,
            detail: true,
        },
        Architecture::Riscv64 => EngineConfig {
            family: ArchFamily::Riscv,
            mode: ModeSelect::RiscV64,
            syntax: None,
            detail: true,
        },
        Architecture::Sparc => EngineConfig {
            family: ArchFamily::Sparc,
            mode: ModeSelect::Default,
            syntax: None,
            detail: true,
        },
        Architecture::Sysz => EngineConfig {
            family: ArchFamily::SystemZ,
            mode: ModeSelect::Default,
            syntax: None,
            detail: true,
        },
        Architecture::Tms320c64x => EngineConfig {
            family: ArchFamily::Tms320c64x,
            mode: ModeSelect::Default,
            syntax: None,
            detail: true,
        },
        Architecture::X86_16 => EngineConfig {
            family: ArchFamily::X86,
            mode: ModeSelect::Mode16,
            syntax: Some(SyntaxSelect::Intel),
            detail: true,
        },
        Architecture::X86_32 => EngineConfig {
            family: ArchFamily::X86,
            mode: ModeSelect::Mode32,
            syntax: Some(SyntaxSelect::Intel),
            detail: true,
        },
        Architecture::X86_64 => EngineConfig {
            family: ArchFamily::X86,
            mode: ModeSelect::Mode64,
            syntax: Some(SyntaxSelect::Intel),
            detail: true,
        },
        Architecture::Xcore => EngineConfig {
            family: ArchFamily::Xcore,
            mode: ModeSelect::Default,
            syntax: None,
            detail: true,
        },
    }
}

/// No two architecture selectors share an engine configuration: the mapping
/// is injective, so beyond being total it never merges two selectors into
/// one fallback configuration.
pub proof fn lemma_engine_config_injective(a1: Architecture, a2: Architecture)
    ensures
        spec_engine_config(a1) == spec_engine_config(a2) ==> a1 == a2,
{
}

} // verus!
