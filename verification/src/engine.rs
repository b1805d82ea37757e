use vstd::prelude::*;

use capstone::arch::BuildsCapstone;
use capstone::arch::BuildsCapstoneSyntax;

use crate::config::Architecture;
use crate::listing::InsnRecord;

verus! {

#[verifier::external_type_specification]
#[verifier::external_body]
pub struct ExCapstone(capstone::Capstone);

/// Relies on capstone's builder: an ARM engine in ARM mode with detail
/// enabled; a build failure becomes the error's message.
#[verifier::external_body]
fn build_arm() -> (r: Result<capstone::Capstone, String>) {
    capstone::Capstone::new().arm().mode(capstone::arch::arm::ArchMode::Arm).detail(
        true,
    ).build().map_err(|e| e.to_string())
}

/// Relies on capstone's builder: an ARM engine in Thumb mode with detail
/// enabled; a build failure becomes the error's message.
#[verifier::external_body]
fn build_arm_thumb() -> (r: Result<capstone::Capstone, String>) {
    capstone::Capstone::new().arm().mode(capstone::arch::arm::ArchMode::Thumb).detail(
        true,
    ).build().map_err(|e| e.to_string())
}

/// Relies on capstone's builder: an ARM64 engine in ARM mode with detail
/// enabled; a build failure becomes the error's message.
#[verifier::external_body]
fn build_arm64() -> (r: Result<capstone::Capstone, String>) {
    capstone::Capstone::new().arm64().mode(capstone::arch::arm64::ArchMode::Arm).detail(
        true,
    ).build().map_err(|e| e.to_string())
}

/// Relies on capstone's builder: an EVM engine in default mode with detail
/// enabled; a build failure becomes the error's message.
#[verifier::external_body]
fn build_evm() -> (r: Result<capstone::Capstone, String>) {
    capstone::Capstone::new().evm().mode(capstone::arch::evm::ArchMode::Default).detail(
        true,
    ).build().map_err(|e| e.to_string())
}

/// Relies on capstone's builder: an M680X engine in 6811 mode with detail
/// enabled; a build failure becomes the error's message.
#[verifier::external_body]
fn build_m680x_6811() -> (r: Result<capstone::Capstone, String>) {
    capstone::Capstone::new().m680x().mode(capstone::arch::m680x::ArchMode::M680x6811).detail(
        true,
    ).build().map_err(|e| e.to_string())
}

/// Relies on capstone's builder: an M68K engine in 040 mode with detail
/// enabled; a build failure becomes the error's message.
#[verifier::external_body]
fn build_m68k_040() -> (r: Result<capstone::Capstone, String>) {
    capstone::Capstone::new().m68k().mode(capstone::arch::m68k::ArchMode::M68k040).detail(
        true,
    ).build().map_err(|e| e.to_string())
}

/// Relies on capstone's builder: a MIPS engine in 32-bit mode with detail
/// enabled; a build failure becomes the error's message.
#[verifier::external_body]
fn build_mips32() -> (r: Result<capstone::Capstone, String>) {
    capstone::Capstone::new().mips().mode(capstone::arch::mips::ArchMode::Mips32).detail(
        true,
    ).build().map_err(|e| e.to_string())
}

/// Relies on capstone's builder: a MIPS engine in 64-bit mode with detail
/// enabled; a build failure becomes the error's message.
#[verifier::external_body]
fn build_mips64() -> (r: Result<capstone::Capstone, String>) {
    capstone::Capstone::new().mips().mode(capstone::arch::mips::ArchMode::Mips64).detail(
        true,
    ).build().map_err(|e| e.to_string())
}

/// Relies on capstone's builder: a PPC engine in 32-bit mode with detail
/// enabled; a build failure becomes the error's message.
#[verifier::external_body]
fn build_ppc32() -> (r: Result<capstone::Capstone, String>) {
    capstone::Capstone::new().ppc().mode(capstone::arch::ppc::ArchMode::Mode32).detail(
        true,
    ).build().map_err(|e| e.to_string())
}

/// Relies on capstone's builder: a PPC engine in 64-bit mode with detail
/// enabled; a build failure becomes the error's message.
#[verifier::external_body]
fn build_ppc64() -> (r: Result<capstone::Capstone, String>) {
    capstone::Capstone::new().ppc().mode(capstone::arch::ppc::ArchMode::Mode64).detail(
        true,
    ).build().map_err(|e| e.to_string())
}

/// Relies on capstone's builder: a RISC-V engine in 32-bit mode with detail
/// enabled; a build failure becomes the error's message.
#[verifier::external_body]
fn build_riscv32() -> (r: Result<capstone::Capstone, String>) {
    capstone::Capstone::new().riscv().mode(capstone::arch::riscv::ArchMode::RiscV32).detail(
        true,
    ).build().map_err(|e| e.to_string())
}

/// Relies on capstone's builder: a RISC-V engine in 64-bit mode with detail
/// enabled; a build failure becomes the error's message.
#[verifier::external_body]
fn build_riscv64() -> (r: Result<capstone::Capstone, String>) {
    capstone::Capstone::new().riscv().mode(capstone::arch::riscv::ArchMode::RiscV64).detail(
        true,
    ).build().map_err(|e| e.to_string())
}

/// Relies on capstone's builder: a SPARC engine in default mode with detail
/// enabled; a build failure becomes the error's message.
#[verifier::external_body]
fn build_sparc() -> (r: Result<capstone::Capstone, String>) {
    capstone::Capstone::new().sparc().mode(capstone::arch::sparc::ArchMode::Default).detail(
        true,
    ).build().map_err(|e| e.to_string())
}

/// Relies on capstone's builder: a SystemZ engine in default mode with
/// detail enabled; a build failure becomes the error's message.
#[verifier::external_body]
fn build_sysz() -> (r: Result<capstone::Capstone, String>) {
    capstone::Capstone::new().sysz().mode(capstone::arch::sysz::ArchMode::Default).detail(
        true,
    ).build().map_err(|e| e.to_string())
}

/// Relies on capstone's builder: a TMS320C64x engine in default mode with
/// detail enabled; a build failure becomes the error's message.
#[verifier::external_body]
fn build_tms320c64x() -> (r: Result<capstone::Capstone, String>) {
    capstone::Capstone::new().tms320c64x().mode(
        capstone::arch::tms320c64x::ArchMode::Default,
    ).detail(true).build().map_err(|e| e.to_string())
}

/// Relies on capstone's builder: an x86 engine in 16-bit mode with Intel
/// syntax and detail enabled; a build failure becomes the error's message.
#[verifier::external_body]
fn build_x86_16() -> (r: Result<capstone::Capstone, String>) {
    capstone::Capstone::new().x86().mode(capstone::arch::x86::ArchMode::Mode16).syntax(
        capstone::arch::x86::ArchSyntax::Intel,
    ).detail(true).build().map_err(|e| e.to_string())
}

/// Relies on capstone's builder: an x86 engine in 32-bit mode with Intel
/// syntax and detail enabled; a build failure becomes the error's message.
#[verifier::external_body]
fn build_x86_32() -> (r: Result<capstone::Capstone, String>) {
    capstone::Capstone::new().x86().mode(capstone::arch::x86::ArchMode::Mode32).syntax(
        capstone::arch::x86::ArchSyntax::Intel,
    ).detail(true).build().map_err(|e| e.to_string())
}

/// Relies on capstone's builder: an x86 engine in 64-bit mode with Intel
/// syntax and detail enabled; a build failure becomes the error's message.
#[verifier::external_body]
fn build_x86_64() -> (r: Result<capstone::Capstone, String>) {
    capstone::Capstone::new().x86().mode(capstone::arch::x86::ArchMode::Mode64).syntax(
        capstone::arch::x86::ArchSyntax::Intel,
    ).detail(true).build().map_err(|e| e.to_string())
}

/// Relies on capstone's builder: an XCore engine in default mode with
/// detail enabled; a build failure becomes the error's message.
#[verifier::external_body]
fn build_xcore() -> (r: Result<capstone::Capstone, String>) {
    capstone::Capstone::new().xcore().mode(capstone::arch::xcore::ArchMode::Default).detail(
        true,
    ).build().map_err(|e| e.to_string())
}

/// Builds the disassembly engine for an architecture selector. The match is
/// total: each selector dispatches to the one builder call that realizes
/// `crate::config::spec_engine_config` for it. Construction can still fail
/// inside the engine; the failure is returned as its message.
pub fn get_capstone(arch: Architecture) -> Result<capstone::Capstone, String> {
    match arch {
        Architecture::Arm => build_arm(),
        Architecture::ArmThumb => build_arm_thumb(),
        Architecture::Arm64 => build_arm64(),
        Architecture::Evm => build_evm(),
        Architecture::M680x6811 => build_m680x_6811(),
        Architecture::M68k040 => build_m68k_040(),
        Architecture::Mips32 => build_mips32(),
        Architecture::Mips64 => build_mips64(),
        Architecture::Ppc32 => build_ppc32(),
        Architecture::Ppc64 => build_ppc64(),
        Architecture::Riscv32 => build_riscv32(),
        Architecture::Riscv64 => build_riscv64(),
        Architecture::Sparc => build_sparc(),
        Architecture::Sysz => build_sysz(),
        Architecture::Tms320c64x => build_tms320c64x(),
        Architecture::X86_16 => build_x86_16(),
        Architecture::X86_32 => build_x86_32(),
        Architecture::X86_64 => build_x86_64(),
        Architecture::Xcore => build_xcore(),
    }
}

/// Relies on capstone's `disasm_count` asked for one instruction: when it
/// decodes an instruction from `bytes[addr..]` with base address `addr`,
/// the instruction's reported address is that base address, its machine
/// bytes are a non-empty prefix of the remaining buffer (the engine copies
/// them into the instruction record), and its mnemonic and operand text are
/// carried over. A decode error or an empty result is `None`.
#[verifier::external_body]
pub(crate) fn decode_one(cs: &capstone::Capstone, bytes: &Vec<u8>, addr: usize) -> (r: Option<
    InsnRecord,
>)
    requires
        addr < bytes@.len(),
    ensures
        r matches Some(rec) ==> {
            &&& rec.address == addr as u64
            &&& 1 <= rec.bytes@.len() <= bytes@.len() - addr
            &&& rec.bytes@ == bytes@.subrange(addr as int, addr + rec.bytes@.len())
        },
{
    match cs.disasm_count(&bytes[addr..], addr as u64, 1) {
        Ok(insns) => insns.first().map(
            |ins| InsnRecord {
                address: ins.address(),
                bytes: ins.bytes().to_vec(),
                mnemonic: ins.mnemonic().map(|m| m.to_string()),
                op_str: ins.op_str().map(|o| o.to_string()),
            },
        ),
        Err(_) => None,
    }
}

} // verus!
