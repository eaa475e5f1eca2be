//! Saved contexts: what a suspended execution context keeps in memory, and the
//! handle by which the scheduler refers to it.
//!
//! A saved-context block is written and read by the context switch, which
//! stores the stack pointer, the address to resume at, the page-table base
//! and the callee-saved registers of the architecture. This module holds the
//! part of a block that the scheduler itself reads, one variant for each
//! supported architecture, and the accessors that hide which architecture
//! keeps which value where.

use vstd::prelude::*;

verus! {

/// A supported processor architecture.
#[derive(Clone, Copy, Debug, PartialEq, Eq, Structural)]
pub enum Arch {
    /// The block lies on the suspended stack, at its stack pointer; the handle
    /// given to the context switch is the address of the word that holds that
    /// stack pointer.
    X86_64,
    /// The block lies apart from the stack and holds the stack pointer.
    Riscv64,
    /// The block lies on the suspended stack, at its stack pointer.
    Aarch64,
}

/// The registers of a saved-context block that the scheduler reads. The
/// callee-saved registers, which only the context switch touches, are not
/// part of it.
#[derive(Clone, Copy, Debug, PartialEq, Eq, Structural)]
pub enum ContextData {
    /// A block as the x86-64 context switch lays it out.
    X86_64 {
        /// Address at which execution resumes.
        rip: usize,
        /// Page-table base.
        cr3: usize,
    },
    /// A block as the RISC-V context switch lays it out.
    Riscv64 {
        /// Return address, at which execution resumes.
        ra: usize,
        /// Stack pointer.
        sp: usize,
        /// Page-table base.
        satp: usize,
    },
    /// A block as the AArch64 context switch lays it out.
    Aarch64 {
        /// Link register, at which execution resumes.
        lr: usize,
        /// Page-table base.
        ttbr0: usize,
    },
}

impl ContextData {
    /// The architecture whose context switch wrote this block.
    pub open spec fn arch_of(self) -> Arch {
        match self {
            ContextData::X86_64 { .. } => Arch::X86_64,
            ContextData::Riscv64 { .. } => Arch::Riscv64,
            ContextData::Aarch64 { .. } => Arch::Aarch64,
        }
    }

    /// The address at which the saved context resumes.
    pub open spec fn pc_of(self) -> usize {
        match self {
            ContextData::X86_64 { rip, .. } => rip,
            ContextData::Riscv64 { ra, .. } => ra,
            ContextData::Aarch64 { lr, .. } => lr,
        }
    }

    /// The page-table base of the saved context.
    pub open spec fn pgbr_of(self) -> usize {
        match self {
            ContextData::X86_64 { cr3, .. } => cr3,
            ContextData::Riscv64 { satp, .. } => satp,
            ContextData::Aarch64 { ttbr0, .. } => ttbr0,
        }
    }

    /// The stack pointer of the saved context, for a block that lies at
    /// `address`.
    pub open spec fn sp_of(self, address: usize) -> usize {
        match self {
            ContextData::Riscv64 { sp, .. } => sp,
            _ => address,
        }
    }

    /// The architecture whose context switch wrote this block.
    pub fn arch(&self) -> (arch: Arch)
        ensures
            arch == self.arch_of(),
    {
        match self {
            ContextData::X86_64 { .. } => Arch::X86_64,
            ContextData::Riscv64 { .. } => Arch::Riscv64,
            ContextData::Aarch64 { .. } => Arch::Aarch64,
        }
    }
}

/// What the context switch is given to find a context: on x86-64 the place
/// where the handle itself is stored, elsewhere the address of the block.
pub open spec fn switch_handle(arch: Arch, location: usize, address: usize) -> usize {
    match arch {
        Arch::X86_64 => location,
        _ => address,
    }
}

/// Handle of a saved context: the address of its block. The handle does not
/// own the block.
#[derive(Clone, Copy, Debug)]
pub struct Context {
    context: usize,
}

impl View for Context {
    type V = usize;

    /// The address that the handle holds.
    closed spec fn view(&self) -> usize {
        self.context
    }
}

impl Default for Context {
    /// A handle that holds address 0: the handle of a context that has not
    /// been saved yet.
    fn default() -> (handle: Context)
        ensures
            handle@ == 0,
    {
        Context { context: 0 }
    }
}

impl Context {
    /// The address that the handle holds: where the block of the saved context
    /// lies.
    pub fn address(&self) -> (addr: usize)
        ensures
            addr == self@,
    {
        self.context
    }

    /// Points the handle at the block at `addr`.
    pub fn set_context(&mut self, addr: usize)
        ensures
            final(self)@ == addr,
    {
        self.context = addr;
    }

    /// What to give the context switch of `arch` for this context, where
    /// `location` is the address at which this handle is stored.
    pub fn get_context(&self, arch: Arch, location: usize) -> (handle: usize)
        ensures
            handle == switch_handle(arch, location, self@),
    {
        match arch {
            Arch::X86_64 => location,
            _ => self.context,
        }
    }

    /// The stack pointer of the saved context, where `data` is the block
    /// that the handle points at.
    pub fn get_sp(&self, data: &ContextData) -> (sp: usize)
        ensures
            sp == data.sp_of(self@),
    {
        match data {
            ContextData::Riscv64 { sp, .. } => *sp,
            _ => self.context,
        }
    }

    /// The address at which the saved context resumes, where `data` is the
    /// block that the handle points at.
    pub fn get_pc(&self, data: &ContextData) -> (pc: usize)
        ensures
            pc == data.pc_of(),
    {
        match data {
            ContextData::X86_64 { rip, .. } => *rip,
            ContextData::Riscv64 { ra, .. } => *ra,
            ContextData::Aarch64 { lr, .. } => *lr,
        }
    }

    /// The page-table base of the saved context, where `data` is the block
    /// that the handle points at.
    pub fn get_pgbr(&self, data: &ContextData) -> (pgbr: usize)
        ensures
            pgbr == data.pgbr_of(),
    {
        match data {
            ContextData::X86_64 { cr3, .. } => *cr3,
            ContextData::Riscv64 { satp, .. } => *satp,
            ContextData::Aarch64 { ttbr0, .. } => *ttbr0,
        }
    }
}

} // verus!
