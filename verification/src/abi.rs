//! Build targets and the calling convention of member functions on them.

use vstd::prelude::*;

verus! {

/// How a non-static member function receives its arguments.
#[derive(Clone, Copy, Debug, PartialEq, Eq, Structural)]
pub enum CallConv {
    /// The platform's standard C convention, unwinding allowed.
    C,
    /// The per-register convention of 32-bit Windows, which passes the object
    /// pointer in a register.
    Thiscall,
}

/// What matters of a build target when a convention is chosen.
#[derive(Clone, Copy, Debug, PartialEq, Eq, Structural)]
pub struct Target {
    /// The target's operating system is Windows.
    pub windows: bool,
    /// The target's architecture is 32-bit x86.
    pub x86: bool,
}

impl Target {
    /// The convention of every function-pointer field generated for this
    /// target: the per-register one on 32-bit Windows, the standard one
    /// everywhere else.
    pub open spec fn spec_call_conv(self) -> CallConv {
        if self.windows && self.x86 {
            CallConv::Thiscall
        } else {
            CallConv::C
        }
    }

    /// Selects the calling convention for this target.
    pub fn call_conv(&self) -> (conv: CallConv)
        ensures
            conv == self.spec_call_conv(),
            conv == CallConv::Thiscall <==> self.windows && self.x86,
            conv == CallConv::C <==> !(self.windows && self.x86),
    {
        if self.windows && self.x86 {
            CallConv::Thiscall
        } else {
            CallConv::C
        }
    }
}

impl CallConv {
    /// The ABI string that names this convention in a function-pointer type.
    pub open spec fn spec_abi_name(self) -> Seq<char> {
        match self {
            CallConv::C => "C-unwind"@,
            CallConv::Thiscall => "thiscall-unwind"@,
        }
    }

    /// The ABI string that names this convention in a function-pointer type.
    pub fn abi_name(&self) -> (name: &'static str)
        ensures
            name@ == self.spec_abi_name(),
    {
        match self {
            CallConv::C => "C-unwind",
            CallConv::Thiscall => "thiscall-unwind",
        }
    }
}

} // verus!
