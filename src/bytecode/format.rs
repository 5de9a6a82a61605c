//! The instruction formats: operand layouts and their sizes in code units.

use vstd::prelude::*;

verus! {

/// The operand layout of an instruction, named after the Dalvik convention:
/// code units, register count, operand kind.
#[derive(Debug, Clone, Copy, PartialEq, Eq, Structural, Hash)]
pub enum Format {
    Format10t,
    Format10x,
    Format11n,
    Format11x,
    Format12x,
    Format20bc,
    Format20t,
    Format21c,
    Format21ih,
    Format21lh,
    Format21s,
    Format21t,
    Format22b,
    Format22c,
    Format22cs,
    Format22s,
    Format22t,
    Format22x,
    Format23x,
    Format30t,
    Format31c,
    Format31i,
    Format31t,
    Format32x,
    Format35c,
    Format35mi,
    Format35ms,
    Format3rc,
    Format3rmi,
    Format3rms,
    Format45cc,
    Format4rcc,
    Format51l,
    ArrayPayload,
    PackedSwitchPayload,
    SparseSwitchPayload,
    UnresolvedOdexInstruction,
}

impl Format {
    /// Size in 16-bit code units; -1 for the payloads, whose size they state themselves.
    pub open spec fn spec_size(self) -> int {
        match self {
            Format::Format10t => 1,
            Format::Format10x => 1,
            Format::Format11n => 1,
            Format::Format11x => 1,
            Format::Format12x => 1,
            Format::Format20bc => 2,
            Format::Format20t => 2,
            Format::Format21c => 2,
            Format::Format21ih => 2,
            Format::Format21lh => 2,
            Format::Format21s => 2,
            Format::Format21t => 2,
            Format::Format22b => 2,
            Format::Format22c => 2,
            Format::Format22cs => 2,
            Format::Format22s => 2,
            Format::Format22t => 2,
            Format::Format22x => 2,
            Format::Format23x => 2,
            Format::Format30t => 3,
            Format::Format31c => 3,
            Format::Format31i => 3,
            Format::Format31t => 3,
            Format::Format32x => 3,
            Format::Format35c => 3,
            Format::Format35mi => 3,
            Format::Format35ms => 3,
            Format::Format3rc => 3,
            Format::Format3rmi => 3,
            Format::Format3rms => 3,
            Format::Format45cc => 4,
            Format::Format4rcc => 4,
            Format::Format51l => 5,
            Format::ArrayPayload => -1,
            Format::PackedSwitchPayload => -1,
            Format::SparseSwitchPayload => -1,
            Format::UnresolvedOdexInstruction => -1,
        }
    }

    /// Size in 16-bit code units; -1 for the payloads, whose size they state themselves.
    pub fn size(&self) -> (r: i8)
        ensures
            r == self.spec_size(),
    {
        match self {
            Format::Format10t => 1,
            Format::Format10x => 1,
            Format::Format11n => 1,
            Format::Format11x => 1,
            Format::Format12x => 1,
            Format::Format20bc => 2,
            Format::Format20t => 2,
            Format::Format21c => 2,
            Format::Format21ih => 2,
            Format::Format21lh => 2,
            Format::Format21s => 2,
            Format::Format21t => 2,
            Format::Format22b => 2,
            Format::Format22c => 2,
            Format::Format22cs => 2,
            Format::Format22s => 2,
            Format::Format22t => 2,
            Format::Format22x => 2,
            Format::Format23x => 2,
            Format::Format30t => 3,
            Format::Format31c => 3,
            Format::Format31i => 3,
            Format::Format31t => 3,
            Format::Format32x => 3,
            Format::Format35c => 3,
            Format::Format35mi => 3,
            Format::Format35ms => 3,
            Format::Format3rc => 3,
            Format::Format3rmi => 3,
            Format::Format3rms => 3,
            Format::Format45cc => 4,
            Format::Format4rcc => 4,
            Format::Format51l => 5,
            Format::ArrayPayload => -1,
            Format::PackedSwitchPayload => -1,
            Format::SparseSwitchPayload => -1,
            Format::UnresolvedOdexInstruction => -1,
        }
    }

    /// The payload pseudo-formats.
    pub open spec fn spec_payload(self) -> bool {
        self is ArrayPayload || self is PackedSwitchPayload || self is SparseSwitchPayload
    }

    /// True only for the three payload pseudo-formats.
    pub fn payload(&self) -> (r: bool)
        ensures
            r == self.spec_payload(),
    {
        match self {
            Format::ArrayPayload | Format::PackedSwitchPayload | Format::SparseSwitchPayload => true,
            _ => false,
        }
    }

    /// The conventional name of the format.
    pub open spec fn spec_name(self) -> &'static str {
        match self {
            Format::Format10t => "10t",
            Format::Format10x => "10x",
            Format::Format11n => "11n",
            Format::Format11x => "11x",
            Format::Format12x => "12x",
            Format::Format20bc => "20bc",
            Format::Format20t => "20t",
            Format::Format21c => "21c",
            Format::Format21ih => "21ih",
            Format::Format21lh => "21lh",
            Format::Format21s => "21s",
            Format::Format21t => "21t",
            Format::Format22b => "22b",
            Format::Format22c => "22c",
            Format::Format22cs => "22cs",
            Format::Format22s => "22s",
            Format::Format22t => "22t",
            Format::Format22x => "22x",
            Format::Format23x => "23x",
            Format::Format30t => "30t",
            Format::Format31c => "31c",
            Format::Format31i => "31i",
            Format::Format31t => "31t",
            Format::Format32x => "32x",
            Format::Format35c => "35c",
            Format::Format35mi => "35mi",
            Format::Format35ms => "35ms",
            Format::Format3rc => "3rc",
            Format::Format3rmi => "3rmi",
            Format::Format3rms => "3rms",
            Format::Format45cc => "45cc",
            Format::Format4rcc => "4rcc",
            Format::Format51l => "51l",
            Format::ArrayPayload => "array-payload",
            Format::PackedSwitchPayload => "packed-switch-payload",
            Format::SparseSwitchPayload => "sparse-switch-payload",
            Format::UnresolvedOdexInstruction => "unresolved-odex-instruction",
        }
    }

    /// The conventional name of the format.
    pub fn name(&self) -> (r: &'static str)
        ensures
            r == self.spec_name(),
    {
        match self {
            Format::Format10t => "10t",
            Format::Format10x => "10x",
            Format::Format11n => "11n",
            Format::Format11x => "11x",
            Format::Format12x => "12x",
            Format::Format20bc => "20bc",
            Format::Format20t => "20t",
            Format::Format21c => "21c",
            Format::Format21ih => "21ih",
            Format::Format21lh => "21lh",
            Format::Format21s => "21s",
            Format::Format21t => "21t",
            Format::Format22b => "22b",
            Format::Format22c => "22c",
            Format::Format22cs => "22cs",
            Format::Format22s => "22s",
            Format::Format22t => "22t",
            Format::Format22x => "22x",
            Format::Format23x => "23x",
            Format::Format30t => "30t",
            Format::Format31c => "31c",
            Format::Format31i => "31i",
            Format::Format31t => "31t",
            Format::Format32x => "32x",
            Format::Format35c => "35c",
            Format::Format35mi => "35mi",
            Format::Format35ms => "35ms",
            Format::Format3rc => "3rc",
            Format::Format3rmi => "3rmi",
            Format::Format3rms => "3rms",
            Format::Format45cc => "45cc",
            Format::Format4rcc => "4rcc",
            Format::Format51l => "51l",
            Format::ArrayPayload => "array-payload",
            Format::PackedSwitchPayload => "packed-switch-payload",
            Format::SparseSwitchPayload => "sparse-switch-payload",
            Format::UnresolvedOdexInstruction => "unresolved-odex-instruction",
        }
    }
}

} // verus!
