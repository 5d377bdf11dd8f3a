//! Errors that the emulation core reports to its host.

use vstd::prelude::*;

verus! {

#[derive(Debug, PartialEq, Eq)]
pub enum NesError {
    /// The ROM image is too short, has the wrong magic, or is shorter than its
    /// header declares.
    InvalidRom(String),
    UnsupportedMapper(u8),
    InvalidInstruction(u8),
    MemoryAccessViolation(u16),
    Other(String),
}

impl NesError {
    /// Human-readable description of the error.
    pub fn message(&self) -> String {
        match self {
            NesError::InvalidRom(m) => {
                let mut s = "Invalid ROM format: ".to_string();
                s.append(m.as_str());
                s
            },
            NesError::UnsupportedMapper(_) => "Unsupported mapper".to_string(),
            NesError::InvalidInstruction(_) => "Invalid CPU instruction".to_string(),
            NesError::MemoryAccessViolation(_) => "Memory access violation".to_string(),
            NesError::Other(m) => m.clone(),
        }
    }
}

} // verus!
