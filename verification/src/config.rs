//! Launcher-wide settings.
use vstd::prelude::*;

verus! {

#[derive(Debug, Clone, Copy, PartialEq, Eq, Structural)]
pub enum CloseAction {
    Never,
    Minimize,
    Hide,
}

impl CloseAction {
    pub fn as_str(self) -> (s: &'static str)
        ensures
            s@ == match self {
                CloseAction::Never => "Never"@,
                CloseAction::Minimize => "Minimize"@,
                CloseAction::Hide => "Hide and restore after game exits"@,
            },
    {
        match self {
            CloseAction::Never => "Never",
            CloseAction::Minimize => "Minimize",
            CloseAction::Hide => "Hide and restore after game exits",
        }
    }
}

#[derive(Debug, Clone, Copy, PartialEq, Eq, Structural)]
pub enum GpuPreference {
    System,
    HighPerformance,
    PowerSaving,
}

impl GpuPreference {
    pub fn as_str(self) -> (s: &'static str)
        ensures
            s@ == match self {
                GpuPreference::System => "System"@,
                GpuPreference::HighPerformance => "High performance"@,
                GpuPreference::PowerSaving => "Power saving"@,
            },
    {
        match self {
            GpuPreference::System => "System",
            GpuPreference::HighPerformance => "High performance",
            GpuPreference::PowerSaving => "Power saving",
        }
    }
}

#[derive(Debug, Clone)]
pub struct MemoryDefaults {
    pub min_mb: u64,
    pub max_mb: u64,
}

#[derive(Debug, Clone)]
pub struct JavaDefaults {
    pub mode: String,
    pub custom_path: String,
}

} // verus!
