//! The phases of installing a game version, and what an install leaves.
use vstd::prelude::*;

verus! {

#[derive(Debug, Clone, PartialEq, Eq, Structural)]
pub enum InstallPhase {
    Metadata,
    ClientJar,
    Libraries,
    Natives,
    Assets,
    Logging,
    Verifying,
    Ready,
}

impl InstallPhase {
    /// The progress text of a phase.
    pub fn label(&self) -> (r: &'static str)
        ensures
            r@ == (match self {
                InstallPhase::Metadata => "Resolving metadata..."@,
                InstallPhase::ClientJar => "Downloading client..."@,
                InstallPhase::Libraries => "Downloading libraries..."@,
                InstallPhase::Natives => "Extracting natives..."@,
                InstallPhase::Assets => "Downloading assets..."@,
                InstallPhase::Logging => "Installing logging config..."@,
                InstallPhase::Verifying => "Verifying..."@,
                InstallPhase::Ready => "Ready"@,
            }),
    {
        match self {
            InstallPhase::Metadata => "Resolving metadata...",
            InstallPhase::ClientJar => "Downloading client...",
            InstallPhase::Libraries => "Downloading libraries...",
            InstallPhase::Natives => "Extracting natives...",
            InstallPhase::Assets => "Downloading assets...",
            InstallPhase::Logging => "Installing logging config...",
            InstallPhase::Verifying => "Verifying...",
            InstallPhase::Ready => "Ready",
        }
    }
}

#[derive(Debug, Clone)]
pub struct InstallReport {
    pub version_id: String,
    pub version_dir: String,
    pub client_jar: String,
    pub natives_dir: String,
}

} // verus!
