//! The settings that decide which diagnostics a client is shown.

use vstd::prelude::*;

verus! {

/// What is shown to the client as warnings.
#[derive(Clone, Copy, Debug, PartialEq, Eq, Structural)]
pub enum Warnings {
    /// The warnings and errors that compilation recorded.
    Default,
    /// One warning for each parsed token, in place of the recorded diagnostics.
    Parsed,
    /// One warning for each typed token, in place of the recorded diagnostics.
    Typed,
}

/// Settings that help to debug the server itself.
#[derive(Clone, Copy, Debug, PartialEq, Eq, Structural)]
pub struct DebugConfig {
    pub show_collected_tokens_as_warnings: Warnings,
}

/// Which of the recorded diagnostics are visible.
#[derive(Clone, Copy, Debug, PartialEq, Eq, Structural)]
pub struct DiagnosticConfig {
    pub show_warnings: bool,
    pub show_errors: bool,
}

/// The settings of the server, as far as the publication of diagnostics reads them.
#[derive(Clone, Copy, Debug, PartialEq, Eq, Structural)]
pub struct Config {
    pub debug: DebugConfig,
    pub diagnostic: DiagnosticConfig,
}

} // verus!
