//! Build configuration values: profile, crate type, message format and the
//! module's declared kind.

use vstd::prelude::*;

verus! {

/// Debug / Release profile.
#[derive(PartialEq, Eq, Structural, Clone, Copy, Debug)]
pub enum Profile {
    /// The driver runs without its release flag.
    Debug,
    /// The driver runs with its release flag.
    Release,
}

pub const DEBUG_NAME: &'static str = "debug";

pub const RELEASE_NAME: &'static str = "release";

/// The canonical name of a profile, as it appears in the artifact path.
pub open spec fn profile_name(p: Profile) -> Seq<char> {
    match p {
        Profile::Debug => DEBUG_NAME@,
        Profile::Release => RELEASE_NAME@,
    }
}

impl Profile {
    /// The canonical name: "debug" or "release".
    pub fn to_string(&self) -> (r: String)
        ensures
            r@ == profile_name(*self),
    {
        match self {
            Profile::Debug => String::from_str(DEBUG_NAME),
            Profile::Release => String::from_str(RELEASE_NAME),
        }
    }
}

/// The kind of artifact that the driver is asked to produce.
#[derive(PartialEq, Eq, Structural, Clone, Copy, Debug)]
pub enum CrateType {
    Library,
    Binary,
}

/// What a module declares itself to be. `Mixed` modules hold both a library
/// and a binary target and cannot be built without an explicit crate type.
#[derive(PartialEq, Eq, Structural, Clone, Copy, Debug)]
pub enum DeclaredType {
    Library,
    Binary,
    Mixed,
}

/// Message format handed to the driver.
#[derive(PartialEq, Eq, Structural, Clone, Copy, Debug)]
pub enum MessageFormat {
    /// Human-readable messages (the default).
    Human,
    /// Structured messages, with the rendering options of the diagnostics.
    Json {
        /// Whether diagnostics are rendered by the driver.
        render_diagnostics: bool,
        /// Whether rendered diagnostics use the short form.
        short: bool,
        /// Whether rendered diagnostics embed ANSI colour codes.
        ansi: bool,
    },
    /// Short messages.
    Short,
}

} // verus!
