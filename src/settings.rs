use vstd::prelude::*;

use crate::paths::{FsPath, PathModel};

verus! {

/// Whether `text` is one well-formed JSON document.
pub uninterp spec fn json_document(text: Seq<char>) -> bool;

/// Declares `serde_json::Error`, the error `parse_json` hands back.
#[verifier::external_type_specification]
#[verifier::external_body]
pub struct ExJsonError(serde_json::Error);

/// Relies on `serde_json::from_str` into `serde_json::Value`: it accepts
/// exactly the well-formed JSON documents; the value itself is dropped.
#[verifier::external_body]
fn parse_json(text: &str) -> (r: Result<(), serde_json::Error>)
    ensures
        r is Ok == json_document(text@),
{
    match serde_json::from_str::<serde_json::Value>(text) {
        Ok(_) => Ok(()),
        Err(e) => Err(e),
    }
}

/// Checks that preferences or saved paths about to be stored are JSON;
/// nothing else is ever written.
pub fn validate_json_document(text: &str) -> (r: Result<(), serde_json::Error>)
    ensures
        r is Ok == json_document(text@),
{
    parse_json(text)
}

/// The files the shell keeps in its per-user data directory.
#[derive(Clone, Copy, Debug, PartialEq, Eq, Structural)]
pub enum StoreFile {
    Preferences,
    SavedPaths,
    WindowGeometry,
}

pub open spec fn store_file_name(f: StoreFile) -> Seq<char> {
    match f {
        StoreFile::Preferences => "user-preferences.json"@,
        StoreFile::SavedPaths => "saved-paths.json"@,
        StoreFile::WindowGeometry => "window-state.json"@,
    }
}

impl StoreFile {
    /// The file's name.
    pub fn file_name(&self) -> (r: &'static str)
        ensures
            r@ == store_file_name(*self),
    {
        match self {
            StoreFile::Preferences => "user-preferences.json",
            StoreFile::SavedPaths => "saved-paths.json",
            StoreFile::WindowGeometry => "window-state.json",
        }
    }

    /// The file's path in directory `dir`.
    pub fn path_in(&self, dir: &FsPath) -> (r: FsPath)
        ensures
            r@ == dir@.join(store_file_name(*self)),
    {
        dir.join(self.file_name())
    }
}

/// Where preferences are read from.
#[derive(Clone, Copy, Debug, PartialEq, Eq, Structural)]
pub enum SettingsSource {
    /// The file in the data directory.
    Current,
    /// The file in the older configuration directory; it is then moved.
    Legacy,
    /// Neither exists: there are no saved preferences.
    Missing,
}

/// Picks the preferences file to read: the current one first, then the
/// legacy one.
pub fn settings_source(current_exists: bool, legacy_exists: bool) -> (r: SettingsSource)
    ensures
        current_exists ==> r == SettingsSource::Current,
        !current_exists && legacy_exists ==> r == SettingsSource::Legacy,
        !current_exists && !legacy_exists ==> r == SettingsSource::Missing,
{
    if current_exists {
        SettingsSource::Current
    } else if legacy_exists {
        SettingsSource::Legacy
    } else {
        SettingsSource::Missing
    }
}

} // verus!
