//! Why a key was put in place.

use vstd::prelude::*;

verus! {

/// The audit reason recorded with each key.
#[derive(Debug, PartialEq, Eq, Hash)]
pub enum RekeyReason {
    /// The first key of an empty key log.
    InitialKey,
    /// An operator asked for a new key.
    ManualRekey,
    /// The key before it had a format version that is no longer supported.
    OutdatedVersion,
    /// The key before it had another window width.
    WindowChanged,
    /// A reason that this version does not know, kept as it was stored.
    Unknown(String),
}

impl RekeyReason {
    /// The text under which the reason is stored.
    pub open spec fn text(&self) -> Seq<char> {
        match self {
            RekeyReason::InitialKey => "InitialKey"@,
            RekeyReason::ManualRekey => "ManualRekey"@,
            RekeyReason::OutdatedVersion => "OutdatedVersion"@,
            RekeyReason::WindowChanged => "WindowChanged"@,
            RekeyReason::Unknown(raw) => raw@,
        }
    }

    /// Whether `text` is the stored form of one of the four known reasons.
    pub open spec fn is_known_text(text: Seq<char>) -> bool {
        text == "InitialKey"@ || text == "ManualRekey"@ || text == "OutdatedVersion"@ || text
            == "WindowChanged"@
    }

    /// The text under which the reason is stored.
    pub fn as_text(&self) -> (text: String)
        ensures
            text@ == self.text(),
    {
        match self {
            RekeyReason::InitialKey => "InitialKey".to_owned(),
            RekeyReason::ManualRekey => "ManualRekey".to_owned(),
            RekeyReason::OutdatedVersion => "OutdatedVersion".to_owned(),
            RekeyReason::WindowChanged => "WindowChanged".to_owned(),
            RekeyReason::Unknown(raw) => raw.clone(),
        }
    }

    /// Reads a stored reason. A text that names none of the known reasons is
    /// kept in `Unknown`.
    pub fn from_text(text: &str) -> (reason: RekeyReason)
        ensures
            reason.text() == text@,
            RekeyReason::is_known_text(text@) <==> !(reason is Unknown),
    {
        let owned = text.to_owned();
        if owned == "InitialKey".to_owned() {
            RekeyReason::InitialKey
        } else if owned == "ManualRekey".to_owned() {
            RekeyReason::ManualRekey
        } else if owned == "OutdatedVersion".to_owned() {
            RekeyReason::OutdatedVersion
        } else if owned == "WindowChanged".to_owned() {
            RekeyReason::WindowChanged
        } else {
            RekeyReason::Unknown(owned)
        }
    }
}

impl Clone for RekeyReason {
    fn clone(&self) -> (copy: RekeyReason)
        ensures
            copy == *self,
    {
        match self {
            RekeyReason::InitialKey => RekeyReason::InitialKey,
            RekeyReason::ManualRekey => RekeyReason::ManualRekey,
            RekeyReason::OutdatedVersion => RekeyReason::OutdatedVersion,
            RekeyReason::WindowChanged => RekeyReason::WindowChanged,
            RekeyReason::Unknown(raw) => RekeyReason::Unknown(raw.clone()),
        }
    }
}

} // verus!
