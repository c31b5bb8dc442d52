//! Permissions: which one a request names, and what three separate checks
//! add up to.

use crate::accessibility::{PermissionState, PermissionStatus};
use crate::text::same_text;
use vstd::prelude::*;
use vstd::string::StringExecFns;

verus! {

#[derive(Debug, Clone, PartialEq, Eq)]
pub enum PermissionError {
    CheckError(String),
    RequestError(String),
    /// The request named no permission that dictation knows.
    UnknownPermission(String),
}

impl PermissionError {
    pub open spec fn message_spec(self) -> Seq<char> {
        match self {
            PermissionError::CheckError(detail) => "Failed to check permission: "@ + detail@,
            PermissionError::RequestError(detail) => "Failed to request permission: "@ + detail@,
            PermissionError::UnknownPermission(name) => "Unknown permission type: "@ + name@,
        }
    }

    /// The text shown to the user.
    pub fn message(&self) -> (text: String)
        ensures
            text@ == self.message_spec(),
    {
        match self {
            PermissionError::CheckError(detail) => String::from_str(
                "Failed to check permission: ",
            ).concat(detail.as_str()),
            PermissionError::RequestError(detail) => String::from_str(
                "Failed to request permission: ",
            ).concat(detail.as_str()),
            PermissionError::UnknownPermission(name) => String::from_str(
                "Unknown permission type: ",
            ).concat(name.as_str()),
        }
    }
}

/// The permissions by kind.
#[derive(Debug, Clone, Copy, PartialEq, Eq, Structural)]
pub enum PermissionKind {
    Microphone,
    Accessibility,
    InputMonitoring,
}

impl PermissionKind {
    /// The name by which a request refers to this permission.
    pub open spec fn name_spec(self) -> Seq<char> {
        match self {
            PermissionKind::Microphone => "microphone"@,
            PermissionKind::Accessibility => "accessibility"@,
            PermissionKind::InputMonitoring => "input_monitoring"@,
        }
    }

    /// The permission that `name` refers to, if it refers to one.
    pub open spec fn named(name: Seq<char>) -> Option<PermissionKind> {
        if name == "microphone"@ {
            Some(PermissionKind::Microphone)
        } else if name == "accessibility"@ {
            Some(PermissionKind::Accessibility)
        } else if name == "input_monitoring"@ {
            Some(PermissionKind::InputMonitoring)
        } else {
            None
        }
    }

    pub fn name(self) -> (name: &'static str)
        ensures
            name@ == self.name_spec(),
    {
        match self {
            PermissionKind::Microphone => "microphone",
            PermissionKind::Accessibility => "accessibility",
            PermissionKind::InputMonitoring => "input_monitoring",
        }
    }
}

impl PermissionStatus {
    /// The state of the permission of kind `kind`.
    pub open spec fn of_spec(self, kind: PermissionKind) -> PermissionState {
        match kind {
            PermissionKind::Microphone => self.microphone,
            PermissionKind::Accessibility => self.accessibility,
            PermissionKind::InputMonitoring => self.input_monitoring,
        }
    }

    pub fn of(&self, kind: PermissionKind) -> (state: PermissionState)
        ensures
            state == self.of_spec(kind),
    {
        match kind {
            PermissionKind::Microphone => self.microphone,
            PermissionKind::Accessibility => self.accessibility,
            PermissionKind::InputMonitoring => self.input_monitoring,
        }
    }
}

/// Puts three separate checks together. The first check that failed, in
/// the order microphone, accessibility, input monitoring, is the failure of
/// the whole; where none failed the status holds the three states.
pub fn check_all(
    microphone: Result<PermissionState, PermissionError>,
    accessibility: Result<PermissionState, PermissionError>,
    input_monitoring: Result<PermissionState, PermissionError>,
) -> (result: Result<PermissionStatus, PermissionError>)
    ensures
        result == match (microphone, accessibility, input_monitoring) {
            (Err(error), _, _) => Err::<PermissionStatus, PermissionError>(error),
            (Ok(_), Err(error), _) => Err(error),
            (Ok(_), Ok(_), Err(error)) => Err(error),
            (Ok(microphone), Ok(accessibility), Ok(input_monitoring)) => Ok(
                PermissionStatus { microphone, accessibility, input_monitoring },
            ),
        },
{
    let microphone = microphone?;
    let accessibility = accessibility?;
    let input_monitoring = input_monitoring?;
    Ok(PermissionStatus { microphone, accessibility, input_monitoring })
}

/// Says which permission a request by name asks for, so that the caller can
/// prompt for it. A name that refers to none is an error that holds the
/// name.
pub fn request(permission: &str) -> (result: Result<PermissionKind, PermissionError>)
    ensures
        match PermissionKind::named(permission@) {
            Some(kind) => result == Ok::<PermissionKind, PermissionError>(kind),
            None => result is Err && result->Err_0 is UnknownPermission
                && result->Err_0->UnknownPermission_0@ == permission@,
        },
{
    if same_text(permission, "microphone") {
        Ok(PermissionKind::Microphone)
    } else if same_text(permission, "accessibility") {
        Ok(PermissionKind::Accessibility)
    } else if same_text(permission, "input_monitoring") {
        Ok(PermissionKind::InputMonitoring)
    } else {
        Err(PermissionError::UnknownPermission(String::from_str(permission)))
    }
}

/// Every permission is found again by its name.
pub proof fn kind_is_found_by_its_name(kind: PermissionKind)
    ensures
        PermissionKind::named(kind.name_spec()) == Some(kind),
{
    reveal_strlit("microphone");
    reveal_strlit("accessibility");
    reveal_strlit("input_monitoring");
    if kind == PermissionKind::Accessibility {
        assert("accessibility"@.len() != "microphone"@.len());
    }
    if kind == PermissionKind::InputMonitoring {
        assert("input_monitoring"@.len() != "microphone"@.len());
        assert("input_monitoring"@.len() != "accessibility"@.len());
    }
}

} // verus!
