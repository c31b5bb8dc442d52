//! Permissions and text insertion.

pub mod permissions;
pub mod text_insertion;

use vstd::prelude::*;

verus! {

/// What the operating system says of one permission.
#[derive(Debug, Clone, Copy, PartialEq, Eq, Structural)]
pub enum PermissionState {
    Granted,
    Denied,
    NotDetermined,
}

/// The three permissions that dictation needs.
#[derive(Debug, Clone, Copy, PartialEq, Eq, Structural)]
pub struct PermissionStatus {
    pub microphone: PermissionState,
    pub accessibility: PermissionState,
    pub input_monitoring: PermissionState,
}

} // verus!
