//! The launcher's single decision: launch the application or report failure.

use vstd::prelude::*;
use crate::launch::LaunchSpec;
use crate::launch::Platform;
use crate::launch::entry_point_name;
use crate::launch::javaw_suffix;
use crate::launch::launch_jgnash;
use crate::launch::lib_suffix;
use crate::paths::install_dir_of;

verus! {

/// The one failure the runtime locator reports: no usable Java installation
/// was found on the host.
#[derive(Clone, Copy, PartialEq, Eq, Structural, Debug)]
pub struct RuntimeNotFound;

/// The icon styles a message dialog can carry; `Plain` requests no
/// particular icon.
#[derive(Clone, Copy, PartialEq, Eq, Structural, Debug)]
pub enum Icon {
    Info,
    Error,
    Plain,
}

/// A request to show one modal message dialog.
pub struct DialogRequest {
    pub title: String,
    pub body: String,
    pub icon: Icon,
}

/// The title of the dialog shown when no runtime is found.
pub open spec fn error_title() -> Seq<char> {
    "Error"@
}

/// The body of the dialog shown when no runtime is found.
pub open spec fn error_body() -> Seq<char> {
    "Unable to locate a valid Java installation.\n\nPlease download a JVM from https://adoptopenjdk.net."@
}

/// The fixed dialog shown when no runtime is found: title, body and icon
/// never vary.
pub fn error_dialog() -> (d: DialogRequest)
    ensures
        d.title@ == error_title(),
        d.body@ == error_body(),
        d.icon == Icon::Error,
{
    DialogRequest {
        title: String::from_str("Error"),
        body: String::from_str(
            "Unable to locate a valid Java installation.\n\nPlease download a JVM from https://adoptopenjdk.net.",
        ),
        icon: Icon::Error,
    }
}

/// What the launcher does next: spawn the application, or show one error
/// dialog and stop.
pub enum Action {
    Launch(LaunchSpec),
    ShowError(DialogRequest),
}

/// The launcher's whole decision.  A located runtime home leads to exactly
/// one launch with the computed paths; a locator failure leads to exactly
/// one error dialog with the fixed title, body and icon, and to no launch.
pub fn decide(platform: Platform, located: Result<String, RuntimeNotFound>, exe_path: Option<String>) -> (a: Action)
    ensures
        located matches Ok(home) ==> (a matches Action::Launch(spec)
            && spec.java_exe@ == home@ + javaw_suffix(platform)
            && spec.class_path@ == install_dir_of(exe_path) + lib_suffix()
            && spec.entry_point@ == entry_point_name()),
        located is Err ==> (a matches Action::ShowError(d)
            && d.title@ == error_title()
            && d.body@ == error_body()
            && d.icon == Icon::Error),
{
    match located {
        Ok(home) => Action::Launch(launch_jgnash(platform, home, exe_path)),
        Err(_) => Action::ShowError(error_dialog()),
    }
}

} // verus!
