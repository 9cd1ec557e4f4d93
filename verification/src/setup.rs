//! What to do about each package, given what its probe printed.
//!
//! Setting a machine up, or clearing it again, goes through the packages in
//! the order of [`packages`]. For each, the caller runs [`probe_command`],
//! hands what it printed to [`is_missing`], and acts on [`plan_step`]: it
//! shows the notice and, if the step has a command, launches and drains it.

use crate::command::{
    gstreamer_probe, gstreamer_probe_view, homebrew_probe, homebrew_probe_view, install_gstreamer,
    install_gstreamer_view, install_homebrew, install_homebrew_view, uninstall_gstreamer,
    uninstall_gstreamer_view, uninstall_homebrew, uninstall_homebrew_view, CommandSpec,
    CommandSpecView,
};
use vstd::prelude::*;

verus! {

/// A package that this crate knows how to install and remove.
#[derive(Clone, Copy, Debug, PartialEq, Eq, Hash, Structural)]
pub enum Package {
    Homebrew,
    Gstreamer,
}

/// What the caller wants of the packages.
#[derive(Clone, Copy, Debug, PartialEq, Eq, Hash, Structural)]
pub enum Goal {
    Install,
    Uninstall,
}

/// What to do about one package: a notice for the user and, unless the
/// package is already as wanted, the command that makes it so.
#[derive(Clone, Debug, PartialEq, Eq)]
pub struct Step {
    pub notice: String,
    pub command: Option<CommandSpec>,
}

/// The mathematical value of a [`Step`].
pub ghost struct StepView {
    pub notice: Seq<char>,
    pub command: Option<CommandSpecView>,
}

impl View for Step {
    type V = StepView;

    open spec fn view(&self) -> StepView {
        StepView {
            notice: self.notice@,
            command: match self.command {
                Some(command) => Some(command@),
                None => None,
            },
        }
    }
}

/// The packages in the order in which they are handled: gstreamer is
/// installed, probed and removed through Homebrew, so Homebrew comes first.
pub open spec fn package_order() -> Seq<Package> {
    seq![Package::Homebrew, Package::Gstreamer]
}

/// The command whose output tells whether `package` is installed.
pub open spec fn probe_view(package: Package) -> CommandSpecView {
    match package {
        Package::Homebrew => homebrew_probe_view(),
        Package::Gstreamer => gstreamer_probe_view(),
    }
}

/// A command is needed when the package is not yet as the goal wants it: to
/// install what is missing, to remove what is there.
pub open spec fn needs_command(goal: Goal, missing: bool) -> bool {
    match goal {
        Goal::Install => missing,
        Goal::Uninstall => !missing,
    }
}

/// The command that brings `package` to `goal`.
pub open spec fn command_view(goal: Goal, package: Package) -> CommandSpecView {
    match (goal, package) {
        (Goal::Install, Package::Homebrew) => install_homebrew_view(),
        (Goal::Install, Package::Gstreamer) => install_gstreamer_view(),
        (Goal::Uninstall, Package::Homebrew) => uninstall_homebrew_view(),
        (Goal::Uninstall, Package::Gstreamer) => uninstall_gstreamer_view(),
    }
}

/// The notice shown for `package`.
pub open spec fn notice_view(goal: Goal, package: Package, missing: bool) -> Seq<char> {
    match (goal, package, missing) {
        (Goal::Install, Package::Homebrew, true) => "Installing Homebrew"@,
        (Goal::Install, Package::Homebrew, false) => "Existing Homebrew installation detected"@,
        (Goal::Install, Package::Gstreamer, true) =>
            "Package gstreamer is not installed, preparing to download and install"@,
        (Goal::Install, Package::Gstreamer, false) =>
            "Existing gstreamer package is already installed"@,
        (Goal::Uninstall, Package::Homebrew, true) => "There is already no Homebrew installation!"@,
        (Goal::Uninstall, Package::Homebrew, false) => "Uninstallting Homebrew"@,
        (Goal::Uninstall, Package::Gstreamer, true) =>
            "There is already no gstreamer formula installed!"@,
        (Goal::Uninstall, Package::Gstreamer, false) => "Uninstallting Gstreamer"@,
    }
}

/// The step taken for `package`.
pub open spec fn step_view(goal: Goal, package: Package, missing: bool) -> StepView {
    StepView {
        notice: notice_view(goal, package, missing),
        command: if needs_command(goal, missing) {
            Some(command_view(goal, package))
        } else {
            None
        },
    }
}

/// The packages in the order in which they are handled.
pub fn packages() -> (order: Vec<Package>)
    ensures
        order@ == package_order(),
{
    let mut order: Vec<Package> = Vec::new();
    order.push(Package::Homebrew);
    order.push(Package::Gstreamer);
    assert(order@ =~= package_order());
    order
}

/// The command whose output tells whether `package` is installed.
pub fn probe_command(package: Package) -> (command: CommandSpec)
    ensures
        command@ == probe_view(package),
{
    match package {
        Package::Homebrew => homebrew_probe(),
        Package::Gstreamer => gstreamer_probe(),
    }
}

/// Reads a probe's standard output: the package is missing exactly when the
/// probe printed nothing at all.
pub fn is_missing(probe_output: &[u8]) -> (missing: bool)
    ensures
        missing == (probe_output@.len() == 0),
{
    probe_output.len() == 0
}

/// The command that brings `package` to `goal`.
pub fn command_for(goal: Goal, package: Package) -> (command: CommandSpec)
    ensures
        command@ == command_view(goal, package),
{
    match goal {
        Goal::Install => match package {
            Package::Homebrew => install_homebrew(),
            Package::Gstreamer => install_gstreamer(),
        },
        Goal::Uninstall => match package {
            Package::Homebrew => uninstall_homebrew(),
            Package::Gstreamer => uninstall_gstreamer(),
        },
    }
}

/// The notice shown for `package`.
pub fn notice_for(goal: Goal, package: Package, missing: bool) -> (notice: String)
    ensures
        notice@ == notice_view(goal, package, missing),
{
    let text = match goal {
        Goal::Install => match package {
            Package::Homebrew => if missing {
                "Installing Homebrew"
            } else {
                "Existing Homebrew installation detected"
            },
            Package::Gstreamer => if missing {
                "Package gstreamer is not installed, preparing to download and install"
            } else {
                "Existing gstreamer package is already installed"
            },
        },
        Goal::Uninstall => match package {
            Package::Homebrew => if missing {
                "There is already no Homebrew installation!"
            } else {
                "Uninstallting Homebrew"
            },
            Package::Gstreamer => if missing {
                "There is already no gstreamer formula installed!"
            } else {
                "Uninstallting Gstreamer"
            },
        },
    };
    text.to_owned()
}

/// Decides what to do about `package` once its probe has told whether it is
/// missing.
pub fn plan_step(goal: Goal, package: Package, missing: bool) -> (step: Step)
    ensures
        step@ == step_view(goal, package, missing),
{
    let wanted = match goal {
        Goal::Install => missing,
        Goal::Uninstall => !missing,
    };
    let command = if wanted {
        Some(command_for(goal, package))
    } else {
        None
    };
    Step { notice: notice_for(goal, package, missing), command }
}

} // verus!
