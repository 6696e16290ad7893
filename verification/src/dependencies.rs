//! Which dependency-installation hints the first-run page shows.
//!
//! The host distribution is identified by an outside collaborator; the page
//! shows the hint for the family it resembles, or the generic package list
//! when none matches or no distribution could be identified. The check for
//! the one required tool decides between moving on and reporting the missing
//! package.

use vstd::prelude::*;

verus! {

/// Which installation hints the page shows. Exactly the matching families are
/// shown, and the generic list exactly when none matches.
#[derive(Debug, Clone, Copy, PartialEq, Eq, Structural)]
pub struct DependencyVisibility {
    pub show_arch: bool,
    pub show_debian: bool,
    pub show_fedora: bool,
    pub show_list: bool,
}

/// The visibility the three family matches ask for: each family's hint shows
/// if and only if it matched, and the generic list shows if and only if none
/// did.
pub fn dependency_visibility(arch: bool, debian: bool, fedora: bool) -> (v: DependencyVisibility)
    ensures
        v.show_arch == arch,
        v.show_debian == debian,
        v.show_fedora == fedora,
        v.show_list == (!arch && !debian && !fedora),
{
    DependencyVisibility {
        show_arch: arch,
        show_debian: debian,
        show_fedora: fedora,
        show_list: !arch && !debian && !fedora,
    }
}

/// Declares whatadistro's `Distro` — the identified host distribution — so
/// that values of it can pass through signatures here. It stays opaque: the
/// library never looks inside one.
#[verifier::external_type_specification]
#[verifier::external_body]
pub struct ExDistro(whatadistro::Distro);

/// Relies on whatadistro's `Distro::is_similar`: whether the identified
/// distribution's id or one of its id-like entries matches the given id.
/// Which they are depends on what the identification read from the host.
#[verifier::external_body]
fn distro_is_similar(d: &whatadistro::Distro, id: &str) -> bool {
    d.is_similar(id)
}

/// The visibility for an identified distribution, or for none: ask the
/// identification about the three known families; with no identification at
/// hand, no family matches and the generic list shows.
pub fn resolve_dependency_visibility(distro: Option<&whatadistro::Distro>) -> (v:
    DependencyVisibility)
    ensures
        v.show_list == (!v.show_arch && !v.show_debian && !v.show_fedora),
        distro is None ==> !v.show_arch && !v.show_debian && !v.show_fedora && v.show_list,
{
    match distro {
        Some(d) => {
            let arch = distro_is_similar(d, "arch");
            let debian = distro_is_similar(d, "debian");
            let fedora = distro_is_similar(d, "fedora");
            dependency_visibility(arch, debian, fedora)
        },
        None => dependency_visibility(false, false, false),
    }
}

/// What the dependency check decides once the required tool's availability is
/// known.
#[derive(Debug, Clone, PartialEq, Eq)]
pub enum DependencyCheckAction {
    /// Report the named package as missing and stay on the page.
    ReportMissing { package: String },
    /// Everything needed is there; move on to the next page.
    Proceed,
}

/// Decide what the dependency check does: proceed exactly when the one
/// required tool is available, and otherwise report it missing by name.
pub fn dependency_check_action(git_available: bool) -> (a: DependencyCheckAction)
    ensures
        git_available ==> a is Proceed,
        !git_available ==> (a matches DependencyCheckAction::ReportMissing { package }
            && package@ == "git"@),
{
    if git_available {
        DependencyCheckAction::Proceed
    } else {
        DependencyCheckAction::ReportMissing { package: "git".to_owned() }
    }
}

} // verus!
