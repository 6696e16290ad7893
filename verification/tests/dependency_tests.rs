use launch_orchestrator::dependencies::{
    dependency_check_action, dependency_visibility, resolve_dependency_visibility,
    DependencyCheckAction,
};
use launch_orchestrator::icons::icon_cache_action;

#[test]
fn visibility_shows_matching_families() {
    let v = dependency_visibility(true, false, false);
    assert!(v.show_arch && !v.show_debian && !v.show_fedora && !v.show_list);
    let v = dependency_visibility(false, true, false);
    assert!(!v.show_arch && v.show_debian && !v.show_fedora && !v.show_list);
    let v = dependency_visibility(false, false, true);
    assert!(!v.show_arch && !v.show_debian && v.show_fedora && !v.show_list);
}

#[test]
fn visibility_falls_back_to_generic_list() {
    let v = dependency_visibility(false, false, false);
    assert!(!v.show_arch && !v.show_debian && !v.show_fedora && v.show_list);
}

#[test]
fn unidentified_distribution_shows_generic_list() {
    let v = resolve_dependency_visibility(None);
    assert!(v.show_list);
    assert!(!v.show_arch && !v.show_debian && !v.show_fedora);
}

#[test]
fn identified_distribution_keeps_the_invariant() {
    // what the host identifies as varies; the list shows exactly when no
    // family matched
    let identified = whatadistro::identify();
    let v = resolve_dependency_visibility(identified.as_ref());
    assert_eq!(v.show_list, !v.show_arch && !v.show_debian && !v.show_fedora);
}

#[test]
fn check_proceeds_when_tool_available() {
    assert_eq!(dependency_check_action(true), DependencyCheckAction::Proceed);
}

#[test]
fn check_reports_missing_tool_by_name() {
    assert_eq!(
        dependency_check_action(false),
        DependencyCheckAction::ReportMissing { package: "git".to_owned() }
    );
}

#[test]
fn icon_cache_decisions() {
    let name = "main".to_owned();
    let selected = "main".to_owned();
    let other = "alt".to_owned();

    let a = icon_cache_action(false, false, &name, &selected);
    assert!(!a.remove_old_file && a.download && !a.offer_selected && !a.offer_unselected);

    let a = icon_cache_action(true, false, &name, &selected);
    assert!(a.remove_old_file && a.download);

    let a = icon_cache_action(false, true, &name, &selected);
    assert!(!a.download && a.offer_selected && !a.offer_unselected);

    let a = icon_cache_action(false, true, &name, &other);
    assert!(!a.download && !a.offer_selected && a.offer_unselected);
}
