use depsync::config::{GeneralOptions, GlobalOptions};
use depsync::error::ErrorKind;
use depsync::manifest::{TomlDependency, TomlManifest};
use depsync::plan::{
    check_ref_selector, destination, has_ambiguous_ref, plan_dependency, ref_selector, vendor_dir,
    CheckoutState, DependencyPlan, Destination, RefSelector, SyncPolicy,
};

const LENIENT: SyncPolicy = SyncPolicy { prune: false, reject_ambiguous_refs: false };
const STRICT: SyncPolicy = SyncPolicy { prune: false, reject_ambiguous_refs: true };

fn some(text: &str) -> Option<String> {
    Some(text.to_string())
}

fn remote() -> TomlDependency {
    TomlDependency { repo: some("team/lib"), ..TomlDependency::default() }
}

#[test]
fn selector_is_the_one_pin_that_is_set() {
    let branch = TomlDependency { branch: some("main"), ..remote() };
    let tag = TomlDependency { tag: some("v1.2"), ..remote() };
    let rev = TomlDependency { rev: some("0a1b2c"), ..remote() };
    assert_eq!(ref_selector(&branch), RefSelector::Branch("main".to_string()));
    assert_eq!(ref_selector(&tag), RefSelector::Tag("v1.2".to_string()));
    assert_eq!(ref_selector(&rev), RefSelector::Revision("0a1b2c".to_string()));
    assert_eq!(ref_selector(&remote()), RefSelector::Default);
    for dep in [branch, tag, rev, remote()] {
        assert!(!has_ambiguous_ref(&dep));
        assert_eq!(check_ref_selector(&dep, STRICT).unwrap(), ref_selector(&dep));
    }
}

#[test]
fn several_pins_are_ambiguous() {
    let both = TomlDependency { branch: some("main"), tag: some("v1"), ..remote() };
    let other = TomlDependency { branch: some("main"), rev: some("0a"), ..remote() };
    let third = TomlDependency { tag: some("v1"), rev: some("0a"), ..remote() };
    let all = TomlDependency { branch: some("main"), tag: some("v1"), rev: some("0a"), ..remote() };
    for dep in [both, other, third, all] {
        assert!(has_ambiguous_ref(&dep));
        assert_eq!(ref_selector(&dep), RefSelector::Default);
        assert_eq!(check_ref_selector(&dep, LENIENT).unwrap(), RefSelector::Default);
        let error = check_ref_selector(&dep, STRICT).unwrap_err();
        assert_eq!(error.kind, ErrorKind::ResolutionError);
        assert_eq!(error.detail, "more than one of branch, tag and rev");
    }
}

#[test]
fn vendor_directory_is_the_projects_or_the_default() {
    let options = GlobalOptions {
        general: GeneralOptions { default_lib_dir: "VENDOR".to_string() },
        ssh: None,
    };
    let mut manifest = TomlManifest::skeleton("demo", "ann");
    assert_eq!(vendor_dir(&manifest.project, &options), "VENDOR");
    manifest.project.lib_dir = some("third_party");
    assert_eq!(vendor_dir(&manifest.project, &options), "third_party");
}

#[test]
fn destination_honours_into_and_rename() {
    let plain = remote();
    assert_eq!(
        destination(&plain, "lib", "VENDOR"),
        Destination { parent: "VENDOR".to_string(), entry: "lib".to_string() }
    );
    assert_eq!(destination(&plain, "lib", "VENDOR").path(), "VENDOR/lib");
    let moved = TomlDependency { into: some("/opt/deps"), name: some("renamed"), ..remote() };
    assert_eq!(
        destination(&moved, "lib", "VENDOR"),
        Destination { parent: "/opt/deps".to_string(), entry: "renamed".to_string() }
    );
    assert_eq!(destination(&moved, "lib", "VENDOR").path(), "/opt/deps/renamed");
    let renamed = TomlDependency { name: some("other"), ..remote() };
    assert_eq!(destination(&renamed, "lib", "VENDOR").path(), "VENDOR/other");
}

#[test]
fn missing_local_dependency_is_linked_to_the_absolute_cleaned_path() {
    let dep = TomlDependency { path: some("../shared/./lib"), ..TomlDependency::default() };
    let plan = plan_dependency(&dep, "lib", "VENDOR", None, "/work/project", false, LENIENT);
    assert_eq!(
        plan.unwrap(),
        DependencyPlan::Link {
            target: "/work/shared/lib".to_string(),
            link: "/work/project/VENDOR/lib".to_string(),
        }
    );
    let rooted = TomlDependency { path: some("/srv//lib/"), ..TomlDependency::default() };
    let plan = plan_dependency(&rooted, "lib", "/v", None, "/work", false, LENIENT);
    assert_eq!(
        plan.unwrap(),
        DependencyPlan::Link { target: "/srv/lib".to_string(), link: "/v/lib".to_string() }
    );
}

#[test]
fn existing_local_dependency_is_left_alone() {
    let dep = TomlDependency { path: some("../elsewhere"), ..TomlDependency::default() };
    let plan = plan_dependency(&dep, "lib", "VENDOR", None, "/work", true, LENIENT);
    assert_eq!(plan.unwrap(), DependencyPlan::Keep);
}

#[test]
fn path_makes_a_dependency_local_whatever_else_it_says() {
    let dep = TomlDependency {
        path: some("x"),
        git: some("git@h:r"),
        branch: some("a"),
        tag: some("b"),
        ..TomlDependency::default()
    };
    assert_eq!(
        plan_dependency(&dep, "lib", "V", None, "/w", true, STRICT).unwrap(),
        DependencyPlan::Keep
    );
    assert!(matches!(
        plan_dependency(&dep, "lib", "V", None, "/w", false, STRICT).unwrap(),
        DependencyPlan::Link { .. }
    ));
}

#[test]
fn missing_remote_dependency_is_cloned_and_existing_one_converged() {
    let dep = TomlDependency { branch: some("main"), ..remote() };
    let server = Some("example.com");
    assert_eq!(
        plan_dependency(&dep, "lib", "VENDOR", server, "/work", false, LENIENT).unwrap(),
        DependencyPlan::Clone {
            url: "git@example.com:team/lib".to_string(),
            selector: RefSelector::Branch("main".to_string()),
        }
    );
    assert_eq!(
        plan_dependency(&dep, "lib", "VENDOR", server, "/work", true, LENIENT).unwrap(),
        DependencyPlan::Converge {
            url: "git@example.com:team/lib".to_string(),
            selector: RefSelector::Branch("main".to_string()),
        }
    );
}

#[test]
fn explicit_url_needs_no_server() {
    let dep = TomlDependency { git: some("https://host/x.git"), ..TomlDependency::default() };
    assert_eq!(
        plan_dependency(&dep, "x", "VENDOR", None, "/work", false, LENIENT).unwrap(),
        DependencyPlan::Clone {
            url: "https://host/x.git".to_string(),
            selector: RefSelector::Default,
        }
    );
}

#[test]
fn remote_dependency_without_url_is_a_resolution_error() {
    for exists in [false, true] {
        let error =
            plan_dependency(&remote(), "lib", "VENDOR", None, "/work", exists, LENIENT).unwrap_err();
        assert_eq!(error.kind, ErrorKind::ResolutionError);
        assert_eq!(error.detail, "no git url or path");
        let nothing = TomlDependency::default();
        let error = plan_dependency(&nothing, "lib", "VENDOR", Some("example.com"), "/work", exists, LENIENT)
            .unwrap_err();
        assert_eq!(error.detail, "no git url or path");
    }
}

#[test]
fn ambiguous_remote_dependency_follows_the_policy() {
    let dep = TomlDependency { branch: some("main"), tag: some("v1"), ..remote() };
    let server = Some("example.com");
    assert_eq!(
        plan_dependency(&dep, "lib", "VENDOR", server, "/work", false, LENIENT).unwrap(),
        DependencyPlan::Clone {
            url: "git@example.com:team/lib".to_string(),
            selector: RefSelector::Default,
        }
    );
    let error = plan_dependency(&dep, "lib", "VENDOR", server, "/work", false, STRICT).unwrap_err();
    assert_eq!(error.kind, ErrorKind::ResolutionError);
    assert_eq!(error.detail, "more than one of branch, tag and rev");
    let error = plan_dependency(&dep, "lib", "VENDOR", None, "/work", false, STRICT).unwrap_err();
    assert_eq!(error.detail, "no git url or path");
}

#[test]
fn checkout_moves_from_absent_to_cloned_to_converged() {
    assert_eq!(CheckoutState::Absent.advance(), CheckoutState::Cloned);
    assert_eq!(CheckoutState::Cloned.advance(), CheckoutState::Converged);
    assert_eq!(CheckoutState::Converged.advance(), CheckoutState::Converged);
}
