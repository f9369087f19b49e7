use worbots_setup::data::PersistentData;
use worbots_setup::messages::{
    install_progress_message, install_refusal_message, launch_progress_message,
    launch_refusal_message, unknown_package_message,
};
use worbots_setup::output::{CommonOutput, NullOutput, OutputTrait};
use worbots_setup::package::{all_packages, lookup, Icon, Package, PackageError};

#[test]
fn lookup_roundtrips_every_id() {
    for p in all_packages() {
        let found = lookup(p.id()).unwrap();
        assert_eq!(found, p);
        assert_eq!(found.id(), p.id());
    }
}

#[test]
fn lookup_rejects_unknown_ids() {
    for bad in ["", "WPILib", "wpilib ", "does_not_exist"] {
        match lookup(bad) {
            Ok(p) => panic!("id {:?} resolved to {:?}", bad, p),
            Err(PackageError::UnknownPackage { id }) => assert_eq!(id, bad),
        }
    }
}

#[test]
fn unknown_package_message_enumerates_valid_ids() {
    let ids: Vec<&str> = all_packages().iter().map(|p| p.id()).collect();
    let expected = format!(
        "Unknown package type does_not_exist. Must be one of {}",
        ids.join(", ")
    );
    assert_eq!(unknown_package_message("does_not_exist"), expected);

    let err = lookup("does_not_exist").unwrap_err();
    assert_eq!(err.message(), expected);
}

#[test]
fn children_are_never_directly_installable() {
    for p in all_packages() {
        if p.get_parent().is_some() {
            assert!(!p.can_install(), "{} has a parent yet installs", p.id());
        }
    }
}

#[test]
fn package_ids_are_unique() {
    let all = all_packages();
    for a in &all {
        for b in &all {
            if a != b {
                assert_ne!(a.id(), b.id());
            }
        }
    }
}

#[test]
fn catalog_has_the_expected_shape() {
    let all = all_packages();
    assert_eq!(all.len(), 29);
    assert_eq!(all[0], Package::AdvantageScope);
    assert_eq!(all[28], Package::VSCode);

    assert!(Package::WPILib.can_install());
    assert!(!Package::WPILib.can_launch());
    assert_eq!(Package::WPILib.get_parent(), None);

    assert!(!Package::VSCode.can_install());
    assert!(Package::VSCode.can_launch());
    assert_eq!(Package::VSCode.get_parent(), Some(Package::WPILib));

    let not_launchable: Vec<Package> = all
        .iter()
        .copied()
        .filter(|p| !p.can_launch())
        .collect();
    assert_eq!(
        not_launchable,
        vec![Package::Phoenix, Package::GameTools, Package::WPILib]
    );

    let installable_count = all.iter().filter(|p| p.can_install()).count();
    assert_eq!(installable_count, 11);
}

#[test]
fn display_metadata_spot_checks() {
    assert_eq!(Package::Phoenix.id(), "phoenix");
    assert_eq!(Package::Phoenix.display_name(), "CTRE Phoenix");
    assert_eq!(
        Package::Phoenix.short_description(),
        "Tools for working with CTRE devices"
    );
    assert_eq!(Package::Phoenix.get_icon(), Some(Icon::Ctre));
    assert_eq!(Package::GRIP.get_icon(), None);
    assert_eq!(Package::TeamNumberSetter.display_name(), "roboRIO Team Number Setter");
    assert_eq!(Package::VSCode.get_icon(), Some(Icon::Wpilib));
}

#[test]
fn refusal_and_progress_messages_are_exact() {
    assert_eq!(
        install_refusal_message(Some(Package::WPILib)),
        "This package cannot be installed as it is part of the package wpilib"
    );
    assert_eq!(
        install_refusal_message(None),
        "This package cannot be installed as it is part of another package"
    );
    assert_eq!(
        launch_refusal_message(),
        "This package cannot be launched as it is not a specific program"
    );
    assert_eq!(
        install_progress_message(Package::GRIP),
        "Installing package grip"
    );
    assert_eq!(
        launch_progress_message(Package::VSCode),
        "Launching package vscode"
    );
}

#[test]
fn persistent_data_holds_installed_packages() {
    let data = PersistentData {
        installed_packages: vec![Package::WPILib, Package::Phoenix],
    };
    assert_eq!(data.installed_packages.len(), 2);
    assert_eq!(data.installed_packages[0], Package::WPILib);
}

#[test]
fn output_sinks_accept_messages() {
    let mut null = NullOutput;
    null.progress("quiet");
    null.success("quiet");
    null.instruction("quiet");
    null.continue_prompt();

    let mut common = CommonOutput;
    common.progress("a progress line");
    common.success("a success line");
    common.instruction("an instruction line");
}
