use worbots_setup::display::{join_crlf, padded_display_name, wrapped_description, wrapped_parent_note};
use worbots_setup::package::Package;
use worbots_setup::plan::{
    advantage_scope_preferences, default_install_set, script_tool_path, AssetSource, FinishStep,
    InstallAction, InstallError, LaunchError, LaunchPlan,
};

#[test]
fn child_install_is_refused_with_its_parent() {
    let err = Package::VSCode.install_plan().unwrap_err();
    match err {
        InstallError::NotInstallable { parent } => {
            let parent = parent.unwrap();
            assert_eq!(parent, Package::WPILib);
            assert_eq!(parent.id(), "wpilib");
        }
    }
}

#[test]
fn uninstallable_root_is_refused_without_parent() {
    let err = Package::TaskManager.install_plan().unwrap_err();
    assert_eq!(err, InstallError::NotInstallable { parent: None });
}

#[test]
fn unlaunchable_packages_are_refused() {
    for p in [Package::WPILib, Package::Phoenix, Package::GameTools] {
        assert_eq!(p.launch_plan().unwrap_err(), LaunchError::NotLaunchable);
    }
}

#[test]
fn advantagescope_install_plan() {
    let plan = Package::AdvantageScope.install_plan().unwrap();
    match plan.source {
        AssetSource::Latest { owner, repo, patterns } => {
            assert_eq!(owner, "Mechanical-Advantage");
            assert_eq!(repo, "AdvantageScope");
            assert_eq!(patterns, vec![String::from("win-x64")]);
        }
        other => panic!("unexpected source {:?}", source_kind(&other)),
    }
    assert!(matches!(plan.action, InstallAction::RunInstaller));
    assert!(plan.note.is_none());
    assert_eq!(plan.finish, FinishStep::ConfigureAdvantageScope);
}

#[test]
fn wpilib_install_plan_scans_for_its_season() {
    let plan = Package::WPILib.install_plan().unwrap();
    match plan.source {
        AssetSource::Scan { owner, repo, tag_pattern, asset_pattern } => {
            assert_eq!(owner, "wpilibsuite");
            assert_eq!(repo, "allwpilib");
            assert_eq!(tag_pattern, "2023");
            assert_eq!(asset_pattern, "Windows");
        }
        other => panic!("unexpected source {:?}", source_kind(&other)),
    }
    match plan.action {
        InstallAction::MountImageAndRun { installer_name } => {
            assert_eq!(installer_name, "WPILibInstaller.exe");
        }
        _ => panic!("unexpected action"),
    }
    assert_eq!(plan.finish, FinishStep::Nothing);
}

#[test]
fn pathplanner_install_plan_extracts_an_archive() {
    let plan = Package::PathPlanner.install_plan().unwrap();
    match plan.source {
        AssetSource::Latest { owner, repo, patterns } => {
            assert_eq!(owner, "mjansen4857");
            assert_eq!(repo, "pathplanner");
            assert_eq!(patterns, vec![String::from("Windows.zip")]);
        }
        other => panic!("unexpected source {:?}", source_kind(&other)),
    }
    match plan.action {
        InstallAction::ExtractArchive { target } => assert_eq!(target, "extracted"),
        _ => panic!("unexpected action"),
    }
}

#[test]
fn rev_client_install_plan_is_elevated_with_instructions() {
    let plan = Package::REVClient.install_plan().unwrap();
    match plan.source {
        AssetSource::Scan { owner, repo, tag_pattern, asset_pattern } => {
            assert_eq!(owner, "REVrobotics");
            assert_eq!(repo, "REV-Software-Binaries");
            assert_eq!(tag_pattern, "rhc");
            assert_eq!(asset_pattern, "FRC");
        }
        other => panic!("unexpected source {:?}", source_kind(&other)),
    }
    assert!(matches!(plan.action, InstallAction::RunInstallerElevated));
    assert_eq!(
        plan.note.unwrap(),
        "The installer has started. Follow the steps it gives you"
    );
}

#[test]
fn direct_download_install_plans() {
    let plan = Package::LimelightFinder.install_plan().unwrap();
    match plan.source {
        AssetSource::Direct { url } => assert_eq!(
            url,
            "https://downloads.limelightvision.io/software/LimelightFinderSetup1_0_1.exe"
        ),
        other => panic!("unexpected source {:?}", source_kind(&other)),
    }
    let plan = Package::GithubDesktop.install_plan().unwrap();
    match plan.source {
        AssetSource::Direct { url } => assert_eq!(
            url,
            "https://central.github.com/deployments/desktop/desktop/latest/win32"
        ),
        other => panic!("unexpected source {:?}", source_kind(&other)),
    }
}

fn source_kind(source: &AssetSource) -> &'static str {
    match source {
        AssetSource::Latest { .. } => "latest",
        AssetSource::Scan { .. } => "scan",
        AssetSource::Direct { .. } => "direct",
    }
}

#[test]
fn launch_plans_spot_checks() {
    match Package::VSCode.launch_plan().unwrap() {
        LaunchPlan::Program { path, elevated, wait } => {
            assert_eq!(path, "C:/Users/Public/wpilib/2023/vscode/Code.exe");
            assert!(!elevated);
            assert!(!wait);
        }
        _ => panic!("unexpected plan"),
    }
    match Package::TaskManager.launch_plan().unwrap() {
        LaunchPlan::Program { path, elevated, wait } => {
            assert_eq!(path, "C:/WINDOWS/system32/Taskmgr.exe");
            assert!(elevated);
            assert!(wait);
        }
        _ => panic!("unexpected plan"),
    }
    match Package::Glass.launch_plan().unwrap() {
        LaunchPlan::ScriptTool { script } => assert_eq!(script, "Glass.vbs"),
        _ => panic!("unexpected plan"),
    }
    match Package::WorbotsGithub.launch_plan().unwrap() {
        LaunchPlan::OpenUrl { url } => {
            assert_eq!(url, "https://github.com/Worthington-Robotics")
        }
        _ => panic!("unexpected plan"),
    }
    match Package::CacheCAD.launch_plan().unwrap() {
        LaunchPlan::LocalProgram { project, exe, set_cwd } => {
            assert_eq!(project, "CacheCAD");
            assert_eq!(exe, "CacheCAD_GUI.exe");
            assert!(set_cwd);
        }
        _ => panic!("unexpected plan"),
    }
    match Package::GRIP.launch_plan().unwrap() {
        LaunchPlan::LocalDataProgram { project, exe } => {
            assert_eq!(project, "GRIP");
            assert_eq!(exe, "GRIP.exe");
        }
        _ => panic!("unexpected plan"),
    }
    match Package::PathPlanner.launch_plan().unwrap() {
        LaunchPlan::DataDirProgram { dir, relative } => {
            assert_eq!(dir, "pathplanner");
            assert_eq!(relative, "extracted/pathplanner.exe");
        }
        _ => panic!("unexpected plan"),
    }
}

#[test]
fn script_tool_paths_are_exact() {
    assert_eq!(
        script_tool_path("Glass.vbs"),
        "C:/Users/Public/wpilib/2023/tools/Glass.vbs"
    );
    assert_eq!(
        script_tool_path("DataLogTool.vbs"),
        "C:/Users/Public/wpilib/2023/tools/DataLogTool.vbs"
    );
}

#[test]
fn default_install_set_is_fixed_and_installable() {
    let set = default_install_set();
    assert_eq!(
        set,
        vec![
            Package::Phoenix,
            Package::REVClient,
            Package::AdvantageScope,
            Package::GRIP,
            Package::LimelightFinder,
        ]
    );
    for p in set {
        assert!(p.can_install());
    }
}

#[test]
fn advantage_scope_preferences_are_exact() {
    let prefs = advantage_scope_preferences();
    assert_eq!(
        prefs,
        "{\n  \"theme\": \"system\",\n  \"rioAddress\": \"10.41.45.2\",\n  \"rioPath\": \"/media/sda1/\",\n  \"liveMode\": \"nt4\",\n  \"liveSubscribeMode\": \"low-bandwidth\",\n  \"rlogPort\": 5800\n}"
    );
}

#[test]
fn descriptions_wrap_and_join() {
    let lines = wrapped_description(Package::TaskManager, 12);
    assert_eq!(lines, vec![String::from("The Windows"), String::from("Task Manager")]);
    assert_eq!(join_crlf(&lines), "The Windows\r\nTask Manager");

    let whole = wrapped_description(Package::TaskManager, 100);
    assert_eq!(whole, vec![String::from("The Windows Task Manager")]);

    let note = wrapped_parent_note(Package::WPILib, 30);
    assert_eq!(
        note,
        vec![String::from("Installed from package"), String::from("'WPILib'")]
    );

    assert_eq!(join_crlf(&vec![]), "");
    assert_eq!(join_crlf(&vec![String::from("one")]), "one");
}

#[test]
fn display_names_pad_to_width() {
    assert_eq!(padded_display_name(Package::Glass, 10), "Glass     ");
    assert_eq!(padded_display_name(Package::Glass, 3), "Glass");
    assert_eq!(padded_display_name(Package::Glass, 5), "Glass");
}
