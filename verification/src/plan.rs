//! Install and launch dispatch.
//!
//! An install or launch routine mixes decisions with work only the host can
//! do: network transfers, file writes, process spawns. The decisions live
//! here — each package resolves to a *plan*, plain data saying where its
//! payload comes from and what to do with it — and the host executes the
//! plan. Resolution is gated on the catalog's capability flags: a package
//! that cannot be installed or launched is refused here, before any outside
//! work could start.

use vstd::prelude::*;

verus! {

use crate::package::{Package, spec_can_install, spec_can_launch, spec_parent};
use vstd::string::StringExecFns;

/// Where an installer payload is downloaded from.
#[derive(Debug)]
pub enum AssetSource {
    /// The first asset of the project's latest release whose file name
    /// contains every pattern.
    Latest { owner: String, repo: String, patterns: Vec<String> },
    /// Walk all releases of the project: the first release whose tag
    /// contains `tag_pattern` and which has an asset whose name contains
    /// `asset_pattern` supplies that asset.
    Scan { owner: String, repo: String, tag_pattern: String, asset_pattern: String },
    /// A fixed download URL.
    Direct { url: String },
}

/// Mathematical image of an `AssetSource`.
#[verifier::ext_equal]
pub enum AssetSourceView {
    Latest { owner: Seq<char>, repo: Seq<char>, patterns: Seq<Seq<char>> },
    Scan { owner: Seq<char>, repo: Seq<char>, tag_pattern: Seq<char>, asset_pattern: Seq<char> },
    Direct { url: Seq<char> },
}

impl View for AssetSource {
    type V = AssetSourceView;

    open spec fn view(&self) -> AssetSourceView {
        match self {
            AssetSource::Latest { owner, repo, patterns } => AssetSourceView::Latest {
                owner: owner@,
                repo: repo@,
                patterns: patterns.deep_view(),
            },
            AssetSource::Scan { owner, repo, tag_pattern, asset_pattern } => AssetSourceView::Scan {
                owner: owner@,
                repo: repo@,
                tag_pattern: tag_pattern@,
                asset_pattern: asset_pattern@,
            },
            AssetSource::Direct { url } => AssetSourceView::Direct { url: url@ },
        }
    }
}

/// What to do with a downloaded installer payload.
#[derive(Debug)]
pub enum InstallAction {
    /// Write the payload to disk, run it as a program and wait for it.
    RunInstaller,
    /// Run the written payload with elevated privileges and leave it to the
    /// user to finish.
    RunInstallerElevated,
    /// The payload is an archive: unpack it under the given subdirectory.
    ExtractArchive { target: String },
    /// The payload is a disk image: mount it and run the named program from
    /// the mounted drive.
    MountImageAndRun { installer_name: String },
}

/// Mathematical image of an `InstallAction`.
#[verifier::ext_equal]
pub enum InstallActionView {
    RunInstaller,
    RunInstallerElevated,
    ExtractArchive { target: Seq<char> },
    MountImageAndRun { installer_name: Seq<char> },
}

impl View for InstallAction {
    type V = InstallActionView;

    open spec fn view(&self) -> InstallActionView {
        match self {
            InstallAction::RunInstaller => InstallActionView::RunInstaller,
            InstallAction::RunInstallerElevated => InstallActionView::RunInstallerElevated,
            InstallAction::ExtractArchive { target } => InstallActionView::ExtractArchive {
                target: target@,
            },
            InstallAction::MountImageAndRun { installer_name } => {
                InstallActionView::MountImageAndRun { installer_name: installer_name@ }
            },
        }
    }
}

/// Extra work after the installer has finished.
#[derive(Clone, Copy, Debug, PartialEq, Eq, Structural)]
pub enum FinishStep {
    Nothing,
    /// Write the bundled preference and controller files for AdvantageScope.
    ConfigureAdvantageScope,
}

/// Everything the host needs to install one package: the payload source,
/// what to do with the payload, an instruction to show the user when the
/// installer starts, and what remains afterwards. The payload is staged
/// under the data subdirectory named by the package's id.
#[derive(Debug)]
pub struct InstallPlan {
    pub source: AssetSource,
    pub action: InstallAction,
    pub note: Option<String>,
    pub finish: FinishStep,
}

/// Mathematical image of an `InstallPlan`.
#[verifier::ext_equal]
pub struct InstallPlanView {
    pub source: AssetSourceView,
    pub action: InstallActionView,
    pub note: Option<Seq<char>>,
    pub finish: FinishStep,
}

impl View for InstallPlan {
    type V = InstallPlanView;

    open spec fn view(&self) -> InstallPlanView {
        InstallPlanView {
            source: self.source@,
            action: self.action@,
            note: match self.note {
                Some(n) => Some(n@),
                None => None,
            },
            finish: self.finish,
        }
    }
}

/// Failure of an install request.
#[derive(Debug, PartialEq, Eq, Clone, Copy)]
pub enum InstallError {
    /// The package cannot be installed directly; when it has a parent, that
    /// parent's installation provides it.
    NotInstallable { parent: Option<Package> },
}

/// Failure of a launch request.
#[derive(Debug, PartialEq, Eq, Clone, Copy)]
pub enum LaunchError {
    /// The package is not a specific program that could be started.
    NotLaunchable,
}

/// The install plan of every directly installable package.
pub open spec fn spec_install_plan(p: Package) -> InstallPlanView {
    match p {
        Package::AdvantageScope => InstallPlanView {
            source: AssetSourceView::Latest {
                owner: "Mechanical-Advantage"@,
                repo: "AdvantageScope"@,
                patterns: seq!["win-x64"@],
            },
            action: InstallActionView::RunInstaller,
            note: None,
            finish: FinishStep::ConfigureAdvantageScope,
        },
        Package::CacheCAD => InstallPlanView {
            source: AssetSourceView::Direct {
                url: "https://drive.google.com/uc?export=download&id=1M0O8KoP2JmWFuwO7RJNRggehF6l53jJE&confirm=t&uuid=22ead10c-923a-4d7e-b1d5-17758bc282b2&at=AB6BwCDs19_YnorJcuXHkfS2yJIW:1698016272600"@,
            },
            action: InstallActionView::RunInstaller,
            note: None,
            finish: FinishStep::Nothing,
        },
        Package::Phoenix => InstallPlanView {
            source: AssetSourceView::Latest {
                owner: "CrossTheRoadElec"@,
                repo: "Phoenix-Releases"@,
                patterns: seq![".exe"@],
            },
            action: InstallActionView::RunInstaller,
            note: Some("Click next/I agree on every option"@),
            finish: FinishStep::Nothing,
        },
        Package::Etcher => InstallPlanView {
            source: AssetSourceView::Latest {
                owner: "balena-io"@,
                repo: "etcher"@,
                patterns: seq![".exe"@, "Setup"@],
            },
            action: InstallActionView::RunInstaller,
            note: None,
            finish: FinishStep::Nothing,
        },
        Package::GameTools => InstallPlanView {
            source: AssetSourceView::Direct {
                url: "https://download.ni.com/support/nipkg/products/ni-f/ni-frc-2023-game-tools/23.1/online/ni-frc-2023-game-tools_23.1_online.exe"@,
            },
            action: InstallActionView::RunInstaller,
            note: None,
            finish: FinishStep::Nothing,
        },
        Package::GithubDesktop => InstallPlanView {
            source: AssetSourceView::Direct {
                url: "https://central.github.com/deployments/desktop/desktop/latest/win32"@,
            },
            action: InstallActionView::RunInstaller,
            note: None,
            finish: FinishStep::Nothing,
        },
        Package::GRIP => InstallPlanView {
            source: AssetSourceView::Latest {
                owner: "WPIRoboticsProjects"@,
                repo: "GRIP"@,
                patterns: seq!["x64.exe"@],
            },
            action: InstallActionView::RunInstaller,
            note: None,
            finish: FinishStep::Nothing,
        },
        Package::LimelightFinder => InstallPlanView {
            source: AssetSourceView::Direct {
                url: "https://downloads.limelightvision.io/software/LimelightFinderSetup1_0_1.exe"@,
            },
            action: InstallActionView::RunInstaller,
            note: None,
            finish: FinishStep::Nothing,
        },
        Package::PathPlanner => InstallPlanView {
            source: AssetSourceView::Latest {
                owner: "mjansen4857"@,
                repo: "pathplanner"@,
                patterns: seq!["Windows.zip"@],
            },
            action: InstallActionView::ExtractArchive { target: "extracted"@ },
            note: None,
            finish: FinishStep::Nothing,
        },
        Package::REVClient => InstallPlanView {
            source: AssetSourceView::Scan {
                owner: "REVrobotics"@,
                repo: "REV-Software-Binaries"@,
                tag_pattern: "rhc"@,
                asset_pattern: "FRC"@,
            },
            action: InstallActionView::RunInstallerElevated,
            note: Some("The installer has started. Follow the steps it gives you"@),
            finish: FinishStep::Nothing,
        },
        Package::WPILib => InstallPlanView {
            source: AssetSourceView::Scan {
                owner: "wpilibsuite"@,
                repo: "allwpilib"@,
                tag_pattern: "2023"@,
                asset_pattern: "Windows"@,
            },
            action: InstallActionView::MountImageAndRun {
                installer_name: "WPILibInstaller.exe"@,
            },
            note: None,
            finish: FinishStep::Nothing,
        },
        _ => arbitrary(),
    }
}

impl Package {
    /// Resolve the package to its install plan. Succeeds exactly on the
    /// directly installable packages; anything else is refused without side
    /// effects, naming the parent that provides the package when there is
    /// one.
    pub fn install_plan(&self) -> (r: Result<InstallPlan, InstallError>)
        ensures
            spec_can_install(*self) ==> (r matches Ok(plan) && plan@ == spec_install_plan(*self)),
            !spec_can_install(*self) ==> (r matches Err(e) && e == InstallError::NotInstallable {
                parent: spec_parent(*self),
            }),
    {
        match self {
            Package::AdvantageScope => {
                let plan = InstallPlan {
                    source: AssetSource::Latest {
                        owner: String::from_str("Mechanical-Advantage"),
                        repo: String::from_str("AdvantageScope"),
                        patterns: vec![String::from_str("win-x64")],
                    },
                    action: InstallAction::RunInstaller,
                    note: None,
                    finish: FinishStep::ConfigureAdvantageScope,
                };
                proof {
                    assert(plan@ =~~= spec_install_plan(*self));
                }
                Ok(plan)
            },
            Package::CacheCAD => {
                let plan = InstallPlan {
                    source: AssetSource::Direct {
                        url: String::from_str(
                            "https://drive.google.com/uc?export=download&id=1M0O8KoP2JmWFuwO7RJNRggehF6l53jJE&confirm=t&uuid=22ead10c-923a-4d7e-b1d5-17758bc282b2&at=AB6BwCDs19_YnorJcuXHkfS2yJIW:1698016272600",
                        ),
                    },
                    action: InstallAction::RunInstaller,
                    note: None,
                    finish: FinishStep::Nothing,
                };
                proof {
                    assert(plan@ =~~= spec_install_plan(*self));
                }
                Ok(plan)
            },
            Package::Phoenix => {
                let plan = InstallPlan {
                    source: AssetSource::Latest {
                        owner: String::from_str("CrossTheRoadElec"),
                        repo: String::from_str("Phoenix-Releases"),
                        patterns: vec![String::from_str(".exe")],
                    },
                    action: InstallAction::RunInstaller,
                    note: Some(String::from_str("Click next/I agree on every option")),
                    finish: FinishStep::Nothing,
                };
                proof {
                    assert(plan@ =~~= spec_install_plan(*self));
                }
                Ok(plan)
            },
            Package::Etcher => {
                let plan = InstallPlan {
                    source: AssetSource::Latest {
                        owner: String::from_str("balena-io"),
                        repo: String::from_str("etcher"),
                        patterns: vec![String::from_str(".exe"), String::from_str("Setup")],
                    },
                    action: InstallAction::RunInstaller,
                    note: None,
                    finish: FinishStep::Nothing,
                };
                proof {
                    assert(plan@ =~~= spec_install_plan(*self));
                }
                Ok(plan)
            },
            Package::GameTools => {
                let plan = InstallPlan {
                    source: AssetSource::Direct {
                        url: String::from_str(
                            "https://download.ni.com/support/nipkg/products/ni-f/ni-frc-2023-game-tools/23.1/online/ni-frc-2023-game-tools_23.1_online.exe",
                        ),
                    },
                    action: InstallAction::RunInstaller,
                    note: None,
                    finish: FinishStep::Nothing,
                };
                proof {
                    assert(plan@ =~~= spec_install_plan(*self));
                }
                Ok(plan)
            },
            Package::GithubDesktop => {
                let plan = InstallPlan {
                    source: AssetSource::Direct {
                        url: String::from_str(
                            "https://central.github.com/deployments/desktop/desktop/latest/win32",
                        ),
                    },
                    action: InstallAction::RunInstaller,
                    note: None,
                    finish: FinishStep::Nothing,
                };
                proof {
                    assert(plan@ =~~= spec_install_plan(*self));
                }
                Ok(plan)
            },
            Package::GRIP => {
                let plan = InstallPlan {
                    source: AssetSource::Latest {
                        owner: String::from_str("WPIRoboticsProjects"),
                        repo: String::from_str("GRIP"),
                        patterns: vec![String::from_str("x64.exe")],
                    },
                    action: InstallAction::RunInstaller,
                    note: None,
                    finish: FinishStep::Nothing,
                };
                proof {
                    assert(plan@ =~~= spec_install_plan(*self));
                }
                Ok(plan)
            },
            Package::LimelightFinder => {
                let plan = InstallPlan {
                    source: AssetSource::Direct {
                        url: String::from_str(
                            "https://downloads.limelightvision.io/software/LimelightFinderSetup1_0_1.exe",
                        ),
                    },
                    action: InstallAction::RunInstaller,
                    note: None,
                    finish: FinishStep::Nothing,
                };
                proof {
                    assert(plan@ =~~= spec_install_plan(*self));
                }
                Ok(plan)
            },
            Package::PathPlanner => {
                let plan = InstallPlan {
                    source: AssetSource::Latest {
                        owner: String::from_str("mjansen4857"),
                        repo: String::from_str("pathplanner"),
                        patterns: vec![String::from_str("Windows.zip")],
                    },
                    action: InstallAction::ExtractArchive {
                        target: String::from_str("extracted"),
                    },
                    note: None,
                    finish: FinishStep::Nothing,
                };
                proof {
                    assert(plan@ =~~= spec_install_plan(*self));
                }
                Ok(plan)
            },
            Package::REVClient => {
                let plan = InstallPlan {
                    source: AssetSource::Scan {
                        owner: String::from_str("REVrobotics"),
                        repo: String::from_str("REV-Software-Binaries"),
                        tag_pattern: String::from_str("rhc"),
                        asset_pattern: String::from_str("FRC"),
                    },
                    action: InstallAction::RunInstallerElevated,
                    note: Some(
                        String::from_str("The installer has started. Follow the steps it gives you"),
                    ),
                    finish: FinishStep::Nothing,
                };
                proof {
                    assert(plan@ =~~= spec_install_plan(*self));
                }
                Ok(plan)
            },
            Package::WPILib => {
                let plan = InstallPlan {
                    source: AssetSource::Scan {
                        owner: String::from_str("wpilibsuite"),
                        repo: String::from_str("allwpilib"),
                        tag_pattern: String::from_str("2023"),
                        asset_pattern: String::from_str("Windows"),
                    },
                    action: InstallAction::MountImageAndRun {
                        installer_name: String::from_str("WPILibInstaller.exe"),
                    },
                    note: None,
                    finish: FinishStep::Nothing,
                };
                proof {
                    assert(plan@ =~~= spec_install_plan(*self));
                }
                Ok(plan)
            },
            _ => Err(InstallError::NotInstallable { parent: self.get_parent() }),
        }
    }
}

/// Everything the host needs to launch one package.
#[derive(Debug)]
pub enum LaunchPlan {
    /// Start the program at a fixed path; optionally through the elevation
    /// trampoline, optionally waiting for it to finish.
    Program { path: String, elevated: bool, wait: bool },
    /// Start `exe` out of the per-user programs directory of `project`;
    /// optionally with the working directory set to the program's own.
    LocalProgram { project: String, exe: String, set_cwd: bool },
    /// Start `exe` out of the per-user local data directory of `project`.
    LocalDataProgram { project: String, exe: String },
    /// Start the program at `relative` under the tool's own data
    /// subdirectory `dir`.
    DataDirProgram { dir: String, relative: String },
    /// Run the named script out of the standard tools directory through the
    /// script host.
    ScriptTool { script: String },
    /// Open the URL with the default handler.
    OpenUrl { url: String },
}

/// Mathematical image of a `LaunchPlan`.
#[verifier::ext_equal]
pub enum LaunchPlanView {
    Program { path: Seq<char>, elevated: bool, wait: bool },
    LocalProgram { project: Seq<char>, exe: Seq<char>, set_cwd: bool },
    LocalDataProgram { project: Seq<char>, exe: Seq<char> },
    DataDirProgram { dir: Seq<char>, relative: Seq<char> },
    ScriptTool { script: Seq<char> },
    OpenUrl { url: Seq<char> },
}

impl View for LaunchPlan {
    type V = LaunchPlanView;

    open spec fn view(&self) -> LaunchPlanView {
        match self {
            LaunchPlan::Program { path, elevated, wait } => LaunchPlanView::Program {
                path: path@,
                elevated: *elevated,
                wait: *wait,
            },
            LaunchPlan::LocalProgram { project, exe, set_cwd } => LaunchPlanView::LocalProgram {
                project: project@,
                exe: exe@,
                set_cwd: *set_cwd,
            },
            LaunchPlan::LocalDataProgram { project, exe } => LaunchPlanView::LocalDataProgram {
                project: project@,
                exe: exe@,
            },
            LaunchPlan::DataDirProgram { dir, relative } => LaunchPlanView::DataDirProgram {
                dir: dir@,
                relative: relative@,
            },
            LaunchPlan::ScriptTool { script } => LaunchPlanView::ScriptTool { script: script@ },
            LaunchPlan::OpenUrl { url } => LaunchPlanView::OpenUrl { url: url@ },
        }
    }
}

/// The launch plan of every launchable package.
pub open spec fn spec_launch_plan(p: Package) -> LaunchPlanView {
    match p {
        Package::AdvantageScope => LaunchPlanView::LocalProgram {
            project: "advantagescope"@,
            exe: "AdvantageScope.exe"@,
            set_cwd: false,
        },
        Package::CacheCAD => LaunchPlanView::LocalProgram {
            project: "CacheCAD"@,
            exe: "CacheCAD_GUI.exe"@,
            set_cwd: true,
        },
        Package::DSLogViewer => LaunchPlanView::Program {
            path: "C:/Program Files (x86)/FRC Driver Station/DS_LogFileViewer.exe"@,
            elevated: false,
            wait: false,
        },
        Package::Etcher => LaunchPlanView::LocalProgram {
            project: "balena-etcher"@,
            exe: "balenaEtcher.exe"@,
            set_cwd: false,
        },
        Package::DriverStation => LaunchPlanView::Program {
            path: "C:/Program Files (x86)/FRC Driver Station/DriverStation.exe"@,
            elevated: true,
            wait: false,
        },
        Package::GameManual => LaunchPlanView::OpenUrl {
            url: "https://firstfrc.blob.core.windows.net/frc2023/Manual/2023FRCGameManual.pdf"@,
        },
        Package::GithubDesktop => LaunchPlanView::LocalDataProgram {
            project: "GitHubDesktop"@,
            exe: "GitHubDesktop.exe"@,
        },
        Package::Glass => LaunchPlanView::ScriptTool { script: "Glass.vbs"@ },
        Package::GRIP => LaunchPlanView::LocalDataProgram { project: "GRIP"@, exe: "GRIP.exe"@ },
        Package::LimelightFinder => LaunchPlanView::LocalProgram {
            project: "Limelight_Finder"@,
            exe: "Limelight Finder.exe"@,
            set_cwd: false,
        },
        Package::PathPlanner => LaunchPlanView::DataDirProgram {
            dir: "pathplanner"@,
            relative: "extracted/pathplanner.exe"@,
        },
        Package::PathWeaver => LaunchPlanView::ScriptTool { script: "PathWeaver.vbs"@ },
        Package::PhoenixTuner => LaunchPlanView::Program {
            path: "C:/Program Files (x86)/CTRE/Phoenix Tuner/Phoenix Tuner.exe"@,
            elevated: false,
            wait: false,
        },
        Package::RadioUtility => LaunchPlanView::Program {
            path: "C:/Program Files (x86)/FRC Radio Configuration Utility/FRC Radio Configuration Utility.exe"@,
            elevated: true,
            wait: false,
        },
        Package::REVClient => LaunchPlanView::Program {
            path: "C:/Program Files (x86)/REV Robotics/REV Hardware Client/REV Hardware Client.exe"@,
            elevated: false,
            wait: false,
        },
        Package::RIOImagingTool => LaunchPlanView::Program {
            path: "C:/Program Files (x86)/National Instruments/LabVIEW 2020/project/roboRIO Tool/roboRIO_ImagingTool.exe"@,
            elevated: false,
            wait: false,
        },
        Package::TaskManager => LaunchPlanView::Program {
            path: "C:/WINDOWS/system32/Taskmgr.exe"@,
            elevated: true,
            wait: true,
        },
        Package::TeamNumberSetter => LaunchPlanView::ScriptTool {
            script: "roboRIOTeamNumberSetter.vbs"@,
        },
        Package::Shuffleboard => LaunchPlanView::ScriptTool { script: "Shuffleboard.vbs"@ },
        Package::WorbotsGithub => LaunchPlanView::OpenUrl {
            url: "https://github.com/Worthington-Robotics"@,
        },
        Package::DataLogTool => LaunchPlanView::ScriptTool { script: "DataLogTool.vbs"@ },
        Package::WPILibDocs => LaunchPlanView::OpenUrl {
            url: "https://docs.wpilib.org/en/stable/index.html"@,
        },
        Package::OutlineViewer => LaunchPlanView::ScriptTool { script: "OutlineViewer.vbs"@ },
        Package::RobotBuilder => LaunchPlanView::ScriptTool { script: "RobotBuilder.vbs"@ },
        Package::SysId => LaunchPlanView::ScriptTool { script: "SysId.vbs"@ },
        Package::VSCode => LaunchPlanView::Program {
            path: "C:/Users/Public/wpilib/2023/vscode/Code.exe"@,
            elevated: false,
            wait: false,
        },
        _ => arbitrary(),
    }
}

impl Package {
    /// Resolve the package to its launch plan. Succeeds exactly on the
    /// launchable packages; anything else is refused without side effects.
    pub fn launch_plan(&self) -> (r: Result<LaunchPlan, LaunchError>)
        ensures
            spec_can_launch(*self) ==> (r matches Ok(plan) && plan@ == spec_launch_plan(*self)),
            !spec_can_launch(*self) ==> (r matches Err(e) && e == LaunchError::NotLaunchable),
    {
        match self {
            Package::AdvantageScope => Ok(
                LaunchPlan::LocalProgram {
                    project: String::from_str("advantagescope"),
                    exe: String::from_str("AdvantageScope.exe"),
                    set_cwd: false,
                },
            ),
            Package::CacheCAD => Ok(
                LaunchPlan::LocalProgram {
                    project: String::from_str("CacheCAD"),
                    exe: String::from_str("CacheCAD_GUI.exe"),
                    set_cwd: true,
                },
            ),
            Package::DSLogViewer => Ok(
                LaunchPlan::Program {
                    path: String::from_str(
                        "C:/Program Files (x86)/FRC Driver Station/DS_LogFileViewer.exe",
                    ),
                    elevated: false,
                    wait: false,
                },
            ),
            Package::Etcher => Ok(
                LaunchPlan::LocalProgram {
                    project: String::from_str("balena-etcher"),
                    exe: String::from_str("balenaEtcher.exe"),
                    set_cwd: false,
                },
            ),
            Package::DriverStation => Ok(
                LaunchPlan::Program {
                    path: String::from_str(
                        "C:/Program Files (x86)/FRC Driver Station/DriverStation.exe",
                    ),
                    elevated: true,
                    wait: false,
                },
            ),
            Package::GameManual => Ok(
                LaunchPlan::OpenUrl {
                    url: String::from_str(
                        "https://firstfrc.blob.core.windows.net/frc2023/Manual/2023FRCGameManual.pdf",
                    ),
                },
            ),
            Package::GithubDesktop => Ok(
                LaunchPlan::LocalDataProgram {
                    project: String::from_str("GitHubDesktop"),
                    exe: String::from_str("GitHubDesktop.exe"),
                },
            ),
            Package::Glass => Ok(LaunchPlan::ScriptTool { script: String::from_str("Glass.vbs") }),
            Package::GRIP => Ok(
                LaunchPlan::LocalDataProgram {
                    project: String::from_str("GRIP"),
                    exe: String::from_str("GRIP.exe"),
                },
            ),
            Package::LimelightFinder => Ok(
                LaunchPlan::LocalProgram {
                    project: String::from_str("Limelight_Finder"),
                    exe: String::from_str("Limelight Finder.exe"),
                    set_cwd: false,
                },
            ),
            Package::PathPlanner => Ok(
                LaunchPlan::DataDirProgram {
                    dir: String::from_str("pathplanner"),
                    relative: String::from_str("extracted/pathplanner.exe"),
                },
            ),
            Package::PathWeaver => Ok(
                LaunchPlan::ScriptTool { script: String::from_str("PathWeaver.vbs") },
            ),
            Package::PhoenixTuner => Ok(
                LaunchPlan::Program {
                    path: String::from_str(
                        "C:/Program Files (x86)/CTRE/Phoenix Tuner/Phoenix Tuner.exe",
                    ),
                    elevated: false,
                    wait: false,
                },
            ),
            Package::RadioUtility => Ok(
                LaunchPlan::Program {
                    path: String::from_str(
                        "C:/Program Files (x86)/FRC Radio Configuration Utility/FRC Radio Configuration Utility.exe",
                    ),
                    elevated: true,
                    wait: false,
                },
            ),
            Package::REVClient => Ok(
                LaunchPlan::Program {
                    path: String::from_str(
                        "C:/Program Files (x86)/REV Robotics/REV Hardware Client/REV Hardware Client.exe",
                    ),
                    elevated: false,
                    wait: false,
                },
            ),
            Package::RIOImagingTool => Ok(
                LaunchPlan::Program {
                    path: String::from_str(
                        "C:/Program Files (x86)/National Instruments/LabVIEW 2020/project/roboRIO Tool/roboRIO_ImagingTool.exe",
                    ),
                    elevated: false,
                    wait: false,
                },
            ),
            Package::TaskManager => Ok(
                LaunchPlan::Program {
                    path: String::from_str("C:/WINDOWS/system32/Taskmgr.exe"),
                    elevated: true,
                    wait: true,
                },
            ),
            Package::TeamNumberSetter => Ok(
                LaunchPlan::ScriptTool { script: String::from_str("roboRIOTeamNumberSetter.vbs") },
            ),
            Package::Shuffleboard => Ok(
                LaunchPlan::ScriptTool { script: String::from_str("Shuffleboard.vbs") },
            ),
            Package::WorbotsGithub => Ok(
                LaunchPlan::OpenUrl {
                    url: String::from_str("https://github.com/Worthington-Robotics"),
                },
            ),
            Package::DataLogTool => Ok(
                LaunchPlan::ScriptTool { script: String::from_str("DataLogTool.vbs") },
            ),
            Package::WPILibDocs => Ok(
                LaunchPlan::OpenUrl {
                    url: String::from_str("https://docs.wpilib.org/en/stable/index.html"),
                },
            ),
            Package::OutlineViewer => Ok(
                LaunchPlan::ScriptTool { script: String::from_str("OutlineViewer.vbs") },
            ),
            Package::RobotBuilder => Ok(
                LaunchPlan::ScriptTool { script: String::from_str("RobotBuilder.vbs") },
            ),
            Package::SysId => Ok(LaunchPlan::ScriptTool { script: String::from_str("SysId.vbs") }),
            Package::VSCode => Ok(
                LaunchPlan::Program {
                    path: String::from_str("C:/Users/Public/wpilib/2023/vscode/Code.exe"),
                    elevated: false,
                    wait: false,
                },
            ),
            _ => Err(LaunchError::NotLaunchable),
        }
    }
}

/// The full path of a script in the standard tools directory.
pub fn script_tool_path(script: &str) -> (r: String)
    ensures
        r@ == "C:/Users/Public/wpilib/2023/tools/"@ + script@,
{
    let mut out = String::from_str("C:/Users/Public/wpilib/2023/tools/");
    out.append(script);
    out
}

/// The preference file written for AdvantageScope after its installation.
pub fn advantage_scope_preferences() -> (r: String)
    ensures
        r@
            == "{\n  \"theme\": \"system\",\n  \"rioAddress\": \"10.41.45.2\",\n  \"rioPath\": \"/media/sda1/\",\n  \"liveMode\": \"nt4\",\n  \"liveSubscribeMode\": \"low-bandwidth\",\n  \"rlogPort\": 5800\n}"@,
{
    String::from_str(
        "{\n  \"theme\": \"system\",\n  \"rioAddress\": \"10.41.45.2\",\n  \"rioPath\": \"/media/sda1/\",\n  \"liveMode\": \"nt4\",\n  \"liveSubscribeMode\": \"low-bandwidth\",\n  \"rlogPort\": 5800\n}",
    )
}

/// The fixed set installed by the install-everything command, in order.
pub fn default_install_set() -> (r: Vec<Package>)
    ensures
        r@ == seq![
            Package::Phoenix,
            Package::REVClient,
            Package::AdvantageScope,
            Package::GRIP,
            Package::LimelightFinder,
        ],
        forall|i: int| 0 <= i < r@.len() ==> spec_can_install(r@[i]),
{
    let mut v: Vec<Package> = Vec::new();
    v.push(Package::Phoenix);
    v.push(Package::REVClient);
    v.push(Package::AdvantageScope);
    v.push(Package::GRIP);
    v.push(Package::LimelightFinder);
    proof {
        assert(v@ =~= seq![
            Package::Phoenix,
            Package::REVClient,
            Package::AdvantageScope,
            Package::GRIP,
            Package::LimelightFinder,
        ]);
    }
    v
}

} // verus!
