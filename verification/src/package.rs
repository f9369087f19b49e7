//! The static package catalog: identity, display metadata, parent
//! relationships and capability flags for every unit the tool manages.
//!
//! The catalog is a fixed table. A package with a parent is installed only
//! as part of that parent, so installability is defined from the absence of
//! a parent together with the presence of an installer routine — a child
//! can never be directly installable, by construction.

use vstd::prelude::*;

verus! {

use crate::text::str_eq;
use vstd::string::StringExecFns;

/// An installable and/or launchable unit of third-party software tracked by
/// the catalog.
#[derive(Clone, Copy, Debug, Hash, PartialEq, Eq, Structural)]
pub enum Package {
    AdvantageScope,
    CacheCAD,
    Phoenix,
    DSLogViewer,
    Etcher,
    DriverStation,
    GameManual,
    GameTools,
    GithubDesktop,
    Glass,
    GRIP,
    LimelightFinder,
    PathPlanner,
    PathWeaver,
    PhoenixTuner,
    RadioUtility,
    REVClient,
    RIOImagingTool,
    TaskManager,
    TeamNumberSetter,
    Shuffleboard,
    WorbotsGithub,
    WPILib,
    DataLogTool,
    WPILibDocs,
    OutlineViewer,
    RobotBuilder,
    SysId,
    VSCode,
}

/// Identity of the vendor icon shown for a package. The image bytes
/// themselves are display resources and live with the front-end.
#[derive(Clone, Copy, Debug, PartialEq, Eq, Structural)]
pub enum Icon {
    AdvantageScope,
    Ctre,
    Limelight,
    Ni,
    Rev,
    Wpilib,
}

/// The unique key of a package: its persistence and command-line token.
pub open spec fn spec_id(p: Package) -> Seq<char> {
    match p {
        Package::AdvantageScope => "advantagescope"@,
        Package::CacheCAD => "cachecad"@,
        Package::Phoenix => "phoenix"@,
        Package::DSLogViewer => "ds_log_viewer"@,
        Package::Etcher => "etcher"@,
        Package::DriverStation => "driver_station"@,
        Package::GameManual => "game_manual"@,
        Package::GameTools => "game_tools"@,
        Package::GithubDesktop => "github_desktop"@,
        Package::Glass => "glass"@,
        Package::GRIP => "grip"@,
        Package::LimelightFinder => "limelight_finder"@,
        Package::PathPlanner => "pathplanner"@,
        Package::PathWeaver => "pathweaver"@,
        Package::PhoenixTuner => "phoenix_tuner"@,
        Package::RadioUtility => "radio_utility"@,
        Package::REVClient => "rev_client"@,
        Package::RIOImagingTool => "rio_imaging_tool"@,
        Package::TaskManager => "task_manager"@,
        Package::TeamNumberSetter => "team_number_setter"@,
        Package::Shuffleboard => "shuffleboard"@,
        Package::WorbotsGithub => "worbots_github"@,
        Package::WPILib => "wpilib"@,
        Package::DataLogTool => "data_log_tool"@,
        Package::WPILibDocs => "wpilib_docs"@,
        Package::OutlineViewer => "outline_viewer"@,
        Package::RobotBuilder => "robotbuilder"@,
        Package::SysId => "sysid"@,
        Package::VSCode => "vscode"@,
    }
}

/// The pretty display name of a package.
pub open spec fn spec_display_name(p: Package) -> Seq<char> {
    match p {
        Package::AdvantageScope => "AdvantageScope"@,
        Package::CacheCAD => "CacheCAD"@,
        Package::Phoenix => "CTRE Phoenix"@,
        Package::DSLogViewer => "DS Log File Viewer"@,
        Package::Etcher => "Etcher"@,
        Package::DriverStation => "FRC Driver Station"@,
        Package::GameManual => "FRC Game Manual"@,
        Package::GameTools => "FRC Game Tools"@,
        Package::GithubDesktop => "GitHub Desktop"@,
        Package::Glass => "Glass"@,
        Package::GRIP => "GRIP"@,
        Package::LimelightFinder => "Limelight Finder"@,
        Package::PathPlanner => "PathPlanner"@,
        Package::PathWeaver => "PathWeaver"@,
        Package::PhoenixTuner => "Phoenix Tuner"@,
        Package::RadioUtility => "FRC Radio Configuration Utility"@,
        Package::REVClient => "REV Hardware Client"@,
        Package::RIOImagingTool => "roboRIO Imaging Tool"@,
        Package::TaskManager => "Task Manager"@,
        Package::TeamNumberSetter => "roboRIO Team Number Setter"@,
        Package::Shuffleboard => "Shuffleboard"@,
        Package::WorbotsGithub => "WorBots GitHub"@,
        Package::WPILib => "WPILib"@,
        Package::DataLogTool => "WPILib Data Log Tool"@,
        Package::WPILibDocs => "WPILib Docs"@,
        Package::OutlineViewer => "WPILib Outline Viewer"@,
        Package::RobotBuilder => "WPILib RobotBuilder"@,
        Package::SysId => "WPILib SysId"@,
        Package::VSCode => "WPILib VSCode"@,
    }
}

/// The short description of a package.
pub open spec fn spec_short_description(p: Package) -> Seq<char> {
    match p {
        Package::AdvantageScope => "A viewer for live robot telemetry and log files"@,
        Package::CacheCAD => "A file management interface for Google Drive"@,
        Package::Phoenix => "Tools for working with CTRE devices"@,
        Package::DSLogViewer => "A tool to view Driver Station log files"@,
        Package::Etcher => "Flashes OS images to drives. Used to flash the roboRIO 2"@,
        Package::DriverStation => "The station for drivers used to control the robot"@,
        Package::GameManual => "Official manual for the FRC game"@,
        Package::GameTools => "Official tools for the robot, including the radio utility and driver station"@,
        Package::GithubDesktop => "Desktop app for GitHub, a website used to host robot code"@,
        Package::Glass => "Dashboard for drivers and simulation"@,
        Package::GRIP => "A graphical vision pipeline editor"@,
        Package::LimelightFinder => "Tool to find Limelights on the robot network"@,
        Package::PathPlanner => "Autonomous path editor and generator"@,
        Package::PathWeaver => "The WPILib autonomous path editor"@,
        Package::PhoenixTuner => "Allows viewing, debugging, and configuration of devices on a CAN network"@,
        Package::RadioUtility => "Flash and configure radio devices"@,
        Package::REVClient => "Updater and debugger for REV devices"@,
        Package::RIOImagingTool => "Flash and update the roboRIO"@,
        Package::TaskManager => "The Windows Task Manager"@,
        Package::TeamNumberSetter => "Simple tool used to set the team number on a roboRIO"@,
        Package::Shuffleboard => "An interactive and customizable robot dashboard"@,
        Package::WorbotsGithub => "GitHub organization for the WorBots team"@,
        Package::WPILib => "The official tools for developing FRC robots"@,
        Package::DataLogTool => "Viewer for robot log files"@,
        Package::WPILibDocs => "Documentation for WPILib and developing FRC robots"@,
        Package::OutlineViewer => "A simple NetworkTables editor"@,
        Package::RobotBuilder => "Tool for generating WPILib robot projects"@,
        Package::SysId => "A tool for analyzing and tuning robot control systems"@,
        Package::VSCode => "Microsoft's code editor configured for robot development"@,
    }
}

/// The vendor icon of a package, if it has one.
pub open spec fn spec_icon(p: Package) -> Option<Icon> {
    match p {
        Package::AdvantageScope => Some(Icon::AdvantageScope),
        Package::CacheCAD => None,
        Package::Phoenix => Some(Icon::Ctre),
        Package::DSLogViewer => Some(Icon::Ni),
        Package::Etcher => None,
        Package::DriverStation => Some(Icon::Ni),
        Package::GameManual => None,
        Package::GameTools => Some(Icon::Ni),
        Package::GithubDesktop => None,
        Package::Glass => Some(Icon::Wpilib),
        Package::GRIP => None,
        Package::LimelightFinder => Some(Icon::Limelight),
        Package::PathPlanner => None,
        Package::PathWeaver => Some(Icon::Wpilib),
        Package::PhoenixTuner => Some(Icon::Ctre),
        Package::RadioUtility => Some(Icon::Ni),
        Package::REVClient => Some(Icon::Rev),
        Package::RIOImagingTool => Some(Icon::Ni),
        Package::TaskManager => None,
        Package::TeamNumberSetter => Some(Icon::Wpilib),
        Package::Shuffleboard => Some(Icon::Wpilib),
        Package::WorbotsGithub => None,
        Package::WPILib => Some(Icon::Wpilib),
        Package::DataLogTool => Some(Icon::Wpilib),
        Package::WPILibDocs => Some(Icon::Wpilib),
        Package::OutlineViewer => Some(Icon::Wpilib),
        Package::RobotBuilder => Some(Icon::Wpilib),
        Package::SysId => Some(Icon::Wpilib),
        Package::VSCode => Some(Icon::Wpilib),
    }
}

/// The parent of a package: the package whose installation bundles it.
pub open spec fn spec_parent(p: Package) -> Option<Package> {
    match p {
        Package::PhoenixTuner => Some(Package::Phoenix),
        Package::DSLogViewer => Some(Package::GameTools),
        Package::DriverStation => Some(Package::GameTools),
        Package::RadioUtility => Some(Package::GameTools),
        Package::RIOImagingTool => Some(Package::GameTools),
        Package::Glass => Some(Package::WPILib),
        Package::PathWeaver => Some(Package::WPILib),
        Package::TeamNumberSetter => Some(Package::WPILib),
        Package::Shuffleboard => Some(Package::WPILib),
        Package::DataLogTool => Some(Package::WPILib),
        Package::OutlineViewer => Some(Package::WPILib),
        Package::RobotBuilder => Some(Package::WPILib),
        Package::SysId => Some(Package::WPILib),
        Package::VSCode => Some(Package::WPILib),
        _ => None,
    }
}

/// Whether the catalog carries an installer routine for the package.
pub open spec fn spec_has_installer(p: Package) -> bool {
    match p {
        Package::AdvantageScope => true,
        Package::CacheCAD => true,
        Package::Phoenix => true,
        Package::Etcher => true,
        Package::GameTools => true,
        Package::GithubDesktop => true,
        Package::GRIP => true,
        Package::LimelightFinder => true,
        Package::PathPlanner => true,
        Package::REVClient => true,
        Package::WPILib => true,
        _ => false,
    }
}

/// A package can be installed directly exactly when it has no parent and
/// the catalog carries an installer routine for it.
pub open spec fn spec_can_install(p: Package) -> bool {
    spec_parent(p) is None && spec_has_installer(p)
}

/// Whether the package can be launched as a program of its own.
pub open spec fn spec_can_launch(p: Package) -> bool {
    match p {
        Package::Phoenix => false,
        Package::GameTools => false,
        Package::WPILib => false,
        _ => true,
    }
}

/// A package with a parent is never directly installable: it is installed
/// only as part of its parent's installation.
pub proof fn lemma_child_not_installable(p: Package)
    ensures
        spec_parent(p) is Some ==> !spec_can_install(p),
{
}

/// All packages of the catalog, ordered alphabetically by display name.
pub open spec fn spec_all_packages() -> Seq<Package> {
    seq![
        Package::AdvantageScope,
        Package::CacheCAD,
        Package::Phoenix,
        Package::DSLogViewer,
        Package::Etcher,
        Package::DriverStation,
        Package::GameManual,
        Package::GameTools,
        Package::GithubDesktop,
        Package::Glass,
        Package::GRIP,
        Package::LimelightFinder,
        Package::PathPlanner,
        Package::PathWeaver,
        Package::PhoenixTuner,
        Package::RadioUtility,
        Package::REVClient,
        Package::RIOImagingTool,
        Package::TaskManager,
        Package::TeamNumberSetter,
        Package::Shuffleboard,
        Package::WorbotsGithub,
        Package::WPILib,
        Package::DataLogTool,
        Package::WPILibDocs,
        Package::OutlineViewer,
        Package::RobotBuilder,
        Package::SysId,
        Package::VSCode,
    ]
}

/// Every package appears in the catalog list.
pub proof fn lemma_all_packages_complete(p: Package)
    ensures
        spec_all_packages().contains(p),
{
    let s = spec_all_packages();
    match p {
        Package::AdvantageScope => {
            assert(s[0] == p);
            assert(s.contains(p));
        },
        Package::CacheCAD => {
            assert(s[1] == p);
            assert(s.contains(p));
        },
        Package::Phoenix => {
            assert(s[2] == p);
            assert(s.contains(p));
        },
        Package::DSLogViewer => {
            assert(s[3] == p);
            assert(s.contains(p));
        },
        Package::Etcher => {
            assert(s[4] == p);
            assert(s.contains(p));
        },
        Package::DriverStation => {
            assert(s[5] == p);
            assert(s.contains(p));
        },
        Package::GameManual => {
            assert(s[6] == p);
            assert(s.contains(p));
        },
        Package::GameTools => {
            assert(s[7] == p);
            assert(s.contains(p));
        },
        Package::GithubDesktop => {
            assert(s[8] == p);
            assert(s.contains(p));
        },
        Package::Glass => {
            assert(s[9] == p);
            assert(s.contains(p));
        },
        Package::GRIP => {
            assert(s[10] == p);
            assert(s.contains(p));
        },
        Package::LimelightFinder => {
            assert(s[11] == p);
            assert(s.contains(p));
        },
        Package::PathPlanner => {
            assert(s[12] == p);
            assert(s.contains(p));
        },
        Package::PathWeaver => {
            assert(s[13] == p);
            assert(s.contains(p));
        },
        Package::PhoenixTuner => {
            assert(s[14] == p);
            assert(s.contains(p));
        },
        Package::RadioUtility => {
            assert(s[15] == p);
            assert(s.contains(p));
        },
        Package::REVClient => {
            assert(s[16] == p);
            assert(s.contains(p));
        },
        Package::RIOImagingTool => {
            assert(s[17] == p);
            assert(s.contains(p));
        },
        Package::TaskManager => {
            assert(s[18] == p);
            assert(s.contains(p));
        },
        Package::TeamNumberSetter => {
            assert(s[19] == p);
            assert(s.contains(p));
        },
        Package::Shuffleboard => {
            assert(s[20] == p);
            assert(s.contains(p));
        },
        Package::WorbotsGithub => {
            assert(s[21] == p);
            assert(s.contains(p));
        },
        Package::WPILib => {
            assert(s[22] == p);
            assert(s.contains(p));
        },
        Package::DataLogTool => {
            assert(s[23] == p);
            assert(s.contains(p));
        },
        Package::WPILibDocs => {
            assert(s[24] == p);
            assert(s.contains(p));
        },
        Package::OutlineViewer => {
            assert(s[25] == p);
            assert(s.contains(p));
        },
        Package::RobotBuilder => {
            assert(s[26] == p);
            assert(s.contains(p));
        },
        Package::SysId => {
            assert(s[27] == p);
            assert(s.contains(p));
        },
        Package::VSCode => {
            assert(s[28] == p);
            assert(s.contains(p));
        },
    }
}

/// Ids are unique across the catalog: two packages with the same id are the
/// same package.
#[verifier::rlimit(50)]
pub proof fn lemma_package_ids_unique(p: Package, q: Package)
    ensures
        spec_id(p) == spec_id(q) ==> p == q,
{
    reveal_strlit("advantagescope");
    reveal_strlit("cachecad");
    reveal_strlit("phoenix");
    reveal_strlit("ds_log_viewer");
    reveal_strlit("etcher");
    reveal_strlit("driver_station");
    reveal_strlit("game_manual");
    reveal_strlit("game_tools");
    reveal_strlit("github_desktop");
    reveal_strlit("glass");
    reveal_strlit("grip");
    reveal_strlit("limelight_finder");
    reveal_strlit("pathplanner");
    reveal_strlit("pathweaver");
    reveal_strlit("phoenix_tuner");
    reveal_strlit("radio_utility");
    reveal_strlit("rev_client");
    reveal_strlit("rio_imaging_tool");
    reveal_strlit("task_manager");
    reveal_strlit("team_number_setter");
    reveal_strlit("shuffleboard");
    reveal_strlit("worbots_github");
    reveal_strlit("wpilib");
    reveal_strlit("data_log_tool");
    reveal_strlit("wpilib_docs");
    reveal_strlit("outline_viewer");
    reveal_strlit("robotbuilder");
    reveal_strlit("sysid");
    reveal_strlit("vscode");
    // Ids are told apart by their length, first character, and (for the two
    // thirteen-character ids starting with 'd') their second character.
    assert("advantagescope"@.len() == 14 && "advantagescope"@[0] == 'a');
    assert("cachecad"@.len() == 8 && "cachecad"@[0] == 'c');
    assert("phoenix"@.len() == 7 && "phoenix"@[0] == 'p');
    assert("ds_log_viewer"@.len() == 13 && "ds_log_viewer"@[0] == 'd' && "ds_log_viewer"@[1]
        == 's');
    assert("etcher"@.len() == 6 && "etcher"@[0] == 'e');
    assert("driver_station"@.len() == 14 && "driver_station"@[0] == 'd');
    assert("game_manual"@.len() == 11 && "game_manual"@[0] == 'g');
    assert("game_tools"@.len() == 10 && "game_tools"@[0] == 'g');
    assert("github_desktop"@.len() == 14 && "github_desktop"@[0] == 'g');
    assert("glass"@.len() == 5 && "glass"@[0] == 'g');
    assert("grip"@.len() == 4 && "grip"@[0] == 'g');
    assert("limelight_finder"@.len() == 16 && "limelight_finder"@[0] == 'l');
    assert("pathplanner"@.len() == 11 && "pathplanner"@[0] == 'p');
    assert("pathweaver"@.len() == 10 && "pathweaver"@[0] == 'p');
    assert("phoenix_tuner"@.len() == 13 && "phoenix_tuner"@[0] == 'p');
    assert("radio_utility"@.len() == 13 && "radio_utility"@[0] == 'r');
    assert("rev_client"@.len() == 10 && "rev_client"@[0] == 'r');
    assert("rio_imaging_tool"@.len() == 16 && "rio_imaging_tool"@[0] == 'r');
    assert("task_manager"@.len() == 12 && "task_manager"@[0] == 't');
    assert("team_number_setter"@.len() == 18 && "team_number_setter"@[0] == 't');
    assert("shuffleboard"@.len() == 12 && "shuffleboard"@[0] == 's');
    assert("worbots_github"@.len() == 14 && "worbots_github"@[0] == 'w');
    assert("wpilib"@.len() == 6 && "wpilib"@[0] == 'w');
    assert("data_log_tool"@.len() == 13 && "data_log_tool"@[0] == 'd' && "data_log_tool"@[1]
        == 'a');
    assert("wpilib_docs"@.len() == 11 && "wpilib_docs"@[0] == 'w');
    assert("outline_viewer"@.len() == 14 && "outline_viewer"@[0] == 'o');
    assert("robotbuilder"@.len() == 12 && "robotbuilder"@[0] == 'r');
    assert("sysid"@.len() == 5 && "sysid"@[0] == 's');
    assert("vscode"@.len() == 6 && "vscode"@[0] == 'v');
    if spec_id(p) == spec_id(q) {
        match p {
            Package::AdvantageScope => assert(q == Package::AdvantageScope),
            Package::CacheCAD => assert(q == Package::CacheCAD),
            Package::Phoenix => assert(q == Package::Phoenix),
            Package::DSLogViewer => assert(q == Package::DSLogViewer),
            Package::Etcher => assert(q == Package::Etcher),
            Package::DriverStation => assert(q == Package::DriverStation),
            Package::GameManual => assert(q == Package::GameManual),
            Package::GameTools => assert(q == Package::GameTools),
            Package::GithubDesktop => assert(q == Package::GithubDesktop),
            Package::Glass => assert(q == Package::Glass),
            Package::GRIP => assert(q == Package::GRIP),
            Package::LimelightFinder => assert(q == Package::LimelightFinder),
            Package::PathPlanner => assert(q == Package::PathPlanner),
            Package::PathWeaver => assert(q == Package::PathWeaver),
            Package::PhoenixTuner => assert(q == Package::PhoenixTuner),
            Package::RadioUtility => assert(q == Package::RadioUtility),
            Package::REVClient => assert(q == Package::REVClient),
            Package::RIOImagingTool => assert(q == Package::RIOImagingTool),
            Package::TaskManager => assert(q == Package::TaskManager),
            Package::TeamNumberSetter => assert(q == Package::TeamNumberSetter),
            Package::Shuffleboard => assert(q == Package::Shuffleboard),
            Package::WorbotsGithub => assert(q == Package::WorbotsGithub),
            Package::WPILib => assert(q == Package::WPILib),
            Package::DataLogTool => assert(q == Package::DataLogTool),
            Package::WPILibDocs => assert(q == Package::WPILibDocs),
            Package::OutlineViewer => assert(q == Package::OutlineViewer),
            Package::RobotBuilder => assert(q == Package::RobotBuilder),
            Package::SysId => assert(q == Package::SysId),
            Package::VSCode => assert(q == Package::VSCode),
        }
    }
}

impl Package {
    /// The unique key of the package.
    pub fn id(&self) -> (r: &'static str)
        ensures
            r@ == spec_id(*self),
    {
        match self {
            Package::AdvantageScope => "advantagescope",
            Package::CacheCAD => "cachecad",
            Package::Phoenix => "phoenix",
            Package::DSLogViewer => "ds_log_viewer",
            Package::Etcher => "etcher",
            Package::DriverStation => "driver_station",
            Package::GameManual => "game_manual",
            Package::GameTools => "game_tools",
            Package::GithubDesktop => "github_desktop",
            Package::Glass => "glass",
            Package::GRIP => "grip",
            Package::LimelightFinder => "limelight_finder",
            Package::PathPlanner => "pathplanner",
            Package::PathWeaver => "pathweaver",
            Package::PhoenixTuner => "phoenix_tuner",
            Package::RadioUtility => "radio_utility",
            Package::REVClient => "rev_client",
            Package::RIOImagingTool => "rio_imaging_tool",
            Package::TaskManager => "task_manager",
            Package::TeamNumberSetter => "team_number_setter",
            Package::Shuffleboard => "shuffleboard",
            Package::WorbotsGithub => "worbots_github",
            Package::WPILib => "wpilib",
            Package::DataLogTool => "data_log_tool",
            Package::WPILibDocs => "wpilib_docs",
            Package::OutlineViewer => "outline_viewer",
            Package::RobotBuilder => "robotbuilder",
            Package::SysId => "sysid",
            Package::VSCode => "vscode",
        }
    }

    /// The pretty display name of the package.
    pub fn display_name(&self) -> (r: &'static str)
        ensures
            r@ == spec_display_name(*self),
    {
        match self {
            Package::AdvantageScope => "AdvantageScope",
            Package::CacheCAD => "CacheCAD",
            Package::Phoenix => "CTRE Phoenix",
            Package::DSLogViewer => "DS Log File Viewer",
            Package::Etcher => "Etcher",
            Package::DriverStation => "FRC Driver Station",
            Package::GameManual => "FRC Game Manual",
            Package::GameTools => "FRC Game Tools",
            Package::GithubDesktop => "GitHub Desktop",
            Package::Glass => "Glass",
            Package::GRIP => "GRIP",
            Package::LimelightFinder => "Limelight Finder",
            Package::PathPlanner => "PathPlanner",
            Package::PathWeaver => "PathWeaver",
            Package::PhoenixTuner => "Phoenix Tuner",
            Package::RadioUtility => "FRC Radio Configuration Utility",
            Package::REVClient => "REV Hardware Client",
            Package::RIOImagingTool => "roboRIO Imaging Tool",
            Package::TaskManager => "Task Manager",
            Package::TeamNumberSetter => "roboRIO Team Number Setter",
            Package::Shuffleboard => "Shuffleboard",
            Package::WorbotsGithub => "WorBots GitHub",
            Package::WPILib => "WPILib",
            Package::DataLogTool => "WPILib Data Log Tool",
            Package::WPILibDocs => "WPILib Docs",
            Package::OutlineViewer => "WPILib Outline Viewer",
            Package::RobotBuilder => "WPILib RobotBuilder",
            Package::SysId => "WPILib SysId",
            Package::VSCode => "WPILib VSCode",
        }
    }

    /// The short description of the package.
    pub fn short_description(&self) -> (r: &'static str)
        ensures
            r@ == spec_short_description(*self),
    {
        match self {
            Package::AdvantageScope => "A viewer for live robot telemetry and log files",
            Package::CacheCAD => "A file management interface for Google Drive",
            Package::Phoenix => "Tools for working with CTRE devices",
            Package::DSLogViewer => "A tool to view Driver Station log files",
            Package::Etcher => "Flashes OS images to drives. Used to flash the roboRIO 2",
            Package::DriverStation => "The station for drivers used to control the robot",
            Package::GameManual => "Official manual for the FRC game",
            Package::GameTools => "Official tools for the robot, including the radio utility and driver station",
            Package::GithubDesktop => "Desktop app for GitHub, a website used to host robot code",
            Package::Glass => "Dashboard for drivers and simulation",
            Package::GRIP => "A graphical vision pipeline editor",
            Package::LimelightFinder => "Tool to find Limelights on the robot network",
            Package::PathPlanner => "Autonomous path editor and generator",
            Package::PathWeaver => "The WPILib autonomous path editor",
            Package::PhoenixTuner => "Allows viewing, debugging, and configuration of devices on a CAN network",
            Package::RadioUtility => "Flash and configure radio devices",
            Package::REVClient => "Updater and debugger for REV devices",
            Package::RIOImagingTool => "Flash and update the roboRIO",
            Package::TaskManager => "The Windows Task Manager",
            Package::TeamNumberSetter => "Simple tool used to set the team number on a roboRIO",
            Package::Shuffleboard => "An interactive and customizable robot dashboard",
            Package::WorbotsGithub => "GitHub organization for the WorBots team",
            Package::WPILib => "The official tools for developing FRC robots",
            Package::DataLogTool => "Viewer for robot log files",
            Package::WPILibDocs => "Documentation for WPILib and developing FRC robots",
            Package::OutlineViewer => "A simple NetworkTables editor",
            Package::RobotBuilder => "Tool for generating WPILib robot projects",
            Package::SysId => "A tool for analyzing and tuning robot control systems",
            Package::VSCode => "Microsoft's code editor configured for robot development",
        }
    }

    /// The vendor icon of the package, if it has one.
    pub fn get_icon(&self) -> (r: Option<Icon>)
        ensures
            r == spec_icon(*self),
    {
        match self {
            Package::AdvantageScope => Some(Icon::AdvantageScope),
            Package::CacheCAD => None,
            Package::Phoenix => Some(Icon::Ctre),
            Package::DSLogViewer => Some(Icon::Ni),
            Package::Etcher => None,
            Package::DriverStation => Some(Icon::Ni),
            Package::GameManual => None,
            Package::GameTools => Some(Icon::Ni),
            Package::GithubDesktop => None,
            Package::Glass => Some(Icon::Wpilib),
            Package::GRIP => None,
            Package::LimelightFinder => Some(Icon::Limelight),
            Package::PathPlanner => None,
            Package::PathWeaver => Some(Icon::Wpilib),
            Package::PhoenixTuner => Some(Icon::Ctre),
            Package::RadioUtility => Some(Icon::Ni),
            Package::REVClient => Some(Icon::Rev),
            Package::RIOImagingTool => Some(Icon::Ni),
            Package::TaskManager => None,
            Package::TeamNumberSetter => Some(Icon::Wpilib),
            Package::Shuffleboard => Some(Icon::Wpilib),
            Package::WorbotsGithub => None,
            Package::WPILib => Some(Icon::Wpilib),
            Package::DataLogTool => Some(Icon::Wpilib),
            Package::WPILibDocs => Some(Icon::Wpilib),
            Package::OutlineViewer => Some(Icon::Wpilib),
            Package::RobotBuilder => Some(Icon::Wpilib),
            Package::SysId => Some(Icon::Wpilib),
            Package::VSCode => Some(Icon::Wpilib),
        }
    }

    /// The parent package of this package, if it has one.
    pub fn get_parent(&self) -> (r: Option<Package>)
        ensures
            r == spec_parent(*self),
    {
        match self {
            Package::PhoenixTuner => Some(Package::Phoenix),
            Package::DSLogViewer => Some(Package::GameTools),
            Package::DriverStation => Some(Package::GameTools),
            Package::RadioUtility => Some(Package::GameTools),
            Package::RIOImagingTool => Some(Package::GameTools),
            Package::Glass => Some(Package::WPILib),
            Package::PathWeaver => Some(Package::WPILib),
            Package::TeamNumberSetter => Some(Package::WPILib),
            Package::Shuffleboard => Some(Package::WPILib),
            Package::DataLogTool => Some(Package::WPILib),
            Package::OutlineViewer => Some(Package::WPILib),
            Package::RobotBuilder => Some(Package::WPILib),
            Package::SysId => Some(Package::WPILib),
            Package::VSCode => Some(Package::WPILib),
            _ => None,
        }
    }

    /// Whether the package can be installed directly.
    pub fn can_install(&self) -> (r: bool)
        ensures
            r == spec_can_install(*self),
    {
        match self {
            Package::AdvantageScope => true,
            Package::CacheCAD => true,
            Package::Phoenix => true,
            Package::Etcher => true,
            Package::GameTools => true,
            Package::GithubDesktop => true,
            Package::GRIP => true,
            Package::LimelightFinder => true,
            Package::PathPlanner => true,
            Package::REVClient => true,
            Package::WPILib => true,
            _ => false,
        }
    }

    /// Whether the package can be launched as a program of its own.
    pub fn can_launch(&self) -> (r: bool)
        ensures
            r == spec_can_launch(*self),
    {
        match self {
            Package::Phoenix => false,
            Package::GameTools => false,
            Package::WPILib => false,
            _ => true,
        }
    }
}

/// All packages of the catalog, ordered alphabetically by display name.
pub fn all_packages() -> (r: Vec<Package>)
    ensures
        r@ == spec_all_packages(),
{
    let mut v: Vec<Package> = Vec::new();
    v.push(Package::AdvantageScope);
    v.push(Package::CacheCAD);
    v.push(Package::Phoenix);
    v.push(Package::DSLogViewer);
    v.push(Package::Etcher);
    v.push(Package::DriverStation);
    v.push(Package::GameManual);
    v.push(Package::GameTools);
    v.push(Package::GithubDesktop);
    v.push(Package::Glass);
    v.push(Package::GRIP);
    v.push(Package::LimelightFinder);
    v.push(Package::PathPlanner);
    v.push(Package::PathWeaver);
    v.push(Package::PhoenixTuner);
    v.push(Package::RadioUtility);
    v.push(Package::REVClient);
    v.push(Package::RIOImagingTool);
    v.push(Package::TaskManager);
    v.push(Package::TeamNumberSetter);
    v.push(Package::Shuffleboard);
    v.push(Package::WorbotsGithub);
    v.push(Package::WPILib);
    v.push(Package::DataLogTool);
    v.push(Package::WPILibDocs);
    v.push(Package::OutlineViewer);
    v.push(Package::RobotBuilder);
    v.push(Package::SysId);
    v.push(Package::VSCode);
    proof {
        assert(v@ =~= spec_all_packages());
    }
    v
}

/// Failure of a registry query.
#[derive(Debug, PartialEq, Eq)]
pub enum PackageError {
    /// The given id names no package of the catalog.
    UnknownPackage { id: String },
}

/// Resolve a package id to its catalog entry. Every id placed in the
/// catalog resolves to the package carrying exactly that id; any other id
/// is rejected.
pub fn lookup(id: &str) -> (r: Result<Package, PackageError>)
    ensures
        match r {
            Ok(p) => spec_id(p) == id@,
            Err(e) => (forall|p: Package| spec_id(p) != id@) && (e matches
            PackageError::UnknownPackage { id: bad } && bad@ == id@),
        },
{
    let all = all_packages();
    let n: usize = all.len();
    let mut i: usize = 0;
    while i < n
        invariant
            all@ == spec_all_packages(),
            n == all@.len(),
            i <= n,
            forall|j: int| 0 <= j < i ==> spec_id(all@[j]) != id@,
        decreases n - i,
    {
        let p = all[i];
        if str_eq(id, p.id()) {
            return Ok(p);
        }
        i = i + 1;
    }
    proof {
        assert forall|p: Package| spec_id(p) != id@ by {
            lemma_all_packages_complete(p);
            let k = choose|k: int|
                0 <= k < spec_all_packages().len() && spec_all_packages()[k] == p;
            assert(spec_id(spec_all_packages()[k]) != id@);
        }
    }
    Err(PackageError::UnknownPackage { id: String::from_str(id) })
}

} // verus!
