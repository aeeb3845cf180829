//! Host commands: the exact programs, arguments and system calls through
//! which a static wallpaper is applied and folders or executables are
//! opened. The surrounding application runs them; which command runs with
//! which arguments is decided and verified here.

use vstd::prelude::*;
use vstd::string::StringExecFns;
use crate::Error;
use crate::lifecycle::{LifecycleManager, POLL_INTERVAL_MS};

verus! {

/// The desktop environment a host command is built for.
#[derive(Clone, Copy, Debug, PartialEq, Eq, Structural)]
pub enum DesktopOs {
    Windows,
    MacOs,
    Linux,
}

/// One program invocation.
pub struct HostCommand {
    pub program: String,
    pub args: Vec<String>,
}

/// The system-parameter action that replaces the desktop wallpaper.
pub const SET_DESK_WALLPAPER_ACTION: u32 = 20;

/// Flag: write the new wallpaper to the user profile.
pub const UPDATE_INI_FILE_FLAG: u32 = 1;

/// Flag: broadcast the settings change to running applications.
pub const SEND_CHANGE_FLAG: u32 = 2;

/// The script handed to the scripting bridge to set every desktop's
/// picture to the image at `path`.
pub open spec fn applescript_set_picture(path: Seq<char>) -> Seq<char> {
    "tell application \"System Events\" to tell every desktop to set picture to \""@ + path + "\""@
}

/// A file URI for a local path.
pub open spec fn file_uri(path: Seq<char>) -> Seq<char> {
    "file://"@ + path
}

/// How a platform applies a static wallpaper.
pub enum WallpaperApply {
    /// One scripted command; if it fails, applying the wallpaper failed.
    Script(HostCommand),
    /// A direct system-parameter call with the image path.
    SystemCall { path: String, action: u32, flags: u32 },
    /// Candidate commands tried in order; the first success wins, and only
    /// when every one fails has applying the wallpaper failed.
    TryEach(Vec<HostCommand>),
}

/// What the wallpaper plan for each platform holds: the scripted desktop
/// picture on `MacOs`, the wallpaper system call on `Windows`, and the
/// settings tool with the display tool as fallback on `Linux`.
pub open spec fn wallpaper_apply_matches(plan: &WallpaperApply, os: DesktopOs, path: Seq<char>) -> bool {
    match os {
        DesktopOs::MacOs => plan matches WallpaperApply::Script(cmd) && cmd.program@
            == "osascript"@ && cmd.args.deep_view() == seq!["-e"@, applescript_set_picture(path)],
        DesktopOs::Windows => plan matches WallpaperApply::SystemCall { path: p, action, flags }
            && p@ == path && action == SET_DESK_WALLPAPER_ACTION && flags == (
        UPDATE_INI_FILE_FLAG | SEND_CHANGE_FLAG),
        DesktopOs::Linux => plan matches WallpaperApply::TryEach(cmds) && cmds@.len() == 2
            && cmds@[0].program@ == "gsettings"@ && cmds@[0].args.deep_view() == seq![
            "set"@,
            "org.gnome.desktop.background"@,
            "picture-uri"@,
            file_uri(path),
        ] && cmds@[1].program@ == "feh"@ && cmds@[1].args.deep_view() == seq![
            "--bg-scale"@,
            path,
        ],
    }
}

/// Builds the wallpaper application plan for a platform and an image path.
pub fn set_wallpaper(os: DesktopOs, path: &str) -> (plan: WallpaperApply)
    ensures
        wallpaper_apply_matches(&plan, os, path@),
{
    match os {
        DesktopOs::MacOs => {
            let script = "tell application \"System Events\" to tell every desktop to set picture to \"".to_owned().concat(path).concat("\"");
            let mut args: Vec<String> = Vec::new();
            args.push("-e".to_owned());
            args.push(script);
            proof {
                assert(args.deep_view() =~= seq!["-e"@, applescript_set_picture(path@)]);
            }
            WallpaperApply::Script(HostCommand { program: "osascript".to_owned(), args })
        },
        DesktopOs::Windows => WallpaperApply::SystemCall {
            path: path.to_owned(),
            action: SET_DESK_WALLPAPER_ACTION,
            flags: UPDATE_INI_FILE_FLAG | SEND_CHANGE_FLAG,
        },
        DesktopOs::Linux => {
            let mut gsettings_args: Vec<String> = Vec::new();
            gsettings_args.push("set".to_owned());
            gsettings_args.push("org.gnome.desktop.background".to_owned());
            gsettings_args.push("picture-uri".to_owned());
            gsettings_args.push("file://".to_owned().concat(path));
            let mut feh_args: Vec<String> = Vec::new();
            feh_args.push("--bg-scale".to_owned());
            feh_args.push(path.to_owned());
            let mut cmds: Vec<HostCommand> = Vec::new();
            cmds.push(HostCommand { program: "gsettings".to_owned(), args: gsettings_args });
            cmds.push(HostCommand { program: "feh".to_owned(), args: feh_args });
            proof {
                assert(cmds@[0].args.deep_view() =~= seq![
                    "set"@,
                    "org.gnome.desktop.background"@,
                    "picture-uri"@,
                    file_uri(path@),
                ]);
                assert(cmds@[1].args.deep_view() =~= seq!["--bg-scale"@, path@]);
            }
            WallpaperApply::TryEach(cmds)
        },
    }
}

/// What the opener command for each platform holds: the shell's `start`
/// on `Windows`, `open` on `MacOs`, and `xdg-open` on `Linux`.
pub open spec fn open_command_matches(cmd: &HostCommand, os: DesktopOs, path: Seq<char>) -> bool {
    match os {
        DesktopOs::Windows => cmd.program@ == "cmd"@ && cmd.args.deep_view() == seq![
            "/C"@,
            "start"@,
            ""@,
            path,
        ],
        DesktopOs::MacOs => cmd.program@ == "open"@ && cmd.args.deep_view() == seq![path],
        DesktopOs::Linux => cmd.program@ == "xdg-open"@ && cmd.args.deep_view() == seq![path],
    }
}

/// Builds the command that launches an executable or document at `path`
/// with the platform's opener.
pub fn open_executable(os: DesktopOs, path: &str) -> (cmd: HostCommand)
    ensures
        open_command_matches(&cmd, os, path@),
{
    match os {
        DesktopOs::Windows => {
            let mut args: Vec<String> = Vec::new();
            args.push("/C".to_owned());
            args.push("start".to_owned());
            args.push("".to_owned());
            args.push(path.to_owned());
            proof {
                assert(args.deep_view() =~= seq!["/C"@, "start"@, ""@, path@]);
            }
            HostCommand { program: "cmd".to_owned(), args }
        },
        DesktopOs::MacOs => {
            let mut args: Vec<String> = Vec::new();
            args.push(path.to_owned());
            proof {
                assert(args.deep_view() =~= seq![path@]);
            }
            HostCommand { program: "open".to_owned(), args }
        },
        DesktopOs::Linux => {
            let mut args: Vec<String> = Vec::new();
            args.push(path.to_owned());
            proof {
                assert(args.deep_view() =~= seq![path@]);
            }
            HostCommand { program: "xdg-open".to_owned(), args }
        },
    }
}

/// What the folder-opening command for each platform holds: the file
/// manager on `Windows`, `open` on `MacOs`, and `xdg-open` on `Linux`.
pub open spec fn folder_command_matches(cmd: &HostCommand, os: DesktopOs, path: Seq<char>) -> bool {
    match os {
        DesktopOs::Windows => cmd.program@ == "explorer"@ && cmd.args.deep_view() == seq![path],
        DesktopOs::MacOs => cmd.program@ == "open"@ && cmd.args.deep_view() == seq![path],
        DesktopOs::Linux => cmd.program@ == "xdg-open"@ && cmd.args.deep_view() == seq![path],
    }
}

/// Builds the command that reveals the folder at `path` in the platform's
/// file browser.
pub fn open_folder(os: DesktopOs, path: &str) -> (cmd: HostCommand)
    ensures
        folder_command_matches(&cmd, os, path@),
{
    let program: String = match os {
        DesktopOs::Windows => "explorer".to_owned(),
        DesktopOs::MacOs => "open".to_owned(),
        DesktopOs::Linux => "xdg-open".to_owned(),
    };
    let mut args: Vec<String> = Vec::new();
    args.push(path.to_owned());
    proof {
        assert(args.deep_view() =~= seq![path@]);
    }
    HostCommand { program, args }
}

/// The switch-to-static flow: close the background window, wait until the
/// OS has torn it down, and only then hand back the wallpaper plan. A wait
/// that times out reports `CloseTimeout` and yields no plan, so the apply
/// step cannot run while a background window may still be competing with
/// the OS wallpaper renderer. `close_at_ms` is when the OS finishes the
/// teardown, as in `wait_for_window_closed`.
pub fn switch_to_static(
    manager: &mut LifecycleManager,
    close_at_ms: u64,
    max_wait_ms: u64,
    os: DesktopOs,
    path: &str,
) -> (r: Result<WallpaperApply, Error>)
    requires
        max_wait_ms <= u64::MAX - POLL_INTERVAL_MS,
    ensures
        final(manager).is_absent(),
        match r {
            Ok(plan) => wallpaper_apply_matches(&plan, os, path@),
            Err(e) => e == Error::CloseTimeout && close_at_ms > max_wait_ms,
        },
        close_at_ms <= max_wait_ms ==> r is Ok,
{
    match manager.close_and_confirm(close_at_ms, max_wait_ms) {
        Ok(_elapsed) => Ok(set_wallpaper(os, path)),
        Err(e) => Err(e),
    }
}

} // verus!
