use opaper_core::commands::{
    open_executable, open_folder, set_wallpaper, switch_to_static, DesktopOs, WallpaperApply,
    SEND_CHANGE_FLAG, SET_DESK_WALLPAPER_ACTION, UPDATE_INI_FILE_FLAG,
};
use opaper_core::lifecycle::{ActivateOutcome, LifecycleManager};
use opaper_core::Error;

#[test]
fn macos_wallpaper_runs_the_desktop_script() {
    match set_wallpaper(DesktopOs::MacOs, "/tmp/pic.jpg") {
        WallpaperApply::Script(cmd) => {
            assert_eq!(cmd.program, "osascript");
            assert_eq!(cmd.args.len(), 2);
            assert_eq!(cmd.args[0], "-e");
            assert_eq!(
                cmd.args[1],
                "tell application \"System Events\" to tell every desktop to set picture to \"/tmp/pic.jpg\""
            );
        }
        _ => panic!("macOS wallpaper plan is a script"),
    }
}

#[test]
fn windows_wallpaper_uses_the_system_parameter_call() {
    match set_wallpaper(DesktopOs::Windows, "C:\\pics\\w.jpg") {
        WallpaperApply::SystemCall { path, action, flags } => {
            assert_eq!(path, "C:\\pics\\w.jpg");
            assert_eq!(action, SET_DESK_WALLPAPER_ACTION);
            assert_eq!(action, 20);
            assert_eq!(flags, UPDATE_INI_FILE_FLAG | SEND_CHANGE_FLAG);
            assert_eq!(flags, 3);
        }
        _ => panic!("windows wallpaper plan is a system call"),
    }
}

#[test]
fn linux_wallpaper_tries_gsettings_then_feh() {
    match set_wallpaper(DesktopOs::Linux, "/home/u/w.png") {
        WallpaperApply::TryEach(cmds) => {
            assert_eq!(cmds.len(), 2);
            assert_eq!(cmds[0].program, "gsettings");
            assert_eq!(
                cmds[0].args,
                vec![
                    "set".to_string(),
                    "org.gnome.desktop.background".to_string(),
                    "picture-uri".to_string(),
                    "file:///home/u/w.png".to_string(),
                ]
            );
            assert_eq!(cmds[1].program, "feh");
            assert_eq!(cmds[1].args, vec!["--bg-scale".to_string(), "/home/u/w.png".to_string()]);
        }
        _ => panic!("linux wallpaper plan tries candidates in order"),
    }
}

#[test]
fn openers_per_platform() {
    let cmd = open_executable(DesktopOs::Windows, "C:\\x.exe");
    assert_eq!(cmd.program, "cmd");
    assert_eq!(
        cmd.args,
        vec!["/C".to_string(), "start".to_string(), "".to_string(), "C:\\x.exe".to_string()]
    );

    let cmd = open_executable(DesktopOs::MacOs, "/Applications/X.app");
    assert_eq!(cmd.program, "open");
    assert_eq!(cmd.args, vec!["/Applications/X.app".to_string()]);

    let cmd = open_executable(DesktopOs::Linux, "/usr/bin/x");
    assert_eq!(cmd.program, "xdg-open");

    let cmd = open_folder(DesktopOs::Windows, "C:\\pics");
    assert_eq!(cmd.program, "explorer");
    assert_eq!(cmd.args, vec!["C:\\pics".to_string()]);

    let cmd = open_folder(DesktopOs::MacOs, "/tmp/d");
    assert_eq!(cmd.program, "open");

    let cmd = open_folder(DesktopOs::Linux, "/tmp/d");
    assert_eq!(cmd.program, "xdg-open");
}

#[test]
fn switch_to_static_applies_only_after_the_window_is_gone() {
    let mut manager = LifecycleManager::new();
    assert_eq!(manager.activate(Some(1)), Ok(ActivateOutcome::Created));
    // The OS tears the window down 100 ms in; the wait is bounded by 5000 ms.
    let plan = switch_to_static(&mut manager, 100, 5000, DesktopOs::Linux, "/tmp/w.jpg");
    match plan {
        Ok(WallpaperApply::TryEach(cmds)) => assert_eq!(cmds[0].program, "gsettings"),
        other => panic!("expected a wallpaper plan, got {:?}", other.is_ok()),
    }
    assert_eq!(manager.deactivate(), Err(Error::NotFound));
}

#[test]
fn switch_to_static_times_out_and_withholds_the_apply_step() {
    let mut manager = LifecycleManager::new();
    assert_eq!(manager.activate(Some(1)), Ok(ActivateOutcome::Created));
    // The OS never tears the window down within the 5000 ms bound: the
    // flow must report the timeout and hand back no wallpaper plan.
    let plan = switch_to_static(&mut manager, u64::MAX - 50, 5000, DesktopOs::Linux, "/tmp/w.jpg");
    match plan {
        Err(e) => assert_eq!(e, Error::CloseTimeout),
        Ok(_) => panic!("the apply step must not run after a timeout"),
    }
}

#[test]
fn switch_to_static_with_no_background_window_succeeds_immediately() {
    let mut manager = LifecycleManager::new();
    let plan = switch_to_static(&mut manager, 0, 5000, DesktopOs::MacOs, "/tmp/w.jpg");
    assert!(plan.is_ok());
}
