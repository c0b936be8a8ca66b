use apod_wallpaper::desktop::{
    command_outcome, detect_desktop, failure_message, wallpaper_command, DesktopEnvironment,
    WallpaperError,
};
use apod_wallpaper::text::{bytes_occur, contains_str};

#[test]
fn detects_gnome_inside_a_longer_value() {
    assert_eq!(detect_desktop("ubuntu:GNOME"), DesktopEnvironment::GnomeLike);
}

#[test]
fn detects_kde() {
    assert_eq!(detect_desktop("KDE"), DesktopEnvironment::KdeLike);
}

#[test]
fn gnome_marker_wins_over_kde() {
    assert_eq!(detect_desktop("KDE:GNOME"), DesktopEnvironment::GnomeLike);
}

#[test]
fn empty_value_is_unknown() {
    assert_eq!(detect_desktop(""), DesktopEnvironment::Unknown);
}

#[test]
fn markers_are_case_sensitive() {
    assert_eq!(detect_desktop("gnome"), DesktopEnvironment::Unknown);
}

#[test]
fn unsupported_desktop_builds_no_command() {
    let r = wallpaper_command("XFCE", "/home/u/Pictures/apod.jpg");
    assert!(matches!(r, Err(WallpaperError::Unsupported)));
    assert_eq!(r.unwrap_err().message(), "Unsupported desktop environment");
}

#[test]
fn gnome_command_arguments() {
    let c = wallpaper_command("GNOME", "/home/u/Pictures/apod.jpg").unwrap();
    assert_eq!(c.program, "gsettings");
    assert_eq!(
        c.args,
        vec![
            "set".to_string(),
            "org.gnome.desktop.background".to_string(),
            "picture-uri".to_string(),
            "file:///home/u/Pictures/apod.jpg".to_string(),
        ]
    );
}

#[test]
fn kde_command_arguments() {
    let c = wallpaper_command("KDE", "/p/apod.jpg").unwrap();
    assert_eq!(c.program, "qdbus");
    assert_eq!(c.args.len(), 4);
    assert_eq!(c.args[0], "org.kde.plasmashell");
    assert_eq!(c.args[1], "/PlasmaShell");
    assert_eq!(c.args[2], "org.kde.PlasmaShell.evaluateScript");
    assert!(c.args[3].contains("d.writeConfig(\"Image\", \"file:///p/apod.jpg\")"));
    assert!(c.args[3].starts_with("var allDesktops = desktops();"));
}

#[test]
fn successful_command_is_ok() {
    assert!(command_outcome("GNOME", true, b"").is_ok());
}

#[test]
fn failed_gnome_command_carries_stderr() {
    match command_outcome("ubuntu:GNOME", false, b"no schema") {
        Err(WallpaperError::CommandFailed { message }) => {
            assert_eq!(message, "Failed to set GNOME wallpaper: no schema")
        }
        other => panic!("unexpected {:?}", other),
    }
}

#[test]
fn failed_kde_command_decodes_invalid_bytes_leniently() {
    match command_outcome("KDE", false, &[b'x', 0xff]) {
        Err(WallpaperError::CommandFailed { message }) => {
            assert_eq!(message, "Failed to set KDE wallpaper: x\u{FFFD}")
        }
        other => panic!("unexpected {:?}", other),
    }
}

#[test]
fn outcome_on_unknown_desktop_is_unsupported() {
    assert!(matches!(
        command_outcome("XFCE", true, b""),
        Err(WallpaperError::Unsupported)
    ));
}

#[test]
fn failure_message_prefixes() {
    assert_eq!(
        failure_message(DesktopEnvironment::KdeLike, "boom"),
        "Failed to set KDE wallpaper: boom"
    );
    assert_eq!(
        failure_message(DesktopEnvironment::Unknown, "boom"),
        "Unsupported desktop environment"
    );
}

#[test]
fn byte_search_edges() {
    assert!(bytes_occur(b"abc", b""));
    assert!(!bytes_occur(b"ab", b"abc"));
    assert!(bytes_occur(b"abc", b"abc"));
    assert!(bytes_occur(b"xxabc", b"bc"));
    assert!(!bytes_occur(b"", b"a"));
    assert!(contains_str("über-KDE", "KDE"));
}
