use vstd::prelude::*;
use vstd::string::*;

use crate::text::{contains_str, str_contains};

verus! {

/// The family of desktop environment named by the session's desktop variable.
#[derive(PartialEq, Eq, Structural, Clone, Copy, Debug)]
pub enum DesktopEnvironment {
    GnomeLike,
    KdeLike,
    Unknown,
}

/// Why the wallpaper could not be set.
#[derive(Debug)]
pub enum WallpaperError {
    /// The desktop variable names neither supported family.
    Unsupported,
    /// The settings tool ran and reported failure.
    CommandFailed { message: String },
}

/// A program to run and its positional arguments.
#[derive(Debug)]
pub struct WallpaperCommand {
    pub program: String,
    pub args: Vec<String>,
}

pub const GNOME_MARKER: &'static str = "GNOME";

pub const KDE_MARKER: &'static str = "KDE";

pub const UNSUPPORTED_MESSAGE: &'static str = "Unsupported desktop environment";

pub const GNOME_FAILURE: &'static str = "Failed to set GNOME wallpaper: ";

pub const KDE_FAILURE: &'static str = "Failed to set KDE wallpaper: ";

pub const FILE_SCHEME: &'static str = "file://";

pub const KDE_SCRIPT_HEAD: &'static str = "var allDesktops = desktops();\nd = allDesktops[0];\nd.wallpaperPlugin = \"org.kde.image\";\nd.currentConfigGroup = Array(\"Wallpaper\", \"org.kde.image\", \"General\");\nd.writeConfig(\"Image\", \"file://";

pub const KDE_SCRIPT_TAIL: &'static str = "\")\n";

/// The family named by a desktop variable's value; a GNOME marker wins over a
/// KDE one, and an empty value names neither.
pub open spec fn desktop_of(value: &str) -> DesktopEnvironment {
    if str_contains(value, GNOME_MARKER) {
        DesktopEnvironment::GnomeLike
    } else if str_contains(value, KDE_MARKER) {
        DesktopEnvironment::KdeLike
    } else {
        DesktopEnvironment::Unknown
    }
}

/// The text of each argument.
pub open spec fn strings_view(v: Seq<String>) -> Seq<Seq<char>> {
    v.map_values(|a: String| a@)
}

impl View for WallpaperCommand {
    type V = (Seq<char>, Seq<Seq<char>>);

    open spec fn view(&self) -> (Seq<char>, Seq<Seq<char>>) {
        (self.program@, strings_view(self.args@))
    }
}

/// The script for the Plasma shell that points the first desktop's
/// wallpaper at the image.
pub open spec fn kde_script(image_path: Seq<char>) -> Seq<char> {
    KDE_SCRIPT_HEAD@ + image_path + KDE_SCRIPT_TAIL@
}

/// The command that applies the image on each supported family.
pub open spec fn command_for(desktop: DesktopEnvironment, image_path: Seq<char>) -> (
    Seq<char>,
    Seq<Seq<char>>,
) {
    match desktop {
        DesktopEnvironment::GnomeLike => (
            "gsettings"@,
            seq![
                "set"@,
                "org.gnome.desktop.background"@,
                "picture-uri"@,
                FILE_SCHEME@ + image_path,
            ],
        ),
        _ => (
            "qdbus"@,
            seq![
                "org.kde.plasmashell"@,
                "/PlasmaShell"@,
                "org.kde.PlasmaShell.evaluateScript"@,
                kde_script(image_path),
            ],
        ),
    }
}

/// The message of a failed command: the family's prefix, then what the tool
/// wrote to its error stream.
pub open spec fn failure_text(desktop: DesktopEnvironment, stderr_text: Seq<char>) -> Seq<char> {
    match desktop {
        DesktopEnvironment::GnomeLike => GNOME_FAILURE@ + stderr_text,
        DesktopEnvironment::KdeLike => KDE_FAILURE@ + stderr_text,
        DesktopEnvironment::Unknown => UNSUPPORTED_MESSAGE@,
    }
}

/// What `String::from_utf8_lossy` makes of a byte sequence.
pub uninterp spec fn utf8_lossy(b: Seq<u8>) -> Seq<char>;

/// Relies on `String::from_utf8_lossy`: the text depends on the bytes alone,
/// and bytes that are valid UTF-8 decode unchanged.
#[verifier::external_body]
fn lossy_text(b: &[u8]) -> (r: String)
    ensures
        r@ == utf8_lossy(b@),
        vstd::utf8::valid_utf8(b@) ==> r@ == vstd::utf8::decode_utf8(b@),
{
    String::from_utf8_lossy(b).into_owned()
}

impl WallpaperError {
    pub open spec fn spec_message(&self) -> Seq<char> {
        match self {
            WallpaperError::Unsupported => UNSUPPORTED_MESSAGE@,
            WallpaperError::CommandFailed { message } => message@,
        }
    }

    /// The human-readable description of the failure.
    pub fn message(&self) -> (r: String)
        ensures
            r@ == self.spec_message(),
    {
        match self {
            WallpaperError::Unsupported => UNSUPPORTED_MESSAGE.to_owned(),
            WallpaperError::CommandFailed { message } => message.clone(),
        }
    }
}

/// Classifies the value of the desktop variable; an absent variable is
/// handed over as the empty string.
pub fn detect_desktop(value: &str) -> (r: DesktopEnvironment)
    ensures
        r == desktop_of(value),
{
    if contains_str(value, GNOME_MARKER) {
        DesktopEnvironment::GnomeLike
    } else if contains_str(value, KDE_MARKER) {
        DesktopEnvironment::KdeLike
    } else {
        DesktopEnvironment::Unknown
    }
}

fn owned(s: &str) -> (r: String)
    ensures
        r@ == s@,
{
    s.to_owned()
}

/// The command that sets `image_path` as wallpaper on the desktop that
/// `desktop_value` names; on any other desktop no command is built and the
/// result is `Unsupported`.
pub fn wallpaper_command(desktop_value: &str, image_path: &str) -> (r: Result<
    WallpaperCommand,
    WallpaperError,
>)
    ensures
        desktop_of(desktop_value) == DesktopEnvironment::Unknown ==> r matches Err(
            WallpaperError::Unsupported,
        ),
        desktop_of(desktop_value) != DesktopEnvironment::Unknown ==> r is Ok && r->Ok_0@
            == command_for(desktop_of(desktop_value), image_path@),
{
    let desktop = detect_desktop(desktop_value);
    match desktop {
        DesktopEnvironment::GnomeLike => {
            let mut uri = owned(FILE_SCHEME);
            uri.append(image_path);
            let mut args: Vec<String> = Vec::new();
            args.push(owned("set"));
            args.push(owned("org.gnome.desktop.background"));
            args.push(owned("picture-uri"));
            args.push(uri);
            let cmd = WallpaperCommand { program: owned("gsettings"), args };
            assert(cmd@.1 =~= command_for(desktop, image_path@).1);
            Ok(cmd)
        },
        DesktopEnvironment::KdeLike => {
            let mut script = owned(KDE_SCRIPT_HEAD);
            script.append(image_path);
            script.append(KDE_SCRIPT_TAIL);
            let mut args: Vec<String> = Vec::new();
            args.push(owned("org.kde.plasmashell"));
            args.push(owned("/PlasmaShell"));
            args.push(owned("org.kde.PlasmaShell.evaluateScript"));
            args.push(script);
            let cmd = WallpaperCommand { program: owned("qdbus"), args };
            assert(cmd@.1 =~= command_for(desktop, image_path@).1);
            Ok(cmd)
        },
        DesktopEnvironment::Unknown => Err(WallpaperError::Unsupported),
    }
}

/// The message for a command that failed on `desktop`, given the text of
/// its error stream.
pub fn failure_message(desktop: DesktopEnvironment, stderr_text: &str) -> (r: String)
    ensures
        r@ == failure_text(desktop, stderr_text@),
{
    match desktop {
        DesktopEnvironment::GnomeLike => {
            let mut m = owned(GNOME_FAILURE);
            m.append(stderr_text);
            m
        },
        DesktopEnvironment::KdeLike => {
            let mut m = owned(KDE_FAILURE);
            m.append(stderr_text);
            m
        },
        DesktopEnvironment::Unknown => owned(UNSUPPORTED_MESSAGE),
    }
}

/// The result of running the command built for `desktop_value`: success when
/// the tool exited successfully, otherwise its error stream (decoded
/// leniently) behind the family's prefix.
pub fn command_outcome(desktop_value: &str, succeeded: bool, stderr: &[u8]) -> (r: Result<
    (),
    WallpaperError,
>)
    ensures
        desktop_of(desktop_value) == DesktopEnvironment::Unknown ==> r matches Err(
            WallpaperError::Unsupported,
        ),
        desktop_of(desktop_value) != DesktopEnvironment::Unknown ==> (r is Ok <==> succeeded),
        desktop_of(desktop_value) != DesktopEnvironment::Unknown && !succeeded ==> (r matches Err(
            WallpaperError::CommandFailed { message },
        ) && message@ == failure_text(desktop_of(desktop_value), utf8_lossy(stderr@))),
{
    let desktop = detect_desktop(desktop_value);
    if desktop == DesktopEnvironment::Unknown {
        return Err(WallpaperError::Unsupported);
    }
    if succeeded {
        Ok(())
    } else {
        let text = lossy_text(stderr);
        Err(WallpaperError::CommandFailed { message: failure_message(desktop, text.as_str()) })
    }
}

} // verus!
