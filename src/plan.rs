//! What each desktop family runs to read or write its wallpaper.
use crate::codec::{encode, encoded, strip_file_scheme, strip_scheme};
use crate::command::{texts, Command, CommandLine};
use crate::config::{setting_of, setting_value};
use crate::desktop::{classification, Desktop};
use crate::error::Error;
use crate::text::{remove_double_quotes, unquoted_chars};
use crate::xfce::split_lines;
use vstd::prelude::*;

verus! {

/// The command line of `program` with `args`.
pub open spec fn line(program: Seq<char>, args: Seq<Seq<char>>) -> CommandLine {
    CommandLine { program, args }
}

/// The settings-store command that reads the wallpaper value of a family whose
/// store holds it under one quoted key.
pub open spec fn read_line(d: Desktop) -> CommandLine {
    match d {
        Desktop::GnomeCompliant => line(
            "gsettings"@,
            seq!["get"@, "org.gnome.desktop.background"@, "picture-uri"@],
        ),
        Desktop::Cinnamon => line(
            "dconf"@,
            seq!["read"@, "/org/cinnamon/desktop/background/picture-uri"@],
        ),
        Desktop::Mate => line(
            "dconf"@,
            seq!["read"@, "/org/mate/desktop/background/picture-filename"@],
        ),
        _ => line(
            "dconf"@,
            seq!["read"@, "/com/deepin/wrap/gnome/desktop/background/picture-uri"@],
        ),
    }
}

/// The command that lists every property of the Xfce desktop channel.
pub open spec fn xfce_list_line() -> CommandLine {
    line("xfconf-query"@, seq!["-l"@, "-c"@, "xfce4-desktop"@])
}

/// How the wallpaper of a family is read.
pub enum GetPlan {
    /// Run the command and decode its output as a quoted settings value.
    Read(Command),
    /// Run the command to list the Xfce desktop channel, then query each
    /// last-image property found in the listing.
    XfceKeys(Command),
    /// Read the settings file `file`, relative to the home directory, and
    /// take the value of its `key` line as `setting_wallpaper` does.
    Setting { file: String, key: String },
}

/// The contents of a `GetPlan`.
pub enum GetStep {
    Read(CommandLine),
    XfceKeys(CommandLine),
    Setting { file: Seq<char>, key: Seq<char> },
}

impl View for GetPlan {
    type V = GetStep;

    open spec fn view(&self) -> GetStep {
        match self {
            GetPlan::Read(c) => GetStep::Read(c@),
            GetPlan::XfceKeys(c) => GetStep::XfceKeys(c@),
            GetPlan::Setting { file, key } => GetStep::Setting { file: file@, key: key@ },
        }
    }
}

/// How the wallpaper of each family is read; a tiling window manager offers no
/// way, and an unsupported desktop is refused.
pub open spec fn get_plan_of(d: Desktop) -> Result<GetStep, Error> {
    match d {
        Desktop::GnomeCompliant | Desktop::Cinnamon | Desktop::Mate | Desktop::Deepin => Ok(
            GetStep::Read(read_line(d)),
        ),
        Desktop::Xfce => Ok(GetStep::XfceKeys(xfce_list_line())),
        Desktop::Kde => Ok(
            GetStep::Setting { file: ".config/plasma-org.kde.plasma.desktop-appletsrc"@, key: "Image"@ },
        ),
        Desktop::Lxde => Ok(
            GetStep::Setting { file: ".config/pcmanfm/LXDE/desktop-items-0.conf"@, key: "wallpaper"@ },
        ),
        Desktop::Tiling => Err(Error::UnsupportedOperation),
        Desktop::Unsupported => Err(Error::UnsupportedDesktop),
    }
}

/// The arguments `a`, `b`.
fn args2(a: &str, b: &str) -> (r: Vec<String>)
    ensures
        texts(r@) == seq![a@, b@],
{
    let r = vec![String::from_str(a), String::from_str(b)];
    assert(texts(r@) =~= seq![a@, b@]);
    r
}

/// The arguments `a`, `b`, `c`.
fn args3(a: &str, b: &str, c: &str) -> (r: Vec<String>)
    ensures
        texts(r@) == seq![a@, b@, c@],
{
    let r = vec![String::from_str(a), String::from_str(b), String::from_str(c)];
    assert(texts(r@) =~= seq![a@, b@, c@]);
    r
}

/// The arguments `a`, `b`, `c`, `d`.
fn args4(a: &str, b: &str, c: &str, d: &str) -> (r: Vec<String>)
    ensures
        texts(r@) == seq![a@, b@, c@, d@],
{
    let r = vec![String::from_str(a), String::from_str(b), String::from_str(c), String::from_str(d)];
    assert(texts(r@) =~= seq![a@, b@, c@, d@]);
    r
}

/// The way to read the wallpaper of the desktop family `d`.
pub fn get_plan(d: Desktop) -> (r: Result<GetPlan, Error>)
    ensures
        r is Ok <==> get_plan_of(d) is Ok,
        r is Ok ==> get_plan_of(d) == Ok::<GetStep, Error>(r->Ok_0@),
        r is Err ==> get_plan_of(d) == Err::<GetStep, Error>(r->Err_0),
{
    match d {
        Desktop::GnomeCompliant => Ok(
            GetPlan::Read(
                Command::new(
                    "gsettings",
                    args3("get", "org.gnome.desktop.background", "picture-uri"),
                ),
            ),
        ),
        Desktop::Cinnamon => Ok(
            GetPlan::Read(
                Command::new(
                    "dconf",
                    args2("read", "/org/cinnamon/desktop/background/picture-uri"),
                ),
            ),
        ),
        Desktop::Mate => Ok(
            GetPlan::Read(
                Command::new(
                    "dconf",
                    args2("read", "/org/mate/desktop/background/picture-filename"),
                ),
            ),
        ),
        Desktop::Deepin => Ok(
            GetPlan::Read(
                Command::new(
                    "dconf",
                    args2("read", "/com/deepin/wrap/gnome/desktop/background/picture-uri"),
                ),
            ),
        ),
        Desktop::Xfce => Ok(
            GetPlan::XfceKeys(Command::new("xfconf-query", args3("-l", "-c", "xfce4-desktop"))),
        ),
        Desktop::Kde => Ok(
            GetPlan::Setting {
                file: String::from_str(".config/plasma-org.kde.plasma.desktop-appletsrc"),
                key: String::from_str("Image"),
            },
        ),
        Desktop::Lxde => Ok(
            GetPlan::Setting {
                file: String::from_str(".config/pcmanfm/LXDE/desktop-items-0.conf"),
                key: String::from_str("wallpaper"),
            },
        ),
        Desktop::Tiling => Err(Error::UnsupportedOperation),
        Desktop::Unsupported => Err(Error::UnsupportedDesktop),
    }
}

/// The Plasma shell script that points the image wallpaper of every desktop at
/// the file at `path`, given as a quoted file URI.
pub open spec fn kde_script(path: Seq<char>) -> Seq<char> {
    "var all = desktops(); for (var i = 0; i < all.length; i++) { var d = all[i]; d.wallpaperPlugin = \"org.kde.image\"; d.currentConfigGroup = [\"Wallpaper\", \"org.kde.image\", \"General\"]; d.writeConfig(\"Image\", "@
        + encoded(path, true) + "); }"@
}

/// The Plasma shell script for `path`.
fn kde_script_for(path: &str) -> (r: String)
    ensures
        r@ == kde_script(path@),
{
    let head = String::from_str(
        "var all = desktops(); for (var i = 0; i < all.length; i++) { var d = all[i]; d.wallpaperPlugin = \"org.kde.image\"; d.currentConfigGroup = [\"Wallpaper\", \"org.kde.image\", \"General\"]; d.writeConfig(\"Image\", ",
    );
    let v = encode(path, true);
    head.concat(v.as_str()).concat("); }")
}

/// The wallpaper named by the `key` line of a settings file's contents, without
/// a leading file scheme. A file without such a line is malformed.
pub fn setting_wallpaper(contents: &str, key: &str) -> (r: Result<String, Error>)
    ensures
        r is Err <==> setting_of(split_lines(contents@), key@ + seq!['=']) is None,
        r is Err ==> r->Err_0 == Error::MalformedValue,
        r is Ok ==> r->Ok_0@ == strip_scheme(setting_of(split_lines(contents@), key@ + seq!['='])->0),
{
    match setting_value(contents, key) {
        None => Err(Error::MalformedValue),
        Some(v) => Ok(strip_file_scheme(v.as_str())),
    }
}

/// How the wallpaper of a family is set to a local file.
pub enum SetPlan {
    /// Run the command.
    Run(Command),
    /// Run the command to list the Xfce desktop channel, then write the path to
    /// each last-image property found in the listing.
    XfceKeys(Command),
}

/// The contents of a `SetPlan`.
pub enum SetStep {
    Run(CommandLine),
    XfceKeys(CommandLine),
}

impl View for SetPlan {
    type V = SetStep;

    open spec fn view(&self) -> SetStep {
        match self {
            SetPlan::Run(c) => SetStep::Run(c@),
            SetPlan::XfceKeys(c) => SetStep::XfceKeys(c@),
        }
    }
}

/// How the wallpaper of each family is set to the file at `path`: the
/// settings stores get the path quoted, behind the file scheme but for Mate's,
/// KDE's Plasma shell gets it in a script,
/// and the file-manager and feh get it bare.
pub open spec fn set_plan_of(d: Desktop, path: Seq<char>) -> Result<SetStep, Error> {
    match d {
        Desktop::GnomeCompliant => Ok(
            SetStep::Run(
                line(
                    "gsettings"@,
                    seq![
                        "set"@,
                        "org.gnome.desktop.background"@,
                        "picture-uri"@,
                        encoded(path, true),
                    ],
                ),
            ),
        ),
        Desktop::Cinnamon => Ok(
            SetStep::Run(
                line(
                    "dconf"@,
                    seq![
                        "write"@,
                        "/org/cinnamon/desktop/background/picture-uri"@,
                        encoded(path, true),
                    ],
                ),
            ),
        ),
        Desktop::Mate => Ok(
            SetStep::Run(
                line(
                    "dconf"@,
                    seq![
                        "write"@,
                        "/org/mate/desktop/background/picture-filename"@,
                        encoded(path, false),
                    ],
                ),
            ),
        ),
        Desktop::Deepin => Ok(
            SetStep::Run(
                line(
                    "dconf"@,
                    seq![
                        "write"@,
                        "/com/deepin/wrap/gnome/desktop/background/picture-uri"@,
                        encoded(path, true),
                    ],
                ),
            ),
        ),
        Desktop::Xfce => Ok(SetStep::XfceKeys(xfce_list_line())),
        Desktop::Lxde => Ok(SetStep::Run(line("pcmanfm"@, seq!["-w"@, path]))),
        Desktop::Tiling => Ok(SetStep::Run(line("feh"@, seq!["--bg-fill"@, path]))),
        Desktop::Kde => Ok(
            SetStep::Run(
                line(
                    "qdbus"@,
                    seq![
                        "org.kde.plasmashell"@,
                        "/PlasmaShell"@,
                        "org.kde.PlasmaShell.evaluateScript"@,
                        kde_script(path),
                    ],
                ),
            ),
        ),
        Desktop::Unsupported => Err(Error::UnsupportedDesktop),
    }
}

/// The way to set the wallpaper of the desktop family `d` to the file at `path`.
pub fn set_plan(d: Desktop, path: &str) -> (r: Result<SetPlan, Error>)
    ensures
        r is Ok <==> set_plan_of(d, path@) is Ok,
        r is Ok ==> set_plan_of(d, path@) == Ok::<SetStep, Error>(r->Ok_0@),
        r is Err ==> set_plan_of(d, path@) == Err::<SetStep, Error>(r->Err_0),
{
    match d {
        Desktop::GnomeCompliant => {
            let v = encode(path, true);
            Ok(
                SetPlan::Run(
                    Command::new(
                        "gsettings",
                        args4("set", "org.gnome.desktop.background", "picture-uri", v.as_str()),
                    ),
                ),
            )
        },
        Desktop::Cinnamon => {
            let v = encode(path, true);
            Ok(
                SetPlan::Run(
                    Command::new(
                        "dconf",
                        args3("write", "/org/cinnamon/desktop/background/picture-uri", v.as_str()),
                    ),
                ),
            )
        },
        Desktop::Mate => {
            let v = encode(path, false);
            Ok(
                SetPlan::Run(
                    Command::new(
                        "dconf",
                        args3("write", "/org/mate/desktop/background/picture-filename", v.as_str()),
                    ),
                ),
            )
        },
        Desktop::Deepin => {
            let v = encode(path, true);
            Ok(
                SetPlan::Run(
                    Command::new(
                        "dconf",
                        args3(
                            "write",
                            "/com/deepin/wrap/gnome/desktop/background/picture-uri",
                            v.as_str(),
                        ),
                    ),
                ),
            )
        },
        Desktop::Xfce => Ok(
            SetPlan::XfceKeys(Command::new("xfconf-query", args3("-l", "-c", "xfce4-desktop"))),
        ),
        Desktop::Lxde => Ok(SetPlan::Run(Command::new("pcmanfm", args2("-w", path)))),
        Desktop::Tiling => Ok(SetPlan::Run(Command::new("feh", args2("--bg-fill", path)))),
        Desktop::Kde => {
            let script = kde_script_for(path);
            Ok(
                SetPlan::Run(
                    Command::new(
                        "qdbus",
                        args4(
                            "org.kde.plasmashell",
                            "/PlasmaShell",
                            "org.kde.PlasmaShell.evaluateScript",
                            script.as_str(),
                        ),
                    ),
                ),
            )
        },
        Desktop::Unsupported => Err(Error::UnsupportedDesktop),
    }
}

/// How the wallpaper of a family is set to a remote image.
pub enum UrlPlan {
    /// Run the command, which hands the URL to the desktop itself.
    Run(Command),
    /// Download the image to a local file and set the wallpaper from that path.
    Download,
}

/// The contents of a `UrlPlan`.
pub enum UrlStep {
    Run(CommandLine),
    Download,
}

impl View for UrlPlan {
    type V = UrlStep;

    open spec fn view(&self) -> UrlStep {
        match self {
            UrlPlan::Run(c) => UrlStep::Run(c@),
            UrlPlan::Download => UrlStep::Download,
        }
    }
}

/// How the wallpaper of each family is set to the image at `url`: the
/// GNOME-compliant settings daemon takes the quoted URL, with no scheme added, and feh takes it without
/// double quotes; every other family is given a downloaded copy.
pub open spec fn url_plan_of(d: Desktop, url: Seq<char>) -> UrlStep {
    match d {
        Desktop::GnomeCompliant => UrlStep::Run(
            line(
                "gsettings"@,
                seq!["set"@, "org.gnome.desktop.background"@, "picture-uri"@, encoded(url, false)],
            ),
        ),
        Desktop::Tiling => UrlStep::Run(line("feh"@, seq!["--bg-fill"@, unquoted_chars(url)])),
        _ => UrlStep::Download,
    }
}

/// The way to set the wallpaper of the desktop family `d` to the image at `url`.
pub fn url_plan(d: Desktop, url: &str) -> (r: UrlPlan)
    ensures
        r@ == url_plan_of(d, url@),
{
    match d {
        Desktop::GnomeCompliant => {
            let v = encode(url, false);
            UrlPlan::Run(
                Command::new(
                    "gsettings",
                    args4("set", "org.gnome.desktop.background", "picture-uri", v.as_str()),
                ),
            )
        },
        Desktop::Tiling => {
            let v = remove_double_quotes(url);
            UrlPlan::Run(Command::new("feh", args2("--bg-fill", v.as_str())))
        },
        _ => UrlPlan::Download,
    }
}

/// A family without a way to take a URL downloads the image first, and the
/// value it then writes is the downloaded file's path, quoted as for any other
/// path: Mate's settings store never receives the URL.
pub proof fn lemma_mate_url_goes_through_download(url: Seq<char>, local: Seq<char>)
    ensures
        url_plan_of(Desktop::Mate, url) == UrlStep::Download,
        set_plan_of(Desktop::Mate, local) == Ok::<SetStep, Error>(
            SetStep::Run(
                line(
                    "dconf"@,
                    seq![
                        "write"@,
                        "/org/mate/desktop/background/picture-filename"@,
                        encoded(local, false),
                    ],
                ),
            ),
        ),
{
}

/// An identifier of no supported family is refused, both for reading and for
/// setting the wallpaper: never a silent success.
pub proof fn lemma_unsupported_refused(desktop: Seq<char>, path: Seq<char>)
    requires
        classification(desktop) == Desktop::Unsupported,
    ensures
        get_plan_of(classification(desktop)) == Err::<GetStep, Error>(Error::UnsupportedDesktop),
        set_plan_of(classification(desktop), path) == Err::<SetStep, Error>(
            Error::UnsupportedDesktop,
        ),
{
}

} // verus!
