use wallpaper::command::Command;
use wallpaper::desktop::{classify, Desktop};
use wallpaper::error::Error;
use wallpaper::plan::{get_plan, set_plan, setting_wallpaper, url_plan, GetPlan, SetPlan, UrlPlan};

fn line(c: &Command) -> (String, Vec<String>) {
    (c.program.clone(), c.args.clone())
}

fn owned(program: &str, args: &[&str]) -> (String, Vec<String>) {
    (program.to_string(), args.iter().map(|a| a.to_string()).collect())
}

fn run_of(p: SetPlan) -> (String, Vec<String>) {
    match p {
        SetPlan::Run(c) => line(&c),
        _ => panic!("expected a command"),
    }
}

fn read_of(p: GetPlan) -> (String, Vec<String>) {
    match p {
        GetPlan::Read(c) => line(&c),
        _ => panic!("expected a command"),
    }
}

#[test]
fn get_commands() {
    assert_eq!(
        read_of(get_plan(Desktop::GnomeCompliant).unwrap()),
        owned("gsettings", &["get", "org.gnome.desktop.background", "picture-uri"])
    );
    assert_eq!(
        read_of(get_plan(Desktop::Cinnamon).unwrap()),
        owned("dconf", &["read", "/org/cinnamon/desktop/background/picture-uri"])
    );
    assert_eq!(
        read_of(get_plan(Desktop::Mate).unwrap()),
        owned("dconf", &["read", "/org/mate/desktop/background/picture-filename"])
    );
    assert_eq!(
        read_of(get_plan(Desktop::Deepin).unwrap()),
        owned("dconf", &["read", "/com/deepin/wrap/gnome/desktop/background/picture-uri"])
    );
    match get_plan(Desktop::Xfce).unwrap() {
        GetPlan::XfceKeys(c) => {
            assert_eq!(line(&c), owned("xfconf-query", &["-l", "-c", "xfce4-desktop"]))
        }
        _ => panic!("expected a listing"),
    }
    match get_plan(Desktop::Kde).unwrap() {
        GetPlan::Setting { file, key } => {
            assert_eq!(file, ".config/plasma-org.kde.plasma.desktop-appletsrc");
            assert_eq!(key, "Image");
        }
        _ => panic!("expected a settings file"),
    }
    match get_plan(Desktop::Lxde).unwrap() {
        GetPlan::Setting { file, key } => {
            assert_eq!(file, ".config/pcmanfm/LXDE/desktop-items-0.conf");
            assert_eq!(key, "wallpaper");
        }
        _ => panic!("expected a settings file"),
    }
}

#[test]
fn tiling_has_no_get() {
    assert!(matches!(get_plan(Desktop::Tiling), Err(Error::UnsupportedOperation)));
}

#[test]
fn unsupported_desktop_is_refused() {
    let d = classify("FooDE");
    assert!(matches!(get_plan(d), Err(Error::UnsupportedDesktop)));
    assert!(matches!(set_plan(d, "/tmp/w.png"), Err(Error::UnsupportedDesktop)));
}

#[test]
fn mate_writes_bare_quoted_path() {
    let d = classify("MATE");
    assert_eq!(
        run_of(set_plan(d, "/tmp/w.png").unwrap()),
        owned("dconf", &["write", "/org/mate/desktop/background/picture-filename", "\"/tmp/w.png\""])
    );
}

#[test]
fn gnome_writes_file_uri() {
    assert_eq!(
        run_of(set_plan(Desktop::GnomeCompliant, "/tmp/w.png").unwrap()),
        owned(
            "gsettings",
            &["set", "org.gnome.desktop.background", "picture-uri", "\"file:///tmp/w.png\""]
        )
    );
}

#[test]
fn other_set_commands() {
    assert_eq!(
        run_of(set_plan(Desktop::Cinnamon, "/tmp/w.png").unwrap()),
        owned(
            "dconf",
            &["write", "/org/cinnamon/desktop/background/picture-uri", "\"file:///tmp/w.png\""]
        )
    );
    assert_eq!(
        run_of(set_plan(Desktop::Deepin, "/tmp/w.png").unwrap()),
        owned(
            "dconf",
            &[
                "write",
                "/com/deepin/wrap/gnome/desktop/background/picture-uri",
                "\"file:///tmp/w.png\""
            ]
        )
    );
    assert_eq!(
        run_of(set_plan(Desktop::Lxde, "/tmp/w.png").unwrap()),
        owned("pcmanfm", &["-w", "/tmp/w.png"])
    );
    assert_eq!(
        run_of(set_plan(Desktop::Tiling, "/tmp/w.png").unwrap()),
        owned("feh", &["--bg-fill", "/tmp/w.png"])
    );
    let (program, args) = run_of(set_plan(Desktop::Kde, "/tmp/w.png").unwrap());
    assert_eq!(program, "qdbus");
    assert_eq!(args.len(), 4);
    assert_eq!(args[2], "org.kde.PlasmaShell.evaluateScript");
    assert!(args[3].ends_with("d.writeConfig(\"Image\", \"file:///tmp/w.png\"); }"));
    assert!(matches!(set_plan(Desktop::Xfce, "/tmp/w.png"), Ok(SetPlan::XfceKeys(_))));
}

#[test]
fn mate_url_is_downloaded_first() {
    assert!(matches!(url_plan(Desktop::Mate, "https://e.org/w.png"), UrlPlan::Download));
    assert_eq!(
        run_of(set_plan(Desktop::Mate, "/tmp/dl.png").unwrap()).1[2],
        "\"/tmp/dl.png\""
    );
}

#[test]
fn url_capable_families_take_the_url() {
    match url_plan(Desktop::GnomeCompliant, "https://e.org/w.png") {
        UrlPlan::Run(c) => assert_eq!(
            line(&c),
            owned(
                "gsettings",
                &["set", "org.gnome.desktop.background", "picture-uri", "\"https://e.org/w.png\""]
            )
        ),
        UrlPlan::Download => panic!("expected a command"),
    }
    match url_plan(Desktop::Tiling, "\"https://e.org/w\".png") {
        UrlPlan::Run(c) => assert_eq!(line(&c), owned("feh", &["--bg-fill", "https://e.org/w.png"])),
        UrlPlan::Download => panic!("expected a command"),
    }
    assert!(matches!(url_plan(Desktop::Xfce, "https://e.org/w.png"), UrlPlan::Download));
}

#[test]
fn settings_file_wallpaper() {
    let kde = "[Containments][1][Wallpaper][org.kde.image][General]\nImage=file:///home/u/a.jpg\n";
    assert_eq!(setting_wallpaper(kde, "Image").unwrap(), "/home/u/a.jpg");
    let lxde = "[*]\nwallpaper_mode=stretch\nwallpaper=/usr/share/b.png\n";
    assert_eq!(setting_wallpaper(lxde, "wallpaper").unwrap(), "/usr/share/b.png");
    assert!(matches!(setting_wallpaper("Other=1", "Image"), Err(Error::MalformedValue)));
}
