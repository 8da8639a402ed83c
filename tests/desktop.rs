use wallpaper::desktop::{classify, is_gnome_compliant, Desktop};

#[test]
fn known_identifiers_are_classified() {
    assert_eq!(classify("GNOME"), Desktop::GnomeCompliant);
    assert_eq!(classify("ubuntu:GNOME"), Desktop::GnomeCompliant);
    assert_eq!(classify("Unity"), Desktop::GnomeCompliant);
    assert_eq!(classify("Pantheon"), Desktop::GnomeCompliant);
    assert_eq!(classify("KDE"), Desktop::Kde);
    assert_eq!(classify("X-Cinnamon"), Desktop::Cinnamon);
    assert_eq!(classify("MATE"), Desktop::Mate);
    assert_eq!(classify("XFCE"), Desktop::Xfce);
    assert_eq!(classify("LXDE"), Desktop::Lxde);
    assert_eq!(classify("Deepin"), Desktop::Deepin);
    assert_eq!(classify("i3"), Desktop::Tiling);
}

#[test]
fn gnome_substring_wins_over_exact_families() {
    assert_eq!(classify("KDE:GNOME"), Desktop::GnomeCompliant);
    assert_eq!(classify("GNOME-Flashback:GNOME"), Desktop::GnomeCompliant);
    assert_eq!(classify("XFCEGNOME"), Desktop::GnomeCompliant);
}

#[test]
fn unknown_identifiers_are_unsupported() {
    assert_eq!(classify("FooDE"), Desktop::Unsupported);
    assert_eq!(classify(""), Desktop::Unsupported);
    assert_eq!(classify("kde"), Desktop::Unsupported);
    assert_eq!(classify("gnome"), Desktop::Unsupported);
    assert_eq!(classify("Unity2"), Desktop::Unsupported);
    assert_eq!(classify("GNOM"), Desktop::Unsupported);
}

#[test]
fn gnome_compliance() {
    assert!(is_gnome_compliant("GNOME"));
    assert!(is_gnome_compliant("ubuntu:GNOME"));
    assert!(is_gnome_compliant("Unity"));
    assert!(is_gnome_compliant("Pantheon"));
    assert!(!is_gnome_compliant("KDE"));
    assert!(!is_gnome_compliant("Pantheon "));
    assert!(!is_gnome_compliant(""));
}
