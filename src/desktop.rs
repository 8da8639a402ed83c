//! The desktop families and the classification of a desktop identifier.
use crate::text::{contains, contains_text, same_text, occurs_at};
use vstd::prelude::*;

verus! {

/// The families of desktop environments whose wallpaper setting is known.
#[derive(PartialEq, Eq, Structural, Clone, Copy, Debug)]
pub enum Desktop {
    /// GNOME and the desktops that share its settings daemon.
    GnomeCompliant,
    Kde,
    Cinnamon,
    Mate,
    Xfce,
    Lxde,
    Deepin,
    /// A tiling window manager (i3) whose wallpaper is drawn by feh.
    Tiling,
    Unsupported,
}

/// The identifiers that share GNOME's settings daemon: any that mentions
/// "GNOME", and Unity and Pantheon.
pub open spec fn gnome_compliant(d: Seq<char>) -> bool {
    contains(d, "GNOME"@) || d == "Unity"@ || d == "Pantheon"@
}

/// The family of a desktop identifier. The GNOME-compliant test comes first,
/// then the exact names of the other families; anything else is unsupported.
pub open spec fn classification(d: Seq<char>) -> Desktop {
    if gnome_compliant(d) {
        Desktop::GnomeCompliant
    } else if d == "KDE"@ {
        Desktop::Kde
    } else if d == "X-Cinnamon"@ {
        Desktop::Cinnamon
    } else if d == "MATE"@ {
        Desktop::Mate
    } else if d == "XFCE"@ {
        Desktop::Xfce
    } else if d == "LXDE"@ {
        Desktop::Lxde
    } else if d == "Deepin"@ {
        Desktop::Deepin
    } else if d == "i3"@ {
        Desktop::Tiling
    } else {
        Desktop::Unsupported
    }
}

/// Whether the desktop identifier belongs to the GNOME-compliant family.
pub fn is_gnome_compliant(desktop: &str) -> (r: bool)
    ensures
        r == gnome_compliant(desktop@),
{
    contains_text(desktop, "GNOME") || same_text(desktop, "Unity") || same_text(desktop, "Pantheon")
}

/// The family of the desktop identifier.
pub fn classify(desktop: &str) -> (r: Desktop)
    ensures
        r == classification(desktop@),
{
    if is_gnome_compliant(desktop) {
        Desktop::GnomeCompliant
    } else if same_text(desktop, "KDE") {
        Desktop::Kde
    } else if same_text(desktop, "X-Cinnamon") {
        Desktop::Cinnamon
    } else if same_text(desktop, "MATE") {
        Desktop::Mate
    } else if same_text(desktop, "XFCE") {
        Desktop::Xfce
    } else if same_text(desktop, "LXDE") {
        Desktop::Lxde
    } else if same_text(desktop, "Deepin") {
        Desktop::Deepin
    } else if same_text(desktop, "i3") {
        Desktop::Tiling
    } else {
        Desktop::Unsupported
    }
}

/// An identifier without the letter G does not mention "GNOME".
proof fn lemma_no_g_no_gnome(d: Seq<char>)
    requires
        forall|i: int| 0 <= i < d.len() ==> d[i] != 'G',
    ensures
        !contains(d, "GNOME"@),
{
    reveal_strlit("GNOME");
    if contains(d, "GNOME"@) {
        let i = choose|i: int| occurs_at(d, "GNOME"@, i);
        assert(d.subrange(i, i + 5)[0] == d[i]);
    }
}

/// Classification is decided by the GNOME test first: an identifier that
/// mentions "GNOME" is GNOME-compliant whatever else it would match.
pub proof fn lemma_gnome_takes_priority(d: Seq<char>)
    requires
        contains(d, "GNOME"@),
    ensures
        classification(d) == Desktop::GnomeCompliant,
{
}

/// An identifier without the letter G and of another length than "Unity"
/// and "Pantheon" is not GNOME-compliant.
proof fn lemma_not_gnome_compliant(d: Seq<char>)
    requires
        forall|i: int| 0 <= i < d.len() ==> d[i] != 'G',
        d.len() != 5,
        d.len() != 8,
    ensures
        !gnome_compliant(d),
{
    reveal_strlit("Unity");
    reveal_strlit("Pantheon");
    lemma_no_g_no_gnome(d);
}

/// "GNOME" and "ubuntu:GNOME" mention "GNOME".
proof fn lemma_gnome_mentions()
    ensures
        contains("GNOME"@, "GNOME"@),
        contains("ubuntu:GNOME"@, "GNOME"@),
{
    reveal_strlit("GNOME");
    reveal_strlit("ubuntu:GNOME");
    let g = "GNOME"@;
    let u = "ubuntu:GNOME"@;
    assert(g.subrange(0, 5) =~= g);
    assert(occurs_at(g, g, 0));
    assert(u.subrange(7, 12) =~= g);
    assert(occurs_at(u, g, 7));
}

/// The identifiers of the GNOME-compliant family are classified as such.
pub proof fn lemma_gnome_identifiers()
    ensures
        classification("GNOME"@) == Desktop::GnomeCompliant,
        classification("ubuntu:GNOME"@) == Desktop::GnomeCompliant,
        classification("Unity"@) == Desktop::GnomeCompliant,
        classification("Pantheon"@) == Desktop::GnomeCompliant,
{
    lemma_gnome_mentions();
}

/// Each identifier of another known family is classified into that family.
pub proof fn lemma_family_identifiers()
    ensures
        classification("KDE"@) == Desktop::Kde,
        classification("X-Cinnamon"@) == Desktop::Cinnamon,
        classification("MATE"@) == Desktop::Mate,
        classification("XFCE"@) == Desktop::Xfce,
        classification("LXDE"@) == Desktop::Lxde,
        classification("Deepin"@) == Desktop::Deepin,
        classification("i3"@) == Desktop::Tiling,
{
    reveal_strlit("KDE");
    reveal_strlit("X-Cinnamon");
    reveal_strlit("MATE");
    reveal_strlit("XFCE");
    reveal_strlit("LXDE");
    reveal_strlit("Deepin");
    reveal_strlit("i3");
    lemma_not_gnome_compliant("KDE"@);
    lemma_not_gnome_compliant("X-Cinnamon"@);
    lemma_not_gnome_compliant("MATE"@);
    lemma_not_gnome_compliant("XFCE"@);
    lemma_not_gnome_compliant("LXDE"@);
    lemma_not_gnome_compliant("Deepin"@);
    lemma_not_gnome_compliant("i3"@);
    assert("MATE"@[0] != "XFCE"@[0]);
    assert("MATE"@[0] != "LXDE"@[0]);
    assert("XFCE"@[0] != "LXDE"@[0]);
}

} // verus!
