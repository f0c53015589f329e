use vstd::prelude::*;

use crate::text::str_eq;

verus! {

/// Known (and unknown) operating system tags.
///
/// `LinuxAny`, `LinuxUbuntu` and `LinuxDebian` are family tags: each is
/// compatible with a declared set of descendants.
#[derive(Clone, Copy, Debug, PartialEq, Eq, Structural)]
pub enum Os {
    Unknown,
    LinuxUnknown,
    LinuxAny,
    LinuxArchlinux,
    LinuxFedora,
    LinuxOpenSusLeap,
    LinuxUbuntu,
    LinuxUbuntuLuna,
    LinuxUbuntuFocal,
    LinuxUbuntuBionic,
    LinuxDebian,
    LinuxDebianBookworm,
    LinuxDebianBullseye,
    LinuxDebianBuster,
}

/// The tags that a family tag declares as its descendants.
pub open spec fn descendant_of(family: Os, d: Os) -> bool {
    match family {
        Os::LinuxAny => d == Os::LinuxArchlinux || d == Os::LinuxFedora || d
            == Os::LinuxOpenSusLeap || d == Os::LinuxDebian || d == Os::LinuxUbuntu || d
            == Os::LinuxUbuntuBionic || d == Os::LinuxUbuntuFocal || d == Os::LinuxUbuntuLuna
            || d == Os::LinuxDebianBookworm || d == Os::LinuxDebianBuster || d
            == Os::LinuxDebianBullseye,
        Os::LinuxUbuntu => d == Os::LinuxAny || d == Os::LinuxUbuntuBionic || d
            == Os::LinuxUbuntuFocal || d == Os::LinuxUbuntuLuna,
        Os::LinuxDebian => d == Os::LinuxAny || d == Os::LinuxDebianBookworm || d
            == Os::LinuxDebianBuster || d == Os::LinuxDebianBullseye,
        _ => false,
    }
}

/// A tag that declares descendants.
pub open spec fn is_family(o: Os) -> bool {
    o == Os::LinuxAny || o == Os::LinuxUbuntu || o == Os::LinuxDebian
}

/// `a` supports `b`: identity, or `b` is a declared descendant of the family `a`.
pub open spec fn os_compatible(a: Os, b: Os) -> bool {
    a == b || descendant_of(a, b)
}

/// The tag named by a distribution id or release codename.
pub open spec fn os_from_text(s: Seq<char>) -> Os {
    if s == "linux"@ {
        Os::LinuxAny
    } else if s == "luna"@ {
        Os::LinuxUbuntuLuna
    } else if s == "focal"@ {
        Os::LinuxUbuntuFocal
    } else if s == "bionic"@ {
        Os::LinuxUbuntuBionic
    } else if s == "bookworm"@ {
        Os::LinuxDebianBookworm
    } else if s == "bullseye"@ {
        Os::LinuxDebianBullseye
    } else if s == "buster"@ {
        Os::LinuxDebianBuster
    } else {
        Os::Unknown
    }
}

impl Os {
    pub fn default() -> (r: Os)
        ensures
            r == Os::Unknown,
    {
        Os::Unknown
    }

    /// Maps a distribution id or codename to a tag; anything unknown is `Unknown`.
    pub fn from_str(s: &str) -> (r: Os)
        ensures
            r == os_from_text(s@),
    {
        if str_eq(s, "linux") {
            Os::LinuxAny
        } else if str_eq(s, "luna") {
            Os::LinuxUbuntuLuna
        } else if str_eq(s, "focal") {
            Os::LinuxUbuntuFocal
        } else if str_eq(s, "bionic") {
            Os::LinuxUbuntuBionic
        } else if str_eq(s, "bookworm") {
            Os::LinuxDebianBookworm
        } else if str_eq(s, "bullseye") {
            Os::LinuxDebianBullseye
        } else if str_eq(s, "buster") {
            Os::LinuxDebianBuster
        } else {
            Os::Unknown
        }
    }

    pub fn compatible(&self, other: &Os) -> (r: bool)
        ensures
            r == os_compatible(*self, *other),
    {
        if *self == *other {
            return true;
        }
        let o = *other;
        match self {
            Os::LinuxAny => matches!(
                o,
                Os::LinuxArchlinux | Os::LinuxFedora | Os::LinuxOpenSusLeap | Os::LinuxDebian
                    | Os::LinuxUbuntu | Os::LinuxUbuntuBionic | Os::LinuxUbuntuFocal
                    | Os::LinuxUbuntuLuna | Os::LinuxDebianBookworm | Os::LinuxDebianBuster
                    | Os::LinuxDebianBullseye
            ),
            Os::LinuxUbuntu => matches!(
                o,
                Os::LinuxAny | Os::LinuxUbuntuBionic | Os::LinuxUbuntuFocal | Os::LinuxUbuntuLuna
            ),
            Os::LinuxDebian => matches!(
                o,
                Os::LinuxAny | Os::LinuxDebianBookworm | Os::LinuxDebianBuster
                    | Os::LinuxDebianBullseye
            ),
            _ => false,
        }
    }
}

/// Every tag is compatible with itself; a family tag is compatible with each
/// of its declared descendants; a descendant that is not itself a family tag
/// is compatible with its family only when equal to it; and `Unknown` is
/// compatible with nothing but itself, in either direction.
pub proof fn lemma_compatibility_lattice(a: Os, family: Os, d: Os)
    ensures
        os_compatible(a, a),
        is_family(family) && descendant_of(family, d) ==> os_compatible(family, d),
        is_family(family) && descendant_of(family, d) && !is_family(d) ==> (os_compatible(
            d,
            family,
        ) <==> d == family),
        os_compatible(Os::Unknown, a) <==> a == Os::Unknown,
        os_compatible(a, Os::Unknown) <==> a == Os::Unknown,
{
}

} // verus!
