//! Shared distro and status mappings: one table for the distro icon, one
//! for the status copy, and the theme role each status or distro is drawn in.
use vstd::prelude::*;
use crate::model::Status;
use crate::text::{
    ascii_lower, ascii_upper, contains, is_ascii_text, is_substring, lemma_ascii_case_folds, lowercase,
    to_lowercase,
};

verus! {

/// A theme colour role (never a literal colour: light, dark and
/// high-contrast themes all resolve their own).
#[derive(Clone, Copy, Debug, PartialEq, Eq, Structural)]
pub enum ThemeRole {
    Accent,
    Success,
    Warning,
    /// The neutral control colour.
    Neutral,
}

/// The family a lowercased image reference belongs to, in table order;
/// `None` for an unknown distro.
pub open spec fn distro_family(lower: Seq<char>) -> Option<int> {
    if is_substring("ubuntu"@, lower) {
        Some(0)
    } else if is_substring("fedora"@, lower) {
        Some(1)
    } else if is_substring("arch"@, lower) {
        Some(2)
    } else if is_substring("debian"@, lower) {
        Some(3)
    } else if is_substring("alpine"@, lower) {
        Some(4)
    } else if is_substring("centos"@, lower) || is_substring("rocky"@, lower) {
        Some(5)
    } else if is_substring("opensuse"@, lower) || is_substring("suse"@, lower) {
        Some(6)
    } else if is_substring("gentoo"@, lower) {
        Some(7)
    } else if is_substring("void"@, lower) {
        Some(8)
    } else {
        None
    }
}

/// The theme icon of each family, and the generic container icon otherwise.
pub open spec fn family_icon(family: Option<int>) -> Seq<char> {
    match family {
        Some(f) => if f == 0 {
            "ubuntu"@
        } else if f == 1 {
            "fedora"@
        } else if f == 2 {
            "archlinux"@
        } else if f == 3 {
            "debian"@
        } else if f == 4 {
            "alpine"@
        } else if f == 5 {
            "centos"@
        } else if f == 6 {
            "opensuse"@
        } else if f == 7 {
            "gentoo"@
        } else {
            "void"@
        },
        None => "container-symbolic"@,
    }
}

/// The theme role of each family: the families rotate over accent,
/// success and warning in table order; unknown is neutral.
pub open spec fn family_role(family: Option<int>) -> ThemeRole {
    match family {
        Some(f) => if f % 3 == 0 {
            ThemeRole::Accent
        } else if f % 3 == 1 {
            ThemeRole::Success
        } else {
            ThemeRole::Warning
        },
        None => ThemeRole::Neutral,
    }
}

/// The role each icon of the table is drawn in: ubuntu, debian and opensuse
/// accent; fedora, alpine and gentoo success; archlinux, centos and void
/// warning; the generic container icon neutral.
pub open spec fn icon_role(icon: Seq<char>) -> ThemeRole {
    if icon == "ubuntu"@ || icon == "debian"@ || icon == "opensuse"@ {
        ThemeRole::Accent
    } else if icon == "fedora"@ || icon == "alpine"@ || icon == "gentoo"@ {
        ThemeRole::Success
    } else if icon == "archlinux"@ || icon == "centos"@ || icon == "void"@ {
        ThemeRole::Warning
    } else {
        ThemeRole::Neutral
    }
}

/// A distro's colour role follows its icon: whatever the image, the role
/// `distro_role` gives is the role of the icon `distro_icon` gives.
pub proof fn lemma_role_follows_icon(lower: Seq<char>)
    ensures
        family_role(distro_family(lower)) == icon_role(family_icon(distro_family(lower))),
{
    reveal_strlit("ubuntu");
    reveal_strlit("fedora");
    reveal_strlit("archlinux");
    reveal_strlit("debian");
    reveal_strlit("alpine");
    reveal_strlit("centos");
    reveal_strlit("opensuse");
    reveal_strlit("gentoo");
    reveal_strlit("void");
    reveal_strlit("container-symbolic");
    let icon = family_icon(distro_family(lower));
    assert(icon.len() > 0 && (icon[0] == 'u' || icon[0] == 'f' || icon[0] == 'a' || icon[0] == 'd'
        || icon[0] == 'c' || icon[0] == 'o' || icon[0] == 'g' || icon[0] == 'v'));
    assert("ubuntu"@[0] == 'u' && "debian"@[0] == 'd' && "opensuse"@[0] == 'o');
    assert("fedora"@[0] == 'f' && "alpine"@[0] == 'a' && "gentoo"@[0] == 'g');
    assert("archlinux"@[0] == 'a' && "centos"@[0] == 'c' && "void"@[0] == 'v');
    assert("container-symbolic"@[0] == 'c');
}

/// The distro table, first match winning: a lowercased reference naming
/// ubuntu gets the ubuntu icon; else fedora the fedora icon; else arch the
/// archlinux icon; else debian, alpine; else centos or rocky the centos
/// icon; else opensuse or suse the opensuse icon; else gentoo, void; and a
/// reference naming none of them the generic container icon.
pub proof fn lemma_icon_table(lower: Seq<char>)
    ensures
        is_substring("ubuntu"@, lower) ==> family_icon(distro_family(lower)) == "ubuntu"@,
        !is_substring("ubuntu"@, lower) && is_substring("fedora"@, lower) ==> family_icon(
            distro_family(lower),
        ) == "fedora"@,
        !is_substring("ubuntu"@, lower) && !is_substring("fedora"@, lower) && is_substring(
            "arch"@,
            lower,
        ) ==> family_icon(distro_family(lower)) == "archlinux"@,
        !is_substring("ubuntu"@, lower) && !is_substring("fedora"@, lower) && !is_substring(
            "arch"@,
            lower,
        ) && is_substring("debian"@, lower) ==> family_icon(distro_family(lower)) == "debian"@,
        !is_substring("ubuntu"@, lower) && !is_substring("fedora"@, lower) && !is_substring(
            "arch"@,
            lower,
        ) && !is_substring("debian"@, lower) && is_substring("alpine"@, lower) ==> family_icon(
            distro_family(lower),
        ) == "alpine"@,
        !is_substring("ubuntu"@, lower) && !is_substring("fedora"@, lower) && !is_substring(
            "arch"@,
            lower,
        ) && !is_substring("debian"@, lower) && !is_substring("alpine"@, lower) && (is_substring(
            "centos"@,
            lower,
        ) || is_substring("rocky"@, lower)) ==> family_icon(distro_family(lower)) == "centos"@,
        !is_substring("ubuntu"@, lower) && !is_substring("fedora"@, lower) && !is_substring(
            "arch"@,
            lower,
        ) && !is_substring("debian"@, lower) && !is_substring("alpine"@, lower) && !is_substring(
            "centos"@,
            lower,
        ) && !is_substring("rocky"@, lower) && (is_substring("opensuse"@, lower) || is_substring(
            "suse"@,
            lower,
        )) ==> family_icon(distro_family(lower)) == "opensuse"@,
        !is_substring("ubuntu"@, lower) && !is_substring("fedora"@, lower) && !is_substring(
            "arch"@,
            lower,
        ) && !is_substring("debian"@, lower) && !is_substring("alpine"@, lower) && !is_substring(
            "centos"@,
            lower,
        ) && !is_substring("rocky"@, lower) && !is_substring("opensuse"@, lower) && !is_substring(
            "suse"@,
            lower,
        ) && is_substring("gentoo"@, lower) ==> family_icon(distro_family(lower)) == "gentoo"@,
        !is_substring("ubuntu"@, lower) && !is_substring("fedora"@, lower) && !is_substring(
            "arch"@,
            lower,
        ) && !is_substring("debian"@, lower) && !is_substring("alpine"@, lower) && !is_substring(
            "centos"@,
            lower,
        ) && !is_substring("rocky"@, lower) && !is_substring("opensuse"@, lower) && !is_substring(
            "suse"@,
            lower,
        ) && !is_substring("gentoo"@, lower) && is_substring("void"@, lower) ==> family_icon(
            distro_family(lower),
        ) == "void"@,
        !is_substring("ubuntu"@, lower) && !is_substring("fedora"@, lower) && !is_substring(
            "arch"@,
            lower,
        ) && !is_substring("debian"@, lower) && !is_substring("alpine"@, lower) && !is_substring(
            "centos"@,
            lower,
        ) && !is_substring("rocky"@, lower) && !is_substring("opensuse"@, lower) && !is_substring(
            "suse"@,
            lower,
        ) && !is_substring("gentoo"@, lower) && !is_substring("void"@, lower) ==> family_icon(
            distro_family(lower),
        ) == "container-symbolic"@,
{
}

/// The icon of ASCII image text ignores letter case: the reference, its
/// upper-cased and its lower-cased forms all get the same icon and role.
pub proof fn lemma_icon_ignores_ascii_case(image: Seq<char>)
    requires
        is_ascii_text(image),
    ensures
        is_ascii_text(ascii_upper(image)),
        is_ascii_text(ascii_lower(image)),
        family_icon(distro_family(ascii_lower(ascii_upper(image)))) == family_icon(
            distro_family(ascii_lower(image)),
        ),
        family_icon(distro_family(ascii_lower(ascii_lower(image)))) == family_icon(
            distro_family(ascii_lower(image)),
        ),
        family_role(distro_family(ascii_lower(ascii_upper(image)))) == family_role(
            distro_family(ascii_lower(image)),
        ),
{
    lemma_ascii_case_folds(image);
}

fn family_of(image: &str) -> (r: Option<u8>)
    ensures
        is_ascii_text(image@) ==> lowercase(image@) == ascii_lower(image@),
        match r {
            Some(f) => distro_family(lowercase(image@)) == Some(f as int),
            None => distro_family(lowercase(image@)) is None,
        },
{
    let lower = to_lowercase(image);
    let l = lower.as_str();
    if contains(l, "ubuntu") {
        Some(0)
    } else if contains(l, "fedora") {
        Some(1)
    } else if contains(l, "arch") {
        Some(2)
    } else if contains(l, "debian") {
        Some(3)
    } else if contains(l, "alpine") {
        Some(4)
    } else if contains(l, "centos") || contains(l, "rocky") {
        Some(5)
    } else if contains(l, "opensuse") || contains(l, "suse") {
        Some(6)
    } else if contains(l, "gentoo") {
        Some(7)
    } else if contains(l, "void") {
        Some(8)
    } else {
        None
    }
}

/// Theme icon name for a container image reference, matched on the
/// lowercased reference; unknown distros get the generic container icon.
pub fn distro_icon(image: &str) -> (r: &'static str)
    ensures
        r@ == family_icon(distro_family(lowercase(image@))),
        is_ascii_text(image@) ==> r@ == family_icon(distro_family(ascii_lower(image@))),
{
    match family_of(image) {
        Some(0) => "ubuntu",
        Some(1) => "fedora",
        Some(2) => "archlinux",
        Some(3) => "debian",
        Some(4) => "alpine",
        Some(5) => "centos",
        Some(6) => "opensuse",
        Some(7) => "gentoo",
        Some(8) => "void",
        _ => "container-symbolic",
    }
}

/// Theme role for a distro marker: the same table as `distro_icon`, with
/// the families rotating over accent, success and warning, and unknown
/// distros neutral.
pub fn distro_role(image: &str) -> (r: ThemeRole)
    ensures
        r == family_role(distro_family(lowercase(image@))),
        is_ascii_text(image@) ==> r == family_role(distro_family(ascii_lower(image@))),
{
    match family_of(image) {
        Some(f) => if f % 3 == 0 {
            ThemeRole::Accent
        } else if f % 3 == 1 {
            ThemeRole::Success
        } else {
            ThemeRole::Warning
        },
        None => ThemeRole::Neutral,
    }
}

/// The status word and its detail: `Running`, `Created` and `Exited` with
/// the detail after a space when there is one; other statuses show their
/// raw text, or `Unknown` when it is empty.
pub open spec fn status_text(status: Status) -> Seq<char> {
    match status {
        Status::Up(s) => if s@.len() == 0 { "Running"@ } else { "Running "@ + s@ },
        Status::Created(s) => if s@.len() == 0 { "Created"@ } else { "Created "@ + s@ },
        Status::Exited(s) => if s@.len() == 0 { "Exited"@ } else { "Exited "@ + s@ },
        Status::Other(s) => if s@.len() == 0 { "Unknown"@ } else { s@ },
    }
}

fn word_with_detail(word: &str, word_space: &str, detail: &String) -> (r: String)
    ensures
        r@ == if detail@.len() == 0 { word@ } else { word_space@ + detail@ },
{
    if detail.as_str().is_empty() {
        String::from_str(word)
    } else {
        String::from_str(word_space).concat(detail.as_str())
    }
}

/// The status label leads with the state's word: a running container reads
/// "Running", a created one "Created", an exited one "Exited", each followed
/// by its detail after a space when there is one; any other status shows its
/// own text, or "Unknown" when it has none. The three state words differ.
pub proof fn lemma_status_words(d: String)
    ensures
        d@.len() == 0 ==> status_text(Status::Up(d)) == "Running"@ && status_text(Status::Created(d))
            == "Created"@ && status_text(Status::Exited(d)) == "Exited"@ && status_text(
            Status::Other(d),
        ) == "Unknown"@,
        d@.len() > 0 ==> status_text(Status::Up(d)) == "Running "@ + d@ && status_text(
            Status::Created(d),
        ) == "Created "@ + d@ && status_text(Status::Exited(d)) == "Exited "@ + d@ && status_text(
            Status::Other(d),
        ) == d@,
        "Running"@ != "Created"@ && "Running"@ != "Exited"@ && "Created"@ != "Exited"@,
{
    reveal_strlit("Running");
    reveal_strlit("Created");
    reveal_strlit("Exited");
    assert("Running"@[0] != "Created"@[0]);
    assert("Running"@[0] != "Exited"@[0]);
    assert("Created"@[0] != "Exited"@[0]);
}

/// Human status label.
pub fn status_label(status: &Status) -> (r: String)
    ensures
        r@ == status_text(*status),
{
    match status {
        Status::Up(s) => word_with_detail("Running", "Running ", s),
        Status::Created(s) => word_with_detail("Created", "Created ", s),
        Status::Exited(s) => word_with_detail("Exited", "Exited ", s),
        Status::Other(s) => if s.as_str().is_empty() {
            String::from_str("Unknown")
        } else {
            s.clone()
        },
    }
}

/// Whether the container is running.
pub fn is_running(status: &Status) -> (r: bool)
    ensures
        r == (*status is Up),
{
    match status {
        Status::Up(_) => true,
        _ => false,
    }
}

/// Theme role for a status: running is success, created is accent, exited
/// is warning, anything else neutral.
pub fn status_role(status: &Status) -> (r: ThemeRole)
    ensures
        r == match *status {
            Status::Up(_) => ThemeRole::Success,
            Status::Created(_) => ThemeRole::Accent,
            Status::Exited(_) => ThemeRole::Warning,
            Status::Other(_) => ThemeRole::Neutral,
        },
{
    match status {
        Status::Up(_) => ThemeRole::Success,
        Status::Created(_) => ThemeRole::Accent,
        Status::Exited(_) => ThemeRole::Warning,
        Status::Other(_) => ThemeRole::Neutral,
    }
}

} // verus!
