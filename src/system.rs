use vstd::prelude::*;
use vstd::string::*;
use crate::keys::{trim_of, trimmed};
use crate::model::{DEInfo, OsInfo, SessionType, Support, SysInfo};

verus! {

/// What `str::to_lowercase` makes of a text.
pub uninterp spec fn lower_of(s: Seq<char>) -> Seq<char>;

/// Relies on `str::to_lowercase`: the lowercase form of the text, which
/// depends on the characters alone.
#[verifier::external_body]
fn lowercase(s: &str) -> (r: String)
    ensures
        r@ == lower_of(s@),
{
    s.to_lowercase()
}

/// The group that `regex`'s case-insensitive `pattern` captures first in
/// `line`, if the pattern matches it.
pub uninterp spec fn case_insensitive_group(pattern: Seq<char>, line: Seq<char>) -> Option<
    Seq<char>,
>;

/// Relies on `regex::RegexBuilder` (case-insensitive, then `build`) and on
/// `Regex::captures` with `Captures::get(1)`: the text of the first group of
/// the first match of `pattern` in `line`; `None` when there is none, or
/// when the pattern does not compile.
#[verifier::external_body]
fn first_group(pattern: &str, line: &str) -> (r: Option<String>)
    ensures
        match r {
            Some(g) => case_insensitive_group(pattern@, line@) == Some(g@),
            None => case_insensitive_group(pattern@, line@).is_none(),
        },
{
    let re = match regex::RegexBuilder::new(pattern).case_insensitive(true).build() {
        Ok(re) => re,
        Err(_) => return None,
    };
    match re.captures(line) {
        Some(c) => match c.get(1) {
            Some(m) => Some(m.as_str().to_string()),
            None => None,
        },
        None => None,
    }
}

/// The pattern of the line of an os-release file that names the
/// distribution.
pub open spec fn distro_pattern() -> Seq<char> {
    "^PRETTY_NAME=\"(.+)\"$"@
}

/// The distribution name given by the first line of `lines` that matches
/// the pattern, if any does.
pub open spec fn distro_name_in(lines: Seq<String>) -> Option<Seq<char>>
    decreases lines.len(),
{
    if lines.len() == 0 {
        None
    } else {
        match case_insensitive_group(distro_pattern(), lines[0]@) {
            Some(g) => Some(g),
            None => distro_name_in(lines.drop_first()),
        }
    }
}

/// The distribution name from the lines of an os-release file: the quoted
/// value of the first `PRETTY_NAME="..."` line (the key in any case).
pub fn distro_name_from_lines(lines: &Vec<String>) -> (r: Option<String>)
    ensures
        match r {
            Some(name) => distro_name_in(lines@) == Some(name@),
            None => distro_name_in(lines@).is_none(),
        },
{
    let pattern = "^PRETTY_NAME=\"(.+)\"$";
    let mut i: usize = 0;
    while i < lines.len()
        invariant
            i <= lines@.len(),
            lines@.subrange(0, lines@.len() as int) == lines@,
            pattern@ == distro_pattern(),
            distro_name_in(lines@) == distro_name_in(lines@.subrange(i as int, lines@.len() as int)),
        decreases lines.len() - i,
    {
        proof {
            let tail = lines@.subrange(i as int, lines@.len() as int);
            assert(tail.drop_first() =~= lines@.subrange(i as int + 1, lines@.len() as int));
            assert(tail[0] == lines@[i as int]);
        }
        match first_group(pattern, lines[i].as_str()) {
            Some(name) => {
                return Some(name);
            },
            None => {},
        }
        i = i + 1;
    }
    None
}

/// The desktop environment named by `name`, lowercased and trimmed: known
/// names map to their variant, an empty one to `Unknown`, any other to
/// `Other` with the normalized name.
pub open spec fn names_desktop(r: DEInfo, name: Seq<char>) -> bool {
    let t = trim_of(lower_of(name));
    if t.len() == 0 {
        r == DEInfo::Unknown
    } else if t == "kde"@ {
        r == DEInfo::KDE
    } else if t == "gnome"@ {
        r == DEInfo::Gnome
    } else if t == "hyprland"@ {
        r == DEInfo::Hyprland
    } else {
        r matches DEInfo::Other(o) && o@ == t
    }
}

/// The session type named by `name`, lowercased and trimmed: known names map
/// to their variant, any other to `Other` with the normalized name.
pub open spec fn names_session(r: SessionType, name: Seq<char>) -> bool {
    let t = trim_of(lower_of(name));
    if t == "wayland"@ {
        r == SessionType::Wayland
    } else if t == "x11"@ {
        r == SessionType::X11
    } else if t == "tty"@ {
        r == SessionType::Tty
    } else {
        r matches SessionType::Other(o) && o@ == t
    }
}

fn normalized(name: &str) -> (r: String)
    ensures
        r@ == trim_of(lower_of(name@)),
{
    let lower = lowercase(name);
    trimmed(lower.as_str())
}

/// The desktop environment named by the value of `XDG_CURRENT_DESKTOP`.
pub fn desktop_environment_from(name: &str) -> (r: DEInfo)
    ensures
        names_desktop(r, name@),
{
    let t = normalized(name);
    if t.as_str().unicode_len() == 0 {
        DEInfo::Unknown
    } else if t == String::from_str("kde") {
        DEInfo::KDE
    } else if t == String::from_str("gnome") {
        DEInfo::Gnome
    } else if t == String::from_str("hyprland") {
        DEInfo::Hyprland
    } else {
        DEInfo::Other(t)
    }
}

/// The session type named by the value of `XDG_SESSION_TYPE`.
pub fn session_type_from(name: &str) -> (r: SessionType)
    ensures
        names_session(r, name@),
{
    let t = normalized(name);
    if t == String::from_str("wayland") {
        SessionType::Wayland
    } else if t == String::from_str("x11") {
        SessionType::X11
    } else if t == String::from_str("tty") {
        SessionType::Tty
    } else {
        SessionType::Other(t)
    }
}

/// Key dispatch works under Hyprland, not under KDE or GNOME, and is not
/// known to work anywhere else.
pub open spec fn support_of(os: OsInfo) -> Support {
    match os {
        OsInfo::Linux { desktop_environment: DEInfo::Hyprland, .. } => Support::Supported,
        OsInfo::Linux { desktop_environment: DEInfo::KDE, .. } => Support::Unsupported,
        OsInfo::Linux { desktop_environment: DEInfo::Gnome, .. } => Support::Unsupported,
        _ => Support::Unknown,
    }
}

/// Whether key dispatch is expected to work on `os`.
pub fn support_for(os: &OsInfo) -> (r: Support)
    ensures
        r == support_of(*os),
{
    match os {
        OsInfo::Linux { desktop_environment, .. } => match desktop_environment {
            DEInfo::Hyprland => Support::Supported,
            DEInfo::KDE => Support::Unsupported,
            DEInfo::Gnome => Support::Unsupported,
            _ => Support::Unknown,
        },
        _ => Support::Unknown,
    }
}

/// The host description for the operating system family `os` (as named by
/// `std::env::consts::OS`); the Linux details are used only on Linux.
pub fn os_info_for(
    os: &str,
    distro_name: String,
    desktop_environment: DEInfo,
    session_type: SessionType,
) -> (r: OsInfo)
    ensures
        os@ == "linux"@ ==> r == (OsInfo::Linux { distro_name, desktop_environment, session_type }),
        os@ != "linux"@ && os@ == "windows"@ ==> r == OsInfo::Windows,
        os@ != "linux"@ && os@ != "windows"@ && os@ == "macos"@ ==> r == OsInfo::MacOS,
        os@ != "linux"@ && os@ != "windows"@ && os@ != "macos"@ ==> r == OsInfo::Other,
{
    let os = String::from_str(os);
    if os == String::from_str("linux") {
        OsInfo::Linux { distro_name, desktop_environment, session_type }
    } else if os == String::from_str("windows") {
        OsInfo::Windows
    } else if os == String::from_str("macos") {
        OsInfo::MacOS
    } else {
        OsInfo::Other
    }
}

/// The host description together with what it means for key dispatch.
pub fn get_system_info(os_info: OsInfo) -> (r: SysInfo)
    ensures
        r.os_info == os_info,
        r.support == support_of(os_info),
{
    let support = support_for(&os_info);
    SysInfo { os_info, support }
}

} // verus!
