//! Where the settings file lives on each platform. The caller gathers the
//! environment (the target's OS name, variables, the home folder, the
//! roaming application-data folder); these functions decide the path from it.

use vstd::prelude::*;

verus! {

/// The application id, which also names the settings folder.
pub const APP_ID: &'static str = "me.tofixrs.discord-presence";

/// `SHGetKnownFolderPath` succeeded.
pub const S_OK: i32 = 0;

#[derive(Clone, Copy, Debug, PartialEq, Eq, Structural)]
pub enum OperatingSystem {
    Nix,
    Windows,
    Mac,
    Unknown,
}

pub open spec fn os_of(os: Seq<char>) -> OperatingSystem {
    if os == "macos"@ {
        OperatingSystem::Mac
    } else if os == "windows"@ {
        OperatingSystem::Windows
    } else if os == "linux"@ || os == "dragonfly"@ || os == "freebsd"@ || os == "netbsd"@ || os
        == "openbsd"@ {
        OperatingSystem::Nix
    } else {
        OperatingSystem::Unknown
    }
}

pub(crate) fn same_text(a: &str, b: &str) -> (r: bool)
    ensures
        r == (a@ == b@),
{
    let n = a.unicode_len();
    if n != b.unicode_len() {
        return false;
    }
    let mut i: usize = 0;
    while i < n
        invariant
            n == a@.len(),
            n == b@.len(),
            i <= n,
            a@.subrange(0, i as int) == b@.subrange(0, i as int),
        decreases n - i,
    {
        if a.get_char(i) != b.get_char(i) {
            return false;
        }
        assert(a@.subrange(0, i + 1) == a@.subrange(0, i as int).push(a@[i as int]));
        assert(b@.subrange(0, i + 1) == b@.subrange(0, i as int).push(b@[i as int]));
        i = i + 1;
    }
    assert(a@ == a@.subrange(0, n as int));
    assert(b@ == b@.subrange(0, n as int));
    true
}

impl OperatingSystem {
    /// The family of `os`, a target OS name as Rust spells it (`"linux"`).
    pub fn from_target_os(os: &str) -> (r: Self)
        ensures
            r == os_of(os@),
    {
        if same_text(os, "macos") {
            OperatingSystem::Mac
        } else if same_text(os, "windows") {
            OperatingSystem::Windows
        } else if same_text(os, "linux") || same_text(os, "dragonfly") || same_text(os, "freebsd")
            || same_text(os, "netbsd") || same_text(os, "openbsd") {
            OperatingSystem::Nix
        } else {
            OperatingSystem::Unknown
        }
    }
}

/// The roaming application-data folder, from what the shell's known-folder
/// lookup returned: its status, and the folder it wrote.
pub fn roaming_appdata(status: i32, folder: String) -> (r: Option<String>)
    ensures
        r == (if status == S_OK {
            Some(folder)
        } else {
            None::<String>
        }),
{
    if status == S_OK {
        Some(folder)
    } else {
        None
    }
}

pub open spec fn is_ascii_whitespace(c: char) -> bool {
    c == ' ' || c == '\t' || c == '\n' || c == '\x0C' || c == '\r'
}

pub open spec fn without_whitespace(s: Seq<char>) -> Seq<char>
    decreases s.len(),
{
    if s.len() == 0 {
        Seq::empty()
    } else {
        let rest = without_whitespace(s.drop_last());
        if is_ascii_whitespace(s.last()) {
            rest
        } else {
            rest.push(s.last())
        }
    }
}

pub open spec fn dashed(s: Seq<char>) -> Seq<char> {
    s.map_values(|c: char| if is_ascii_whitespace(c) { '-' } else { c })
}

/// `s` without its ASCII whitespace.
pub fn strip_ascii_whitespace(s: &str) -> (r: String)
    ensures
        r@ == without_whitespace(s@),
{
    let n = s.unicode_len();
    let mut out = String::new();
    let mut i: usize = 0;
    while i < n
        invariant
            n == s@.len(),
            i <= n,
            out@ == without_whitespace(s@.subrange(0, i as int)),
        decreases n - i,
    {
        let c = s.get_char(i);
        assert(s@.subrange(0, i + 1).drop_last() == s@.subrange(0, i as int));
        if !(c == ' ' || c == '\t' || c == '\n' || c == '\x0C' || c == '\r') {
            out.append(s.substring_char(i, i + 1));
            assert(s@.subrange(i as int, i + 1) == seq![c]);
        }
        i = i + 1;
    }
    assert(s@.subrange(0, n as int) == s@);
    out
}

/// `s` with each ASCII whitespace character replaced by `-`.
pub fn dash_ascii_whitespace(s: &str) -> (r: String)
    ensures
        r@ == dashed(s@),
{
    let n = s.unicode_len();
    let mut out = String::new();
    let mut i: usize = 0;
    while i < n
        invariant
            n == s@.len(),
            i <= n,
            out@ == dashed(s@.subrange(0, i as int)),
        decreases n - i,
    {
        let c = s.get_char(i);
        if c == ' ' || c == '\t' || c == '\n' || c == '\x0C' || c == '\r' {
            out.append("-");
            assert("-"@ == seq!['-']) by {
                reveal_strlit("-");
            }
        } else {
            out.append(s.substring_char(i, i + 1));
            assert(s@.subrange(i as int, i + 1) == seq![c]);
        }
        assert(dashed(s@.subrange(0, i + 1)) == dashed(s@.subrange(0, i as int)).push(
            if is_ascii_whitespace(c) { '-' } else { c },
        ));
        i = i + 1;
    }
    assert(s@.subrange(0, n as int) == s@);
    out
}

/// Names what `str::to_lowercase` returns.
pub uninterp spec fn lower_of(s: Seq<char>) -> Seq<char>;

/// Relies on `str::to_lowercase`: its result depends on the characters alone.
#[verifier::external_body]
fn lowercase(s: &str) -> (r: String)
    ensures
        r@ == lower_of(s@),
{
    s.to_lowercase()
}

/// On Unix an absolute path starts at the root.
pub open spec fn is_absolute(p: Seq<char>) -> bool {
    p.len() > 0 && p[0] == '/'
}

pub open spec fn texts(v: Vec<String>) -> Seq<Seq<char>> {
    v@.map_values(|s: String| s@)
}

/// The settings folder as path components, each joined onto the one before.
pub open spec fn storage_dir_spec(
    os: OperatingSystem,
    app_id: Seq<char>,
    xdg_config_home: Option<Seq<char>>,
    home: Option<Seq<char>>,
    roaming: Option<Seq<char>>,
) -> Option<Seq<Seq<char>>> {
    match os {
        OperatingSystem::Nix => {
            let name = without_whitespace(lower_of(app_id));
            if xdg_config_home is Some && is_absolute(xdg_config_home.unwrap()) {
                Some(seq![xdg_config_home.unwrap(), name])
            } else if home is Some {
                Some(seq![home.unwrap(), ".config"@, name])
            } else {
                None
            }
        },
        OperatingSystem::Mac => if home is Some {
            Some(seq![home.unwrap(), "Library"@, "Preferences"@, dashed(app_id)])
        } else {
            None
        },
        OperatingSystem::Windows => if roaming is Some {
            Some(seq![roaming.unwrap(), app_id, "data"@])
        } else {
            None
        },
        OperatingSystem::Unknown => None,
    }
}

pub open spec fn opt_text(o: Option<String>) -> Option<Seq<char>> {
    match o {
        Some(s) => Some(s@),
        None => None,
    }
}

/// The folder that holds the settings of `app_id`:
/// * Unix: `$XDG_CONFIG_HOME` where it is absolute, else `~/.config`, then
///   the id in lower case without whitespace;
/// * macOS: `~/Library/Preferences/`, then the id with whitespace as `-`;
/// * Windows: the roaming application data, then the id, then `data`.
pub fn storage_dir(
    os: OperatingSystem,
    app_id: &str,
    xdg_config_home: Option<String>,
    home: Option<String>,
    roaming: Option<String>,
) -> (r: Option<Vec<String>>)
    ensures
        match r {
            Some(v) => storage_dir_spec(
                os,
                app_id@,
                opt_text(xdg_config_home),
                opt_text(home),
                opt_text(roaming),
            ) == Some(texts(v)),
            None => storage_dir_spec(
                os,
                app_id@,
                opt_text(xdg_config_home),
                opt_text(home),
                opt_text(roaming),
            ) is None,
        },
{
    match os {
        OperatingSystem::Nix => {
            let lowered = lowercase(app_id);
            let name = strip_ascii_whitespace(lowered.as_str());
            let absolute = match &xdg_config_home {
                Some(p) => p.as_str().unicode_len() > 0 && p.as_str().get_char(0) == '/',
                None => false,
            };
            if absolute {
                let v = vec![xdg_config_home.unwrap(), name];
                assert(texts(v) == seq![v@[0]@, v@[1]@]);
                Some(v)
            } else {
                match home {
                    Some(h) => {
                        let v = vec![h, String::from_str(".config"), name];
                        assert(texts(v) == seq![v@[0]@, v@[1]@, v@[2]@]);
                        Some(v)
                    },
                    None => None,
                }
            }
        },
        OperatingSystem::Mac => match home {
            Some(h) => {
                let v = vec![
                    h,
                    String::from_str("Library"),
                    String::from_str("Preferences"),
                    dash_ascii_whitespace(app_id),
                ];
                assert(texts(v) == seq![v@[0]@, v@[1]@, v@[2]@, v@[3]@]);
                Some(v)
            },
            None => None,
        },
        OperatingSystem::Windows => match roaming {
            Some(r) => {
                let v = vec![r, String::from_str(app_id), String::from_str("data")];
                assert(texts(v) == seq![v@[0]@, v@[1]@, v@[2]@]);
                Some(v)
            },
            None => None,
        },
        OperatingSystem::Unknown => None,
    }
}

} // verus!
