//! Every filesystem path the settings touch, following the XDG base
//! directory conventions for user-scope files. Paths are text here; the
//! values of environment variables they depend on are read by the program
//! and handed in (`None` for a variable that is unset or not Unicode).

use vstd::prelude::*;

verus! {

/// `Path::join` on Unix: an absolute `name` replaces `base`; otherwise
/// `name` follows `base`, with a `/` between them unless `base` is empty or
/// already ends with one.
pub open spec fn path_join(base: Seq<char>, name: Seq<char>) -> Seq<char> {
    if name.len() > 0 && name[0] == '/' {
        name
    } else if base.len() == 0 || base.last() == '/' {
        base + name
    } else {
        base + seq!['/'] + name
    }
}

/// `Path::join` on Unix.
pub fn join(base: &str, name: &str) -> (r: String)
    ensures
        r@ == path_join(base@, name@),
{
    let n = base.unicode_len();
    if name.unicode_len() > 0 && name.get_char(0) == '/' {
        return String::from_str(name);
    }
    let mut out = String::from_str(base);
    if !(n == 0 || base.get_char(n - 1) == '/') {
        out.append("/");
        proof {
            reveal_strlit("/");
        }
    }
    out.append(name);
    out
}

/// A directory taken from an environment variable when it is set and not
/// empty.
pub open spec fn non_empty(v: Option<Seq<char>>) -> bool {
    v matches Some(s) && s.len() > 0
}

/// The characters of an optional string.
pub open spec fn opt_view(v: Option<&str>) -> Option<Seq<char>> {
    match v {
        Some(s) => Some(s@),
        None => None,
    }
}

/// `$XDG_CONFIG_HOME/<name>` when that variable is set and not empty, else
/// `$HOME/.config/<name>`, with `/tmp` standing in for an unset `HOME`.
pub open spec fn config_dir_for(xdg_config_home: Option<Seq<char>>, home: Option<Seq<char>>, name: Seq<char>) -> Seq<char> {
    if non_empty(xdg_config_home) {
        path_join(xdg_config_home->0, name)
    } else {
        let h = match home {
            Some(h) => h,
            None => "/tmp"@,
        };
        path_join(path_join(h, ".config"@), name)
    }
}

fn config_dir(xdg_config_home: Option<&str>, home: Option<&str>, name: &str) -> (r: String)
    ensures
        r@ == config_dir_for(opt_view(xdg_config_home), opt_view(home), name@),
{
    match xdg_config_home {
        Some(x) if x.unicode_len() > 0 => join(x, name),
        _ => {
            let h = match home {
                Some(h) => h,
                None => "/tmp",
            };
            let dot_config = join(h, ".config");
            join(dot_config.as_str(), name)
        },
    }
}

/// `$XDG_CONFIG_HOME/mitos-settings`, or `~/.config/mitos-settings`.
pub fn user_config_dir_for(xdg_config_home: Option<&str>, home: Option<&str>) -> (r: String)
    ensures
        r@ == config_dir_for(opt_view(xdg_config_home), opt_view(home), "mitos-settings"@),
{
    config_dir(xdg_config_home, home, "mitos-settings")
}

/// The user settings file inside the user config directory `config_dir`.
pub fn user_config_path(config_dir: &str) -> (r: String)
    ensures
        r@ == path_join(config_dir@, "settings.conf"@),
{
    join(config_dir, "settings.conf")
}

/// System-wide store, only writable by root / the daemon.
pub fn system_config_dir() -> (r: String)
    ensures
        r@ == "/etc/mitos-settings"@,
{
    String::from_str("/etc/mitos-settings")
}

/// The system settings file.
pub fn system_config_path() -> (r: String)
    ensures
        r@ == path_join("/etc/mitos-settings"@, "settings.conf"@),
{
    let dir = system_config_dir();
    join(dir.as_str(), "settings.conf")
}

/// `$XDG_RUNTIME_DIR` when set and not empty, else `/run`.
pub fn runtime_dir_for(xdg_runtime_dir: Option<&str>) -> (r: String)
    ensures
        r@ == (if non_empty(opt_view(xdg_runtime_dir)) { opt_view(xdg_runtime_dir)->0 } else { "/run"@ }),
{
    match xdg_runtime_dir {
        Some(d) if d.unicode_len() > 0 => String::from_str(d),
        _ => String::from_str("/run"),
    }
}

/// Well-known location for the privileged daemon's Unix socket. Fixed
/// (rather than under a per-user runtime dir) because the daemon is a
/// single, system-wide, root-owned process.
pub fn daemon_socket_path() -> (r: String)
    ensures
        r@ == "/run/mitos-settings/daemon.sock"@,
{
    String::from_str("/run/mitos-settings/daemon.sock")
}

/// Shared desktop-shell config directory, `$XDG_CONFIG_HOME/mitos` (falls
/// back to `~/.config/mitos`), where `home.conf` lives.
pub fn mitos_shared_config_dir_for(xdg_config_home: Option<&str>, home: Option<&str>) -> (r: String)
    ensures
        r@ == config_dir_for(opt_view(xdg_config_home), opt_view(home), "mitos"@),
{
    config_dir(xdg_config_home, home, "mitos")
}

/// `home.conf` inside the shared desktop-shell config directory
/// `shared_dir`.
pub fn home_conf_path(shared_dir: &str) -> (r: String)
    ensures
        r@ == path_join(shared_dir@, "home.conf"@),
{
    join(shared_dir, "home.conf")
}

} // verus!
