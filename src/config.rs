//! Where the credentials file is found.

use vstd::prelude::*;

verus! {

/// Why no credentials file could be chosen.
#[derive(Clone, Copy, Debug, PartialEq, Eq, Structural)]
pub enum ConfigError {
    /// No file was named and the home directory is unknown.
    NoHome,
}

/// The default credentials file below a home directory.
pub open spec fn default_config_in(home: Seq<char>) -> Seq<char> {
    home + "/.kube/config"@
}

/// The credentials file chosen from a named file and the home directory: the
/// named one unless it is absent or empty, else the default one below the home
/// directory, else none.
pub open spec fn resolved_config(flag: Option<Seq<char>>, home: Option<Seq<char>>) -> Option<Seq<char>> {
    match flag {
        Some(f) if f.len() > 0 => Some(f),
        _ => match home {
            Some(h) => Some(default_config_in(h)),
            None => None,
        },
    }
}

/// The view of an optional text.
pub open spec fn opt_view(s: Option<&str>) -> Option<Seq<char>> {
    match s {
        Some(t) => Some(t@),
        None => None,
    }
}

/// Chooses the credentials file from the one named on the command line, if
/// any, and the home directory, if known.
pub fn resolve_kubeconfig(flag: Option<&str>, home: Option<&str>) -> (r: Result<String, ConfigError>)
    ensures
        resolved_config(opt_view(flag), opt_view(home)) is None <==> r is Err,
        r matches Ok(p) ==> Some(p@) == resolved_config(opt_view(flag), opt_view(home)),
        r matches Err(e) ==> e == ConfigError::NoHome,
{
    if let Some(f) = flag {
        if f.unicode_len() > 0 {
            return Ok(String::from_str(f));
        }
    }
    match home {
        Some(h) => {
            let mut p = String::from_str(h);
            p.append("/.kube/config");
            Ok(p)
        },
        None => Err(ConfigError::NoHome),
    }
}

/// The line that says which credentials file is used.
pub fn config_notice(kubeconfig: &str) -> (r: String)
    ensures
        r@ == "Using kubeconfig: "@ + kubeconfig@,
{
    let mut r = String::from_str("Using kubeconfig: ");
    r.append(kubeconfig);
    r
}

} // verus!
