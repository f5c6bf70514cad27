use vstd::prelude::*;
use vstd::string::StringExecFns;

use crate::errors::ShellError;

verus! {

/// The three platform families the probe sequence distinguishes.
#[derive(Clone, Copy, PartialEq, Eq, Structural)]
pub enum Platform {
    Windows,
    MacOs,
    Other,
}

/// A snapshot of everything the probe sequence reads from the running
/// system: the search-path resolutions of the player's name, the two
/// install-root environment variables, and whether the fixed fallback
/// install locations exist. Taking it as plain data keeps the locator a
/// pure function, so it can be exercised against a simulated system.
pub struct SystemView {
    /// Resolution of `vlc` on the process search path.
    pub path_vlc: Option<String>,
    /// Resolution of `vlc.exe` on the process search path.
    pub path_vlc_exe: Option<String>,
    /// Value of the 64-bit `Program Files` directory variable.
    pub program_files: Option<String>,
    /// Value of the 32-bit `Program Files (x86)` directory variable.
    pub program_files_x86: Option<String>,
    /// Whether the player's file exists under the 64-bit install root.
    pub install_exists: bool,
    /// Whether the player's file exists under the 32-bit install root.
    pub install_x86_exists: bool,
    /// Whether the fixed application-bundle binary exists.
    pub bundle_exists: bool,
}

/// The fixed player location under a Windows install root.
pub open spec fn windows_install_candidate_spec(root: Seq<char>) -> Seq<char> {
    root + "\\VideoLAN\\VLC\\vlc.exe"@
}

/// The fixed application-bundle location of the player on the Apple
/// desktop.
pub open spec fn mac_bundle_path_spec() -> Seq<char> {
    "/Applications/VLC.app/Contents/MacOS/VLC"@
}

/// The probe sequence: the ordered candidates per platform, stopping at
/// the first one that the system snapshot reports as present.
///
/// On the Windows family: the name on the search path, the name with the
/// `.exe` suffix on the search path, then the fixed location under the
/// 64-bit install root, then under the 32-bit one — each install-root
/// candidate only when its variable is set and the file exists. On the
/// Apple desktop: the search path, then the fixed application bundle.
/// Everywhere else: the search path only.
pub open spec fn locate_spec(platform: Platform, v: SystemView) -> Option<Seq<char>> {
    match platform {
        Platform::Windows => match v.path_vlc {
            Some(p) => Some(p@),
            None => match v.path_vlc_exe {
                Some(p) => Some(p@),
                None => match v.program_files {
                    Some(root) if v.install_exists => Some(windows_install_candidate_spec(root@)),
                    _ => match v.program_files_x86 {
                        Some(root) if v.install_x86_exists => Some(
                            windows_install_candidate_spec(root@),
                        ),
                        _ => None,
                    },
                },
            },
        },
        Platform::MacOs => match v.path_vlc {
            Some(p) => Some(p@),
            None => if v.bundle_exists {
                Some(mac_bundle_path_spec())
            } else {
                None
            },
        },
        Platform::Other => match v.path_vlc {
            Some(p) => Some(p@),
            None => None,
        },
    }
}

/// Builds the fixed player path under the given Windows install root.
pub fn windows_install_candidate(root: &str) -> (r: String)
    ensures
        r@ == windows_install_candidate_spec(root@),
{
    let mut s = String::from_str(root);
    s.append("\\VideoLAN\\VLC\\vlc.exe");
    s
}

/// Builds the fixed application-bundle path of the player on the Apple
/// desktop.
pub fn mac_bundle_path() -> (r: String)
    ensures
        r@ == mac_bundle_path_spec(),
{
    String::from_str("/Applications/VLC.app/Contents/MacOS/VLC")
}

/// Walks the probe sequence over the given system snapshot and returns
/// the first candidate present, or the not-found failure once the
/// sequence is exhausted.
pub fn locate_vlc(platform: Platform, view: SystemView) -> (r: Result<String, ShellError>)
    ensures
        locate_spec(platform, view) matches Some(p) ==> r matches Ok(s) && s@ == p,
        locate_spec(platform, view) is None ==> (r matches Err(e) && e is NotFound),
{
    let SystemView {
        path_vlc,
        path_vlc_exe,
        program_files,
        program_files_x86,
        install_exists,
        install_x86_exists,
        bundle_exists,
    } = view;
    match platform {
        Platform::Windows => {
            if let Some(p) = path_vlc {
                return Ok(p);
            }
            if let Some(p) = path_vlc_exe {
                return Ok(p);
            }
            if install_exists {
                if let Some(root) = program_files {
                    return Ok(windows_install_candidate(root.as_str()));
                }
            }
            if install_x86_exists {
                if let Some(root) = program_files_x86 {
                    return Ok(windows_install_candidate(root.as_str()));
                }
            }
            Err(ShellError::NotFound)
        },
        Platform::MacOs => {
            if let Some(p) = path_vlc {
                return Ok(p);
            }
            if bundle_exists {
                return Ok(mac_bundle_path());
            }
            Err(ShellError::NotFound)
        },
        Platform::Other => {
            match path_vlc {
                Some(p) => Ok(p),
                None => Err(ShellError::NotFound),
            }
        },
    }
}

/// A planned launch of the external player: the resolved program and the
/// single argument it is started with.
pub struct LaunchCommand {
    pub program: String,
    pub arg: String,
}

/// Resolves the player against the system snapshot and plans its launch
/// with the target URL as the sole argument; fails with the not-found
/// error exactly when the probe sequence finds no candidate.
pub fn plan_launch(platform: Platform, view: SystemView, url: String) -> (r: Result<
    LaunchCommand,
    ShellError,
>)
    ensures
        locate_spec(platform, view) matches Some(p) ==> r matches Ok(c) && c.program@ == p
            && c.arg@ == url@,
        locate_spec(platform, view) is None ==> (r matches Err(e) && e is NotFound),
{
    match locate_vlc(platform, view) {
        Ok(program) => Ok(LaunchCommand { program, arg: url }),
        Err(e) => Err(e),
    }
}

/// Relies on which::which: resolves a program name against the process
/// search path. The outcome depends on the running system's environment,
/// so nothing is promised of it.
#[verifier::external_body]
fn path_lookup(name: &str) -> (r: Option<String>) {
    match which::which(name) {
        Ok(p) => Some(p.to_string_lossy().into_owned()),
        Err(_) => None,
    }
}

/// Assembles a system snapshot: the search-path resolutions are taken
/// live (the `.exe` form is consulted only on the Windows family, which
/// alone uses it), while the install-root variables and the existence of
/// the fixed fallback locations are supplied by the caller.
pub fn probe_system(
    platform: Platform,
    program_files: Option<String>,
    program_files_x86: Option<String>,
    install_exists: bool,
    install_x86_exists: bool,
    bundle_exists: bool,
) -> (v: SystemView)
    ensures
        v.program_files == program_files,
        v.program_files_x86 == program_files_x86,
        v.install_exists == install_exists,
        v.install_x86_exists == install_x86_exists,
        v.bundle_exists == bundle_exists,
        platform != Platform::Windows ==> v.path_vlc_exe is None,
{
    let path_vlc = path_lookup("vlc");
    let path_vlc_exe = if platform == Platform::Windows {
        path_lookup("vlc.exe")
    } else {
        None
    };
    SystemView {
        path_vlc,
        path_vlc_exe,
        program_files,
        program_files_x86,
        install_exists,
        install_x86_exists,
        bundle_exists,
    }
}

/// The probe sequence short-circuits: on every platform a hit on the
/// search path wins outright, each later candidate is consulted only
/// when every earlier one misses, and the sequence exhausted means no
/// candidate was present at all.
pub proof fn lemma_probe_order(platform: Platform, v: SystemView)
    ensures
        v.path_vlc matches Some(p) ==> locate_spec(platform, v) == Some(p@),
        platform is Windows && v.path_vlc is None ==> (v.path_vlc_exe matches Some(p)
            ==> locate_spec(platform, v) == Some(p@)),
        platform is Windows && v.path_vlc is None && v.path_vlc_exe is None && v.install_exists
            ==> (v.program_files matches Some(root) ==> locate_spec(platform, v) == Some(
            windows_install_candidate_spec(root@),
        )),
        platform is Windows && v.path_vlc is None && v.path_vlc_exe is None && (v.program_files
            is None || !v.install_exists) && v.install_x86_exists ==> (v.program_files_x86 matches
            Some(root) ==> locate_spec(platform, v) == Some(
            windows_install_candidate_spec(root@),
        )),
        platform is Windows && v.path_vlc is None && v.path_vlc_exe is None && (v.program_files
            is None || !v.install_exists) && (v.program_files_x86 is None
            || !v.install_x86_exists) ==> locate_spec(platform, v) is None,
        platform is MacOs && v.path_vlc is None && v.bundle_exists ==> locate_spec(platform, v)
            == Some(mac_bundle_path_spec()),
        platform is MacOs && v.path_vlc is None && !v.bundle_exists ==> locate_spec(platform, v)
            is None,
        platform is Other && v.path_vlc is None ==> locate_spec(platform, v) is None,
{
}

} // verus!
