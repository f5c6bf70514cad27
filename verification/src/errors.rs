use vstd::prelude::*;
use vstd::string::StringExecFns;

verus! {

/// The failures the shell can report, one variant per operation that can
/// go wrong: the external player was not found, the spawn of the external
/// player was refused, the secondary window could not be created, or the
/// progress broadcast failed. Variants that arise outside the library
/// carry the reported error text.
#[derive(Debug)]
pub enum ShellError {
    NotFound,
    SpawnFailed(String),
    WindowCreationFailed(String),
    EmitFailed(String),
}

/// The human-readable text reported to the caller for each failure.
pub open spec fn message_spec(e: ShellError) -> Seq<char> {
    match e {
        ShellError::NotFound => (
            "VLC not found. Install VLC and ensure it is in your PATH or in Program Files (Windows)."@
        ),
        ShellError::SpawnFailed(t) => "Failed to start VLC: "@ + t@,
        ShellError::WindowCreationFailed(t) => t@,
        ShellError::EmitFailed(t) => t@,
    }
}

impl ShellError {
    /// The error surfaced verbatim to the caller; a missing player always
    /// comes with a non-empty explanation of how to install it.
    pub fn message(&self) -> (r: String)
        ensures
            r@ == message_spec(*self),
            *self is NotFound ==> r@.len() > 0,
    {
        match self {
            ShellError::NotFound => {
                proof {
                    reveal_strlit(
                        "VLC not found. Install VLC and ensure it is in your PATH or in Program Files (Windows).",
                    );
                }
                String::from_str(
                    "VLC not found. Install VLC and ensure it is in your PATH or in Program Files (Windows).",
                )
            },
            ShellError::SpawnFailed(t) => {
                let mut s = String::from_str("Failed to start VLC: ");
                s.append(t.as_str());
                s
            },
            ShellError::WindowCreationFailed(t) => t.clone(),
            ShellError::EmitFailed(t) => t.clone(),
        }
    }
}

} // verus!
