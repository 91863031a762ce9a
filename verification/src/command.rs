//! Launch-command synthesis.
//!
//! Merges the user configuration with the resolved interpreter into the
//! final command descriptor: the executable, its ordered argument vector,
//! and the environment entries.  The host performs the one filesystem
//! probe involved — whether a companion launcher artifact named after the
//! agent sits next to the interpreter — and passes its outcome in as
//! `launcher_present`.

use vstd::prelude::*;
use vstd::string::{StrSliceExecFns, StringExecFns};
use crate::discovery::{discovery_failure_message, failure_message};
use crate::text::drop_leading;

verus! {

/// The platform class the host runs on.
#[derive(Clone, Copy, Debug)]
pub enum Os {
    Mac,
    Linux,
    Windows,
}

/// Resolution failures surfaced to the host.  Per-candidate probe failures
/// are never surfaced: discovery swallows them and only the aggregate
/// `DiscoveryFailure` is user-visible.
#[derive(Clone, Copy, Debug, PartialEq, Eq, Structural)]
pub enum LaunchError {
    /// The resolved interpreter path is the empty string.
    EmptyExecutable,
    /// The interpreter path has no resolvable parent directory.
    PathResolution,
    /// No candidate passed validation and version matching.
    DiscoveryFailure,
}

/// The resolved output handed to the host, which owns spawning and
/// supervising the process.  Constructed once, never mutated afterward.
pub struct LaunchCommand {
    pub command: String,
    pub args: Vec<String>,
    pub env: Vec<(String, String)>,
}

/// The user-supplied configuration for one launch request: an optional
/// explicit interpreter override and extra environment variables for the
/// launched process, in the order the configuration source gave them.
pub struct UserConfiguration {
    pub python_executable: Option<String>,
    pub environment: Vec<(String, String)>,
}

/// The interpreter the configuration dictates: a present override is used
/// verbatim, even when empty — rejecting an empty override is synthesis's
/// job, not silent fall-through to discovery.  Only an absent override
/// sends the caller to discovery.
pub fn configured_override(cfg: &UserConfiguration) -> (r: Option<String>)
    ensures
        ({
            match (&cfg.python_executable, &r) {
                (Some(p), Some(q)) => p@ == q@,
                (None, None) => true,
                _ => false,
            }
        }),
{
    match &cfg.python_executable {
        Some(p) => Some(p.clone()),
        None => None,
    }
}

/// A leading path separator, as a first-class predicate for the trimming
/// lemmas.
pub open spec fn slash_pred() -> spec_fn(char) -> bool {
    |c: char| c == '/'
}

/// On Windows the host's path-normalization layer introduces a spurious
/// leading separator; sanitization strips it there and is a no-op on every
/// other platform.
pub open spec fn spec_sanitize(s: Seq<char>, os: Os) -> Seq<char> {
    match os {
        Os::Windows => drop_leading(s, slash_pred()),
        _ => s,
    }
}

/// Strips the leading separators of `path` on Windows; the identity on
/// macOS and Linux.
pub fn sanitize_windows_path(path: String, os: Os) -> (r: String)
    ensures
        r@ == spec_sanitize(path@, os),
{
    match os {
        Os::Mac | Os::Linux => path,
        Os::Windows => {
            let s = path.as_str();
            let n = s.unicode_len();
            let mut a: usize = 0;
            while a < n && s.get_char(a) == '/'
                invariant
                    n == s@.len(),
                    a <= n,
                    forall|k: int| 0 <= k < a ==> s@[k] == '/',
                decreases n - a,
            {
                a += 1;
            }
            proof {
                crate::text::lemma_drop_leading(s@, slash_pred(), a as int);
            }
            String::from_str(s.substring_char(a, n))
        },
    }
}

/// The path has no resolvable parent directory: every character is a
/// separator (which covers the empty path).
pub open spec fn parentless(s: Seq<char>) -> bool {
    forall|k: int| 0 <= k < s.len() ==> s[k] == '/'
}

/// The companion launcher artifact's path: the agent's name in the same
/// directory as the interpreter — everything up to and including the last
/// separator, then `serena`; a bare interpreter name yields the bare
/// artifact name.
pub open spec fn script_of(t: Seq<char>) -> Seq<char>
    decreases t.len(),
{
    if t.len() == 0 {
        "serena"@
    } else if t.last() == '/' {
        t + "serena"@
    } else {
        script_of(t.drop_last())
    }
}

proof fn lemma_script_no_slash(t: Seq<char>)
    requires
        forall|k: int| 0 <= k < t.len() ==> t[k] != '/',
    ensures
        script_of(t) == "serena"@,
    decreases t.len(),
{
    if t.len() > 0 {
        let u = t.drop_last();
        assert(forall|k: int| 0 <= k < u.len() ==> u[k] == t[k]);
        lemma_script_no_slash(u);
    }
}

proof fn lemma_script_with_slash(t: Seq<char>, b: int)
    requires
        0 < b <= t.len(),
        t[b - 1] == '/',
        forall|k: int| b <= k < t.len() ==> t[k] != '/',
    ensures
        script_of(t) == t.subrange(0, b) + "serena"@,
    decreases t.len(),
{
    if b == t.len() {
        assert(t.last() == '/');
        assert(t.subrange(0, b) =~= t);
    } else {
        assert(t.last() != '/');
        let u = t.drop_last();
        assert(forall|k: int| 0 <= k < u.len() ==> u[k] == t[k]);
        lemma_script_with_slash(u, b);
        assert(u.subrange(0, b) =~= t.subrange(0, b));
    }
}

/// What `prepare_launch` returns, at the level of character sequences:
/// an empty interpreter path is rejected outright, a parentless one fails
/// path resolution, and otherwise the sanitized path comes back together
/// with the companion artifact's path.
pub open spec fn spec_prepare(interp: Seq<char>, os: Os) -> Result<
    (Seq<char>, Seq<char>),
    LaunchError,
> {
    if interp.len() == 0 {
        Err(LaunchError::EmptyExecutable)
    } else {
        let t = spec_sanitize(interp, os);
        if parentless(t) {
            Err(LaunchError::PathResolution)
        } else {
            Ok((t, script_of(t)))
        }
    }
}

/// Validates and sanitizes the resolved interpreter path and computes the
/// companion launcher artifact's path next to it.  The caller probes the
/// filesystem for that artifact and then assembles the command.
pub fn prepare_launch(interpreter: &str, os: Os) -> (r: Result<(String, String), LaunchError>)
    ensures
        ({
            match spec_prepare(interpreter@, os) {
                Ok(p) => r is Ok && r->Ok_0.0@ == p.0 && r->Ok_0.1@ == p.1,
                Err(e) => r == Err::<(String, String), LaunchError>(e),
            }
        }),
{
    let n = interpreter.unicode_len();
    if n == 0 {
        return Err(LaunchError::EmptyExecutable);
    }
    let sanitized = sanitize_windows_path(String::from_str(interpreter), os);
    let t = sanitized.as_str();
    let m = t.unicode_len();
    let mut all_slash = true;
    let mut i: usize = 0;
    while i < m
        invariant
            m == t@.len(),
            i <= m,
            all_slash == (forall|k: int| 0 <= k < i ==> t@[k] == '/'),
        decreases m - i,
    {
        if t.get_char(i) != '/' {
            all_slash = false;
        }
        i += 1;
    }
    if all_slash {
        return Err(LaunchError::PathResolution);
    }
    let mut b: usize = m;
    while b > 0 && t.get_char(b - 1) != '/'
        invariant
            m == t@.len(),
            b <= m,
            forall|k: int| b <= k < m ==> t@[k] != '/',
        decreases b,
    {
        b -= 1;
    }
    let script = if b == 0 {
        proof {
            lemma_script_no_slash(t@);
        }
        String::from_str("serena")
    } else {
        proof {
            lemma_script_with_slash(t@, b as int);
        }
        let mut s = String::from_str(t.substring_char(0, b));
        s.append("serena");
        s
    };
    Ok((sanitized, script))
}

/// The argument vector of the direct-script strategy: the single fixed
/// subcommand token that starts the agent in protocol mode.
pub open spec fn direct_args() -> Seq<Seq<char>> {
    seq!["start-mcp-server"@]
}

/// The argument vector of the module-invocation strategy: the runtime's
/// "run this importable module" convention, then the same subcommand token.
pub open spec fn module_args() -> Seq<Seq<char>> {
    seq!["-m"@, "serena"@, "start-mcp-server"@]
}

/// Builds the final descriptor.  With the companion launcher present the
/// executable is the artifact and its sole argument the server-start
/// token; without it the executable is the interpreter itself and the
/// arguments select the module entry point plus the same token.  The
/// environment entries are passed through in their given order.
pub fn assemble_command(
    interpreter: String,
    script: String,
    launcher_present: bool,
    env: Vec<(String, String)>,
) -> (r: LaunchCommand)
    ensures
        r.command@ == if launcher_present {
            script@
        } else {
            interpreter@
        },
        r.args.deep_view() == if launcher_present {
            direct_args()
        } else {
            module_args()
        },
        r.env == env,
{
    if launcher_present {
        let mut args: Vec<String> = Vec::new();
        args.push(String::from_str("start-mcp-server"));
        proof {
            assert(args.deep_view() =~= direct_args());
        }
        LaunchCommand { command: script, args, env }
    } else {
        let mut args: Vec<String> = Vec::new();
        args.push(String::from_str("-m"));
        args.push(String::from_str("serena"));
        args.push(String::from_str("start-mcp-server"));
        proof {
            assert(args.deep_view() =~= module_args());
        }
        LaunchCommand { command: interpreter, args, env }
    }
}

/// The synthesized executable and arguments as a function of the resolved
/// interpreter path, the platform, and the launcher probe's outcome — and
/// of nothing else.
pub open spec fn spec_synthesize(interp: Seq<char>, os: Os, launcher_present: bool) -> Result<
    (Seq<char>, Seq<Seq<char>>),
    LaunchError,
> {
    match spec_prepare(interp, os) {
        Ok(p) => if launcher_present {
            Ok((p.1, direct_args()))
        } else {
            Ok((p.0, module_args()))
        },
        Err(e) => Err(e),
    }
}

/// Synthesis in one call: sanitize and validate the interpreter path,
/// choose the launch strategy from the launcher probe's outcome, and pass
/// the environment entries through.
pub fn synthesize_command(
    interpreter: &str,
    os: Os,
    launcher_present: bool,
    env: Vec<(String, String)>,
) -> (r: Result<LaunchCommand, LaunchError>)
    ensures
        ({
            match spec_synthesize(interpreter@, os, launcher_present) {
                Ok(ca) => r is Ok && r->Ok_0.command@ == ca.0 && r->Ok_0.args.deep_view() == ca.1
                    && r->Ok_0.env == env,
                Err(e) => r == Err::<LaunchCommand, LaunchError>(e),
            }
        }),
{
    match prepare_launch(interpreter, os) {
        Ok(p) => Ok(assemble_command(p.0, p.1, launcher_present, env)),
        Err(e) => Err(e),
    }
}

/// A human-readable description of a resolution failure.
pub fn error_message(e: &LaunchError) -> (r: String)
    ensures
        r@ == match e {
            LaunchError::EmptyExecutable => "Python executable path cannot be empty"@,
            LaunchError::PathResolution => "Could not determine Python directory"@,
            LaunchError::DiscoveryFailure => failure_message(),
        },
{
    match e {
        LaunchError::EmptyExecutable => String::from_str("Python executable path cannot be empty"),
        LaunchError::PathResolution => String::from_str("Could not determine Python directory"),
        LaunchError::DiscoveryFailure => discovery_failure_message(),
    }
}

/// A non-empty explicit interpreter override is used verbatim: whether
/// synthesis succeeds, and which executable it emits, never depends on the
/// validation and version rules that auto-discovered candidates must pass —
/// only on the path being non-empty and having a resolvable parent.
pub proof fn lemma_override_bypasses_validation(p: Seq<char>, os: Os, launcher_present: bool)
    requires
        p.len() > 0,
        !parentless(spec_sanitize(p, os)),
    ensures
        spec_synthesize(p, os, launcher_present) is Ok,
        spec_synthesize(p, os, launcher_present)->Ok_0.0 == if launcher_present {
            script_of(spec_sanitize(p, os))
        } else {
            spec_sanitize(p, os)
        },
{
}

/// The launch strategy is decided by the launcher probe alone: with the
/// companion artifact present the command is the artifact's path and the
/// single server-start token; with it absent, the interpreter itself and
/// the module-invocation arguments.
pub proof fn lemma_launch_strategy(p: Seq<char>, os: Os)
    requires
        p.len() > 0,
        !parentless(spec_sanitize(p, os)),
    ensures
        spec_synthesize(p, os, true) == Ok::<_, LaunchError>(
            (script_of(spec_sanitize(p, os)), direct_args()),
        ),
        spec_synthesize(p, os, false) == Ok::<_, LaunchError>(
            (spec_sanitize(p, os), module_args()),
        ),
{
}

/// Synthesis is a pure function of its inputs: two runs over identical
/// configuration and an unchanged environment yield identical commands.
pub proof fn lemma_synthesis_idempotent(
    p1: Seq<char>,
    os1: Os,
    lp1: bool,
    p2: Seq<char>,
    os2: Os,
    lp2: bool,
)
    requires
        p1 == p2,
        os1 == os2,
        lp1 == lp2,
    ensures
        spec_synthesize(p1, os1, lp1) == spec_synthesize(p2, os2, lp2),
{
}

} // verus!
