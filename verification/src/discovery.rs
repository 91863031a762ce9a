//! Interpreter discovery, modelled as a state machine.
//!
//! Discovery alternates decisions with outside work: resolving a bare name
//! through the executable search path and running a candidate with a
//! version-probe argument both spawn short-lived child processes, which the
//! host side performs.  Every decision — which candidate to try next, and
//! whether an outcome accepts or rejects it — lives here, as a pure
//! transition function on `DiscoveryState`.  The host feeds each outcome
//! back as a `DiscoveryEvent` and keeps stepping until the state is
//! `Accepted` or `Failed`.
//!
//! Candidate order is fixed: first the bare names of the two accepted minor
//! versions, most recent first, resolved through the search path, then a
//! fixed fallback list of absolute and bare paths.  The first accepted
//! candidate wins, so discovery is deterministic given a fixed environment
//! and filesystem state.

use vstd::prelude::*;
use vstd::string::StringExecFns;
use crate::paths::{path_acceptable, validate_python_path};
use crate::version::{accepted_version, is_valid_python_version};

verus! {

/// The bare names tried first, resolved through the executable search
/// path: the two accepted minor versions, most recent first.
pub open spec fn which_names() -> Seq<Seq<char>> {
    seq!["python3.12"@, "python3.11"@]
}

/// The fixed fallback candidates, tried in order after the search path
/// yields nothing: common installation roots for both accepted versions,
/// then generic unversioned names as a last resort.
pub open spec fn fallback_names() -> Seq<Seq<char>> {
    seq![
        "/opt/homebrew/bin/python3.11"@,
        "/opt/homebrew/bin/python3.12"@,
        "/usr/local/bin/python3.11"@,
        "/usr/local/bin/python3.12"@,
        "python3.11"@,
        "python3.12"@,
        "python3"@,
        "python"@,
    ]
}

/// Where a discovery run stands.  The two probe states name the outside
/// work the host must perform next; the two terminal states end the run.
pub enum DiscoveryState {
    /// Resolve `which_names()[index]` through the executable search path.
    ResolveName { index: usize },
    /// Run the resolved path with the version-probe argument.
    ProbeResolved { index: usize, path: String },
    /// Run `fallback_names()[index]` with the version-probe argument.
    ProbeFallback { index: usize },
    /// An acceptable interpreter was found; discovery is over.
    Accepted { path: String },
    /// Every candidate was rejected; discovery failed.
    Failed,
}

/// What the host reports back after performing the pending outside work.
pub enum DiscoveryEvent {
    /// Search-path resolution: the trimmed output on success, `None` when
    /// the lookup could not run or exited unsuccessfully.
    WhichOutcome { resolved: Option<String> },
    /// Version probe: the captured output on success, `None` when the
    /// candidate could not be spawned or exited unsuccessfully.
    VersionOutcome { output: Option<String> },
}

pub enum DiscoveryStateView {
    ResolveName { index: int },
    ProbeResolved { index: int, path: Seq<char> },
    ProbeFallback { index: int },
    Accepted { path: Seq<char> },
    Failed,
}

pub enum DiscoveryEventView {
    WhichOutcome { resolved: Option<Seq<char>> },
    VersionOutcome { output: Option<Seq<char>> },
}

impl View for DiscoveryState {
    type V = DiscoveryStateView;

    open spec fn view(&self) -> DiscoveryStateView {
        match self {
            DiscoveryState::ResolveName { index } => DiscoveryStateView::ResolveName {
                index: *index as int,
            },
            DiscoveryState::ProbeResolved { index, path } => DiscoveryStateView::ProbeResolved {
                index: *index as int,
                path: path@,
            },
            DiscoveryState::ProbeFallback { index } => DiscoveryStateView::ProbeFallback {
                index: *index as int,
            },
            DiscoveryState::Accepted { path } => DiscoveryStateView::Accepted { path: path@ },
            DiscoveryState::Failed => DiscoveryStateView::Failed,
        }
    }
}

impl View for DiscoveryEvent {
    type V = DiscoveryEventView;

    open spec fn view(&self) -> DiscoveryEventView {
        match self {
            DiscoveryEvent::WhichOutcome { resolved } => DiscoveryEventView::WhichOutcome {
                resolved: match resolved {
                    Some(p) => Some(p@),
                    None => None,
                },
            },
            DiscoveryEvent::VersionOutcome { output } => DiscoveryEventView::VersionOutcome {
                output: match output {
                    Some(o) => Some(o@),
                    None => None,
                },
            },
        }
    }
}

/// The state after search-path candidate `i` has been rejected: the next
/// bare name, or the head of the fallback list once they run out.
pub open spec fn advance_which(i: int) -> DiscoveryStateView {
    if i + 1 < which_names().len() {
        DiscoveryStateView::ResolveName { index: i + 1 }
    } else {
        fallback_from(0)
    }
}

/// The first fallback candidate at or after `j` that passes path
/// validation, as a probe state; `Failed` when none is left.  Candidates
/// that fail validation are skipped without spawning anything.
pub open spec fn fallback_from(j: int) -> DiscoveryStateView
    decreases fallback_names().len() - j,
{
    if j >= fallback_names().len() {
        DiscoveryStateView::Failed
    } else if path_acceptable(fallback_names()[j]) {
        DiscoveryStateView::ProbeFallback { index: j }
    } else {
        fallback_from(j + 1)
    }
}

/// The transition function of discovery.  A search-path resolution is kept
/// only when it succeeded and the resolved path passes validation; a probe
/// accepts its candidate only when it succeeded and its output names an
/// accepted version.  Anything else moves on to the next candidate.  A
/// terminal state, and an event that does not answer the pending probe,
/// leave the state unchanged.
pub open spec fn spec_step(s: DiscoveryStateView, e: DiscoveryEventView) -> DiscoveryStateView {
    match (s, e) {
        (
            DiscoveryStateView::ResolveName { index },
            DiscoveryEventView::WhichOutcome { resolved },
        ) => match resolved {
            Some(p) => if path_acceptable(p) {
                DiscoveryStateView::ProbeResolved { index, path: p }
            } else {
                advance_which(index)
            },
            None => advance_which(index),
        },
        (
            DiscoveryStateView::ProbeResolved { index, path },
            DiscoveryEventView::VersionOutcome { output },
        ) => match output {
            Some(o) => if accepted_version(o) {
                DiscoveryStateView::Accepted { path }
            } else {
                advance_which(index)
            },
            None => advance_which(index),
        },
        (
            DiscoveryStateView::ProbeFallback { index },
            DiscoveryEventView::VersionOutcome { output },
        ) => match output {
            Some(o) => if accepted_version(o) {
                DiscoveryStateView::Accepted { path: fallback_names()[index] }
            } else {
                fallback_from(index + 1)
            },
            None => fallback_from(index + 1),
        },
        _ => s,
    }
}

/// Probe states index into the list they probe.
pub open spec fn state_wf(s: DiscoveryStateView) -> bool {
    match s {
        DiscoveryStateView::ResolveName { index } => 0 <= index < which_names().len(),
        DiscoveryStateView::ProbeResolved { index, path } => 0 <= index < which_names().len(),
        DiscoveryStateView::ProbeFallback { index } => 0 <= index < fallback_names().len(),
        _ => true,
    }
}

pub proof fn lemma_fallback_from_wf(j: int)
    requires
        0 <= j,
    ensures
        state_wf(fallback_from(j)),
    decreases fallback_names().len() - j,
{
    if j < fallback_names().len() && !path_acceptable(fallback_names()[j]) {
        lemma_fallback_from_wf(j + 1);
    }
}

/// The security invariant of discovery: a candidate is only probed, and
/// only ever accepted, after its path passed validation.
pub open spec fn validated_state(s: DiscoveryStateView) -> bool {
    match s {
        DiscoveryStateView::ProbeResolved { index, path } => path_acceptable(path),
        DiscoveryStateView::ProbeFallback { index } => path_acceptable(fallback_names()[index]),
        DiscoveryStateView::Accepted { path } => path_acceptable(path),
        _ => true,
    }
}

pub proof fn lemma_fallback_from_validated(j: int)
    requires
        0 <= j,
    ensures
        validated_state(fallback_from(j)),
    decreases fallback_names().len() - j,
{
    if j < fallback_names().len() && !path_acceptable(fallback_names()[j]) {
        lemma_fallback_from_validated(j + 1);
    }
}

/// Stepping preserves the security invariant: whatever outcomes the host
/// reports, a path that failed validation can never reach `Accepted`.
pub proof fn lemma_step_validated(s: DiscoveryStateView, e: DiscoveryEventView)
    requires
        state_wf(s),
        validated_state(s),
    ensures
        validated_state(spec_step(s, e)),
{
    match (s, e) {
        (
            DiscoveryStateView::ResolveName { index },
            DiscoveryEventView::WhichOutcome { resolved },
        ) => {
            lemma_fallback_from_validated(0);
        },
        (
            DiscoveryStateView::ProbeResolved { index, path },
            DiscoveryEventView::VersionOutcome { output },
        ) => {
            lemma_fallback_from_validated(0);
        },
        (
            DiscoveryStateView::ProbeFallback { index },
            DiscoveryEventView::VersionOutcome { output },
        ) => {
            lemma_fallback_from_validated(index + 1);
        },
        _ => {},
    }
}

/// Stepping preserves well-formedness.
pub proof fn lemma_step_wf(s: DiscoveryStateView, e: DiscoveryEventView)
    requires
        state_wf(s),
    ensures
        state_wf(spec_step(s, e)),
{
    match (s, e) {
        (
            DiscoveryStateView::ResolveName { index },
            DiscoveryEventView::WhichOutcome { resolved },
        ) => {
            lemma_fallback_from_wf(0);
        },
        (
            DiscoveryStateView::ProbeResolved { index, path },
            DiscoveryEventView::VersionOutcome { output },
        ) => {
            lemma_fallback_from_wf(0);
        },
        (
            DiscoveryStateView::ProbeFallback { index },
            DiscoveryEventView::VersionOutcome { output },
        ) => {
            lemma_fallback_from_wf(index + 1);
        },
        _ => {},
    }
}

/// The initial state: the first bare name awaits resolution.
pub fn discovery_start() -> (r: DiscoveryState)
    ensures
        r@ == (DiscoveryStateView::ResolveName { index: 0 }),
        state_wf(r@),
        validated_state(r@),
{
    DiscoveryState::ResolveName { index: 0 }
}

/// The search-path names as owned strings, in probe order.
pub fn which_candidates() -> (r: Vec<String>)
    ensures
        r.deep_view() == which_names(),
{
    let mut v: Vec<String> = Vec::new();
    v.push(String::from_str("python3.12"));
    v.push(String::from_str("python3.11"));
    proof {
        assert(v.deep_view() =~= which_names());
    }
    v
}

/// The fallback candidates as owned strings, in probe order.
pub fn fallback_candidates() -> (r: Vec<String>)
    ensures
        r.deep_view() == fallback_names(),
{
    let mut v: Vec<String> = Vec::new();
    v.push(String::from_str("/opt/homebrew/bin/python3.11"));
    v.push(String::from_str("/opt/homebrew/bin/python3.12"));
    v.push(String::from_str("/usr/local/bin/python3.11"));
    v.push(String::from_str("/usr/local/bin/python3.12"));
    v.push(String::from_str("python3.11"));
    v.push(String::from_str("python3.12"));
    v.push(String::from_str("python3"));
    v.push(String::from_str("python"));
    proof {
        assert(v.deep_view() =~= fallback_names());
    }
    v
}

fn advance_which_exec(index: usize) -> (r: DiscoveryState)
    ensures
        r@ == advance_which(index as int),
{
    if index < 1 {
        DiscoveryState::ResolveName { index: index + 1 }
    } else {
        fallback_start(0)
    }
}

fn fallback_start(j: usize) -> (r: DiscoveryState)
    ensures
        r@ == fallback_from(j as int),
{
    let names = fallback_candidates();
    let mut i: usize = j;
    while i < names.len()
        invariant
            names.deep_view() == fallback_names(),
            j <= i,
            fallback_from(j as int) == fallback_from(i as int),
        decreases names.len() - i,
    {
        assert(names@[i as int]@ == fallback_names()[i as int]);
        if validate_python_path(names[i].as_str()) {
            return DiscoveryState::ProbeFallback { index: i };
        }
        i += 1;
    }
    DiscoveryState::Failed
}

/// The fallback candidates joined with `", "`, first `i` entries.
pub open spec fn joined_prefix(i: int) -> Seq<char>
    decreases i,
{
    if i <= 0 {
        Seq::<char>::empty()
    } else if i == 1 {
        fallback_names()[0]
    } else {
        joined_prefix(i - 1) + ", "@ + fallback_names()[i - 1]
    }
}

pub open spec fn failure_head() -> Seq<char> {
    "Python 3.11 or 3.12 not found in any of these locations: "@
}

pub open spec fn failure_tail() -> Seq<char> {
    ". \n\nSerena requires Python 3.11 OR 3.12 (either version works).\n\nTo fix this issue:\n1. Install Python 3.11: brew install python@3.11\n2. Or install Python 3.12: brew install python@3.12  \n3. Or specify custom path in Zed settings: {\"python_executable\": \"/path/to/python3.11\"}"@
}

/// The aggregate failure surfaced when every candidate was rejected: it
/// names all attempted fallback candidates and tells the user which
/// versions are required and how to override via configuration.
pub open spec fn failure_message() -> Seq<char> {
    failure_head() + joined_prefix(fallback_names().len() as int) + failure_tail()
}

/// Renders `failure_message()` for the host.
pub fn discovery_failure_message() -> (r: String)
    ensures
        r@ == failure_message(),
{
    let names = fallback_candidates();
    let mut msg = String::from_str("Python 3.11 or 3.12 not found in any of these locations: ");
    proof {
        assert(msg@ =~= failure_head() + joined_prefix(0));
    }
    let mut i: usize = 0;
    while i < names.len()
        invariant
            names.deep_view() == fallback_names(),
            names@.len() == fallback_names().len(),
            i <= names@.len(),
            msg@ == failure_head() + joined_prefix(i as int),
        decreases names@.len() - i,
    {
        assert(names@[i as int]@ == fallback_names()[i as int]);
        if i > 0 {
            msg.append(", ");
        }
        msg.append(names[i].as_str());
        proof {
            assert(msg@ =~= failure_head() + joined_prefix(i as int + 1));
        }
        i += 1;
    }
    msg.append(
        ". \n\nSerena requires Python 3.11 OR 3.12 (either version works).\n\nTo fix this issue:\n1. Install Python 3.11: brew install python@3.11\n2. Or install Python 3.12: brew install python@3.12  \n3. Or specify custom path in Zed settings: {\"python_executable\": \"/path/to/python3.11\"}",
    );
    proof {
        assert(msg@ =~= failure_message());
    }
    msg
}

/// One transition of discovery: the pure decision applied to the outcome
/// the host reports.
pub fn discovery_step(state: DiscoveryState, event: DiscoveryEvent) -> (r: DiscoveryState)
    requires
        state_wf(state@),
        validated_state(state@),
    ensures
        r@ == spec_step(state@, event@),
        state_wf(r@),
        validated_state(r@),
{
    proof {
        lemma_step_wf(state@, event@);
        lemma_step_validated(state@, event@);
    }
    match (state, event) {
        (
            DiscoveryState::ResolveName { index },
            DiscoveryEvent::WhichOutcome { resolved },
        ) => match resolved {
            Some(p) => {
                if validate_python_path(p.as_str()) {
                    DiscoveryState::ProbeResolved { index, path: p }
                } else {
                    advance_which_exec(index)
                }
            },
            None => advance_which_exec(index),
        },
        (
            DiscoveryState::ProbeResolved { index, path },
            DiscoveryEvent::VersionOutcome { output },
        ) => match output {
            Some(o) => {
                if is_valid_python_version(o.as_str()) {
                    DiscoveryState::Accepted { path }
                } else {
                    advance_which_exec(index)
                }
            },
            None => advance_which_exec(index),
        },
        (
            DiscoveryState::ProbeFallback { index },
            DiscoveryEvent::VersionOutcome { output },
        ) => match output {
            Some(o) => {
                if is_valid_python_version(o.as_str()) {
                    let names = fallback_candidates();
                    assert(names@.len() == fallback_names().len());
                    assert(names@[index as int]@ == fallback_names()[index as int]);
                    let path = names[index].clone();
                    DiscoveryState::Accepted { path }
                } else {
                    fallback_start(index + 1)
                }
            },
            None => fallback_start(index + 1),
        },
        (s, _) => s,
    }
}

} // verus!
