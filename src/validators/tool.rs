//! Tool validation: which executables stand for a tool, how to ask each for
//! its version, how to read a version out of free-form output, and how a
//! version is held against a constraint.
use vstd::prelude::*;
use crate::config::ToolCheck;
use crate::text::{
    chars_of, contains, contains_seq, has_prefix, is_ascii_digit, is_digit, is_whitespace, is_ws,
    lex_lt, less_than, same_chars, starts_with, str_eq,
};
use crate::validators::{
    cat, error_view, success_view, views, warning_view, ResultView, ValidationResult, ValidationStatus, Validator,
};

verus! {

// ---------------------------------------------------------------------------
// Candidate executables and version queries
// ---------------------------------------------------------------------------

/// The executables searched for a tool name: `python` stands for `python3`
/// and then `python`; any other name for itself.
pub open spec fn candidates_of(name: Seq<char>) -> Seq<Seq<char>> {
    if name == "python"@ {
        seq!["python3"@, "python"@]
    } else {
        seq![name]
    }
}

/// The executable that the version table names for `tool`.
pub open spec fn command_of(tool: Seq<char>) -> Seq<char> {
    if tool == "rust"@ || tool == "rustc"@ {
        "rustc"@
    } else if tool == "python"@ || tool == "python3"@ {
        "python3"@
    } else {
        tool
    }
}

/// The arguments that ask `tool` for its version.
pub open spec fn args_of(tool: Seq<char>) -> Seq<Seq<char>> {
    if tool == "go"@ {
        seq!["version"@]
    } else if tool == "java"@ {
        seq!["-version"@]
    } else {
        seq!["--version"@]
    }
}

pub open spec fn string_views(v: Seq<String>) -> Seq<Seq<char>> {
    v.map_values(|s: String| s@)
}

// ---------------------------------------------------------------------------
// Reading a version out of command output
// ---------------------------------------------------------------------------

/// Characters that end a word: whitespace, and the double quote, which the
/// scan reads as a space.
pub open spec fn is_sep(c: char) -> bool {
    is_ws(c) || c == '"'
}

pub open spec fn is_version_char(c: char) -> bool {
    is_digit(c) || c == '.'
}

/// End of the run of digits and dots that starts at `d`.
pub open spec fn run_end(s: Seq<char>, d: int) -> int
    decreases s.len() - d,
{
    if 0 <= d < s.len() && is_version_char(s[d]) {
        run_end(s, d + 1)
    } else {
        d
    }
}

/// A run is taken as a version when it has a dot and at least three characters.
pub open spec fn accepted_run(s: Seq<char>, a: int, b: int) -> bool {
    b - a >= 3 && exists|k: int| a <= k < b && s[k] == '.'
}

/// Scan words left to right from `i`; in each word only the run that starts
/// at its first digit is considered (`seen`: that digit has been passed in
/// the current word). Gives the bounds of the first accepted run.
pub open spec fn scan(s: Seq<char>, i: int, seen: bool) -> Option<(int, int)>
    decreases s.len() - i,
{
    if i < 0 || i >= s.len() {
        None
    } else if is_sep(s[i]) {
        scan(s, i + 1, false)
    } else if !seen && is_digit(s[i]) {
        if accepted_run(s, i, run_end(s, i)) {
            Some((i, run_end(s, i)))
        } else {
            scan(s, i + 1, true)
        }
    } else {
        scan(s, i + 1, seen)
    }
}

/// First index at or after `i` that is not whitespace (`s.len()` if none).
pub open spec fn skip_ws(s: Seq<char>, i: int) -> int
    decreases s.len() - i,
{
    if 0 <= i < s.len() && is_ws(s[i]) {
        skip_ws(s, i + 1)
    } else {
        i
    }
}

/// Exclusive end of `s[..j]` once trailing whitespace is dropped.
pub open spec fn trim_end_at(s: Seq<char>, j: int) -> int
    decreases j,
{
    if 0 < j <= s.len() && is_ws(s[j - 1]) {
        trim_end_at(s, j - 1)
    } else {
        j
    }
}

/// First `'\n'` in `s[i..b]`, or `b`.
pub open spec fn newline_at(s: Seq<char>, i: int, b: int) -> int
    decreases b - i,
{
    if i < b && 0 <= i < s.len() && s[i] != '\n' {
        newline_at(s, i + 1, b)
    } else {
        i
    }
}

/// `s` without leading and trailing whitespace.
pub open spec fn trim(s: Seq<char>) -> Seq<char> {
    let a = skip_ws(s, 0);
    let b = trim_end_at(s, s.len() as int);
    if a < b {
        s.subrange(a, b)
    } else {
        Seq::empty()
    }
}

/// The first line of the trimmed output (a `"\r\n"` ending is dropped whole),
/// or nothing when the output is only whitespace.
pub open spec fn first_line(s: Seq<char>) -> Option<Seq<char>> {
    let a = skip_ws(s, 0);
    let b = trim_end_at(s, s.len() as int);
    if a < b {
        let e = newline_at(s, a, b);
        let e2 = if e < b && s[e - 1] == '\r' { e - 1 } else { e };
        Some(s.subrange(a, e2))
    } else {
        None
    }
}

/// The version read from `output`: the first accepted run in scan order,
/// else the first line of the trimmed output.
pub open spec fn parsed_version(output: Seq<char>) -> Option<Seq<char>> {
    match scan(output, 0, false) {
        Some((a, b)) => Some(output.subrange(a, b)),
        None => first_line(output),
    }
}

// ---------------------------------------------------------------------------
// Version constraints
// ---------------------------------------------------------------------------

/// `s` with every leading repetition of `p` removed.
pub open spec fn strip_all(s: Seq<char>, p: Seq<char>) -> Seq<char>
    decreases s.len(),
{
    if p.len() > 0 && has_prefix(s, p) {
        strip_all(s.subrange(p.len() as int, s.len() as int), p)
    } else {
        s
    }
}

/// The value of a constraint once the operator `op` is stripped and the rest trimmed.
pub open spec fn operand(req: Seq<char>, op: Seq<char>) -> Seq<char> {
    trim(strip_all(req, op))
}

/// Whether `version` meets `req`. The comparison is lexical on characters,
/// not numeric: `"10.0"` is below `"9.0"`. With no operator the constraint
/// is met when the version contains it.
pub open spec fn requirement_met(version: Seq<char>, req: Seq<char>) -> bool {
    if has_prefix(req, ">="@) {
        !lex_lt(version, operand(req, ">="@))
    } else if has_prefix(req, "<="@) {
        !lex_lt(operand(req, "<="@), version)
    } else if has_prefix(req, ">"@) {
        lex_lt(operand(req, ">"@), version)
    } else if has_prefix(req, "<"@) {
        lex_lt(version, operand(req, "<"@))
    } else if has_prefix(req, "="@) {
        version == operand(req, "="@)
    } else {
        contains_seq(version, req)
    }
}

// ---------------------------------------------------------------------------
// What was observed, and what it yields
// ---------------------------------------------------------------------------

/// The outcome of asking one candidate for its version.
#[derive(Debug)]
pub enum ProbeOutcome {
    /// The candidate's executable is not on the search path.
    Unresolvable,
    /// The process could not be started; the error's text.
    SpawnFailed(String),
    /// The process ran; its standard output and error, as text.
    Completed { stdout: String, stderr: String },
}

/// What was observed of the machine for one tool: for each candidate
/// executable, whether the search path resolves it; and the outcomes of the
/// version probes made so far, one per candidate in order.
pub struct ToolObservation {
    pub resolvable: Vec<bool>,
    pub probes: Vec<ProbeOutcome>,
}

/// The text a completed probe is read from: standard output, or standard
/// error when the output is empty.
pub open spec fn probe_text(p: ProbeOutcome) -> Option<Seq<char>> {
    match p {
        ProbeOutcome::Completed { stdout, stderr } => Some(
            if stdout@.len() == 0 {
                stderr@
            } else {
                stdout@
            },
        ),
        _ => None,
    }
}

pub open spec fn probe_version(p: ProbeOutcome) -> Option<Seq<char>> {
    match probe_text(p) {
        Some(t) => parsed_version(t),
        None => None,
    }
}

/// Index of the first probe in `probes[i..n]` that yields a version, or `n`.
pub open spec fn first_detected(probes: Seq<ProbeOutcome>, i: int, n: int) -> int
    decreases n - i,
{
    if 0 <= i < n && i < probes.len() && probe_version(probes[i]) is None {
        first_detected(probes, i + 1, n)
    } else {
        i
    }
}

/// The text of the last spawn failure among `probes[..n]`.
pub open spec fn last_error(probes: Seq<ProbeOutcome>, n: int) -> Option<Seq<char>>
    decreases n,
{
    if n <= 0 || n > probes.len() {
        None
    } else {
        match probes[n - 1] {
            ProbeOutcome::SpawnFailed(m) => Some(m@),
            _ => last_error(probes, n - 1),
        }
    }
}

pub open spec fn min(a: int, b: int) -> int {
    if a < b {
        a
    } else {
        b
    }
}

/// Whether some candidate of `name` is on the search path.
pub open spec fn tool_found(name: Seq<char>, resolvable: Seq<bool>) -> bool {
    exists|i: int| 0 <= i < min(resolvable.len() as int, candidates_of(name).len() as int) && resolvable[i]
}

/// Number of probes that count: one per candidate at most.
pub open spec fn probe_count(name: Seq<char>, probes: Seq<ProbeOutcome>) -> int {
    min(probes.len() as int, candidates_of(name).len() as int)
}

/// The probe whose output gave the version, if any did.
pub open spec fn detected_index(name: Seq<char>, probes: Seq<ProbeOutcome>) -> int {
    first_detected(probes, 0, probe_count(name, probes))
}

pub open spec fn absent_view(c: ToolCheck) -> ResultView {
    if c.required {
        error_view(c.name@ + " not found"@, Some("Install "@ + c.name@ + " to continue"@))
    } else {
        warning_view(c.name@ + " not found (optional)"@, None)
    }
}

pub open spec fn met_view(name: Seq<char>, tool: Seq<char>, version: Seq<char>) -> ResultView {
    success_view(name + " ("@ + tool + ") "@ + version + " found"@)
}

pub open spec fn unmet_view(
    name: Seq<char>,
    tool: Seq<char>,
    version: Seq<char>,
    req: Seq<char>,
) -> ResultView {
    error_view(
        name + " ("@ + tool + ") version "@ + version + " does not meet requirement "@ + req,
        Some("Update "@ + name + " to version "@ + req),
    )
}

pub open spec fn undetermined_view(name: Seq<char>, err: Option<Seq<char>>) -> ResultView {
    let e = match err {
        Some(m) => m,
        None => "Version could not be determined"@,
    };
    warning_view(name + " found but "@ + e, None)
}

/// The results for tool entry `c` given what was observed for it.
pub open spec fn tool_outcome(c: ToolCheck, obs: ToolObservation) -> Seq<ResultView> {
    let name = c.name@;
    let probes = obs.probes@;
    if !tool_found(name, obs.resolvable@) {
        seq![absent_view(c)]
    } else {
        match c.version {
            None => seq![success_view(name + " found"@)],
            Some(req) => {
                let k = detected_index(name, probes);
                if k < probe_count(name, probes) {
                    let v = probe_version(probes[k])->Some_0;
                    let tool = candidates_of(name)[k];
                    if requirement_met(v, req@) {
                        seq![met_view(name, tool, v)]
                    } else {
                        seq![unmet_view(name, tool, v, req@)]
                    }
                } else {
                    seq![undetermined_view(name, last_error(probes, probe_count(name, probes)))]
                }
            },
        }
    }
}

/// The next version probe to make: the next candidate executable itself,
/// with the arguments that ask it for its version, while the tool was found,
/// has a constraint, no probe has given a version yet and a candidate is left.
pub open spec fn next_probe_of(c: ToolCheck, obs: ToolObservation) -> Option<(Seq<char>, Seq<Seq<char>>)> {
    let name = c.name@;
    let probes = obs.probes@;
    if tool_found(name, obs.resolvable@) && c.version is Some && probes.len()
        < candidates_of(name).len() && detected_index(name, probes) == probes.len() {
        let tool = candidates_of(name)[probes.len() as int];
        Some((tool, args_of(tool)))
    } else {
        None
    }
}

// ---------------------------------------------------------------------------
// The validator
// ---------------------------------------------------------------------------

pub struct ToolValidator {
    check: ToolCheck,
}

fn one_string(s: &str) -> (r: Vec<String>)
    ensures
        string_views(r@) == seq![s@],
{
    let mut v: Vec<String> = Vec::new();
    v.push(String::from_str(s));
    assert(string_views(v@) =~= seq![s@]);
    v
}

/// `s[a..b]` as a new vector.
fn slice_chars(s: &Vec<char>, a: usize, b: usize) -> (r: Vec<char>)
    requires
        a <= b <= s@.len(),
    ensures
        r@ == s@.subrange(a as int, b as int),
{
    let mut out: Vec<char> = Vec::new();
    let mut i: usize = a;
    while i < b
        invariant
            a <= i <= b,
            b <= s@.len(),
            out@ == s@.subrange(a as int, i as int),
        decreases b - i,
    {
        out.push(s[i]);
        i = i + 1;
    }
    out
}

/// Index of the first non-whitespace character from `i` on.
fn skip_whitespace(s: &Vec<char>, i: usize) -> (r: usize)
    requires
        i <= s@.len(),
    ensures
        r == skip_ws(s@, i as int),
        i <= r <= s@.len(),
        r < s@.len() ==> !is_ws(s@[r as int]),
    decreases s@.len() - i,
{
    if i < s.len() && is_whitespace(s[i]) {
        skip_whitespace(s, i + 1)
    } else {
        i
    }
}

fn trim_end(s: &Vec<char>, j: usize) -> (r: usize)
    requires
        j <= s@.len(),
    ensures
        r == trim_end_at(s@, j as int),
        r <= j,
    decreases j,
{
    if j > 0 && is_whitespace(s[j - 1]) {
        trim_end(s, j - 1)
    } else {
        j
    }
}

fn find_newline(s: &Vec<char>, i: usize, b: usize) -> (r: usize)
    requires
        i <= b <= s@.len(),
    ensures
        r == newline_at(s@, i as int, b as int),
        i <= r <= b,
        r < b ==> s@[r as int] == '\n',
    decreases b - i,
{
    if i < b && s[i] != '\n' {
        find_newline(s, i + 1, b)
    } else {
        i
    }
}

fn trim_chars(s: &Vec<char>) -> (r: Vec<char>)
    ensures
        r@ == trim(s@),
{
    let a = skip_whitespace(s, 0);
    let b = trim_end(s, s.len());
    if a < b {
        slice_chars(s, a, b)
    } else {
        Vec::new()
    }
}

fn strip_prefixes(s: &Vec<char>, p: &Vec<char>) -> (r: Vec<char>)
    requires
        p@.len() > 0,
    ensures
        r@ == strip_all(s@, p@),
    decreases s@.len(),
{
    if starts_with(s, p) {
        let rest = slice_chars(s, p.len(), s.len());
        strip_prefixes(&rest, p)
    } else {
        slice_chars(s, 0, s.len())
    }
}

fn run_end_from(s: &Vec<char>, d: usize) -> (r: (usize, bool))
    requires
        d <= s@.len(),
    ensures
        r.0 == run_end(s@, d as int),
        d <= r.0 <= s@.len(),
        r.1 == exists|k: int| d <= k < r.0 && s@[k] == '.',
    decreases s@.len() - d,
{
    if d < s.len() && (is_ascii_digit(s[d]) || s[d] == '.') {
        let (e, dot) = run_end_from(s, d + 1);
        let here = s[d] == '.';
        proof {
            if dot {
                let k = choose|k: int| d + 1 <= k < e && s@[k] == '.';
                assert(d <= k < e && s@[k] == '.');
            }
            if exists|k: int| d <= k < e && s@[k] == '.' {
                let k = choose|k: int| d <= k < e && s@[k] == '.';
                if k != d {
                    assert(d + 1 <= k < e && s@[k] == '.');
                }
            }
        }
        (e, dot || here)
    } else {
        (d, false)
    }
}

impl ToolValidator {
    pub closed spec fn spec_check(&self) -> ToolCheck {
        self.check
    }

    pub fn new(check: ToolCheck) -> (r: Self)
        ensures
            r.spec_check() == check,
    {
        ToolValidator { check }
    }

    /// The executables that stand for this tool, in the order they are tried.
    pub fn candidates(&self) -> (r: Vec<String>)
        ensures
            string_views(r@) == candidates_of(self.spec_check().name@),
    {
        let name = self.check.name.as_str();
        let mut v: Vec<String> = Vec::new();
        if str_eq(name, "python") {
            v.push(String::from_str("python3"));
            v.push(String::from_str("python"));
        } else {
            v.push(String::from_str(name));
        }
        assert(string_views(v@) =~= candidates_of(self.spec_check().name@));
        v
    }

    /// The executable and arguments that ask `tool` for its version.
    pub fn get_version_command(&self, tool: &str) -> (r: Option<(String, Vec<String>)>)
        ensures
            r is Some,
            r->Some_0.0@ == command_of(tool@),
            string_views(r->Some_0.1@) == args_of(tool@),
    {
        let cmd = if str_eq(tool, "rust") || str_eq(tool, "rustc") {
            String::from_str("rustc")
        } else if str_eq(tool, "python") || str_eq(tool, "python3") {
            String::from_str("python3")
        } else {
            String::from_str(tool)
        };
        let args = if str_eq(tool, "go") {
            one_string("version")
        } else if str_eq(tool, "java") {
            one_string("-version")
        } else {
            one_string("--version")
        };
        Some((cmd, args))
    }

    /// Reads a version out of a command's output: the first word-initial run
    /// of digits and dots that has a dot and three characters or more, else
    /// the first line of the trimmed output; nothing for blank output.
    pub fn parse_version(&self, output: &str, _tool: &str) -> (r: Option<String>)
        ensures
            match r {
                Some(v) => parsed_version(output@) == Some(v@),
                None => parsed_version(output@) is None,
            },
    {
        let s = chars_of(output);
        let n = s.len();
        let mut i: usize = 0;
        let mut seen = false;
        while i < n
            invariant
                n == s@.len(),
                s@ == output@,
                i <= n,
                scan(s@, i as int, seen) == scan(s@, 0, false),
            decreases n - i,
        {
            let c = s[i];
            if is_whitespace(c) || c == '"' {
                seen = false;
            } else if !seen && is_ascii_digit(c) {
                let (e, dot) = run_end_from(&s, i);
                if dot && e - i >= 3 {
                    let v = output.substring_char(i, e);
                    return Some(String::from_str(v));
                }
                seen = true;
            }
            i = i + 1;
        }
        let a = skip_whitespace(&s, 0);
        let b = trim_end(&s, n);
        if a < b {
            let e = find_newline(&s, a, b);
            assert(is_ws('\n'));
            let e2 = if e < b && s[e - 1] == '\r' {
                e - 1
            } else {
                e
            };
            Some(String::from_str(output.substring_char(a, e2)))
        } else {
            None
        }
    }

    /// Whether `version` meets `requirement` (see `requirement_met`: lexical,
    /// not numeric, comparison).
    pub fn check_version_requirement(&self, version: &str, requirement: &str) -> (r: bool)
        ensures
            r == requirement_met(version@, requirement@),
    {
        proof {
            reveal_strlit(">=");
            reveal_strlit("<=");
            reveal_strlit(">");
            reveal_strlit("<");
            reveal_strlit("=");
        }
        let v = chars_of(version);
        let req = chars_of(requirement);
        let ge = chars_of(">=");
        let le = chars_of("<=");
        let gt = chars_of(">");
        let lt = chars_of("<");
        let eq = chars_of("=");
        if starts_with(&req, &ge) {
            let operand = trim_chars(&strip_prefixes(&req, &ge));
            return !less_than(&v, &operand);
        }
        if starts_with(&req, &le) {
            let operand = trim_chars(&strip_prefixes(&req, &le));
            return !less_than(&operand, &v);
        }
        if starts_with(&req, &gt) {
            let operand = trim_chars(&strip_prefixes(&req, &gt));
            return less_than(&operand, &v);
        }
        if starts_with(&req, &lt) {
            let operand = trim_chars(&strip_prefixes(&req, &lt));
            return less_than(&v, &operand);
        }
        if starts_with(&req, &eq) {
            let operand = trim_chars(&strip_prefixes(&req, &eq));
            return same_chars(&v, &operand);
        }
        contains(&v, &req)
    }
}


impl ToolValidator {
    fn found(&self, resolvable: &Vec<bool>) -> (r: bool)
        ensures
            r == tool_found(self.spec_check().name@, resolvable@),
    {
        let cands = self.candidates();
        let n = if resolvable.len() < cands.len() {
            resolvable.len()
        } else {
            cands.len()
        };
        assert(n == min(resolvable@.len() as int, candidates_of(self.check.name@).len() as int));
        let mut i: usize = 0;
        while i < n
            invariant
                i <= n,
                n <= resolvable@.len(),
                n == min(resolvable@.len() as int, candidates_of(self.check.name@).len() as int),
                forall|k: int| 0 <= k < i ==> !resolvable@[k],
            decreases n - i,
        {
            if resolvable[i] {
                assert(0 <= i < min(resolvable@.len() as int, candidates_of(self.check.name@).len() as int)
                    && resolvable@[i as int]);
                return true;
            }
            i = i + 1;
        }
        false
    }

    fn probe_version_of(&self, p: &ProbeOutcome) -> (r: Option<String>)
        ensures
            match r {
                Some(v) => probe_version(*p) == Some(v@),
                None => probe_version(*p) is None,
            },
    {
        match p {
            ProbeOutcome::Completed { stdout, stderr } => {
                if stdout.as_str().is_empty() {
                    self.parse_version(stderr.as_str(), "")
                } else {
                    self.parse_version(stdout.as_str(), "")
                }
            },
            _ => None,
        }
    }

    /// The first of `probes[..n]` that yields a version, with that version.
    fn detect(&self, probes: &Vec<ProbeOutcome>, n: usize) -> (r: (usize, Option<String>))
        requires
            n <= probes@.len(),
        ensures
            r.0 == first_detected(probes@, 0, n as int),
            r.0 <= n,
            r.0 < n ==> r.1 is Some && probe_version(probes@[r.0 as int]) == Some(r.1->Some_0@),
    {
        let mut k: usize = 0;
        while k < n
            invariant
                k <= n,
                n <= probes@.len(),
                first_detected(probes@, k as int, n as int) == first_detected(probes@, 0, n as int),
            decreases n - k,
        {
            let v = self.probe_version_of(&probes[k]);
            if v.is_some() {
                return (k, v);
            }
            k = k + 1;
        }
        (k, None)
    }

    /// The text of the last spawn failure in `probes[..n]`.
    fn last_spawn_error(probes: &Vec<ProbeOutcome>, n: usize) -> (r: Option<String>)
        requires
            n <= probes@.len(),
        ensures
            match r {
                Some(m) => last_error(probes@, n as int) == Some(m@),
                None => last_error(probes@, n as int) is None,
            },
        decreases n,
    {
        if n == 0 {
            None
        } else {
            match &probes[n - 1] {
                ProbeOutcome::SpawnFailed(m) => Some(m.clone()),
                _ => Self::last_spawn_error(probes, n - 1),
            }
        }
    }

    /// The next version probe to run (the candidate executable and its
    /// version arguments), or nothing
    /// when the tool was not found, has no constraint, a probe has already
    /// given a version, or every candidate has been probed.
    pub fn next_probe(&self, observed: &ToolObservation) -> (r: Option<(String, Vec<String>)>)
        ensures
            match r {
                Some(p) => next_probe_of(self.spec_check(), *observed) == Some(
                    (p.0@, string_views(p.1@)),
                ),
                None => next_probe_of(self.spec_check(), *observed) is None,
            },
    {
        let cands = self.candidates();
        proof {
            assert(cands@.len() == candidates_of(self.check.name@).len());
        }
        if !self.found(&observed.resolvable) || self.check.version.is_none() || observed.probes.len()
            >= cands.len() {
            return None;
        }
        let n = observed.probes.len();
        let (k, _v) = self.detect(&observed.probes, n);
        if k < n {
            return None;
        }
        let tool = &cands[n];
        proof {
            assert(tool@ == string_views(cands@)[n as int]);
        }
        match self.get_version_command(tool.as_str()) {
            Some((_command, args)) => Some((tool.clone(), args)),
            None => None,
        }
    }

    fn absent(&self) -> (r: ValidationResult)
        ensures
            r@ == absent_view(self.spec_check()),
    {
        let name = self.check.name.as_str();
        if self.check.required {
            let mut s = String::from_str("Install ");
            s.append(name);
            s.append(" to continue");
            ValidationResult::error(cat(name, " not found"), Some(s))
        } else {
            ValidationResult::warning(cat(name, " not found (optional)"), None)
        }
    }
}

impl Validator for ToolValidator {
    type Observation = ToolObservation;

    /// One result: not found (an error when required, else a warning);
    /// found with no constraint; the detected version meets the constraint
    /// or not; or found with no version read (a warning).
    open spec fn outcome(&self, observed: ToolObservation) -> Seq<ResultView> {
        tool_outcome(self.spec_check(), observed)
    }

    fn validate(&self, observed: ToolObservation) -> (r: Vec<ValidationResult>)
    {
        let mut out: Vec<ValidationResult> = Vec::new();
        let name = self.check.name.as_str();
        if !self.found(&observed.resolvable) {
            out.push(self.absent());
        } else {
            match &self.check.version {
                None => {
                    out.push(ValidationResult::success(cat(name, " found")));
                },
                Some(req) => {
                    let cands = self.candidates();
                    let n = if observed.probes.len() < cands.len() {
                        observed.probes.len()
                    } else {
                        cands.len()
                    };
                    let (k, v) = self.detect(&observed.probes, n);
                    if k < n {
                        let version = v.unwrap();
                        let tool = &cands[k];
                        proof {
                            assert(tool@ == string_views(cands@)[k as int]);
                        }
                        if self.check_version_requirement(version.as_str(), req.as_str()) {
                            let mut m = cat(name, " (");
                            m.append(tool.as_str());
                            m.append(") ");
                            m.append(version.as_str());
                            m.append(" found");
                            out.push(ValidationResult::success(m));
                        } else {
                            let mut m = cat(name, " (");
                            m.append(tool.as_str());
                            m.append(") version ");
                            m.append(version.as_str());
                            m.append(" does not meet requirement ");
                            m.append(req.as_str());
                            let mut sg = cat("Update ", name);
                            sg.append(" to version ");
                            sg.append(req.as_str());
                            out.push(ValidationResult::error(m, Some(sg)));
                        }
                    } else {
                        let err = Self::last_spawn_error(&observed.probes, n);
                        let mut m = cat(name, " found but ");
                        match err {
                            Some(e) => m.append(e.as_str()),
                            None => m.append("Version could not be determined"),
                        }
                        out.push(ValidationResult::warning(m, None));
                    }
                },
            }
        }
        assert(views(out@) =~= tool_outcome(self.spec_check(), observed));
        out
    }
}

/// A tool entry with no version constraint none of whose executables is on
/// the search path yields exactly one result: an error when the tool is
/// required, a warning when it is optional.
pub proof fn lemma_absent_tool_single_result(c: ToolCheck, obs: ToolObservation)
    requires
        c.version is None,
        !tool_found(c.name@, obs.resolvable@),
    ensures
        tool_outcome(c, obs).len() == 1,
        tool_outcome(c, obs)[0].status == (if c.required {
            ValidationStatus::Error
        } else {
            ValidationStatus::Warning
        }),
{
}

} // verus!
