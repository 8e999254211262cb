use std::time::Duration;
use treereduce::CmdCheck;
use regex::Regex;
use vstd::prelude::*;

verus! {

#[verifier::external_type_specification]
#[verifier::external_body]
pub struct ExRegex(regex::Regex);

#[verifier::external_type_specification]
#[verifier::external_body]
pub struct ExRegexError(regex::Error);

#[verifier::external_type_specification]
#[verifier::external_body]
pub struct ExCmdCheck(treereduce::CmdCheck);

/// Whether `regex` accepts a pattern; this depends on the pattern alone.
pub uninterp spec fn regex_accepts(pattern: Seq<char>) -> bool;

/// Relies on `regex::Regex::new`: it compiles the pattern, or fails on a
/// pattern that it refuses.
pub assume_specification[ regex::Regex::new ](re: &str) -> (r: Result<regex::Regex, regex::Error>)
    ensures
        r is Ok == regex_accepts(re@),
;

/// Relies on `treereduce::CmdCheck::new`, which stores its arguments for
/// later runs of the target.
pub assume_specification[ treereduce::CmdCheck::new ](
    cmd: String,
    args: Vec<String>,
    exit_codes: Vec<i32>,
    temp_dir: Option<String>,
    interesting_stdout: Option<regex::Regex>,
    interesting_stderr: Option<regex::Regex>,
    uninteresting_stdout: Option<regex::Regex>,
    uninteresting_stderr: Option<regex::Regex>,
    inherit_stdout: bool,
    inherit_stderr: bool,
    timeout: Option<Duration>,
) -> treereduce::CmdCheck;

/// The signal number of an abort, whose runs are never kept.
pub const ABORT_SIGNAL: i32 = 6;

/// One of the four pattern options of the interestingness check.
#[derive(Clone, Copy, Debug, PartialEq, Eq, Structural)]
pub enum PatternOption {
    InterestingStdout,
    InterestingStderr,
    UninterestingStdout,
    UninterestingStderr,
}

/// Why an interestingness check could not be built.
#[derive(Clone, Copy, Debug, PartialEq, Eq, Structural)]
pub enum OracleConfigError {
    /// The target command is empty.
    EmptyCommand,
    /// The pattern given for this option does not compile.
    InvalidPattern(PatternOption),
}

/// Exit codes of a process that a signal ended, as a shell reports them.
pub open spec fn signal_exit_codes() -> Seq<i32> {
    Seq::new(128, |i: int| (128 + i) as i32)
}

/// A pattern option that is absent, or present and accepted.
pub open spec fn pattern_ok(p: Option<String>) -> bool {
    match p {
        None => true,
        Some(s) => regex_accepts(s@),
    }
}

/// The error that building a check gives, if any: an empty command first,
/// then the first invalid pattern in the order of the options.
pub open spec fn check_config_error(
    check: Seq<String>,
    interesting_stdout: Option<String>,
    interesting_stderr: Option<String>,
    uninteresting_stdout: Option<String>,
    uninteresting_stderr: Option<String>,
) -> Option<OracleConfigError> {
    if check.len() == 0 {
        Some(OracleConfigError::EmptyCommand)
    } else if !pattern_ok(interesting_stdout) {
        Some(OracleConfigError::InvalidPattern(PatternOption::InterestingStdout))
    } else if !pattern_ok(interesting_stderr) {
        Some(OracleConfigError::InvalidPattern(PatternOption::InterestingStderr))
    } else if !pattern_ok(uninteresting_stdout) {
        Some(OracleConfigError::InvalidPattern(PatternOption::UninterestingStdout))
    } else if !pattern_ok(uninteresting_stderr) {
        Some(OracleConfigError::InvalidPattern(PatternOption::UninterestingStderr))
    } else {
        None
    }
}

/// The exit codes that make a run interesting: the configured ones, then
/// every code from 128 to 255, which a shell gives a process that a signal
/// ended.
pub fn with_signal_exit_codes(codes: Vec<i32>) -> (r: Vec<i32>)
    requires
        codes@.len() + 128 <= usize::MAX,
    ensures
        r@ == codes@ + signal_exit_codes(),
{
    let mut r = codes;
    let ghost start = r@;
    let mut c: i32 = 128;
    while c < 256
        invariant
            128 <= c <= 256,
            r@ == start + signal_exit_codes().subrange(0, c - 128),
        decreases 256 - c,
    {
        r.push(c);
        proof {
            assert(signal_exit_codes().subrange(0, c + 1 - 128) =~= signal_exit_codes().subrange(
                0,
                c - 128,
            ).push(c));
        }
        c = c + 1;
    }
    assert(signal_exit_codes().subrange(0, 128) =~= signal_exit_codes());
    r
}

/// Compiles an optional pattern, naming the option if it does not compile.
fn compile_pattern(p: &Option<String>, option: PatternOption) -> (r: Result<
    Option<Regex>,
    OracleConfigError,
>)
    ensures
        r is Ok <==> pattern_ok(*p),
        r is Ok ==> (r->Ok_0 is Some <==> p is Some),
        r is Err ==> r->Err_0 == OracleConfigError::InvalidPattern(option),
{
    match p {
        None => Ok(None),
        Some(s) => match Regex::new(s.as_str()) {
            Ok(rx) => Ok(Some(rx)),
            Err(_) => Err(OracleConfigError::InvalidPattern(option)),
        },
    }
}

/// Splits a command into its program and its arguments.
fn split_command(check: &Vec<String>) -> (r: (String, Vec<String>))
    requires
        check@.len() > 0,
    ensures
        r.0 == check@[0],
        r.1@ == check@.subrange(1, check@.len() as int),
{
    let cmd = check[0].clone();
    let mut args: Vec<String> = Vec::new();
    let mut i: usize = 1;
    while i < check.len()
        invariant
            1 <= i <= check@.len(),
            args@ == check@.subrange(1, i as int),
        decreases check@.len() - i,
    {
        args.push(check[i].clone());
        proof {
            assert(check@.subrange(1, i + 1) =~= check@.subrange(1, i as int).push(check@[i as int]));
        }
        i = i + 1;
    }
    (cmd, args)
}

/// The interestingness check as plain values: what to run, which exit
/// codes and patterns make a run interesting, whether the target's output
/// is shown, and how long a run may take.
pub struct OracleTemplate {
    /// The program to run.
    pub program: String,
    /// Its arguments; one starting with `@@` is replaced by the path of a
    /// file holding the candidate, which otherwise comes on stdin.
    pub args: Vec<String>,
    /// Exit codes that make a run interesting.
    pub exit_codes: Vec<i32>,
    /// The four patterns as given, in the order of `PatternOption`.
    pub interesting_stdout: Option<String>,
    pub interesting_stderr: Option<String>,
    pub uninteresting_stdout: Option<String>,
    pub uninteresting_stderr: Option<String>,
    /// Whether the target's stdout and stderr are shown.
    pub show_output: bool,
    /// Longest run of the target.
    pub timeout: Duration,
    /// The four patterns compiled, each present when its text is.
    pub interesting_stdout_regex: Option<Regex>,
    pub interesting_stderr_regex: Option<Regex>,
    pub uninteresting_stdout_regex: Option<Regex>,
    pub uninteresting_stderr_regex: Option<Regex>,
}

impl OracleTemplate {
    /// The check that runs the target as the template says, with each
    /// pattern compiled from the template's text.
    pub fn into_check(self) -> CmdCheck {
        CmdCheck::new(
            self.program,
            self.args,
            self.exit_codes,
            None,
            self.interesting_stdout_regex,
            self.interesting_stderr_regex,
            self.uninteresting_stdout_regex,
            self.uninteresting_stderr_regex,
            self.show_output,
            self.show_output,
            Some(self.timeout),
        )
    }
}

/// Builds the interestingness check that runs `check` (program, then
/// arguments) with the given timeout. A run is interesting when its exit
/// code is one of `interesting_exit_codes` or of 128 to 255, or an
/// interesting pattern matches its stream, unless an uninteresting pattern
/// matches. In debug mode the target's output is shown.
pub fn make_check(
    debug: bool,
    timeout: Duration,
    check: Vec<String>,
    interesting_exit_codes: Vec<i32>,
    interesting_stdout: Option<String>,
    interesting_stderr: Option<String>,
    uninteresting_stdout: Option<String>,
    uninteresting_stderr: Option<String>,
) -> (r: Result<OracleTemplate, OracleConfigError>)
    requires
        interesting_exit_codes@.len() + 128 <= usize::MAX,
    ensures
        match check_config_error(
            check@,
            interesting_stdout,
            interesting_stderr,
            uninteresting_stdout,
            uninteresting_stderr,
        ) {
            Some(e) => r is Err && r->Err_0 == e,
            None => r is Ok && {
                let t = r->Ok_0;
                &&& t.program == check@[0]
                &&& t.args@ == check@.subrange(1, check@.len() as int)
                &&& t.exit_codes@ == interesting_exit_codes@ + signal_exit_codes()
                &&& t.interesting_stdout == interesting_stdout
                &&& t.interesting_stderr == interesting_stderr
                &&& t.uninteresting_stdout == uninteresting_stdout
                &&& t.uninteresting_stderr == uninteresting_stderr
                &&& t.interesting_stdout_regex is Some <==> interesting_stdout is Some
                &&& t.interesting_stderr_regex is Some <==> interesting_stderr is Some
                &&& t.uninteresting_stdout_regex is Some <==> uninteresting_stdout is Some
                &&& t.uninteresting_stderr_regex is Some <==> uninteresting_stderr is Some
                &&& t.show_output == debug
                &&& t.timeout == timeout
            },
        },
{
    if check.len() == 0 {
        return Err(OracleConfigError::EmptyCommand);
    }
    let (program, args) = split_command(&check);
    let stdout_regex = compile_pattern(&interesting_stdout, PatternOption::InterestingStdout)?;
    let stderr_regex = compile_pattern(&interesting_stderr, PatternOption::InterestingStderr)?;
    let un_stdout_regex = compile_pattern(
        &uninteresting_stdout,
        PatternOption::UninterestingStdout,
    )?;
    let un_stderr_regex = compile_pattern(
        &uninteresting_stderr,
        PatternOption::UninterestingStderr,
    )?;
    let exit_codes = with_signal_exit_codes(interesting_exit_codes);
    Ok(
        OracleTemplate {
            program,
            args,
            exit_codes,
            interesting_stdout,
            interesting_stderr,
            uninteresting_stdout,
            uninteresting_stderr,
            show_output: debug,
            timeout,
            interesting_stdout_regex: stdout_regex,
            interesting_stderr_regex: stderr_regex,
            uninteresting_stdout_regex: un_stdout_regex,
            uninteresting_stderr_regex: un_stderr_regex,
        },
    )
}

/// Whether a finished run is kept: the check found it interesting or a
/// signal ended it, and that signal was not an abort.
pub open spec fn recorded(check_interesting: bool, signal: Option<i32>) -> bool {
    (check_interesting || signal is Some) && signal != Some(ABORT_SIGNAL)
}

/// Decides whether a finished run of the target is kept, from the verdict
/// of the interestingness check and the signal that ended the process.
pub fn should_record(check_interesting: bool, signal: Option<i32>) -> (r: bool)
    ensures
        r == recorded(check_interesting, signal),
{
    match signal {
        Some(s) => s != ABORT_SIGNAL,
        None => check_interesting,
    }
}

} // verus!
