//! Engine dispatch: from a script's engine tag to the interpreter command that runs it.
use vstd::prelude::*;
use crate::error::{PluginError, PluginErrorKind};
use crate::text::str_equal;

verus! {

/// The interpreter family a script needs.
#[derive(Debug, Clone, Copy, PartialEq, Eq, Structural)]
pub enum Engine {
    Python,
    JavaScript,
    /// Shell scripts are recognised and always refused.
    Shell,
    Unsupported,
}

pub open spec fn engine_of_tag(tag: Seq<char>) -> Engine {
    if tag == "py"@ {
        Engine::Python
    } else if tag == "js"@ {
        Engine::JavaScript
    } else if tag == "sh"@ {
        Engine::Shell
    } else {
        Engine::Unsupported
    }
}

/// Classifies an engine tag.
pub fn engine_from_tag(tag: &str) -> (r: Engine)
    ensures
        r == engine_of_tag(tag@),
{
    if str_equal(tag, "py") {
        Engine::Python
    } else if str_equal(tag, "js") {
        Engine::JavaScript
    } else if str_equal(tag, "sh") {
        Engine::Shell
    } else {
        Engine::Unsupported
    }
}

/// A subprocess to run: the program and its arguments.
#[derive(Debug)]
pub struct Invocation {
    pub program: String,
    pub args: Vec<String>,
}

pub open spec fn strings_view(v: Seq<String>) -> Seq<Seq<char>> {
    v.map_values(|s: String| s@)
}

/// `program flag code args...`.
pub open spec fn is_invocation(
    r: Invocation,
    program: Seq<char>,
    flag: Seq<char>,
    code: Seq<char>,
    args: Seq<String>,
) -> bool {
    &&& r.program@ == program
    &&& strings_view(r.args@) == seq![flag, code] + strings_view(args)
}

/// The message of the refusal of a shell script.
pub open spec fn shell_refusal() -> Seq<char> {
    "shell scripts are disabled"@
}

/// What running a script of engine `engine` with text `code` and arguments `args` amounts to.
pub open spec fn planned(
    r: Result<Invocation, PluginError>,
    code: Seq<char>,
    engine: Seq<char>,
    args: Seq<String>,
) -> bool {
    match engine_of_tag(engine) {
        Engine::Python => r.is_ok() && is_invocation(r.unwrap(), "python3"@, "-c"@, code, args),
        Engine::JavaScript => r.is_ok() && is_invocation(r.unwrap(), "node"@, "-e"@, code, args),
        Engine::Shell => r.is_err() && r->Err_0.kind == PluginErrorKind::UnsupportedEngine
            && r->Err_0.message@ == shell_refusal(),
        Engine::Unsupported => r.is_err() && r->Err_0.kind == PluginErrorKind::UnsupportedEngine
            && r->Err_0.message@ == engine,
    }
}

fn interpreter_call(program: &str, flag: &str, code: &str, args: &Vec<String>) -> (r: Invocation)
    ensures
        is_invocation(r, program@, flag@, code@, args@),
{
    let mut all: Vec<String> = Vec::new();
    all.push(String::from_str(flag));
    all.push(String::from_str(code));
    let mut i: usize = 0;
    while i < args.len()
        invariant
            i <= args.len(),
            strings_view(all@) == seq![flag@, code@] + strings_view(args@.subrange(0, i as int)),
        decreases args.len() - i,
    {
        let ghost prev = all@;
        all.push(args[i].clone());
        proof {
            let sub = args@.subrange(0, i as int);
            let next = args@.subrange(0, i + 1);
            assert(next =~= sub.push(args@[i as int]));
            assert(strings_view(next) =~= strings_view(sub).push(args@[i as int]@));
            assert(strings_view(all@) =~= strings_view(prev).push(args@[i as int]@));
        }
        i = i + 1;
    }
    proof {
        assert(args@.subrange(0, args@.len() as int) =~= args@);
    }
    Invocation { program: String::from_str(program), args: all }
}

/// `python3 -c <code> args...`.
pub fn execute_python_script(code: &str, args: &Vec<String>) -> (r: Invocation)
    ensures
        is_invocation(r, "python3"@, "-c"@, code@, args@),
{
    interpreter_call("python3", "-c", code, args)
}

/// `node -e <code> args...`.
pub fn execute_javascript_script(code: &str, args: &Vec<String>) -> (r: Invocation)
    ensures
        is_invocation(r, "node"@, "-e"@, code@, args@),
{
    interpreter_call("node", "-e", code, args)
}

/// Decides how a script is run: the interpreter command for `py` and `js`, a refusal otherwise.
pub fn plan_execution(code: &str, engine: &str, args: &Vec<String>) -> (r: Result<
    Invocation,
    PluginError,
>)
    ensures
        planned(r, code@, engine@, args@),
{
    match engine_from_tag(engine) {
        Engine::Python => Ok(execute_python_script(code, args)),
        Engine::JavaScript => Ok(execute_javascript_script(code, args)),
        Engine::Shell => Err(
            PluginError::with_text(PluginErrorKind::UnsupportedEngine, "shell scripts are disabled"),
        ),
        Engine::Unsupported => Err(
            PluginError::new(PluginErrorKind::UnsupportedEngine, String::from_str(engine)),
        ),
    }
}

/// What `String::from_utf8_lossy` makes of a byte sequence.
pub uninterp spec fn lossy_utf8_of(b: Seq<u8>) -> Seq<char>;

/// Relies on String::from_utf8_lossy: decodes the bytes, replacing invalid sequences,
/// so that the result depends on the bytes alone; no bytes give an empty string.
#[verifier::external_body]
fn utf8_lossy(b: &Vec<u8>) -> (r: String)
    ensures
        r@ == lossy_utf8_of(b@),
        b@.len() == 0 ==> r@.len() == 0,
{
    String::from_utf8_lossy(b.as_slice()).to_string()
}

/// What a finished interpreter process gave: whether it exited successfully, and its
/// standard output.
#[derive(Debug)]
pub struct ProcessOutput {
    pub success: bool,
    pub stdout: Vec<u8>,
}

/// The message of the error for an interpreter that exited abnormally.
pub open spec fn abnormal_exit() -> Seq<char> {
    "interpreter exited abnormally"@
}

/// Turns the outcome of running an interpreter into the script's result: its standard output
/// decoded as UTF-8 when it exited successfully; an execution error when it exited abnormally,
/// or carrying the reason the process could not run.
pub fn collect_output(outcome: Result<ProcessOutput, String>) -> (r: Result<String, PluginError>)
    ensures
        outcome is Ok && outcome->Ok_0.success ==> r.is_ok() && r.unwrap()@ == lossy_utf8_of(
            outcome->Ok_0.stdout@,
        ),
        outcome is Ok && !outcome->Ok_0.success ==> r.is_err() && r->Err_0.kind
            == PluginErrorKind::Execution && r->Err_0.message@ == abnormal_exit(),
        outcome.is_err() ==> r.is_err() && r->Err_0.kind == PluginErrorKind::Execution
            && r->Err_0.message@ == outcome->Err_0@,
{
    match outcome {
        Ok(o) => if o.success {
            Ok(utf8_lossy(&o.stdout))
        } else {
            Err(
                PluginError::with_text(
                    PluginErrorKind::Execution,
                    "interpreter exited abnormally",
                ),
            )
        },
        Err(reason) => Err(PluginError::new(PluginErrorKind::Execution, reason)),
    }
}

} // verus!
