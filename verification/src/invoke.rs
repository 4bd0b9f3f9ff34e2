//! The engine invocation protocol: which program to start, with which
//! environment variable, which positional arguments, and where the output
//! file will appear. Starting the subprocess itself is the unverified
//! caller's one job; everything it passes along is computed and pinned
//! here.

use vstd::prelude::*;
use vstd::string::StringExecFns;
use crate::candidates::views_of;
use crate::mode::spec_mode_extension;
use crate::mode::spec_mode_keyword;
use crate::mode::OutputMode;
use crate::resolve::ResolvedEnvironment;
use crate::workspace::ScratchWorkspace;

verus! {

/// The raw result of one engine subprocess, consumed once by extraction.
pub struct EngineOutcome {
    pub exit_success: bool,
    pub stdout: Vec<u8>,
    pub stderr: Vec<u8>,
}

/// The engine's positional arguments: input path, output prefix, the
/// language selector flag and value, the fixed resolution hint, and the
/// trailing mode keyword.
pub open spec fn spec_engine_args(
    input_path: Seq<char>,
    output_prefix: Seq<char>,
    language: Seq<char>,
    mode: OutputMode,
) -> Seq<Seq<char>> {
    seq![input_path, output_prefix, "-l"@, language, "--dpi"@, "300"@, spec_mode_keyword(mode)]
}

/// Builds the engine's argument list for one invocation.
pub fn engine_args(
    input_path: &str,
    output_prefix: &str,
    language: &str,
    mode: OutputMode,
) -> (r: Vec<String>)
    ensures
        views_of(r@) == spec_engine_args(input_path@, output_prefix@, language@, mode),
{
    let mut r: Vec<String> = Vec::new();
    r.push(input_path.to_owned());
    r.push(output_prefix.to_owned());
    r.push(String::from_str("-l"));
    r.push(language.to_owned());
    r.push(String::from_str("--dpi"));
    r.push(String::from_str("300"));
    r.push(mode.keyword());
    proof {
        assert(views_of(r@) =~= spec_engine_args(input_path@, output_prefix@, language@, mode));
    }
    r
}

/// The environment variable that carries the resolved data prefix to the
/// engine.
pub fn data_prefix_env_var() -> (r: String)
    ensures
        r@ == "TESSDATA_PREFIX"@,
{
    String::from_str("TESSDATA_PREFIX")
}

/// The file the engine writes in the given mode: the output prefix with
/// the mode's extension appended.
pub fn output_file_path(output_prefix: &str, mode: OutputMode) -> (r: String)
    ensures
        r@ == output_prefix@ + spec_mode_extension(mode),
{
    let mut s = output_prefix.to_owned();
    let ext = mode.extension();
    s.append(ext.as_str());
    s
}

/// Everything the caller needs to start the engine once: the program, the
/// one environment variable and its value, the argument list, and the file
/// the result must be read from afterwards.
pub struct InvocationPlan {
    pub program: String,
    pub env_var: String,
    pub env_value: String,
    pub args: Vec<String>,
    pub output_file: String,
}

/// Lays out one engine invocation from a resolved environment and a staged
/// workspace.
pub fn plan_invocation(
    env: &ResolvedEnvironment,
    ws: &ScratchWorkspace,
    mode: OutputMode,
) -> (r: InvocationPlan)
    ensures
        r.program@ == env.engine_path@,
        r.env_var@ == "TESSDATA_PREFIX"@,
        r.env_value@ == env.data_prefix@,
        views_of(r.args@) == spec_engine_args(ws.input_path@, ws.output_prefix@, env.language@, mode),
        r.output_file@ == ws.output_prefix@ + spec_mode_extension(mode),
{
    InvocationPlan {
        program: env.engine_path.clone(),
        env_var: data_prefix_env_var(),
        env_value: env.data_prefix.clone(),
        args: engine_args(
            ws.input_path.as_str(),
            ws.output_prefix.as_str(),
            env.language.as_str(),
            mode,
        ),
        output_file: output_file_path(ws.output_prefix.as_str(), mode),
    }
}

} // verus!
