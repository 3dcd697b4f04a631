//! The outside programs that packaging runs, each with its arguments. The
//! crate names them; running them is the caller's part.

use vstd::prelude::*;
use vstd::string::*;

verus! {

/// One run of an outside program.
#[derive(Debug, Clone, PartialEq, Eq)]
pub struct Invocation {
    pub program: String,
    pub arguments: Vec<String>,
}

/// What an [`Invocation`] stands for.
pub struct InvocationView {
    pub program: Seq<char>,
    pub arguments: Seq<Seq<char>>,
}

impl View for Invocation {
    type V = InvocationView;

    open spec fn view(&self) -> InvocationView {
        InvocationView {
            program: self.program@,
            arguments: self.arguments@.map_values(|a: String| a@),
        }
    }
}

/// The path of the project configuration that declares the compatibility
/// tag.
pub const PACKAGE_CONFIG_PATH: &'static str = "config/package_config.bzl";

/// The path of the configuration that declares the feature flags.
pub const USE_CONFIG_PATH: &'static str = "config/use_config.bzl";

/// The query for the name and the version of a target. A target that is
/// not rebuilt is queried without its configuration.
pub open spec fn attribute_query_of(target: Seq<char>, skip_build: bool) -> InvocationView {
    InvocationView {
        program: "buck2"@,
        arguments: seq![
            if skip_build {
                "uquery"@
            } else {
                "query"@
            },
            target,
            "--output-attribute"@,
            "name"@,
            "--output-attribute"@,
            "version"@,
            "--json"@,
        ],
    }
}

/// The query for the names of everything a target depends on.
pub open spec fn dependency_query_of(target: Seq<char>) -> InvocationView {
    InvocationView {
        program: "buck2"@,
        arguments: seq!["query"@, "deps("@ + target + ")"@, "--output-attribute"@, "name"@],
    }
}

/// The build of a target; with `show_output` it reports where the output
/// lies.
pub open spec fn build_command_of(target: Seq<char>, show_output: bool) -> InvocationView {
    InvocationView {
        program: "buck2"@,
        arguments: if show_output {
            seq!["build"@, target, "--show-output"@]
        } else {
            seq!["build"@, target]
        },
    }
}

/// The question to the operating system for the machine's architecture.
pub open spec fn platform_query_of() -> InvocationView {
    InvocationView { program: "uname"@, arguments: seq!["-m"@] }
}

/// The question to the toolchain for its version.
pub open spec fn toolchain_query_of() -> InvocationView {
    InvocationView { program: "gcc"@, arguments: seq!["--version"@] }
}

/// The secure copy of `source` to a remote endpoint.
pub open spec fn transfer_command_of(source: Seq<char>, endpoint: Seq<char>) -> InvocationView {
    InvocationView { program: "scp"@, arguments: seq![source, endpoint] }
}

fn invocation(program: &str, arguments: Vec<String>) -> (out: Invocation)
    ensures
        out@.program == program@,
        out@.arguments == arguments@.map_values(|a: String| a@),
{
    Invocation { program: String::from_str(program), arguments }
}

/// Names the query for the name and the version of a target.
pub fn attribute_query(target: &str, skip_build: bool) -> (out: Invocation)
    ensures
        out@ == attribute_query_of(target@, skip_build),
{
    let mut arguments: Vec<String> = Vec::new();
    if skip_build {
        arguments.push(String::from_str("uquery"));
    } else {
        arguments.push(String::from_str("query"));
    }
    arguments.push(String::from_str(target));
    arguments.push(String::from_str("--output-attribute"));
    arguments.push(String::from_str("name"));
    arguments.push(String::from_str("--output-attribute"));
    arguments.push(String::from_str("version"));
    arguments.push(String::from_str("--json"));
    let out = invocation("buck2", arguments);
    assert(out@.arguments =~= attribute_query_of(target@, skip_build).arguments);
    out
}

/// Names the query for the dependencies of a target.
pub fn dependency_query(target: &str) -> (out: Invocation)
    ensures
        out@ == dependency_query_of(target@),
{
    let mut expression = String::from_str("deps(");
    expression.append(target);
    expression.append(")");
    let mut arguments: Vec<String> = Vec::new();
    arguments.push(String::from_str("query"));
    arguments.push(expression);
    arguments.push(String::from_str("--output-attribute"));
    arguments.push(String::from_str("name"));
    let out = invocation("buck2", arguments);
    assert(out@.arguments =~= dependency_query_of(target@).arguments);
    out
}

/// Names the build of a target.
pub fn build_command(target: &str, show_output: bool) -> (out: Invocation)
    ensures
        out@ == build_command_of(target@, show_output),
{
    let mut arguments: Vec<String> = Vec::new();
    arguments.push(String::from_str("build"));
    arguments.push(String::from_str(target));
    if show_output {
        arguments.push(String::from_str("--show-output"));
    }
    let out = invocation("buck2", arguments);
    assert(out@.arguments =~= build_command_of(target@, show_output).arguments);
    out
}

/// Names the question for the machine's architecture.
pub fn platform_query() -> (out: Invocation)
    ensures
        out@ == platform_query_of(),
{
    let mut arguments: Vec<String> = Vec::new();
    arguments.push(String::from_str("-m"));
    let out = invocation("uname", arguments);
    assert(out@.arguments =~= platform_query_of().arguments);
    out
}

/// Names the question for the toolchain's version.
pub fn toolchain_query() -> (out: Invocation)
    ensures
        out@ == toolchain_query_of(),
{
    let mut arguments: Vec<String> = Vec::new();
    arguments.push(String::from_str("--version"));
    let out = invocation("gcc", arguments);
    assert(out@.arguments =~= toolchain_query_of().arguments);
    out
}

/// Names the secure copy of `source` to `endpoint`.
pub fn transfer_command(source: &str, endpoint: &str) -> (out: Invocation)
    ensures
        out@ == transfer_command_of(source@, endpoint@),
{
    let mut arguments: Vec<String> = Vec::new();
    arguments.push(String::from_str(source));
    arguments.push(String::from_str(endpoint));
    let out = invocation("scp", arguments);
    assert(out@.arguments =~= transfer_command_of(source@, endpoint@).arguments);
    out
}

} // verus!
