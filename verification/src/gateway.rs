//! The external tool gateway: the exact argument list of each tool operation,
//! and the interpretation of raw subprocess output into typed results or a
//! typed failure. The subprocess itself runs outside the library and hands
//! back its exit outcome and captured standard output.
use vstd::prelude::*;
use vstd::utf8::valid_utf8;
use crate::HelmError;
use crate::resource::{RenderedResource, normalize, normalized};
use crate::yaml::{decode_utf8, parse_documents, documents_of};

verus! {

/// The argument list that fetches a chart: pull and unpack it into a
/// destination directory.
pub fn pull_args(chart: &str, destination: &str) -> (r: Vec<String>)
    ensures
        r@.map_values(|s: String| s@) == seq![
            "pull"@,
            chart@,
            "--untar"@,
            "--destination"@,
            destination@,
        ],
{
    let mut args: Vec<String> = Vec::new();
    args.push("pull".to_owned());
    args.push(chart.to_owned());
    args.push("--untar".to_owned());
    args.push("--destination".to_owned());
    args.push(destination.to_owned());
    proof {
        assert(args@.map_values(|s: String| s@) =~= seq![
            "pull"@,
            chart@,
            "--untar"@,
            "--destination"@,
            destination@,
        ]);
    }
    args
}

/// The argument list that renders a chart under a release name, reading the
/// values from a file.
pub fn template_args(name: &str, chart: &str, values_path: &str) -> (r: Vec<String>)
    ensures
        r@.map_values(|s: String| s@) == seq!["template"@, name@, chart@, "-f"@, values_path@],
{
    let mut args: Vec<String> = Vec::new();
    args.push("template".to_owned());
    args.push(name.to_owned());
    args.push(chart.to_owned());
    args.push("-f".to_owned());
    args.push(values_path.to_owned());
    proof {
        assert(args@.map_values(|s: String| s@) =~= seq![
            "template"@,
            name@,
            chart@,
            "-f"@,
            values_path@,
        ]);
    }
    args
}

/// The argument list that asks for the configured repositories in structured
/// output.
pub fn repo_list_args() -> (r: Vec<String>)
    ensures
        r@.map_values(|s: String| s@) == seq!["repo"@, "list"@, "-o"@, "yaml"@],
{
    let mut args: Vec<String> = Vec::new();
    args.push("repo".to_owned());
    args.push("list".to_owned());
    args.push("-o".to_owned());
    args.push("yaml".to_owned());
    proof {
        assert(args@.map_values(|s: String| s@) =~= seq!["repo"@, "list"@, "-o"@, "yaml"@]);
    }
    args
}

/// The argument list that searches a repository, with an optional filter term
/// appended as one extra argument.
pub fn search_repo_args(repo: &str, query: Option<&str>) -> (r: Vec<String>)
    ensures
        query is None ==> r@.map_values(|s: String| s@) == seq![
            "search"@,
            "repo"@,
            repo@,
            "-o"@,
            "yaml"@,
        ],
        query is Some ==> r@.map_values(|s: String| s@) == seq![
            "search"@,
            "repo"@,
            repo@,
            "-o"@,
            "yaml"@,
        ].push(query->Some_0@),
{
    let mut args: Vec<String> = Vec::new();
    args.push("search".to_owned());
    args.push("repo".to_owned());
    args.push(repo.to_owned());
    args.push("-o".to_owned());
    args.push("yaml".to_owned());
    proof {
        assert(args@.map_values(|s: String| s@) =~= seq![
            "search"@,
            "repo"@,
            repo@,
            "-o"@,
            "yaml"@,
        ]);
    }
    let ghost base = args@;
    match query {
        Some(q) => {
            args.push(q.to_owned());
            proof {
                assert(args@.map_values(|s: String| s@) =~= base.map_values(
                    |s: String| s@,
                ).push(q@));
            }
            args
        },
        None => args,
    }
}

/// Interprets one fetch call: it succeeds exactly where the subprocess ran
/// and exited zero; no tool-specific detail is surfaced.
pub fn pull_outcome(ran_and_exited_zero: bool) -> (r: Result<(), HelmError>)
    ensures
        r is Ok <==> ran_and_exited_zero,
        r is Err ==> r->Err_0 == HelmError::ToolInvocation,
{
    if ran_and_exited_zero {
        Ok(())
    } else {
        Err(HelmError::ToolInvocation)
    }
}

/// Interprets one render call: the subprocess must have run and exited zero,
/// its standard output must decode as UTF-8 and parse as a stream of mapping
/// documents, and the documents come back normalized — projected and sorted
/// by kind. One malformed document fails the whole call.
pub fn render_output(ran_and_exited_zero: bool, stdout: Vec<u8>) -> (r: Result<
    Vec<RenderedResource>,
    HelmError,
>)
    ensures
        !ran_and_exited_zero ==> r is Err && r->Err_0 == HelmError::ToolInvocation,
        ran_and_exited_zero && !valid_utf8(stdout@) ==> r is Err && r->Err_0
            == HelmError::InvalidUtf8,
        ran_and_exited_zero && valid_utf8(stdout@) && documents_of(
            vstd::utf8::decode_utf8(stdout@),
        ) is None ==> r is Err && r->Err_0 == HelmError::YamlParse,
        ran_and_exited_zero && valid_utf8(stdout@) && documents_of(
            vstd::utf8::decode_utf8(stdout@),
        ) is Some ==> r is Ok && r->Ok_0@.map_values(|x: RenderedResource| x@) == normalized(
            documents_of(vstd::utf8::decode_utf8(stdout@))->Some_0,
        ),
{
    if !ran_and_exited_zero {
        return Err(HelmError::ToolInvocation);
    }
    let text = match decode_utf8(stdout) {
        Some(t) => t,
        None => {
            return Err(HelmError::InvalidUtf8);
        },
    };
    match parse_documents(text.as_str()) {
        Ok(docs) => Ok(normalize(docs)),
        Err(_) => Err(HelmError::YamlParse),
    }
}

} // verus!
