//! Verified core of a Helm chart session: argument construction for the
//! external chart tool, normalization of its multi-document YAML output into
//! deterministically ordered resource records, recovery of on-disk template
//! files, and the session state machines that compose these steps.
use vstd::prelude::*;

pub mod chart;
pub mod gateway;
pub mod order;
pub mod repo;
pub mod resource;
pub mod session;
pub mod templates;
pub mod yaml;

verus! {

/// The failure kinds a chart session can surface.
///
/// `ToolInvocation`: the external tool could not be run or exited non-zero.
/// `InvalidUtf8`: the tool's output was not decodable as UTF-8.
/// `YamlParse`: the tool ran but its output did not have the expected shape.
/// `Io`: a temporary file or chart tree could not be accessed.
/// `Config`: a path argument is not representable for the tool call.
#[derive(Debug, Clone, Copy, PartialEq, Eq, Structural)]
pub enum HelmError {
    ToolInvocation,
    InvalidUtf8,
    YamlParse,
    Io,
    Config,
}

} // verus!
