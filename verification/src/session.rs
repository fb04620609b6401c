//! The chart session orchestrator: linear workflows that compose fetch,
//! render, normalization and template recovery. The session decides each next
//! step from the previous outcome; the caller performs the outside work (the
//! subprocess call, the temporary files, the directory walk) and hands the
//! outcome back. The first failure wins: the session fails with one error and
//! requests nothing further.
use vstd::prelude::*;
use vstd::string::*;
use vstd::utf8::valid_utf8;
use crate::HelmError;
use crate::gateway::{pull_args, template_args, render_output};
use crate::resource::{RenderedResource, normalized};
use crate::templates::{FsEntry, TemplateFile, recover_templates, recovered};
use crate::yaml::{mapping_of, yaml_text_of, documents_of, parse_values, values_to_yaml};

verus! {

/// Identifies a chart either by `repo/chart-name` in a remote repository or
/// by a local filesystem path, decided once at the boundary.
pub enum ChartReference {
    Remote { path: String },
    Local { path: String },
}

impl ChartReference {
    /// The chart path or repository-qualified name this reference carries.
    pub open spec fn spec_path(&self) -> Seq<char> {
        match self {
            ChartReference::Remote { path } => path@,
            ChartReference::Local { path } => path@,
        }
    }

    /// Builds the reference from the boundary's inputs.
    pub fn new(path: String, local: bool) -> (r: ChartReference)
        ensures
            r.spec_path() == path@,
            local <==> r is Local,
    {
        if local {
            ChartReference::Local { path }
        } else {
            ChartReference::Remote { path }
        }
    }

    /// Whether this chart lives on the local filesystem.
    pub fn is_local(&self) -> (r: bool)
        ensures
            r <==> *self is Local,
    {
        match self {
            ChartReference::Local { .. } => true,
            ChartReference::Remote { .. } => false,
        }
    }

    /// The carried path, for building tool arguments.
    pub fn path(&self) -> (r: &str)
        ensures
            r@ == self.spec_path(),
    {
        match self {
            ChartReference::Remote { path } => path.as_str(),
            ChartReference::Local { path } => path.as_str(),
        }
    }
}

/// The trailing path segment of a chart reference: everything after the last
/// `/`, or the whole reference where none occurs.
pub open spec fn base_name_of(s: Seq<char>) -> Seq<char>
    decreases s.len(),
{
    if s.len() == 0 {
        Seq::<char>::empty()
    } else if (s.last() as u32) == ('/' as u32) {
        Seq::<char>::empty()
    } else {
        base_name_of(s.drop_last()).push(s.last())
    }
}

/// The base name is the suffix that starts right after the last `/`.
proof fn lemma_base_name(s: Seq<char>, i: int)
    requires
        0 <= i <= s.len(),
        forall|j: int| i <= j < s.len() ==> (s[j] as u32) != ('/' as u32),
        i > 0 ==> (s[i - 1] as u32) == ('/' as u32),
    ensures
        base_name_of(s) == s.subrange(i, s.len() as int),
    decreases s.len(),
{
    if s.len() == 0 {
        assert(base_name_of(s) =~= s.subrange(0, 0));
    } else if i == s.len() {
        assert((s.last() as u32) == ('/' as u32));
        assert(base_name_of(s) =~= s.subrange(i, s.len() as int));
    } else {
        assert((s[s.len() - 1] as u32) != ('/' as u32));
        lemma_base_name(s.drop_last(), i);
        assert(base_name_of(s.drop_last()).push(s.last()) =~= s.subrange(i, s.len() as int));
    }
}

/// The trailing path segment of a chart reference, used to name the unpacked
/// chart subdirectory after a fetch.
pub fn chart_base_name(chart: &str) -> (r: String)
    ensures
        r@ == base_name_of(chart@),
{
    let len = chart.unicode_len();
    let mut i: usize = len;
    while i > 0 && (chart.get_char(i - 1) as u32) != ('/' as u32)
        invariant
            i <= len,
            len == chart@.len(),
            forall|j: int| i <= j < len ==> (chart@[j] as u32) != ('/' as u32),
        decreases i,
    {
        i = i - 1;
    }
    proof {
        lemma_base_name(chart@, i as int);
    }
    let tail = chart.substring_char(i, len);
    tail.to_owned()
}

/// Where a workflow stands: which outcome it awaits next, or how it ended.
#[derive(Debug, Clone, Copy, PartialEq, Eq, Structural)]
pub enum SessionPhase {
    AwaitingFetch,
    AwaitingRender,
    AwaitingTemplates,
    Complete,
    Failed,
}

/// The remote-chart workflow: fetch into a scoped destination, render with
/// the values, normalize, then recover the unpacked chart's templates.
pub struct RemoteSession {
    pub chart: String,
    pub release: String,
    pub values: serde_yaml::Mapping,
    pub destination: String,
    pub phase: SessionPhase,
    pub resources: Vec<RenderedResource>,
    pub templates: Vec<TemplateFile>,
    pub error: Option<HelmError>,
}

impl RemoteSession {
    /// Opens the workflow: the values text must parse as a mapping and the
    /// caller must supply a representable destination directory. Returns the
    /// session awaiting the fetch outcome, and the fetch argument list.
    pub fn start(chart: String, release: String, values_text: &str, destination: Option<String>)
        -> (r: Result<(RemoteSession, Vec<String>), HelmError>)
        ensures
            destination is None ==> r is Err && r->Err_0 == HelmError::Config,
            destination is Some && mapping_of(values_text@) is None ==> r is Err && r->Err_0
                == HelmError::YamlParse,
            destination is Some && mapping_of(values_text@) is Some ==> r is Ok,
            r is Ok ==> {
                let (s, args) = r->Ok_0;
                &&& s.phase == SessionPhase::AwaitingFetch
                &&& s.chart == chart
                &&& s.release == release
                &&& s.values == mapping_of(values_text@)->Some_0
                &&& s.destination == destination->Some_0
                &&& s.error is None
                &&& args@.map_values(|a: String| a@) == seq![
                    "pull"@,
                    chart@,
                    "--untar"@,
                    "--destination"@,
                    destination->Some_0@,
                ]
            },
    {
        let dest = match destination {
            Some(d) => d,
            None => {
                return Err(HelmError::Config);
            },
        };
        let values = match parse_values(values_text) {
            Ok(m) => m,
            Err(e) => {
                return Err(e);
            },
        };
        let args = pull_args(chart.as_str(), dest.as_str());
        let session = RemoteSession {
            chart,
            release,
            values,
            destination: dest,
            phase: SessionPhase::AwaitingFetch,
            resources: Vec::new(),
            templates: Vec::new(),
            error: None,
        };
        Ok((session, args))
    }

    /// Applies the fetch outcome. After a failed fetch the session fails with
    /// `ToolInvocation` and requests nothing: the render and the template
    /// recovery never run. After a successful fetch it returns the render
    /// argument list and the serialized values text the caller must place at
    /// `values_path` before running the render.
    pub fn on_fetch(&mut self, fetch_ok: bool, values_path: Option<&str>) -> (r: Option<
        (Vec<String>, String),
    >)
        requires
            old(self).phase == SessionPhase::AwaitingFetch,
        ensures
            !fetch_ok ==> r is None && final(self).phase == SessionPhase::Failed && final(self).error == Some(HelmError::ToolInvocation),
            fetch_ok && values_path is None ==> r is None && final(self).phase
                == SessionPhase::Failed && final(self).error == Some(HelmError::Io),
            fetch_ok && values_path is Some && yaml_text_of(old(self).values) is None ==> r
                is None && final(self).phase == SessionPhase::Failed && final(self).error == Some(
                HelmError::YamlParse,
            ),
            fetch_ok && values_path is Some && yaml_text_of(old(self).values) is Some ==> r
                is Some && final(self).phase == SessionPhase::AwaitingRender && final(self).error
                is None && r->Some_0.0@.map_values(|a: String| a@) == seq![
                "template"@,
                old(self).release@,
                old(self).chart@,
                "-f"@,
                values_path->Some_0@,
            ] && r->Some_0.1@ == yaml_text_of(old(self).values)->Some_0,
            final(self).chart == old(self).chart,
            final(self).release == old(self).release,
            final(self).values == old(self).values,
            final(self).destination == old(self).destination,
            final(self).resources == old(self).resources,
            final(self).templates == old(self).templates,
    {
        if !fetch_ok {
            self.phase = SessionPhase::Failed;
            self.error = Some(HelmError::ToolInvocation);
            return None;
        }
        let path = match values_path {
            Some(p) => p,
            None => {
                self.phase = SessionPhase::Failed;
                self.error = Some(HelmError::Io);
                return None;
            },
        };
        let text = match values_to_yaml(&self.values) {
            Ok(t) => t,
            Err(_) => {
                self.phase = SessionPhase::Failed;
                self.error = Some(HelmError::YamlParse);
                return None;
            },
        };
        let args = template_args(self.release.as_str(), self.chart.as_str(), path);
        self.phase = SessionPhase::AwaitingRender;
        self.error = None;
        Some((args, text))
    }

    /// Applies the render outcome: the subprocess exit and its captured
    /// standard output. On success the resources are normalized and the
    /// session asks the caller to walk the unpacked chart's `templates`
    /// directory, named by the trailing segment of the chart reference.
    pub fn on_render(&mut self, ran_and_exited_zero: bool, stdout: Vec<u8>) -> (r: Option<String>)
        requires
            old(self).phase == SessionPhase::AwaitingRender,
        ensures
            !ran_and_exited_zero ==> r is None && final(self).phase == SessionPhase::Failed
                && final(self).error == Some(HelmError::ToolInvocation),
            ran_and_exited_zero && !valid_utf8(stdout@) ==> r is None && final(self).phase
                == SessionPhase::Failed && final(self).error == Some(HelmError::InvalidUtf8),
            ran_and_exited_zero && valid_utf8(stdout@) && documents_of(
                vstd::utf8::decode_utf8(stdout@),
            ) is None ==> r is None && final(self).phase == SessionPhase::Failed && final(self).error == Some(HelmError::YamlParse),
            ran_and_exited_zero && valid_utf8(stdout@) && documents_of(
                vstd::utf8::decode_utf8(stdout@),
            ) is Some ==> r is Some && final(self).phase == SessionPhase::AwaitingTemplates
                && final(self).error is None && final(self).resources@.map_values(
                |x: RenderedResource| x@,
            ) == normalized(documents_of(vstd::utf8::decode_utf8(stdout@))->Some_0) && r->Some_0@ == old(self).destination@ + "/"@ + base_name_of(old(self).chart@) + "/templates"@,
            final(self).chart == old(self).chart,
            final(self).release == old(self).release,
            final(self).values == old(self).values,
            final(self).destination == old(self).destination,
            final(self).templates == old(self).templates,
    {
        match render_output(ran_and_exited_zero, stdout) {
            Ok(resources) => {
                self.resources = resources;
                self.phase = SessionPhase::AwaitingTemplates;
                self.error = None;
                let base = chart_base_name(self.chart.as_str());
                let dir = self.destination.clone().concat("/").concat(base.as_str()).concat(
                    "/templates",
                );
                Some(dir)
            },
            Err(e) => {
                self.phase = SessionPhase::Failed;
                self.error = Some(e);
                None
            },
        }
    }

    /// Applies the walk outcome: the entries found under the templates
    /// directory, or nothing where the tree could not be read. On success the
    /// session completes with the recovered template files.
    pub fn on_templates(&mut self, entries: Option<Vec<FsEntry>>)
        requires
            old(self).phase == SessionPhase::AwaitingTemplates,
        ensures
            entries is None ==> final(self).phase == SessionPhase::Failed && final(self).error
                == Some(HelmError::Io) && final(self).templates == old(self).templates,
            entries is Some ==> final(self).phase == SessionPhase::Complete && final(self).error
                is None && final(self).templates@.map_values(|t: TemplateFile| t@) == recovered(
                entries->Some_0@.map_values(|e: FsEntry| e@),
            ),
            final(self).chart == old(self).chart,
            final(self).release == old(self).release,
            final(self).values == old(self).values,
            final(self).destination == old(self).destination,
            final(self).resources == old(self).resources,
    {
        match entries {
            Some(es) => {
                self.templates = recover_templates(es);
                self.phase = SessionPhase::Complete;
                self.error = None;
            },
            None => {
                self.phase = SessionPhase::Failed;
                self.error = Some(HelmError::Io);
            },
        }
    }
}

/// The local-chart workflow: render the chart at a filesystem path, normalize,
/// then recover the templates directly under that path. No fetch stage.
pub struct LocalSession {
    pub chart_path: String,
    pub release: String,
    pub values: serde_yaml::Mapping,
    pub phase: SessionPhase,
    pub resources: Vec<RenderedResource>,
    pub templates: Vec<TemplateFile>,
    pub error: Option<HelmError>,
}

impl LocalSession {
    /// Opens the workflow: the values text must parse as a mapping, the
    /// caller must supply a representable values-file path, and the values
    /// must serialize. Returns the session awaiting the render outcome, the
    /// render argument list, and the serialized values text the caller must
    /// place at `values_path` before running the render.
    pub fn start(chart_path: String, release: String, values_text: &str, values_path: Option<&str>)
        -> (r: Result<(LocalSession, Vec<String>, String), HelmError>)
        ensures
            mapping_of(values_text@) is None ==> r is Err && r->Err_0 == HelmError::YamlParse,
            mapping_of(values_text@) is Some && values_path is None ==> r is Err && r->Err_0
                == HelmError::Io,
            mapping_of(values_text@) is Some && values_path is Some && yaml_text_of(
                mapping_of(values_text@)->Some_0,
            ) is None ==> r is Err && r->Err_0 == HelmError::YamlParse,
            mapping_of(values_text@) is Some && values_path is Some && yaml_text_of(
                mapping_of(values_text@)->Some_0,
            ) is Some ==> r is Ok,
            r is Ok ==> {
                let (s, args, text) = r->Ok_0;
                &&& mapping_of(values_text@) is Some
                &&& values_path is Some
                &&& s.phase == SessionPhase::AwaitingRender
                &&& s.chart_path == chart_path
                &&& s.release == release
                &&& s.values == mapping_of(values_text@)->Some_0
                &&& s.error is None
                &&& args@.map_values(|a: String| a@) == seq![
                    "template"@,
                    release@,
                    chart_path@,
                    "-f"@,
                    values_path->Some_0@,
                ]
                &&& text@ == yaml_text_of(mapping_of(values_text@)->Some_0)->Some_0
            },
    {
        let values = match parse_values(values_text) {
            Ok(m) => m,
            Err(e) => {
                return Err(e);
            },
        };
        let path = match values_path {
            Some(p) => p,
            None => {
                return Err(HelmError::Io);
            },
        };
        let text = match values_to_yaml(&values) {
            Ok(t) => t,
            Err(e) => {
                return Err(e);
            },
        };
        let args = template_args(release.as_str(), chart_path.as_str(), path);
        let session = LocalSession {
            chart_path,
            release,
            values,
            phase: SessionPhase::AwaitingRender,
            resources: Vec::new(),
            templates: Vec::new(),
            error: None,
        };
        Ok((session, args, text))
    }

    /// Applies the render outcome. On success the resources are normalized
    /// and the session asks the caller to walk the `templates` directory
    /// under the chart path.
    pub fn on_render(&mut self, ran_and_exited_zero: bool, stdout: Vec<u8>) -> (r: Option<String>)
        requires
            old(self).phase == SessionPhase::AwaitingRender,
        ensures
            !ran_and_exited_zero ==> r is None && final(self).phase == SessionPhase::Failed
                && final(self).error == Some(HelmError::ToolInvocation),
            ran_and_exited_zero && !valid_utf8(stdout@) ==> r is None && final(self).phase
                == SessionPhase::Failed && final(self).error == Some(HelmError::InvalidUtf8),
            ran_and_exited_zero && valid_utf8(stdout@) && documents_of(
                vstd::utf8::decode_utf8(stdout@),
            ) is None ==> r is None && final(self).phase == SessionPhase::Failed && final(self).error == Some(HelmError::YamlParse),
            ran_and_exited_zero && valid_utf8(stdout@) && documents_of(
                vstd::utf8::decode_utf8(stdout@),
            ) is Some ==> r is Some && final(self).phase == SessionPhase::AwaitingTemplates
                && final(self).error is None && final(self).resources@.map_values(
                |x: RenderedResource| x@,
            ) == normalized(documents_of(vstd::utf8::decode_utf8(stdout@))->Some_0) && r->Some_0@ == old(self).chart_path@ + "/templates"@,
            final(self).chart_path == old(self).chart_path,
            final(self).release == old(self).release,
            final(self).values == old(self).values,
            final(self).templates == old(self).templates,
    {
        match render_output(ran_and_exited_zero, stdout) {
            Ok(resources) => {
                self.resources = resources;
                self.phase = SessionPhase::AwaitingTemplates;
                self.error = None;
                let dir = self.chart_path.clone().concat("/templates");
                Some(dir)
            },
            Err(e) => {
                self.phase = SessionPhase::Failed;
                self.error = Some(e);
                None
            },
        }
    }

    /// Applies the walk outcome, as in the remote workflow.
    pub fn on_templates(&mut self, entries: Option<Vec<FsEntry>>)
        requires
            old(self).phase == SessionPhase::AwaitingTemplates,
        ensures
            entries is None ==> final(self).phase == SessionPhase::Failed && final(self).error
                == Some(HelmError::Io) && final(self).templates == old(self).templates,
            entries is Some ==> final(self).phase == SessionPhase::Complete && final(self).error
                is None && final(self).templates@.map_values(|t: TemplateFile| t@) == recovered(
                entries->Some_0@.map_values(|e: FsEntry| e@),
            ),
            final(self).chart_path == old(self).chart_path,
            final(self).release == old(self).release,
            final(self).values == old(self).values,
            final(self).resources == old(self).resources,
    {
        match entries {
            Some(es) => {
                self.templates = recover_templates(es);
                self.phase = SessionPhase::Complete;
                self.error = None;
            },
            None => {
                self.phase = SessionPhase::Failed;
                self.error = Some(HelmError::Io);
            },
        }
    }
}

} // verus!
