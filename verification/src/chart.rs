//! Chart summaries from a repository search: every entry must match the
//! summary shape — no per-entry tolerance here, unlike the repository
//! listing — and the result is sorted by chart name, ascending.
use vstd::prelude::*;
use crate::HelmError;
use crate::order::{
    SortKey, sort_by_key, sort_keyed, elem_key, lemma_map_values_extend, lemma_sort_keyed_map,
    sorted_keyed, lemma_sort_keyed_sorted,
};
use crate::yaml::{
    get_str_field, value_str_field, parse_value_sequence, value_sequence_of,
};

verus! {

/// One chart summary returned by a repository search.
#[derive(Debug, PartialEq, Eq)]
pub struct Chart {
    pub name: String,
    pub version: String,
    pub app_version: String,
    pub description: String,
}

/// The mathematical content of a chart summary.
pub ghost struct ChartModel {
    pub name: Seq<char>,
    pub version: Seq<char>,
    pub app_version: Seq<char>,
    pub description: Seq<char>,
}

impl View for Chart {
    type V = ChartModel;

    open spec fn view(&self) -> ChartModel {
        ChartModel {
            name: self.name@,
            version: self.version@,
            app_version: self.app_version@,
            description: self.description@,
        }
    }
}

impl SortKey for Chart {
    open spec fn skey(&self) -> Seq<char> {
        self.name@
    }

    fn key_str(&self) -> (r: &str) {
        self.name.as_str()
    }
}

/// The summary shape of one search entry, where the entry matches it: four
/// string fields.
pub open spec fn chart_model_of(v: serde_yaml::Value) -> Option<ChartModel> {
    if value_str_field(v, "name"@) is Some && value_str_field(v, "version"@) is Some
        && value_str_field(v, "app_version"@) is Some && value_str_field(
        v,
        "description"@,
    ) is Some {
        Some(
            ChartModel {
                name: value_str_field(v, "name"@)->Some_0,
                version: value_str_field(v, "version"@)->Some_0,
                app_version: value_str_field(v, "app_version"@)->Some_0,
                description: value_str_field(v, "description"@)->Some_0,
            },
        )
    } else {
        None
    }
}

/// Chart summaries sort by name.
pub open spec fn chart_key() -> spec_fn(ChartModel) -> Seq<char> {
    |c: ChartModel| c.name
}

/// The search result distilled from parsed entries, all matching the summary
/// shape: sorted by name, ascending.
pub open spec fn chart_listing(vals: Seq<serde_yaml::Value>) -> Seq<ChartModel> {
    sort_keyed(
        vals.map_values(|v: serde_yaml::Value| chart_model_of(v)->Some_0),
        chart_key(),
    )
}

/// Reads one search entry as a chart summary, where it matches the shape.
fn chart_from_value(v: &serde_yaml::Value) -> (r: Option<Chart>)
    ensures
        r is Some <==> chart_model_of(*v) is Some,
        r is Some ==> r->Some_0@ == chart_model_of(*v)->Some_0,
{
    let name = match get_str_field(v, "name") {
        Some(s) => s,
        None => {
            return None;
        },
    };
    let version = match get_str_field(v, "version") {
        Some(s) => s,
        None => {
            return None;
        },
    };
    let app_version = match get_str_field(v, "app_version") {
        Some(s) => s,
        None => {
            return None;
        },
    };
    let description = match get_str_field(v, "description") {
        Some(s) => s,
        None => {
            return None;
        },
    };
    Some(Chart { name, version, app_version, description })
}

/// Reads every search entry as a chart summary and sorts them by name. One
/// entry that does not match the shape fails the whole call.
pub fn search_charts(vals: &Vec<serde_yaml::Value>) -> (r: Result<Vec<Chart>, HelmError>)
    ensures
        r is Err ==> r->Err_0 == HelmError::YamlParse && (exists|i: int|
            0 <= i < vals@.len() && chart_model_of(vals@[i]) is None),
        r is Ok ==> (forall|i: int| 0 <= i < vals@.len() ==> chart_model_of(vals@[i]) is Some),
        r is Ok ==> r->Ok_0@.map_values(|c: Chart| c@) == chart_listing(vals@),
        r is Ok ==> sorted_keyed(r->Ok_0@.map_values(|c: Chart| c@), chart_key()),
{
    let ghost f = |c: Chart| c@;
    let ghost g = |v: serde_yaml::Value| chart_model_of(v)->Some_0;
    let mut charts: Vec<Chart> = Vec::new();
    let mut i: usize = 0;
    while i < vals.len()
        invariant
            f == (|c: Chart| c@),
            g == (|v: serde_yaml::Value| chart_model_of(v)->Some_0),
            i <= vals@.len(),
            forall|j: int| 0 <= j < i ==> chart_model_of(vals@[j]) is Some,
            charts@.map_values(f) == vals@.subrange(0, i as int).map_values(g),
        decreases vals@.len() - i,
    {
        let c = match chart_from_value(&vals[i]) {
            Some(c) => c,
            None => {
                return Err(HelmError::YamlParse);
            },
        };
        proof {
            assert(f(c) == g(vals@[i as int]));
            lemma_map_values_extend(charts@, c, f, vals@, i as int, g);
        }
        charts.push(c);
        i = i + 1;
    }
    proof {
        assert(vals@.subrange(0, vals@.len() as int) =~= vals@);
    }
    let ghost cseq = charts@;
    let res = sort_by_key(charts);
    proof {
        assert forall|t: Chart| #[trigger] chart_key()(f(t)) == elem_key::<Chart>()(t) by {}
        lemma_sort_keyed_map::<Chart, ChartModel>(cseq, f, elem_key::<Chart>(), chart_key());
        lemma_sort_keyed_sorted(cseq.map_values(f), chart_key());
    }
    Ok(res)
}

/// Interprets one repository-search call: the raw standard output of the
/// tool, parsed as a sequence of entries that must each match the summary
/// shape, sorted by name.
pub fn search_output(spawn_ok: bool, stdout: &[u8]) -> (r: Result<Vec<Chart>, HelmError>)
    ensures
        !spawn_ok ==> r is Err && r->Err_0 == HelmError::ToolInvocation,
        spawn_ok && value_sequence_of(stdout@) is None ==> r is Err && r->Err_0
            == HelmError::YamlParse,
        spawn_ok && value_sequence_of(stdout@) is Some && r is Err ==> r->Err_0
            == HelmError::YamlParse && (exists|i: int|
            0 <= i < value_sequence_of(stdout@)->Some_0.len() && chart_model_of(
                value_sequence_of(stdout@)->Some_0[i],
            ) is None),
        spawn_ok && r is Ok ==> value_sequence_of(stdout@) is Some
            && (forall|i: int|
                0 <= i < value_sequence_of(stdout@)->Some_0.len() ==> chart_model_of(
                    value_sequence_of(stdout@)->Some_0[i],
                ) is Some)
            && r->Ok_0@.map_values(|c: Chart| c@) == chart_listing(
            value_sequence_of(stdout@)->Some_0,
        ),
{
    if !spawn_ok {
        return Err(HelmError::ToolInvocation);
    }
    match parse_value_sequence(stdout) {
        Ok(vals) => search_charts(&vals),
        Err(_) => Err(HelmError::YamlParse),
    }
}

} // verus!
