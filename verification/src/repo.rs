//! The repository listing: each entry's `name` field with the literal
//! fallback `"unknown"` — a malformed entry never fails the listing — and the
//! result sorted lexicographically, ascending.
use vstd::prelude::*;
use crate::HelmError;
use crate::order::{
    SortKey, sort_by_key, sort_keyed, elem_key, lemma_map_values_extend, lemma_sort_keyed_map,
    sorted_keyed, lemma_sort_keyed_sorted,
};
use crate::yaml::{
    get_str_field, value_str_field, parse_value_sequence, value_sequence_of,
};

verus! {

impl SortKey for String {
    open spec fn skey(&self) -> Seq<char> {
        self@
    }

    fn key_str(&self) -> (r: &str) {
        self.as_str()
    }
}

/// The repository name of one listing entry: its `name` field, or the
/// fallback `"unknown"` where the field is absent or not a string.
pub open spec fn repo_name_of(v: serde_yaml::Value) -> Seq<char> {
    match value_str_field(v, "name"@) {
        Some(s) => s,
        None => "unknown"@,
    }
}

/// Plain strings sort as their own key.
pub open spec fn string_key() -> spec_fn(Seq<char>) -> Seq<char> {
    |s: Seq<char>| s
}

/// The listing distilled from parsed entries: each name with the fallback,
/// sorted ascending.
pub open spec fn repo_listing(vals: Seq<serde_yaml::Value>) -> Seq<Seq<char>> {
    sort_keyed(vals.map_values(|v: serde_yaml::Value| repo_name_of(v)), string_key())
}

/// Reads one entry's repository name, with the fallback.
fn entry_name(v: &serde_yaml::Value) -> (r: String)
    ensures
        r@ == repo_name_of(*v),
{
    match get_str_field(v, "name") {
        Some(s) => s,
        None => "unknown".to_owned(),
    }
}

/// Extracts and sorts the repository names of a listing. Duplicate or missing
/// names never fail the listing: missing ones become `"unknown"`.
pub fn repo_names(vals: &Vec<serde_yaml::Value>) -> (res: Vec<String>)
    ensures
        res@.map_values(|s: String| s@) == repo_listing(vals@),
        sorted_keyed(res@.map_values(|s: String| s@), string_key()),
{
    let ghost f = |s: String| s@;
    let ghost g = |v: serde_yaml::Value| repo_name_of(v);
    let mut names: Vec<String> = Vec::new();
    let mut i: usize = 0;
    while i < vals.len()
        invariant
            f == (|s: String| s@),
            g == (|v: serde_yaml::Value| repo_name_of(v)),
            i <= vals@.len(),
            names@.map_values(f) == vals@.subrange(0, i as int).map_values(g),
        decreases vals@.len() - i,
    {
        let n = entry_name(&vals[i]);
        proof {
            assert(f(n) == g(vals@[i as int]));
            lemma_map_values_extend(names@, n, f, vals@, i as int, g);
        }
        names.push(n);
        i = i + 1;
    }
    proof {
        assert(vals@.subrange(0, vals@.len() as int) =~= vals@);
    }
    let ghost nseq = names@;
    let res = sort_by_key(names);
    proof {
        assert forall|t: String| #[trigger] string_key()(f(t)) == elem_key::<String>()(t) by {}
        lemma_sort_keyed_map::<String, Seq<char>>(nseq, f, elem_key::<String>(), string_key());
        lemma_sort_keyed_sorted(nseq.map_values(f), string_key());
    }
    res
}

/// Interprets one repository-listing call: the raw standard output of the
/// tool, parsed as a sequence of entries and distilled into sorted names.
pub fn repo_list_output(spawn_ok: bool, stdout: &[u8]) -> (r: Result<Vec<String>, HelmError>)
    ensures
        !spawn_ok ==> r is Err && r->Err_0 == HelmError::ToolInvocation,
        spawn_ok && value_sequence_of(stdout@) is None ==> r is Err && r->Err_0
            == HelmError::YamlParse,
        spawn_ok && value_sequence_of(stdout@) is Some ==> r is Ok
            && r->Ok_0@.map_values(|s: String| s@) == repo_listing(
            value_sequence_of(stdout@)->Some_0,
        ),
{
    if !spawn_ok {
        return Err(HelmError::ToolInvocation);
    }
    match parse_value_sequence(stdout) {
        Ok(vals) => Ok(repo_names(&vals)),
        Err(_) => Err(HelmError::YamlParse),
    }
}

} // verus!
