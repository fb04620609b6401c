//! The manifest normalizer: projects each generic document from a render call
//! into a typed resource record with the `"Unknown"` default for missing
//! fields, and sorts the records by kind, ascending and stably.
use vstd::prelude::*;
use crate::order::{
    SortKey, sort_by_key, sort_keyed, elem_key, lemma_map_values_extend, lemma_sort_keyed_map,
    sorted_keyed, lemma_sort_keyed_sorted,
};
use crate::yaml::{
    mapping_field, value_field, value_as_str, mapping_field_of, value_field_of, value_str_of,
};

verus! {

/// One rendered manifest document: its resolved kind and name, and the full
/// original document, unmodified.
#[derive(Debug, PartialEq)]
pub struct RenderedResource {
    pub kind: String,
    pub name: String,
    pub contents: serde_yaml::Mapping,
}

/// The mathematical content of a rendered resource.
pub ghost struct ResourceModel {
    pub kind: Seq<char>,
    pub name: Seq<char>,
    pub contents: serde_yaml::Mapping,
}

impl View for RenderedResource {
    type V = ResourceModel;

    open spec fn view(&self) -> ResourceModel {
        ResourceModel { kind: self.kind@, name: self.name@, contents: self.contents }
    }
}

impl SortKey for RenderedResource {
    open spec fn skey(&self) -> Seq<char> {
        self.kind@
    }

    fn key_str(&self) -> (r: &str) {
        self.kind.as_str()
    }
}

/// The `kind` field of a document, where present as a string.
pub open spec fn doc_kind(m: serde_yaml::Mapping) -> Option<Seq<char>> {
    match mapping_field_of(m, "kind"@) {
        Some(v) => value_str_of(v),
        None => None,
    }
}

/// The `metadata.name` field of a document, where present as a string.
pub open spec fn doc_name(m: serde_yaml::Mapping) -> Option<Seq<char>> {
    match mapping_field_of(m, "metadata"@) {
        Some(meta) => match value_field_of(meta, "name"@) {
            Some(n) => value_str_of(n),
            None => None,
        },
        None => None,
    }
}

/// A missing or non-string field resolves to the fallback `"Unknown"`.
pub open spec fn or_unknown(o: Option<Seq<char>>) -> Seq<char> {
    match o {
        Some(s) => s,
        None => "Unknown"@,
    }
}

/// The projection of one generic document into a resource model.
pub open spec fn resource_model_of(m: serde_yaml::Mapping) -> ResourceModel {
    ResourceModel { kind: or_unknown(doc_kind(m)), name: or_unknown(doc_name(m)), contents: m }
}

/// The order of the normalized listing: by resolved kind.
pub open spec fn resource_key() -> spec_fn(ResourceModel) -> Seq<char> {
    |r: ResourceModel| r.kind
}

/// Law: the normalized listing of any render call is sorted by kind,
/// ascending.
pub proof fn lemma_normalized_sorted(docs: Seq<serde_yaml::Mapping>)
    ensures
        sorted_keyed(normalized(docs), resource_key()),
{
    lemma_sort_keyed_sorted(
        docs.map_values(|m: serde_yaml::Mapping| resource_model_of(m)),
        resource_key(),
    );
}

/// The full normalization of a render call's documents: each projected, then
/// stably sorted by kind, ascending, ties kept in stream order.
pub open spec fn normalized(docs: Seq<serde_yaml::Mapping>) -> Seq<ResourceModel> {
    sort_keyed(
        docs.map_values(|m: serde_yaml::Mapping| resource_model_of(m)),
        resource_key(),
    )
}

/// Projects one document, resolving `kind` and `metadata.name` with the
/// `"Unknown"` default. The projection never fails, whatever the document
/// holds.
pub fn project_document(m: serde_yaml::Mapping) -> (r: RenderedResource)
    ensures
        r@ == resource_model_of(m),
{
    let kind: String = match mapping_field(&m, "kind") {
        Some(v) => match value_as_str(v) {
            Some(s) => s.to_owned(),
            None => "Unknown".to_owned(),
        },
        None => "Unknown".to_owned(),
    };
    let name: String = match mapping_field(&m, "metadata") {
        Some(meta) => match value_field(meta, "name") {
            Some(n) => match value_as_str(n) {
                Some(s) => s.to_owned(),
                None => "Unknown".to_owned(),
            },
            None => "Unknown".to_owned(),
        },
        None => "Unknown".to_owned(),
    };
    RenderedResource { kind, name, contents: m }
}

/// Normalizes the documents of one render call: projection, then the stable
/// sort by kind. Tolerant of partial manifests: no input makes it fail.
pub fn normalize(docs: Vec<serde_yaml::Mapping>) -> (res: Vec<RenderedResource>)
    ensures
        res@.map_values(|r: RenderedResource| r@) == normalized(docs@),
        sorted_keyed(res@.map_values(|r: RenderedResource| r@), resource_key()),
{
    let ghost orig = docs@;
    let ghost f = |r: RenderedResource| r@;
    let ghost g = |m: serde_yaml::Mapping| resource_model_of(m);
    let mut rest = docs;
    let mut projected: Vec<RenderedResource> = Vec::new();
    while rest.len() > 0
        invariant
            f == (|r: RenderedResource| r@),
            g == (|m: serde_yaml::Mapping| resource_model_of(m)),
            rest@ == orig.skip(orig.len() - rest@.len()),
            rest@.len() <= orig.len(),
            projected@.map_values(f) == orig.subrange(
                0,
                orig.len() - rest@.len(),
            ).map_values(g),
        decreases rest.len(),
    {
        let ghost k = orig.len() - rest@.len();
        let m = rest.remove(0);
        assert(m == orig[k]);
        assert(rest@ =~= orig.skip(k + 1));
        let r = project_document(m);
        proof {
            assert(f(r) == g(orig[k]));
            lemma_map_values_extend(projected@, r, f, orig, k, g);
        }
        projected.push(r);
    }
    proof {
        assert(orig.subrange(0, orig.len() as int) =~= orig);
    }
    let ghost pseq = projected@;
    let res = sort_by_key(projected);
    proof {
        assert forall|t: RenderedResource| #[trigger] resource_key()(f(t))
            == elem_key::<RenderedResource>()(t) by {}
        lemma_sort_keyed_map::<RenderedResource, ResourceModel>(
            pseq,
            f,
            elem_key::<RenderedResource>(),
            resource_key(),
        );
        lemma_sort_keyed_sorted(pseq.map_values(f), resource_key());
    }
    res
}

} // verus!
