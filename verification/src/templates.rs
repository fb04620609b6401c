//! Template recovery: captures a chart's on-disk template files — regular
//! files named `.yaml` or `.yml` — as opaque (file name, text) pairs, without
//! interpretation, in traversal order.
use vstd::prelude::*;
use vstd::string::*;

verus! {

/// One on-disk chart template: its file name and raw text, uninterpreted.
#[derive(Debug, PartialEq, Eq)]
pub struct TemplateFile {
    pub file_name: String,
    pub contents: String,
}

/// The mathematical content of a template file.
pub ghost struct TemplateModel {
    pub file_name: Seq<char>,
    pub contents: Seq<char>,
}

impl View for TemplateFile {
    type V = TemplateModel;

    open spec fn view(&self) -> TemplateModel {
        TemplateModel { file_name: self.file_name@, contents: self.contents@ }
    }
}

/// One filesystem entry as the walk hands it over: its name, whether it is a
/// regular file, and its text (empty where the entry was not read).
#[derive(Debug, PartialEq, Eq)]
pub struct FsEntry {
    pub file_name: String,
    pub is_file: bool,
    pub contents: String,
}

/// The mathematical content of a walked entry.
pub ghost struct FsEntryModel {
    pub file_name: Seq<char>,
    pub is_file: bool,
    pub contents: Seq<char>,
}

impl View for FsEntry {
    type V = FsEntryModel;

    open spec fn view(&self) -> FsEntryModel {
        FsEntryModel {
            file_name: self.file_name@,
            is_file: self.is_file,
            contents: self.contents@,
        }
    }
}

/// `suf` is a suffix of `s`.
pub open spec fn has_suffix(s: Seq<char>, suf: Seq<char>) -> bool {
    s.len() >= suf.len() && s.skip(s.len() - suf.len()) == suf
}

/// A manifest-template file name: it ends in `.yaml` or `.yml`.
pub open spec fn is_template_name(name: Seq<char>) -> bool {
    has_suffix(name, ".yaml"@) || has_suffix(name, ".yml"@)
}

/// An entry that recovery retains: a regular file named as a template.
pub open spec fn is_template_entry(e: FsEntryModel) -> bool {
    e.is_file && is_template_name(e.file_name)
}

/// The templates recovered from walked entries, in traversal order: exactly
/// the retained entries, as (file name, text) pairs.
pub open spec fn recovered(es: Seq<FsEntryModel>) -> Seq<TemplateModel>
    decreases es.len(),
{
    if es.len() == 0 {
        Seq::<TemplateModel>::empty()
    } else {
        let rest = recovered(es.drop_last());
        if is_template_entry(es.last()) {
            rest.push(
                TemplateModel { file_name: es.last().file_name, contents: es.last().contents },
            )
        } else {
            rest
        }
    }
}

/// Decides whether `s` ends with `suf`.
pub fn str_has_suffix(s: &str, suf: &str) -> (r: bool)
    ensures
        r == has_suffix(s@, suf@),
{
    let slen = s.unicode_len();
    let flen = suf.unicode_len();
    if slen < flen {
        return false;
    }
    let mut i: usize = 0;
    while i < flen
        invariant
            slen == s@.len(),
            flen == suf@.len(),
            flen <= slen,
            i <= flen,
            forall|j: int| 0 <= j < i ==> s@[s@.len() - suf@.len() + j] == suf@[j],
        decreases flen - i,
    {
        let cs = s.get_char(slen - flen + i) as u32;
        let cf = suf.get_char(i) as u32;
        assert(s@.skip(s@.len() - suf@.len())[i as int] == s@[s@.len() - suf@.len() + i]);
        if cs != cf {
            return false;
        }
        i = i + 1;
    }
    assert(s@.skip(s@.len() - suf@.len()) =~= suf@);
    true
}

/// Decides whether a walked entry is one that recovery retains.
pub fn keeps_entry(file_name: &str, is_file: bool) -> (r: bool)
    ensures
        r == (is_file && is_template_name(file_name@)),
{
    is_file && (str_has_suffix(file_name, ".yaml") || str_has_suffix(file_name, ".yml"))
}

/// Captures the template files among walked entries, in traversal order. An
/// empty walk — a chart without a `templates` subdirectory — yields the empty
/// collection, not an error.
pub fn recover_templates(entries: Vec<FsEntry>) -> (res: Vec<TemplateFile>)
    ensures
        res@.map_values(|t: TemplateFile| t@) == recovered(
            entries@.map_values(|e: FsEntry| e@),
        ),
{
    let ghost f = |t: TemplateFile| t@;
    let ghost ms = entries@.map_values(|e: FsEntry| e@);
    let mut rest = entries;
    let mut res: Vec<TemplateFile> = Vec::new();
    let ghost orig = rest@;
    while rest.len() > 0
        invariant
            f == (|t: TemplateFile| t@),
            ms == orig.map_values(|e: FsEntry| e@),
            rest@ == orig.skip(orig.len() - rest@.len()),
            rest@.len() <= orig.len(),
            res@.map_values(f) == recovered(ms.subrange(0, orig.len() - rest@.len())),
        decreases rest.len(),
    {
        let ghost k = orig.len() - rest@.len();
        let e = rest.remove(0);
        assert(e == orig[k]);
        assert(rest@ =~= orig.skip(k + 1));
        proof {
            assert(ms.subrange(0, k + 1).drop_last() =~= ms.subrange(0, k));
            assert(ms.subrange(0, k + 1).last() == e@);
        }
        let keep = keeps_entry(e.file_name.as_str(), e.is_file);
        if keep {
            let ghost before = res@;
            res.push(TemplateFile { file_name: e.file_name, contents: e.contents });
            proof {
                assert(res@.map_values(f) =~= recovered(ms.subrange(0, k + 1))) by {
                    assert(res@ =~= before.push(res@.last()));
                }
            }
        }
        assert(res@.map_values(f) == recovered(ms.subrange(0, k + 1)));
    }
    proof {
        assert(ms.subrange(0, ms.len() as int) =~= ms);
    }
    res
}

} // verus!
