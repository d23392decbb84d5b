//! The page metadata: title, authors, date, description and summary, merged
//! from the document's own info and its embedded metadata node.
use unicode_segmentation::UnicodeSegmentation;
use vstd::prelude::*;
use vstd::string::*;

use crate::paths::{derive_sir_name, opt_view, output_stem};
use crate::CompileArgs;

verus! {

/// How many word-boundary segments of the description the summary keeps.
pub const SUMMARY_SEGMENTS: usize = 150;

/// Where the page loads its renderer module from, relative to the asset root.
pub open spec fn renderer_module_spec() -> Seq<char> {
    "internal/typst_ts_renderer_bg.wasm"@
}

/// Where the page loads its renderer module from, relative to the asset root.
pub fn renderer_module() -> (r: String)
    ensures
        r@ == renderer_module_spec(),
{
    String::from_str("internal/typst_ts_renderer_bg.wasm")
}

/// The pieces that `split_word_bounds` cuts a text into.
pub uninterp spec fn word_bounds_of(s: Seq<char>) -> Seq<Seq<char>>;

/// The pieces one after the other.
pub open spec fn concat_all(segs: Seq<Seq<char>>) -> Seq<char>
    decreases segs.len(),
{
    if segs.len() == 0 {
        Seq::empty()
    } else {
        concat_all(segs.drop_last()) + segs.last()
    }
}

/// The views of a list of strings.
pub open spec fn views(v: Seq<String>) -> Seq<Seq<char>> {
    v.map_values(|s: String| s@)
}

/// Relies on `UnicodeSegmentation::split_word_bounds`: the text cut at its
/// UAX#29 word boundaries, the pieces of which give the text back when
/// joined.
#[verifier::external_body]
fn split_word_bounds(s: &str) -> (r: Vec<String>)
    ensures
        views(r@) == word_bounds_of(s@),
        concat_all(views(r@)) == s@,
{
    s.split_word_bounds().map(|w| w.to_string()).collect()
}

/// The number of segments a summary keeps out of `len`.
pub open spec fn summary_len(len: nat) -> nat {
    if len < SUMMARY_SEGMENTS {
        len
    } else {
        SUMMARY_SEGMENTS as nat
    }
}

/// The summary of a text cut into `segs`: its leading segments, joined.
pub open spec fn summary_of(segs: Seq<Seq<char>>) -> Seq<char> {
    concat_all(segs.take(summary_len(segs.len()) as int))
}

/// Joining the first `k` pieces and then the rest gives all of them joined.
pub proof fn lemma_concat_split(segs: Seq<Seq<char>>, k: int)
    requires
        0 <= k <= segs.len(),
    ensures
        concat_all(segs) == concat_all(segs.take(k)) + concat_all(segs.skip(k)),
    decreases segs.len(),
{
    if k == segs.len() {
        assert(segs.take(k) =~= segs);
        assert(segs.skip(k) =~= Seq::<Seq<char>>::empty());
        assert(concat_all(segs.skip(k)) =~= Seq::<char>::empty());
    } else {
        let init = segs.drop_last();
        lemma_concat_split(init, k);
        assert(init.take(k) =~= segs.take(k));
        let rest = segs.skip(k);
        assert(rest.drop_last() =~= init.skip(k));
        assert(rest.last() == segs.last());
        assert(concat_all(segs) =~= concat_all(segs.take(k)) + concat_all(segs.skip(k)));
    }
}

/// A summary is a prefix of the text it summarises, made of the first
/// `min(150, n)` of the text's `n` word-boundary segments.
pub proof fn summary_is_prefix(segs: Seq<Seq<char>>)
    ensures
        summary_of(segs).is_prefix_of(concat_all(segs)),
        segs.take(summary_len(segs.len()) as int).len() == if segs.len() < 150 { segs.len() } else { 150 },
{
    let k = summary_len(segs.len()) as int;
    lemma_concat_split(segs, k);
    let a = concat_all(segs.take(k));
    assert(concat_all(segs).subrange(0, a.len() as int) =~= a);
}

/// Joins the first `n` strings of `segs`, or all of them when there are fewer.
pub fn join_leading_segments(segs: &Vec<String>, n: usize) -> (r: String)
    ensures
        r@ == concat_all(views(segs@).take(if segs@.len() < n { segs@.len() as int } else { n as int })),
{
    let m = if segs.len() < n { segs.len() } else { n };
    let mut r = String::new();
    let mut i: usize = 0;
    while i < m
        invariant
            m <= segs@.len(),
            i <= m,
            r@ == concat_all(views(segs@).take(i as int)),
        decreases m - i,
    {
        r.append(segs[i].as_str());
        proof {
            let t = views(segs@).take(i as int + 1);
            assert(t.drop_last() =~= views(segs@).take(i as int));
        }
        i += 1;
    }
    r
}

/// The summary of a description: its first 150 word-boundary segments,
/// joined. It is always a prefix of the description, and a description of
/// fewer segments is its own summary.
pub fn summarize(desc: &str) -> (r: String)
    ensures
        r@ == summary_of(word_bounds_of(desc@)),
        r@.is_prefix_of(desc@),
        word_bounds_of(desc@).len() < SUMMARY_SEGMENTS ==> r@ == desc@,
{
    let segs = split_word_bounds(desc);
    let r = join_leading_segments(&segs, SUMMARY_SEGMENTS);
    proof {
        summary_is_prefix(views(segs@));
        let w = views(segs@);
        assert(w.take(w.len() as int) =~= w);
    }
    r
}

/// The page date: the document's own date when it has a non-empty one, else
/// `today`.
pub open spec fn date_of(doc_date: Option<Seq<char>>, today: Seq<char>) -> Seq<char> {
    match doc_date {
        Some(d) => if d.len() > 0 {
            d
        } else {
            today
        },
        None => today,
    }
}

/// Picks the page date from the document's date and today's date.
pub fn resolve_date(doc_date: Option<String>, today: String) -> (r: String)
    ensures
        r@ == date_of(opt_view(doc_date), today@),
{
    match doc_date {
        Some(d) => if d.as_str().unicode_len() > 0 {
            d
        } else {
            today
        },
        None => today,
    }
}

/// Without a date of its own a document is dated by the day it is rendered
/// on, so renders on two different days differ; with a non-empty date of its
/// own, every render gives that date.
pub proof fn date_defaults(explicit: Seq<char>, day1: Seq<char>, day2: Seq<char>)
    ensures
        date_of(None, day1) == day1,
        date_of(None, day2) == day2,
        day1 != day2 ==> date_of(None, day1) != date_of(None, day2),
        explicit.len() > 0 ==> date_of(Some(explicit), day1) == explicit,
        explicit.len() > 0 ==> date_of(Some(explicit), day1) == date_of(Some(explicit), day2),
{
}

/// Relies on `chrono::Local::now`: today's date in the local time zone,
/// written as `NaiveDate` displays itself. Nothing is promised of its value.
#[verifier::external_body]
fn local_today() -> (r: String) {
    chrono::Local::now().date_naive().to_string()
}

} // verus!

verus! {

/// The document's own info fields, as the compiler reports them; the date is
/// already written out as text.
#[derive(Default, Debug, Clone)]
pub struct DocInfo {
    pub title: Option<String>,
    pub author: Vec<String>,
    pub date: Option<String>,
}

/// The metadata node embedded in the document, each field decoded on its
/// own (a field that fails to decode is left at its default). Title,
/// authors and summary give way to the document's info and the derived
/// summary; categories, tags and draft come from here alone.
#[derive(Default, Debug, Clone)]
pub struct EmbeddedMeta {
    pub title: Option<String>,
    pub author: Vec<String>,
    pub categories: Vec<String>,
    pub tags: Vec<String>,
    pub draft: Option<bool>,
    pub summary: String,
}

/// Everything the page template is rendered with.
#[derive(Default, Debug, Clone)]
pub struct MetadataRecord {
    pub title: String,
    pub author: Vec<String>,
    pub date: String,
    pub path_to_root: String,
    pub rel_data_path: String,
    pub renderer_module: String,
    pub description: String,
    pub summary: String,
    pub darkmode: String,
    pub categories: Vec<String>,
    pub tags: Vec<String>,
    pub draft: Option<bool>,
}

/// The title a document's info gives: its own, or the empty string.
pub open spec fn title_of(t: Option<String>) -> Seq<char> {
    match t {
        Some(s) => s@,
        None => Seq::empty(),
    }
}

/// `m` is the record made from these inputs, dated `date`.
pub open spec fn record_spec(
    m: MetadataRecord,
    embedded: EmbeddedMeta,
    info: DocInfo,
    path_to_root: Seq<char>,
    rel_data_path: Seq<char>,
    description: Seq<char>,
    darkmode: Seq<char>,
    date: Seq<char>,
) -> bool {
    &&& m.title@ == title_of(info.title)
    &&& views(m.author@) == views(info.author@)
    &&& m.date@ == date
    &&& m.path_to_root@ == path_to_root
    &&& m.rel_data_path@ == rel_data_path
    &&& m.renderer_module@ == renderer_module_spec()
    &&& m.description@ == description
    &&& m.summary@ == summary_of(word_bounds_of(description))
    &&& m.summary@.is_prefix_of(description)
    &&& word_bounds_of(description).len() < SUMMARY_SEGMENTS ==> m.summary@ == description
    &&& m.darkmode@ == darkmode
    &&& views(m.categories@) == views(embedded.categories@)
    &&& views(m.tags@) == views(embedded.tags@)
    &&& m.draft == embedded.draft
}

/// A copy of a list of strings.
pub fn copy_strings(v: &Vec<String>) -> (r: Vec<String>)
    ensures
        views(r@) == views(v@),
{
    let mut r: Vec<String> = Vec::new();
    let mut i: usize = 0;
    while i < v.len()
        invariant
            i <= v@.len(),
            r@.len() == i,
            forall|k: int| 0 <= k < i ==> (#[trigger] r@[k])@ == v@[k]@,
        decreases v@.len() - i,
    {
        let s = v[i].clone();
        r.push(s);
        i += 1;
    }
    assert(views(r@) =~= views(v@));
    r
}

/// Builds the record for one revision, dated by `today` when the document
/// has no non-empty date of its own.
pub fn build_metadata(
    embedded: &EmbeddedMeta,
    info: &DocInfo,
    path_to_root: &str,
    rel_data_path: &str,
    description: &str,
    darkmode: &str,
    today: String,
) -> (r: MetadataRecord)
    ensures
        record_spec(
            r,
            *embedded,
            *info,
            path_to_root@,
            rel_data_path@,
            description@,
            darkmode@,
            date_of(opt_view(info.date), today@),
        ),
{
    let title = match &info.title {
        Some(t) => t.clone(),
        None => String::new(),
    };
    MetadataRecord {
        title,
        author: copy_strings(&info.author),
        date: resolve_date(info.date.clone(), today),
        path_to_root: String::from_str(path_to_root),
        rel_data_path: String::from_str(rel_data_path),
        renderer_module: renderer_module(),
        description: String::from_str(description),
        summary: summarize(description),
        darkmode: String::from_str(darkmode),
        categories: copy_strings(&embedded.categories),
        tags: copy_strings(&embedded.tags),
        draft: embedded.draft,
    }
}

/// Builds the record for one revision of the entry in `args`, dated now
/// unless the document has a non-empty date of its own. `None` when no
/// data path can be derived (see `derive_sir_name`).
pub fn extract_metadata(
    embedded: &EmbeddedMeta,
    info: &DocInfo,
    args: &CompileArgs,
    asset_dir_is_dir: bool,
    description: &str,
    darkmode: &str,
) -> (r: Option<MetadataRecord>)
    ensures
        r is None <==> output_stem(args.entry@, args.asset_dir@, asset_dir_is_dir) is None,
        r matches Some(m) ==> {
            &&& record_spec(
                m,
                *embedded,
                *info,
                args.path_to_root@,
                output_stem(args.entry@, args.asset_dir@, asset_dir_is_dir)->Some_0,
                description@,
                darkmode@,
                m.date@,
            )
            &&& info.date matches Some(d) ==> (d@.len() > 0 ==> m.date@ == d@)
        },
{
    match derive_sir_name(args, asset_dir_is_dir) {
        None => None,
        Some(rel) => {
            let today = local_today();
            Some(
                build_metadata(
                    embedded,
                    info,
                    args.path_to_root.as_str(),
                    rel.as_str(),
                    description,
                    darkmode,
                    today,
                ),
            )
        },
    }
}

} // verus!

verus! {

/// A value of the embedded metadata node, as far as decoding looks at it.
#[derive(Debug, Clone)]
pub enum MetaValue {
    /// The field is not there.
    Absent,
    Null,
    Bool(bool),
    Str(String),
    List(Vec<MetaItem>),
    /// A number or an object.
    Other,
}

/// An item of a list in the embedded metadata node.
#[derive(Debug, Clone)]
pub enum MetaItem {
    Str(String),
    /// Anything but a string.
    NotStr,
}

/// The fields of the embedded metadata node, undecoded.
#[derive(Debug, Clone)]
pub struct RawMeta {
    pub title: MetaValue,
    pub author: MetaValue,
    pub categories: MetaValue,
    pub tags: MetaValue,
    pub draft: MetaValue,
    pub summary: MetaValue,
}

/// Every item of the list is a string.
pub open spec fn all_strings(items: Seq<MetaItem>) -> bool {
    forall|i: int| 0 <= i < items.len() ==> (#[trigger] items[i]) is Str
}

/// A list of strings, from one string or a list of them; anything else
/// decodes to the empty list.
pub open spec fn strings_of(v: MetaValue) -> Seq<Seq<char>> {
    match v {
        MetaValue::Str(s) => seq![s@],
        MetaValue::List(items) => if all_strings(items@) {
            items@.map_values(|x: MetaItem| x->Str_0@)
        } else {
            Seq::empty()
        },
        _ => Seq::empty(),
    }
}

/// An optional string: a string gives itself, anything else nothing.
pub open spec fn opt_string_of(v: MetaValue) -> Option<Seq<char>> {
    match v {
        MetaValue::Str(s) => Some(s@),
        _ => None,
    }
}

/// An optional flag: a boolean gives itself, anything else nothing.
pub open spec fn opt_bool_of(v: MetaValue) -> Option<bool> {
    match v {
        MetaValue::Bool(b) => Some(b),
        _ => None,
    }
}

/// Decodes a one-or-many list of strings.
pub fn decode_strings(v: &MetaValue) -> (r: Vec<String>)
    ensures
        views(r@) == strings_of(*v),
{
    match v {
        MetaValue::Str(s) => {
            let mut r: Vec<String> = Vec::new();
            r.push(s.clone());
            assert(views(r@) =~= seq![s@]);
            r
        },
        MetaValue::List(items) => {
            let mut r: Vec<String> = Vec::new();
            let mut i: usize = 0;
            while i < items.len()
                invariant
                    *v == MetaValue::List(*items),
                    i <= items@.len(),
                    r@.len() == i,
                    all_strings(items@.take(i as int)),
                    forall|k: int| 0 <= k < i ==> (#[trigger] r@[k])@ == items@[k]->Str_0@,
                decreases items@.len() - i,
            {
                match &items[i] {
                    MetaItem::Str(s) => {
                        r.push(s.clone());
                    },
                    _ => {
                        assert(!(items@[i as int] is Str));
                        assert(!all_strings(items@));
                        let none: Vec<String> = Vec::new();
                        assert(views(none@) =~= Seq::<Seq<char>>::empty());
                        return none;
                    },
                }
                assert(all_strings(items@.take(i as int + 1))) by {
                    assert forall|k: int| 0 <= k < i + 1 implies (#[trigger] items@.take(i as int + 1)[k]) is Str by {
                        if k < i {
                            assert(items@.take(i as int + 1)[k] == items@.take(i as int)[k]);
                        }
                    }
                }
                i += 1;
            }
            assert(items@.take(items@.len() as int) =~= items@);
            assert(views(r@) =~= items@.map_values(|x: MetaItem| x->Str_0@));
            r
        },
        _ => {
            let none: Vec<String> = Vec::new();
            assert(views(none@) =~= Seq::<Seq<char>>::empty());
            none
        },
    }
}

/// Decodes an optional string.
pub fn decode_opt_string(v: &MetaValue) -> (r: Option<String>)
    ensures
        opt_view(r) == opt_string_of(*v),
{
    match v {
        MetaValue::Str(s) => Some(s.clone()),
        _ => None,
    }
}

impl EmbeddedMeta {
    /// Decodes each field on its own: a field of the wrong shape takes its
    /// default and leaves the others alone.
    pub fn decode(raw: &RawMeta) -> (r: EmbeddedMeta)
        ensures
            opt_view(r.title) == opt_string_of(raw.title),
            views(r.author@) == strings_of(raw.author),
            views(r.categories@) == strings_of(raw.categories),
            views(r.tags@) == strings_of(raw.tags),
            r.draft == opt_bool_of(raw.draft),
            r.summary@ == match opt_string_of(raw.summary) {
                Some(s) => s,
                None => Seq::empty(),
            },
    {
        let draft = match &raw.draft {
            MetaValue::Bool(b) => Some(*b),
            _ => None,
        };
        let summary = match decode_opt_string(&raw.summary) {
            Some(s) => s,
            None => String::new(),
        };
        EmbeddedMeta {
            title: decode_opt_string(&raw.title),
            author: decode_strings(&raw.author),
            categories: decode_strings(&raw.categories),
            tags: decode_strings(&raw.tags),
            draft,
            summary,
        }
    }
}

} // verus!
