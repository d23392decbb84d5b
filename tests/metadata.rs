use typst_hugo::frontmatter::{finish_page, json_list, join_with_commas, prepend_frontmatter};
use typst_hugo::metadata::{
    build_metadata, extract_metadata, join_leading_segments, resolve_date, summarize, DocInfo,
    EmbeddedMeta, MetadataRecord,
};
use typst_hugo::CompileArgs;
use unicode_segmentation::UnicodeSegmentation;

#[test]
fn summary_keeps_150_segments() {
    let desc = "word ".repeat(100);
    let s = summarize(&desc);
    assert_eq!(s.split_word_bounds().count(), 150);
    assert!(desc.starts_with(&s));
    assert_eq!(s, "word ".repeat(75));
}

#[test]
fn short_summary_is_the_description() {
    let desc = "The quick (\"brown\") fox.";
    assert_eq!(summarize(desc), desc);
    assert_eq!(summarize(""), "");
}

#[test]
fn leading_segments_join() {
    let segs = vec!["a".to_string(), " ".to_string(), "b".to_string()];
    assert_eq!(join_leading_segments(&segs, 2), "a ");
    assert_eq!(join_leading_segments(&segs, 10), "a b");
    assert_eq!(join_leading_segments(&segs, 0), "");
}

#[test]
fn date_defaults_to_today() {
    assert_eq!(resolve_date(None, "2024-01-02".to_string()), "2024-01-02");
    assert_eq!(resolve_date(None, "2024-01-03".to_string()), "2024-01-03");
    assert_eq!(resolve_date(Some(String::new()), "2024-01-03".to_string()), "2024-01-03");
    assert_eq!(resolve_date(Some("2020-05-06".to_string()), "2024-01-02".to_string()), "2020-05-06");
    assert_eq!(resolve_date(Some("2020-05-06".to_string()), "2024-01-03".to_string()), "2020-05-06");
}

fn sample() -> MetadataRecord {
    let embedded = EmbeddedMeta {
        title: Some("ignored".to_string()),
        tags: vec!["a".to_string(), "b".to_string()],
        draft: Some(true),
        ..EmbeddedMeta::default()
    };
    let info = DocInfo { title: Some("T".to_string()), author: vec!["Ann".to_string()], date: None };
    build_metadata(&embedded, &info, "/", "post", "Hello world", "<script></script>", "2024-01-02".to_string())
}

#[test]
fn record_merges_info_and_embedded_fields() {
    let m = sample();
    assert_eq!(m.title, "T");
    assert_eq!(m.author, vec!["Ann".to_string()]);
    assert_eq!(m.date, "2024-01-02");
    assert_eq!(m.rel_data_path, "post");
    assert_eq!(m.renderer_module, "internal/typst_ts_renderer_bg.wasm");
    assert_eq!(m.summary, "Hello world");
    assert_eq!(m.tags, vec!["a".to_string(), "b".to_string()]);
    assert_eq!(m.draft, Some(true));
    assert!(m.categories.is_empty());
}

#[test]
fn header_is_sorted_compact_json() {
    let m = sample();
    assert_eq!(
        m.frontmatter().to_json(),
        "{\"author\":[\"Ann\"],\"date\":\"2024-01-02\",\"draft\":true,\"summary\":\"Hello world\",\"tags\":[\"a\",\"b\"],\"title\":\"T\"}"
    );
}

#[test]
fn header_escapes_strings() {
    let mut m = sample();
    m.title = "say \"hi\"\n".to_string();
    let j = m.frontmatter().to_json();
    assert!(j.ends_with(",\"title\":\"say \\\"hi\\\"\\n\"}"));
}

#[test]
fn header_leaves_out_empty_fields() {
    let m = MetadataRecord { title: "T".to_string(), date: "d".to_string(), ..MetadataRecord::default() };
    assert_eq!(m.frontmatter().to_json(), "{\"date\":\"d\",\"title\":\"T\"}");
}

#[test]
fn lists_and_commas() {
    assert_eq!(json_list(&vec![]), "[]");
    assert_eq!(json_list(&vec!["x".to_string(), "y".to_string()]), "[\"x\",\"y\"]");
    assert_eq!(join_with_commas(&vec!["1".to_string(), "2".to_string(), "3".to_string()]), "1,2,3");
}

#[test]
fn frontmatter_is_a_prefix_when_enabled() {
    let m = sample();
    let header = m.frontmatter().to_json();
    let page = finish_page(&m, "<html></html>".to_string(), true);
    assert!(page.starts_with(&header));
    assert_eq!(page, header.clone() + "<html></html>");
    assert_eq!(prepend_frontmatter("<p>".to_string(), &m), header + "<p>");
    assert_eq!(finish_page(&m, "<html></html>".to_string(), false), "<html></html>");
}

#[test]
fn extract_uses_the_document_date() {
    let args = CompileArgs {
        entry: "post.typ".to_string(),
        asset_dir: "assets".to_string(),
        path_to_root: "/blog/".to_string(),
        ..CompileArgs::default()
    };
    let info = DocInfo { title: None, author: vec![], date: Some("2021-02-03".to_string()) };
    let m = extract_metadata(&EmbeddedMeta::default(), &info, &args, true, "x", "").unwrap();
    assert_eq!(m.date, "2021-02-03");
    assert_eq!(m.title, "");
    assert_eq!(m.path_to_root, "/blog/");
    assert_eq!(m.rel_data_path, "post");
    let bad = CompileArgs { entry: "/".to_string(), ..args };
    assert!(extract_metadata(&EmbeddedMeta::default(), &info, &bad, true, "x", "").is_none());
}

use typst_hugo::metadata::{MetaItem, MetaValue, RawMeta};

fn raw() -> RawMeta {
    RawMeta {
        title: MetaValue::Absent,
        author: MetaValue::Absent,
        categories: MetaValue::Absent,
        tags: MetaValue::Absent,
        draft: MetaValue::Absent,
        summary: MetaValue::Absent,
    }
}

#[test]
fn embedded_fields_decode_one_or_many() {
    let r = RawMeta {
        title: MetaValue::Str("t".to_string()),
        categories: MetaValue::Str("one".to_string()),
        tags: MetaValue::List(vec![MetaItem::Str("a".to_string()), MetaItem::Str("b".to_string())]),
        draft: MetaValue::Bool(true),
        summary: MetaValue::Str("s".to_string()),
        ..raw()
    };
    let m = EmbeddedMeta::decode(&r);
    assert_eq!(m.title, Some("t".to_string()));
    assert_eq!(m.categories, vec!["one".to_string()]);
    assert_eq!(m.tags, vec!["a".to_string(), "b".to_string()]);
    assert_eq!(m.draft, Some(true));
    assert_eq!(m.summary, "s");
    assert!(m.author.is_empty());
}

#[test]
fn malformed_embedded_field_defaults_alone() {
    let r = RawMeta {
        tags: MetaValue::List(vec![MetaItem::Str("a".to_string()), MetaItem::NotStr]),
        categories: MetaValue::Other,
        draft: MetaValue::Str("yes".to_string()),
        author: MetaValue::Str("Ann".to_string()),
        title: MetaValue::Null,
        ..raw()
    };
    let m = EmbeddedMeta::decode(&r);
    assert!(m.tags.is_empty());
    assert!(m.categories.is_empty());
    assert_eq!(m.draft, None);
    assert_eq!(m.title, None);
    assert_eq!(m.author, vec!["Ann".to_string()]);
    assert_eq!(m.summary, "");
}

#[test]
fn header_escapes_control_characters() {
    let m = MetadataRecord {
        title: "a\u{1}b\\c\td".to_string(),
        date: "d".to_string(),
        ..MetadataRecord::default()
    };
    assert_eq!(m.frontmatter().to_json(), "{\"date\":\"d\",\"title\":\"a\\u0001b\\\\c\\td\"}");
}
