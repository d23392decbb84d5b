//! The frontmatter header: a JSON object that static-site tooling reads off
//! the front of the page.
use vstd::prelude::*;
use vstd::string::*;

use crate::metadata::{copy_strings, views, MetadataRecord};

verus! {

/// A lower-case hexadecimal digit.
pub open spec fn hex_digit(n: u32) -> char {
    if n < 10 {
        ('0' as u32 + n) as char
    } else {
        ('a' as u32 + (n - 10)) as char
    }
}

/// How `serde_json` writes one character inside a string literal: quote and
/// backslash escaped, the named control characters as `\b \t \n \f \r`,
/// the other control characters below 0x20 as `\u00XX`, the rest as it is.
pub open spec fn escape_char(c: char) -> Seq<char> {
    if c == '"' {
        seq!['\\', '"']
    } else if c == '\\' {
        seq!['\\', '\\']
    } else if c == '\u{8}' {
        seq!['\\', 'b']
    } else if c == '\t' {
        seq!['\\', 't']
    } else if c == '\n' {
        seq!['\\', 'n']
    } else if c == '\u{c}' {
        seq!['\\', 'f']
    } else if c == '\r' {
        seq!['\\', 'r']
    } else if (c as u32) < 0x20 {
        seq!['\\', 'u', '0', '0', hex_digit((c as u32) / 16), hex_digit((c as u32) % 16)]
    } else {
        seq![c]
    }
}

/// Every character of the text escaped.
pub open spec fn escape_all(s: Seq<char>) -> Seq<char>
    decreases s.len(),
{
    if s.len() == 0 {
        Seq::empty()
    } else {
        escape_all(s.drop_last()) + escape_char(s.last())
    }
}

/// The JSON string literal that `serde_json` writes for a text.
pub open spec fn json_string_of(s: Seq<char>) -> Seq<char> {
    seq!['"'] + escape_all(s) + seq!['"']
}

/// Relies on the `Display` of `serde_json::Value::String`: the text as a
/// compact JSON string literal, quoted and escaped by the table at the
/// bottom of serde_json's `ser.rs`.
#[verifier::external_body]
fn json_quote(s: &str) -> (r: String)
    ensures
        r@ == json_string_of(s@),
{
    serde_json::Value::String(s.to_owned()).to_string()
}

/// The parts with a comma between each two.
pub open spec fn join_commas(parts: Seq<Seq<char>>) -> Seq<char>
    decreases parts.len(),
{
    if parts.len() == 0 {
        Seq::empty()
    } else if parts.len() == 1 {
        parts[0]
    } else {
        join_commas(parts.drop_last()) + ","@ + parts.last()
    }
}

/// A JSON array of strings.
pub open spec fn json_list_spec(items: Seq<Seq<char>>) -> Seq<char> {
    "["@ + join_commas(items.map_values(|x: Seq<char>| json_string_of(x))) + "]"@
}

/// One member of a JSON object.
pub open spec fn member_spec(key: Seq<char>, value: Seq<char>) -> Seq<char> {
    json_string_of(key) + ":"@ + value
}

/// `x` alone when `c` holds, else nothing.
pub open spec fn when(c: bool, x: Seq<char>) -> Seq<Seq<char>> {
    if c {
        seq![x]
    } else {
        Seq::empty()
    }
}

/// A JSON boolean.
pub open spec fn json_bool_spec(b: bool) -> Seq<char> {
    if b {
        "true"@
    } else {
        "false"@
    }
}

/// The members of the header, in the alphabetical key order in which
/// `serde_json` writes a map by default (its `preserve_order` feature off);
/// empty lists, an empty summary and an absent draft flag are left out.
pub open spec fn members_spec(
    title: Seq<char>,
    date: Seq<char>,
    author: Seq<Seq<char>>,
    categories: Seq<Seq<char>>,
    tags: Seq<Seq<char>>,
    draft: Option<bool>,
    summary: Seq<char>,
) -> Seq<Seq<char>> {
    when(author.len() > 0, member_spec("author"@, json_list_spec(author)))
    + when(categories.len() > 0, member_spec("categories"@, json_list_spec(categories)))
    + seq![member_spec("date"@, json_string_of(date))]
    + when(draft is Some, member_spec("draft"@, json_bool_spec(draft->Some_0)))
    + when(summary.len() > 0, member_spec("summary"@, json_string_of(summary)))
    + when(tags.len() > 0, member_spec("tags"@, json_list_spec(tags)))
    + seq![member_spec("title"@, json_string_of(title))]
}

/// The header text.
pub open spec fn header_spec(
    title: Seq<char>,
    date: Seq<char>,
    author: Seq<Seq<char>>,
    categories: Seq<Seq<char>>,
    tags: Seq<Seq<char>>,
    draft: Option<bool>,
    summary: Seq<char>,
) -> Seq<char> {
    "{"@ + join_commas(members_spec(title, date, author, categories, tags, draft, summary)) + "}"@
}

/// The part of the page metadata that goes into the header.
#[derive(Default, Debug, Clone)]
pub struct FrontMatter {
    pub title: String,
    pub date: String,
    pub author: Vec<String>,
    pub categories: Vec<String>,
    pub tags: Vec<String>,
    pub draft: Option<bool>,
    pub summary: String,
}

impl FrontMatter {
    /// The header text of these fields.
    pub open spec fn spec_json(self) -> Seq<char> {
        header_spec(
            self.title@,
            self.date@,
            views(self.author@),
            views(self.categories@),
            views(self.tags@),
            self.draft,
            self.summary@,
        )
    }

    /// Writes the header.
    pub fn to_json(&self) -> (r: String)
        ensures
            r@ == self.spec_json(),
    {
        let mut members: Vec<String> = Vec::new();
        let ghost m0 = views(members@);
        if self.author.len() > 0 {
            members.push(member("author", json_list(&self.author)));
        }
        let ghost m1 = views(members@);
        assert(m1 =~= m0 + when(views(self.author@).len() > 0, member_spec("author"@, json_list_spec(views(self.author@)))));
        if self.categories.len() > 0 {
            members.push(member("categories", json_list(&self.categories)));
        }
        let ghost m2 = views(members@);
        assert(m2 =~= m1 + when(views(self.categories@).len() > 0, member_spec("categories"@, json_list_spec(views(self.categories@)))));
        members.push(member("date", json_quote(self.date.as_str())));
        let ghost m3 = views(members@);
        assert(m3 =~= m2 + seq![member_spec("date"@, json_string_of(self.date@))]);
        match self.draft {
            Some(d) => {
                members.push(member("draft", json_bool(d)));
            },
            None => {},
        }
        let ghost m4 = views(members@);
        assert(m4 =~= m3 + when(self.draft is Some, member_spec("draft"@, json_bool_spec(self.draft->Some_0))));
        if self.summary.as_str().unicode_len() > 0 {
            members.push(member("summary", json_quote(self.summary.as_str())));
        }
        let ghost m5 = views(members@);
        assert(m5 =~= m4 + when(self.summary@.len() > 0, member_spec("summary"@, json_string_of(self.summary@))));
        if self.tags.len() > 0 {
            members.push(member("tags", json_list(&self.tags)));
        }
        let ghost m6 = views(members@);
        assert(m6 =~= m5 + when(views(self.tags@).len() > 0, member_spec("tags"@, json_list_spec(views(self.tags@)))));
        members.push(member("title", json_quote(self.title.as_str())));
        assert(views(members@) =~= m6 + seq![member_spec("title"@, json_string_of(self.title@))]);
        assert(views(members@) =~= members_spec(
            self.title@,
            self.date@,
            views(self.author@),
            views(self.categories@),
            views(self.tags@),
            self.draft,
            self.summary@,
        ));
        let mut r = String::from_str("{");
        let body = join_with_commas(&members);
        r.append(body.as_str());
        r.append("}");
        r
    }
}

/// `"key":value`.
fn member(key: &str, value: String) -> (r: String)
    ensures
        r@ == member_spec(key@, value@),
{
    let mut r = json_quote(key);
    r.append(":");
    r.append(value.as_str());
    r
}

/// `true` or `false`.
fn json_bool(b: bool) -> (r: String)
    ensures
        r@ == json_bool_spec(b),
{
    if b {
        String::from_str("true")
    } else {
        String::from_str("false")
    }
}

/// The parts with a comma between each two.
pub fn join_with_commas(parts: &Vec<String>) -> (r: String)
    ensures
        r@ == join_commas(views(parts@)),
{
    let mut r = String::new();
    let mut i: usize = 0;
    while i < parts.len()
        invariant
            i <= parts@.len(),
            r@ == join_commas(views(parts@).take(i as int)),
        decreases parts@.len() - i,
    {
        if i > 0 {
            r.append(",");
        }
        r.append(parts[i].as_str());
        proof {
            let t = views(parts@).take(i as int + 1);
            assert(t.drop_last() =~= views(parts@).take(i as int));
            if i == 0 {
                assert(join_commas(views(parts@).take(0)) =~= Seq::<char>::empty());
                assert(r@ =~= t[0]);
            }
        }
        i += 1;
    }
    assert(views(parts@).take(parts@.len() as int) =~= views(parts@));
    r
}

/// A JSON array of the strings in `items`.
pub fn json_list(items: &Vec<String>) -> (r: String)
    ensures
        r@ == json_list_spec(views(items@)),
{
    let mut quoted: Vec<String> = Vec::new();
    let mut i: usize = 0;
    while i < items.len()
        invariant
            i <= items@.len(),
            quoted@.len() == i,
            forall|k: int| 0 <= k < i ==> (#[trigger] quoted@[k])@ == json_string_of(items@[k]@),
        decreases items@.len() - i,
    {
        quoted.push(json_quote(items[i].as_str()));
        i += 1;
    }
    assert(views(quoted@) =~= views(items@).map_values(|x: Seq<char>| json_string_of(x)));
    let mut r = String::from_str("[");
    let body = join_with_commas(&quoted);
    r.append(body.as_str());
    r.append("]");
    r
}

} // verus!

verus! {

/// The header text of a page's metadata.
pub open spec fn record_header_spec(m: MetadataRecord) -> Seq<char> {
    header_spec(m.title@, m.date@, views(m.author@), views(m.categories@), views(m.tags@), m.draft, m.summary@)
}

impl MetadataRecord {
    /// The fields of this record that go into the header.
    pub fn frontmatter(&self) -> (r: FrontMatter)
        ensures
            r.spec_json() == record_header_spec(*self),
            r.title@ == self.title@,
            r.date@ == self.date@,
            views(r.author@) == views(self.author@),
            views(r.categories@) == views(self.categories@),
            views(r.tags@) == views(self.tags@),
            r.draft == self.draft,
            r.summary@ == self.summary@,
    {
        FrontMatter {
            title: self.title.clone(),
            date: self.date.clone(),
            author: copy_strings(&self.author),
            categories: copy_strings(&self.categories),
            tags: copy_strings(&self.tags),
            draft: self.draft,
            summary: self.summary.clone(),
        }
    }
}

/// The header of `meta` followed by `content`.
pub fn prepend_frontmatter(content: String, meta: &MetadataRecord) -> (r: String)
    ensures
        r@ == record_header_spec(*meta) + content@,
{
    let mut r = meta.frontmatter().to_json();
    r.append(content.as_str());
    r
}

/// The page text: the rendered template, with the header of `meta` in front
/// of it when `front_matter` is set. The header, when there is one, is a
/// prefix of the page; else the page is the rendered template as it is.
pub fn finish_page(meta: &MetadataRecord, rendered: String, front_matter: bool) -> (r: String)
    ensures
        front_matter ==> r@ == record_header_spec(*meta) + rendered@,
        front_matter ==> record_header_spec(*meta).is_prefix_of(r@),
        !front_matter ==> r@ == rendered@,
{
    if front_matter {
        let r = prepend_frontmatter(rendered, meta);
        proof {
            let h = record_header_spec(*meta);
            assert(r@.subrange(0, h.len() as int) =~= h);
        }
        r
    } else {
        rendered
    }
}

} // verus!
