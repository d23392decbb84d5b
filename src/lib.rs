//! Turns a compiled document into a page for a static site: output paths,
//! per-theme export jobs, page metadata, the frontmatter header and the
//! per-revision compile/export/render decisions.
use vstd::prelude::*;
use vstd::string::*;

pub mod frontmatter;
pub mod metadata;
pub mod paths;
pub mod pipeline;

verus! {

/// The dark-mode callback scripts that a page can embed.
#[derive(Default, Debug, Clone, Copy, PartialEq, Eq, Structural)]
pub enum DarkModeAvailable {
    #[default]
    Meme,
    Blowfish,
}

impl DarkModeAvailable {
    /// The mode's name in lower case.
    pub open spec fn spec_name(self) -> Seq<char> {
        match self {
            DarkModeAvailable::Meme => "meme"@,
            DarkModeAvailable::Blowfish => "blowfish"@,
        }
    }

    /// The mode's name in lower case, as the command line spells it.
    pub fn name(&self) -> (r: String)
        ensures
            r@ == self.spec_name(),
    {
        match self {
            DarkModeAvailable::Meme => String::from_str("meme"),
            DarkModeAvailable::Blowfish => String::from_str("blowfish"),
        }
    }
}

/// The dark-mode callback templates, one `{mode}.hbs` file per mode.
#[derive(Debug, Clone, Copy)]
pub struct DarkmodeAsset;

/// What handlebars renders a template text to with an empty context; `None`
/// when the template does not compile or fails to render.
pub uninterp spec fn handlebars_render_of(template: Seq<char>) -> Option<Seq<char>>;

/// `handlebars::RenderError`, the error of a failed render, carried opaque
/// from `render_empty_context` to `TemplateError`.
#[verifier::external_type_specification]
#[verifier::external_body]
pub struct ExRenderError(handlebars::RenderError);

/// What may stand between the `{{` of a tag and the `*` that makes it a
/// decorator: whitespace, the `~` that trims it, and the `#` of a block.
pub open spec fn tag_filler(c: char) -> bool {
    c == ' ' || c == '\t' || c == '\n' || c == '\r' || c == '~' || c == '#'
}

/// From position `j` on, `t` holds fillers and then a `*`.
pub open spec fn star_from(t: Seq<char>, j: int) -> bool
    decreases t.len() - j,
{
    if j < 0 || j >= t.len() {
        false
    } else if t[j] == '*' {
        true
    } else if tag_filler(t[j]) {
        star_from(t, j + 1)
    } else {
        false
    }
}

/// A decorator tag (`{{*`, `{{#*`, maybe with `~` and whitespace) opens at `i`.
pub open spec fn opens_decorator(t: Seq<char>, i: int) -> bool {
    &&& 0 <= i
    &&& i + 1 < t.len()
    &&& t[i] == '{'
    &&& t[i + 1] == '{'
    &&& star_from(t, i + 2)
}

/// The template holds a decorator tag somewhere. Decorators are what
/// declare inline partials, the one way a template on a fresh registry can
/// include itself.
pub open spec fn has_decorator(t: Seq<char>) -> bool {
    exists|i: int| opens_decorator(t, i)
}

fn star_at(t: &str, n: usize, j: usize) -> (r: bool)
    requires
        n == t@.len(),
    ensures
        r == star_from(t@, j as int),
{
    let mut k = j;
    while k < n
        invariant
            j <= k || k >= n,
            n == t@.len(),
            star_from(t@, j as int) == star_from(t@, k as int),
        decreases n - k,
    {
        let c = t.get_char(k);
        if c == '*' {
            return true;
        }
        if !(c == ' ' || c == '\t' || c == '\n' || c == '\r' || c == '~' || c == '#') {
            return false;
        }
        k += 1;
    }
    false
}

/// Whether the template holds a decorator tag.
pub fn has_decorator_tag(t: &str) -> (r: bool)
    ensures
        r == has_decorator(t@),
{
    let n = t.unicode_len();
    let mut i: usize = 0;
    while i < n
        invariant
            n == t@.len(),
            i <= n,
            forall|k: int| 0 <= k < i ==> !#[trigger] opens_decorator(t@, k),
        decreases n - i,
    {
        if i + 1 < n && t.get_char(i) == '{' && t.get_char(i + 1) == '{' && star_at(t, n, i + 2) {
            assert(opens_decorator(t@, i as int));
            return true;
        }
        i += 1;
    }
    assert forall|k: int| !#[trigger] opens_decorator(t@, k) by {
        if 0 <= k && k < i {
        }
    }
    false
}

/// Relies on `handlebars::Registry::render_template` on a fresh registry
/// with an empty context: the outcome depends on the template text alone.
/// Without decorator tags no inline partial exists, so no partial can
/// include itself and the render ends.
#[verifier::external_body]
fn render_empty_context(template: &str) -> (r: Result<String, handlebars::RenderError>)
    requires
        !has_decorator(template@),
    ensures
        r matches Ok(s) ==> handlebars_render_of(template@) == Some(s@),
        r is Err <==> handlebars_render_of(template@) is None,
{
    let empty: [u8; 0] = [];
    handlebars::Handlebars::new().render_template(template, &empty)
}

/// Relies on the `Display` of `handlebars::RenderError`, for its message.
#[verifier::external_body]
fn render_error_message(e: &handlebars::RenderError) -> (r: String) {
    e.to_string()
}

/// A template that could not be rendered, with handlebars' message.
#[derive(Debug, Clone, PartialEq, Eq)]
pub struct TemplateError {
    pub message: String,
}

impl DarkmodeAsset {
    /// The template file of a mode: its lower-case name with `.hbs`.
    pub fn file_name(mode: &DarkModeAvailable) -> (r: String)
        ensures
            r@ == mode.spec_name() + ".hbs"@,
    {
        let mut r = mode.name();
        r.append(".hbs");
        r
    }

    /// Renders a mode's callback template, which takes no data. A template
    /// with a decorator tag is refused; else it fails when handlebars
    /// cannot render it.
    pub fn render(template: &str) -> (r: Result<String, TemplateError>)
        ensures
            has_decorator(template@) ==> r is Err,
            !has_decorator(template@) ==> (r matches Ok(s) ==> handlebars_render_of(template@) == Some(s@)),
            !has_decorator(template@) ==> (r is Err <==> handlebars_render_of(template@) is None),
    {
        if has_decorator_tag(template) {
            return Err(TemplateError { message: String::from_str("decorator tags are not accepted in a callback template") });
        }
        match render_empty_context(template) {
            Ok(s) => Ok(s),
            Err(e) => Err(TemplateError { message: render_error_message(&e) }),
        }
    }
}

/// What a compile run is given: the entry document, where things go, and
/// which themes to export. Paths are kept as text.
#[derive(Default, Debug, Clone)]
pub struct CompileArgs {
    pub entry: String,
    pub root: String,
    pub html_dir: String,
    pub asset_dir: String,
    pub path_to_root: String,
    pub theme: Vec<String>,
    pub watch: bool,
    pub front_matter: bool,
    pub no_assets: bool,
    pub darkmode_callback: DarkModeAvailable,
    pub font_paths: Vec<String>,
}

/// A compile run followed by serving the asset directory over HTTP.
#[derive(Default, Debug, Clone)]
pub struct ServeArgs {
    pub compile: CompileArgs,
    /// Serve without building first.
    pub no_build: bool,
    /// The address to listen on, `host:port`.
    pub addr: String,
}

/// Where to write a starter document and its template.
#[derive(Default, Debug, Clone)]
pub struct TemplateArgs {
    pub path: String,
}

/// The command that was asked for.
#[derive(Debug, Clone)]
pub enum Subcommands {
    Compile(CompileArgs),
    Serve(ServeArgs),
    TypstTemplate(TemplateArgs),
}

/// The whole command line.
#[derive(Debug, Clone)]
pub struct Opts {
    pub sub: Option<Subcommands>,
}

} // verus!
