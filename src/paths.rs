//! File stems and the paths of everything the pipeline writes.
use vstd::prelude::*;
use vstd::string::*;

use crate::CompileArgs;

verus! {

/// The stem that `std::path::Path::file_stem` gives for a path, if any.
pub uninterp spec fn file_stem_of(p: Seq<char>) -> Option<Seq<char>>;

/// Relies on `std::path::Path::file_stem`: the final component's name
/// without its last extension, which depends on the path text alone.
#[verifier::external_body]
fn path_file_stem(p: &str) -> (r: Option<String>)
    ensures
        r is None ==> file_stem_of(p@) is None,
        r matches Some(s) ==> file_stem_of(p@) == Some(s@),
{
    std::path::Path::new(p).file_stem().map(|s| s.to_string_lossy().into_owned())
}

/// The directory that `std::path::Path::parent` gives for a path, if any.
pub uninterp spec fn parent_of(p: Seq<char>) -> Option<Seq<char>>;

/// Relies on `std::path::Path::parent`: the path without its final
/// component, which depends on the path text alone.
#[verifier::external_body]
fn path_parent(p: &str) -> (r: Option<String>)
    ensures
        r is None ==> parent_of(p@) is None,
        r matches Some(s) ==> parent_of(p@) == Some(s@),
{
    std::path::Path::new(p).parent().map(|d| d.to_string_lossy().into_owned())
}

/// `dir` followed by `name`, with one separator between them.
pub open spec fn join_spec(dir: Seq<char>, name: Seq<char>) -> Seq<char> {
    if dir.len() == 0 {
        name
    } else if dir.last() == '/' {
        dir + name
    } else {
        dir + "/"@ + name
    }
}

/// Appends the file name `name` to the directory `dir`.
pub fn join_path(dir: &str, name: &str) -> (r: String)
    ensures
        r@ == join_spec(dir@, name@),
{
    let n = dir.unicode_len();
    let mut r = String::from_str(dir);
    if n > 0 && dir.get_char(n - 1) != '/' {
        r.append("/");
    }
    r.append(name);
    proof {
        reveal_strlit("/");
    }
    r
}

} // verus!

verus! {

/// The view of an optional string.
pub open spec fn opt_view(o: Option<String>) -> Option<Seq<char>> {
    match o {
        Some(s) => Some(s@),
        None => None,
    }
}

/// The stem shared by the theme artifacts and the page's data path: the
/// entry's stem when the asset directory is a directory, else the asset
/// path's own stem. There is none when the entry has no stem.
pub open spec fn output_stem(entry: Seq<char>, asset_dir: Seq<char>, asset_dir_is_dir: bool) -> Option<Seq<char>> {
    match file_stem_of(entry) {
        None => None,
        Some(e) => if asset_dir_is_dir {
            Some(e)
        } else {
            file_stem_of(asset_dir)
        },
    }
}

/// The stem of the per-theme artifacts, which the page also uses as its
/// relative data path. `None` when the entry or the asset path has no stem.
pub fn derive_sir_name(args: &CompileArgs, asset_dir_is_dir: bool) -> (r: Option<String>)
    ensures
        opt_view(r) == output_stem(args.entry@, args.asset_dir@, asset_dir_is_dir),
{
    let entry_stem = path_file_stem(args.entry.as_str());
    match entry_stem {
        None => None,
        Some(e) => if asset_dir_is_dir {
            Some(e)
        } else {
            path_file_stem(args.asset_dir.as_str())
        },
    }
}

/// Where the page goes: `{html_dir}/{entry_stem}.html` when `html_dir` is a
/// directory, else `html_dir` itself.
pub open spec fn html_path_spec(entry: Seq<char>, html_dir: Seq<char>, html_dir_is_dir: bool) -> Option<Seq<char>> {
    if html_dir_is_dir {
        match file_stem_of(entry) {
            Some(e) => Some(join_spec(html_dir, e) + ".html"@),
            None => None,
        }
    } else {
        Some(html_dir)
    }
}

/// The path of the page. `None` when the page belongs in a directory and
/// the entry has no stem to name it by.
pub fn html_output_path(args: &CompileArgs, html_dir_is_dir: bool) -> (r: Option<String>)
    ensures
        opt_view(r) == html_path_spec(args.entry@, args.html_dir@, html_dir_is_dir),
{
    if html_dir_is_dir {
        match path_file_stem(args.entry.as_str()) {
            Some(e) => {
                let mut p = join_path(args.html_dir.as_str(), e.as_str());
                p.append(".html");
                Some(p)
            },
            None => None,
        }
    } else {
        Some(args.html_dir.clone())
    }
}

/// `p` itself when it is absolute, else `p` taken relative to `cwd`.
pub open spec fn absolute_spec(cwd: Seq<char>, p: Seq<char>) -> Seq<char> {
    if p.len() > 0 && p[0] == '/' {
        p
    } else {
        join_spec(cwd, p)
    }
}

/// Makes a path absolute against the working directory `cwd`.
pub fn resolve_against(cwd: &str, p: &str) -> (r: String)
    ensures
        r@ == absolute_spec(cwd@, p@),
{
    if p.unicode_len() > 0 && p.get_char(0) == '/' {
        String::from_str(p)
    } else {
        join_path(cwd, p)
    }
}

/// One theme's export: the theme, the exporter's target, the artifact's
/// path without extension (`{dir}/{stem}`), and the extension the exporter
/// gives it.
#[derive(Debug, Clone)]
pub struct ExportJob {
    pub theme: String,
    pub target: String,
    pub output_base: String,
    pub extension: String,
}

/// The directory the theme artifacts go to: the asset directory itself, or
/// the directory that holds the asset path when that is not a directory.
pub open spec fn artifact_dir_spec(asset_dir: Seq<char>, asset_dir_is_dir: bool) -> Option<Seq<char>> {
    if asset_dir_is_dir {
        Some(asset_dir)
    } else {
        parent_of(asset_dir)
    }
}

/// The job that exports `theme` next to `base`.
pub open spec fn job_spec(job: ExportJob, theme: Seq<char>, base: Seq<char>) -> bool {
    &&& job.theme@ == theme
    &&& job.target@ == "web-"@ + theme
    &&& job.output_base@ == base
    &&& job.extension@ == theme + ".multi.sir.in"@
}

/// The artifact that a job writes: its base with the job's extension.
pub open spec fn artifact_path_spec(job: ExportJob) -> Seq<char> {
    job.output_base@ + "."@ + job.extension@
}

impl ExportJob {
    /// The path of the artifact this job writes.
    pub fn artifact_path(&self) -> (r: String)
        ensures
            r@ == artifact_path_spec(*self),
    {
        let mut p = self.output_base.clone();
        p.append(".");
        p.append(self.extension.as_str());
        p
    }
}

/// One export job per theme, in the order the themes are given, each
/// writing `{dir}/{stem}.{theme}.multi.sir.in` with the stem of
/// `derive_sir_name`. `None` when there is no such stem or no directory.
pub fn export_jobs(args: &CompileArgs, asset_dir_is_dir: bool) -> (r: Option<Vec<ExportJob>>)
    ensures
        r is None <==> (output_stem(args.entry@, args.asset_dir@, asset_dir_is_dir) is None
            || artifact_dir_spec(args.asset_dir@, asset_dir_is_dir) is None),
        r matches Some(jobs) ==> {
            &&& jobs@.len() == args.theme@.len()
            &&& forall|i: int| 0 <= i < jobs@.len() ==> job_spec(
                #[trigger] jobs@[i],
                args.theme@[i]@,
                join_spec(
                    artifact_dir_spec(args.asset_dir@, asset_dir_is_dir)->Some_0,
                    output_stem(args.entry@, args.asset_dir@, asset_dir_is_dir)->Some_0,
                ),
            )
        },
{
    let stem = match derive_sir_name(args, asset_dir_is_dir) {
        Some(s) => s,
        None => {
            return None;
        },
    };
    let dir = if asset_dir_is_dir {
        args.asset_dir.clone()
    } else {
        match path_parent(args.asset_dir.as_str()) {
            Some(d) => d,
            None => {
                return None;
            },
        }
    };
    let base = join_path(dir.as_str(), stem.as_str());
    let mut jobs: Vec<ExportJob> = Vec::new();
    let mut i: usize = 0;
    while i < args.theme.len()
        invariant
            i <= args.theme@.len(),
            jobs@.len() == i,
            forall|k: int| 0 <= k < i ==> job_spec(#[trigger] jobs@[k], args.theme@[k]@, base@),
        decreases args.theme@.len() - i,
    {
        let theme = &args.theme[i];
        let mut target = String::from_str("web-");
        target.append(theme.as_str());
        let mut extension = theme.clone();
        extension.append(".multi.sir.in");
        let job = ExportJob { theme: theme.clone(), target, output_base: base.clone(), extension };
        jobs.push(job);
        i += 1;
    }
    Some(jobs)
}

} // verus!

verus! {

/// Every theme artifact is named by the page's data path: a job made for
/// `theme` writes `{dir}/{stem}.{theme}.multi.sir.in`, where `stem` is the
/// data path that `derive_sir_name` gives the page.
pub proof fn artifacts_share_data_path(
    job: ExportJob,
    theme: Seq<char>,
    entry: Seq<char>,
    asset_dir: Seq<char>,
    asset_dir_is_dir: bool,
)
    requires
        output_stem(entry, asset_dir, asset_dir_is_dir) is Some,
        artifact_dir_spec(asset_dir, asset_dir_is_dir) is Some,
        job_spec(
            job,
            theme,
            join_spec(
                artifact_dir_spec(asset_dir, asset_dir_is_dir)->Some_0,
                output_stem(entry, asset_dir, asset_dir_is_dir)->Some_0,
            ),
        ),
    ensures
        artifact_path_spec(job) == join_spec(
            artifact_dir_spec(asset_dir, asset_dir_is_dir)->Some_0,
            output_stem(entry, asset_dir, asset_dir_is_dir)->Some_0,
        ) + "."@ + theme + ".multi.sir.in"@,
{
    let base = join_spec(
        artifact_dir_spec(asset_dir, asset_dir_is_dir)->Some_0,
        output_stem(entry, asset_dir, asset_dir_is_dir)->Some_0,
    );
    assert(artifact_path_spec(job) =~= base + "."@ + theme + ".multi.sir.in"@);
}

} // verus!
