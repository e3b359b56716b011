//! The decisions of one run: from the fetched catalog to a version, from that version
//! to either a report or the fetch of its detail, and from the detail to a download.
//! The caller fetches and parses; these functions decide what follows.

use vstd::prelude::*;
use vstd::string::StringExecFns;

use crate::args::{jar_type_name, Args, JarType};
use crate::catalog::{resolve, Manifest, Release, Version};
use crate::download::{DownloadRequest, OverwritePolicy};
use crate::report::{bug_report_link, bug_report_url};

verus! {

/// Why a catalog or a version's detail could not be had.
#[derive(Debug, Clone, PartialEq, Eq)]
pub enum FetchFailure {
    /// It could not be fetched.
    Transport(String),
    /// It was fetched but does not have the expected form.
    Malformed(String),
}

/// Which document was being fetched.
#[derive(Debug, Clone, Copy, PartialEq, Eq, Structural)]
pub enum Stage {
    Catalog,
    Detail,
}

/// Why a run stopped before its download.
#[derive(Debug, Clone, PartialEq, Eq)]
pub enum RunError {
    Transport { stage: Stage, message: String },
    ManifestParse { stage: Stage, message: String, report_url: String },
    VersionNotFound { version: String },
}

/// What to do once a version is found.
#[derive(Debug, Clone, PartialEq, Eq)]
pub enum NextStep {
    /// Report the id and stop.
    ReportOnly { id: String },
    /// Fetch the version's detail from `url`.
    FetchDetail { url: String },
}

/// The title of the bug report offered for a document that did not parse.
pub open spec fn parse_report_title(stage: Stage, message: Seq<char>) -> Seq<char> {
    match stage {
        Stage::Catalog => "Invalid Manifest - "@ + message,
        Stage::Detail => "Invalid Versioned Manifest - "@ + message,
    }
}

/// `e` is the error that a failed fetch at `stage` becomes.
pub open spec fn reports_failure(stage: Stage, failure: FetchFailure, e: RunError) -> bool {
    match failure {
        FetchFailure::Transport(m) => e == RunError::Transport { stage, message: m },
        FetchFailure::Malformed(m) => e matches RunError::ManifestParse { stage: s, message, report_url }
            && s == stage && message == m && report_url@ == bug_report_link(
            parse_report_title(stage, m@),
            "manifest"@,
        ),
    }
}

/// The path a jar is saved at: the one given, else `minecraft_<jar>_<id>.jar`.
pub open spec fn output_path(args: Args, id: Seq<char>) -> Seq<char> {
    match args.output {
        Some(p) => p@,
        None => "minecraft_"@ + jar_type_name(args.jar_type) + "_"@ + id + ".jar"@,
    }
}

/// `r` downloads the chosen jar of `release` to the chosen path under the chosen policy.
pub open spec fn requests_jar(args: Args, id: Seq<char>, release: Release, r: DownloadRequest) -> bool {
    &&& r.path@ == output_path(args, id)
    &&& r.policy == if args.no_overwrite {
        OverwritePolicy::Forbid
    } else {
        OverwritePolicy::Allow
    }
    &&& match args.jar_type {
        JarType::server => r.sha1 == release.downloads.server.sha1 && r.size
            == release.downloads.server.size && r.url == release.downloads.server.url,
        JarType::client => r.sha1 == release.downloads.client.sha1 && r.size
            == release.downloads.client.size && r.url == release.downloads.client.url,
    }
}

fn fetch_error(stage: Stage, failure: FetchFailure) -> (r: RunError)
    ensures
        reports_failure(stage, failure, r),
{
    match failure {
        FetchFailure::Transport(message) => RunError::Transport { stage, message },
        FetchFailure::Malformed(message) => {
            let title = match stage {
                Stage::Catalog => "Invalid Manifest - ".to_owned(),
                Stage::Detail => "Invalid Versioned Manifest - ".to_owned(),
            }.concat(message.as_str());
            let report_url = bug_report_url(title.as_str(), "manifest");
            RunError::ManifestParse { stage, message, report_url }
        },
    }
}

/// The version that the fetched catalog holds for the request, or why there is none.
pub fn on_catalog(args: &Args, fetched: Result<Manifest, FetchFailure>) -> (r: Result<Version, RunError>)
    ensures
        fetched matches Err(f) ==> (r matches Err(e) && reports_failure(Stage::Catalog, f, e)),
        fetched matches Ok(c) ==> {
            &&& r is Ok <==> resolve(c@, args.release_type, args.version@) is Some
            &&& r matches Ok(v) ==> resolve(c@, args.release_type, args.version@) == Some(v@)
            &&& r matches Err(e) ==> e == (RunError::VersionNotFound { version: args.version })
        },
{
    match fetched {
        Err(f) => Err(fetch_error(Stage::Catalog, f)),
        Ok(catalog) => {
            let mut catalog = catalog;
            match catalog.get(args.release_type, args.version.as_str()) {
                Some(v) => Ok(v),
                None => Err(RunError::VersionNotFound { version: args.version.clone() }),
            }
        },
    }
}

/// What follows once `version` is found: stop at reporting it, or fetch its detail.
pub fn after_resolve(args: &Args, version: &Version) -> (r: NextStep)
    ensures
        args.no_download ==> r == (NextStep::ReportOnly { id: version.id }),
        !args.no_download ==> r == (NextStep::FetchDetail { url: version.url }),
{
    if args.no_download {
        NextStep::ReportOnly { id: version.id.clone() }
    } else {
        NextStep::FetchDetail { url: version.url.clone() }
    }
}

/// The default file name for a jar of kind `jar` of version `id`.
pub fn default_file_name(jar: JarType, id: &str) -> (r: String)
    ensures
        r@ == "minecraft_"@ + jar_type_name(jar) + "_"@ + id@ + ".jar"@,
{
    let mut name = "minecraft_".to_owned();
    name.append(jar.name().as_str());
    name.append("_");
    name.append(id);
    name.append(".jar");
    name
}

/// The download of the chosen jar of `release`, found as version `id`.
pub fn download_request(args: &Args, id: &str, release: &Release) -> (r: DownloadRequest)
    ensures
        requests_jar(*args, id@, *release, r),
{
    let path = match &args.output {
        Some(p) => p.clone(),
        None => default_file_name(args.jar_type, id),
    };
    let policy = if args.no_overwrite {
        OverwritePolicy::Forbid
    } else {
        OverwritePolicy::Allow
    };
    match args.jar_type {
        JarType::server => DownloadRequest {
            path,
            size: release.downloads.server.size,
            url: release.downloads.server.url.clone(),
            sha1: release.downloads.server.sha1.clone(),
            policy,
        },
        JarType::client => DownloadRequest {
            path,
            size: release.downloads.client.size,
            url: release.downloads.client.url.clone(),
            sha1: release.downloads.client.sha1.clone(),
            policy,
        },
    }
}

/// The download that the fetched detail of `version` calls for, or why there is none.
pub fn on_detail(args: &Args, version: &Version, fetched: Result<Release, FetchFailure>) -> (r: Result<
    DownloadRequest,
    RunError,
>)
    ensures
        fetched matches Err(f) ==> (r matches Err(e) && reports_failure(Stage::Detail, f, e)),
        fetched matches Ok(release) ==> (r matches Ok(req) && requests_jar(
            *args,
            version.id@,
            release,
            req,
        )),
{
    match fetched {
        Err(f) => Err(fetch_error(Stage::Detail, f)),
        Ok(release) => Ok(download_request(args, version.id.as_str(), &release)),
    }
}

} // verus!
