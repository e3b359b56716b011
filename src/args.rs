//! The run's settings: which version to fetch, which jar, where to put it.

use vstd::prelude::*;
use vstd::string::StrSliceExecFns;

use crate::catalog::latest_word;

verus! {

/// Which "latest" pointer of the catalog a request for `latest` follows.
#[allow(non_camel_case_types)]
#[derive(Debug, Clone, Copy, PartialEq, Eq, Structural)]
pub enum ReleaseType {
    release,
    snapshot,
}

/// Which artifact of a release to download.
#[allow(non_camel_case_types)]
#[derive(Debug, Clone, Copy, PartialEq, Eq, Structural)]
pub enum JarType {
    server,
    client,
}

/// The character code of `c` with ASCII upper case letters taken to lower case.
pub open spec fn ascii_folded(c: char) -> u32 {
    if 'A' <= c && c <= 'Z' {
        (c as u32 + 32) as u32
    } else {
        c as u32
    }
}

/// `a` and `b` are equal when ASCII letters are compared without case.
pub open spec fn equal_ignoring_ascii_case(a: Seq<char>, b: Seq<char>) -> bool {
    &&& a.len() == b.len()
    &&& forall|i: int| 0 <= i < a.len() ==> ascii_folded(#[trigger] a[i]) == ascii_folded(b[i])
}

fn fold_char(c: char) -> (r: u32)
    ensures
        r == ascii_folded(c),
{
    if 'A' <= c && c <= 'Z' {
        c as u32 + 32
    } else {
        c as u32
    }
}

/// Whether `s` spells `word` when ASCII letters are compared without case.
fn eq_ignore_ascii_case(s: &str, word: &str) -> (r: bool)
    ensures
        r == equal_ignoring_ascii_case(s@, word@),
{
    let n = s.unicode_len();
    if n != word.unicode_len() {
        return false;
    }
    let mut i: usize = 0;
    while i < n
        invariant
            n == s@.len(),
            n == word@.len(),
            i <= n,
            forall|j: int| 0 <= j < i ==> ascii_folded(#[trigger] s@[j]) == ascii_folded(word@[j]),
        decreases n - i,
    {
        if fold_char(s.get_char(i)) != fold_char(word.get_char(i)) {
            return false;
        }
        i = i + 1;
    }
    true
}

/// The kind of release that a name spells, if any.
pub open spec fn release_type_named(s: Seq<char>) -> Option<ReleaseType> {
    if equal_ignoring_ascii_case(s, "release"@) {
        Some(ReleaseType::release)
    } else if equal_ignoring_ascii_case(s, "snapshot"@) {
        Some(ReleaseType::snapshot)
    } else {
        None
    }
}

/// The kind of jar that a name spells, if any.
pub open spec fn jar_type_named(s: Seq<char>) -> Option<JarType> {
    if equal_ignoring_ascii_case(s, "server"@) {
        Some(JarType::server)
    } else if equal_ignoring_ascii_case(s, "client"@) {
        Some(JarType::client)
    } else {
        None
    }
}

/// The name under which a kind of jar is written.
pub open spec fn jar_type_name(j: JarType) -> Seq<char> {
    match j {
        JarType::server => "server"@,
        JarType::client => "client"@,
    }
}

impl ReleaseType {
    /// The kind of release that `s` names, ignoring ASCII case.
    pub fn from_name(s: &str) -> (r: Option<ReleaseType>)
        ensures
            r == release_type_named(s@),
    {
        if eq_ignore_ascii_case(s, "release") {
            Some(ReleaseType::release)
        } else if eq_ignore_ascii_case(s, "snapshot") {
            Some(ReleaseType::snapshot)
        } else {
            None
        }
    }
}

impl JarType {
    /// The kind of jar that `s` names, ignoring ASCII case.
    pub fn from_name(s: &str) -> (r: Option<JarType>)
        ensures
            r == jar_type_named(s@),
    {
        if eq_ignore_ascii_case(s, "server") {
            Some(JarType::server)
        } else if eq_ignore_ascii_case(s, "client") {
            Some(JarType::client)
        } else {
            None
        }
    }

    /// The name of this kind of jar.
    pub fn name(&self) -> (r: String)
        ensures
            r@ == jar_type_name(*self),
    {
        match self {
            JarType::server => "server".to_owned(),
            JarType::client => "client".to_owned(),
        }
    }
}

/// The settings of one run, read once at startup.
#[derive(Debug, Clone, PartialEq, Eq)]
pub struct Args {
    /// The version to fetch, or `latest`.
    pub version: String,
    /// Which pointer `latest` follows.
    pub release_type: ReleaseType,
    /// Which artifact to download.
    pub jar_type: JarType,
    /// Where to save the jar; a name derived from the jar and version when absent.
    pub output: Option<String>,
    /// Only report the version found.
    pub no_download: bool,
    /// Leave a file that already stands at the output path alone.
    pub no_overwrite: bool,
    /// Print errors and required output only.
    pub quiet: bool,
}

/// A setting that names no known value.
#[derive(Debug, Clone, PartialEq, Eq)]
pub enum ArgsError {
    UnknownReleaseType(String),
    UnknownJarType(String),
}

/// The value of an optional string setting, or `default` when it is absent.
pub open spec fn or_default(v: Option<String>, default: Seq<char>) -> Seq<char> {
    match v {
        Some(s) => s@,
        None => default,
    }
}

fn value_or(v: Option<String>, default: &str) -> (r: String)
    ensures
        r@ == or_default(v, default@),
{
    match v {
        Some(s) => s,
        None => default.to_owned(),
    }
}

impl Args {
    /// Builds the settings from the values given on the command line or in the
    /// environment, filling in `latest`, `release` and `server` for absent ones.
    pub fn from_values(
        version: Option<String>,
        release_type: Option<String>,
        jar_type: Option<String>,
        output: Option<String>,
        no_download: bool,
        no_overwrite: bool,
        quiet: bool,
    ) -> (r: Result<Args, ArgsError>)
        ensures
            release_type_named(or_default(release_type, "release"@)) is None ==> (r matches Err(
                ArgsError::UnknownReleaseType(name),
            ) && name@ == or_default(release_type, "release"@)),
            release_type_named(or_default(release_type, "release"@)) is Some && jar_type_named(
                or_default(jar_type, "server"@),
            ) is None ==> (r matches Err(ArgsError::UnknownJarType(name)) && name@ == or_default(
                jar_type,
                "server"@,
            )),
            r is Ok <==> release_type_named(or_default(release_type, "release"@)) is Some
                && jar_type_named(or_default(jar_type, "server"@)) is Some,
            r matches Ok(a) ==> {
                &&& a.version@ == or_default(version, latest_word())
                &&& Some(a.release_type) == release_type_named(or_default(release_type, "release"@))
                &&& Some(a.jar_type) == jar_type_named(or_default(jar_type, "server"@))
                &&& a.output == output
                &&& a.no_download == no_download
                &&& a.no_overwrite == no_overwrite
                &&& a.quiet == quiet
            },
    {
        let release_name = value_or(release_type, "release");
        let parsed_release = match ReleaseType::from_name(release_name.as_str()) {
            Some(t) => t,
            None => {
                return Err(ArgsError::UnknownReleaseType(release_name));
            },
        };
        let jar_name = value_or(jar_type, "server");
        let parsed_jar = match JarType::from_name(jar_name.as_str()) {
            Some(t) => t,
            None => {
                return Err(ArgsError::UnknownJarType(jar_name));
            },
        };
        Ok(Args {
            version: value_or(version, "latest"),
            release_type: parsed_release,
            jar_type: parsed_jar,
            output,
            no_download,
            no_overwrite,
            quiet,
        })
    }
}

/// The version asked for.
pub fn version(args: &Args) -> (r: String)
    ensures
        r@ == args.version@,
{
    args.version.clone()
}

/// The kind of release that `latest` stands for.
pub fn release_type(args: &Args) -> (r: ReleaseType)
    ensures
        r == args.release_type,
{
    args.release_type
}

/// The kind of jar to download.
pub fn jar_type(args: &Args) -> (r: JarType)
    ensures
        r == args.jar_type,
{
    args.jar_type
}

/// The output path given, if any.
pub fn output(args: &Args) -> (r: Option<String>)
    ensures
        r == args.output,
{
    match &args.output {
        Some(path) => Some(path.clone()),
        None => None,
    }
}

/// Whether only the version found is to be reported.
pub fn no_download(args: &Args) -> (r: bool)
    ensures
        r == args.no_download,
{
    args.no_download
}

/// Whether an existing file at the output path is to be left alone.
pub fn no_overwrite(args: &Args) -> (r: bool)
    ensures
        r == args.no_overwrite,
{
    args.no_overwrite
}

/// Whether progress messages are to be left out.
pub fn quiet(args: &Args) -> (r: bool)
    ensures
        r == args.quiet,
{
    args.quiet
}

} // verus!
