//! Resolving a target: its name and version from the build system's answer
//! to a query, and the place of its output from a build report or from the
//! directories where outputs are kept.

use crate::error::PackError;
use crate::json::{
    get_member, get_text, json_member, json_parsed, json_repr, json_text, parse_json,
};
use crate::text::{
    after_last, before_first, final_line, final_token, first_segment, from_first, last_line,
    last_segment, last_token, strip_leading_slash_pairs, suffix_from, without_leading_slash_pairs,
};
use vstd::prelude::*;
use vstd::string::*;

verus! {

/// The identity of a target: its name and its version.
#[derive(Debug, Clone, PartialEq, Eq)]
pub struct TargetInfo {
    pub name: String,
    pub version: String,
}

/// What a [`TargetInfo`] stands for.
pub struct TargetInfoView {
    pub name: Seq<char>,
    pub version: Seq<char>,
}

impl View for TargetInfo {
    type V = TargetInfoView;

    open spec fn view(&self) -> TargetInfoView {
        TargetInfoView { name: self.name@, version: self.version@ }
    }
}

/// The identity of a target from the two attributes that the build system
/// reports. A missing name is derived from the target: what follows its
/// last colon. A missing version is unknown.
pub open spec fn info_from_attributes(
    target: Seq<char>,
    name: Option<Seq<char>>,
    version: Option<Seq<char>>,
) -> TargetInfoView {
    TargetInfoView {
        name: match name {
            Some(n) => n,
            None => after_last(target, ':'),
        },
        version: match version {
            Some(v) => v,
            None => "unknown"@,
        },
    }
}

/// The key under which the build system may report a target instead of the
/// target itself: the target without its leading slashes, in the root cell.
pub open spec fn rooted_key(target: Seq<char>) -> Seq<char> {
    "root//"@ + without_leading_slash_pairs(target)
}

/// The entry of `target` in the query answer written by `doc`: under the
/// target itself, or else under its rooted key.
pub open spec fn target_entry(doc: Seq<char>, target: Seq<char>) -> Option<Seq<char>> {
    match json_member(doc, target) {
        Some(entry) => Some(entry),
        None => json_member(doc, rooted_key(target)),
    }
}

/// The text of the member `key` of the entry written by `entry`, where it
/// has one that is a string.
pub open spec fn text_member(entry: Seq<char>, key: Seq<char>) -> Option<Seq<char>> {
    match json_member(entry, key) {
        Some(value) => json_text(value),
        None => None,
    }
}

/// The identity of a target according to the build system's answer. The
/// answer counts from its first opening brace on, since log lines may stand
/// before the JSON. Where the query failed, the answer is no JSON or holds
/// no entry for the target, the identity is derived from the target alone.
pub open spec fn target_info_of(target: Seq<char>, query_ok: bool, answer: Seq<char>) -> TargetInfoView {
    if query_ok && json_parsed(from_first(answer, '{')) is Some && target_entry(
        json_parsed(from_first(answer, '{'))->0,
        target,
    ) is Some {
        let entry = target_entry(json_parsed(from_first(answer, '{'))->0, target)->0;
        info_from_attributes(target, text_member(entry, "name"@), text_member(entry, "version"@))
    } else {
        info_from_attributes(target, None, None)
    }
}

/// Builds the identity of a target from the attributes reported for it.
pub fn target_info_from_attributes(target: &str, name: Option<&str>, version: Option<&str>) -> (info:
    TargetInfo)
    ensures
        info@ == info_from_attributes(
            target@,
            match name {
                Some(n) => Some(n@),
                None => None,
            },
            match version {
                Some(v) => Some(v@),
                None => None,
            },
        ),
{
    let name = match name {
        Some(n) => String::from_str(n),
        None => last_segment(target, ':'),
    };
    let version = match version {
        Some(v) => String::from_str(v),
        None => String::from_str("unknown"),
    };
    TargetInfo { name, version }
}

fn find_entry<'a>(doc: &'a serde_json::Value, target: &str) -> (entry: Option<&'a serde_json::Value>)
    ensures
        entry is Some <==> target_entry(json_repr(*doc), target@) is Some,
        entry is Some ==> Some(json_repr(*entry->0)) == target_entry(json_repr(*doc), target@),
{
    match get_member(doc, target) {
        Some(entry) => Some(entry),
        None => {
            let mut key = String::from_str("root//");
            let bare = strip_leading_slash_pairs(target);
            key.append(bare.as_str());
            get_member(doc, key.as_str())
        },
    }
}

fn find_text<'a>(entry: &'a serde_json::Value, key: &str) -> (text: Option<&'a str>)
    ensures
        text is Some <==> text_member(json_repr(*entry), key@) is Some,
        text is Some ==> Some(text->0@) == text_member(json_repr(*entry), key@),
{
    match get_member(entry, key) {
        Some(value) => get_text(value),
        None => None,
    }
}

/// Resolves the identity of a target from the build system's answer to the
/// attribute query. It never fails: whatever is missing is derived.
pub fn resolve_target_info(target: &str, query_ok: bool, answer: &str) -> (info: TargetInfo)
    ensures
        info@ == target_info_of(target@, query_ok, answer@),
{
    if !query_ok {
        return target_info_from_attributes(target, None, None);
    }
    let json = suffix_from(answer, '{');
    match parse_json(json.as_str()) {
        Err(_) => target_info_from_attributes(target, None, None),
        Ok(doc) => match find_entry(&doc, target) {
            None => target_info_from_attributes(target, None, None),
            Some(entry) => target_info_from_attributes(
                target,
                find_text(entry, "name"),
                find_text(entry, "version"),
            ),
        },
    }
}

/// The output path that a build report names: the last token of its last
/// line.
pub open spec fn reported_output(report: Seq<char>) -> Option<Seq<char>> {
    match last_line(report) {
        Some(line) => last_token(line),
        None => None,
    }
}

/// Reads the output path from a build report.
pub fn parse_build_output(report: &str) -> (path: Option<String>)
    ensures
        path is Some <==> reported_output(report@) is Some,
        path is Some ==> Some(path->0@) == reported_output(report@),
{
    match final_line(report) {
        Some(line) => final_token(line.as_str()),
        None => None,
    }
}

/// Decides what a build gave: the path of its output, or why there is none.
/// A build that ended with a failure status gives `BuildFailed` whatever
/// it reported; a successful one whose report names no path gives
/// `ParseError`.
pub fn build_outcome(build_ok: bool, report: &str) -> (out: Result<String, PackError>)
    ensures
        !build_ok ==> out == Err::<String, PackError>(PackError::BuildFailed),
        build_ok && reported_output(report@) is None ==> out == Err::<String, PackError>(
            PackError::ParseError,
        ),
        build_ok && reported_output(report@) is Some ==> out is Ok && Some(out->Ok_0@)
            == reported_output(report@),
{
    if !build_ok {
        return Err(PackError::BuildFailed);
    }
    match parse_build_output(report) {
        Some(path) => Ok(path),
        None => Err(PackError::ParseError),
    }
}

/// The package path of a target: what stands between its leading slashes
/// and its first colon.
pub open spec fn package_path_of(target: Seq<char>) -> Seq<char> {
    before_first(without_leading_slash_pairs(target), ':')
}

/// Where the built package of `target` lies below a configuration
/// directory: under the package path, in a directory named after the
/// package between double underscores, in a directory named after the
/// package.
pub open spec fn built_package_dir_of(config_dir: Seq<char>, target: Seq<char>) -> Seq<char> {
    config_dir + "/"@ + package_path_of(target) + "/__"@ + after_last(target, ':') + "__/"@
        + after_last(target, ':')
}

/// The directory below which the build system keeps one directory for each
/// configuration.
pub open spec fn build_output_root() -> Seq<char> {
    "buck-out/v2/gen/root"@
}

/// Names the directory below which built packages are searched.
pub fn output_root() -> (root: String)
    ensures
        root@ == build_output_root(),
{
    String::from_str("buck-out/v2/gen/root")
}

/// Names the place of the built package of `target` below `config_dir`.
pub fn built_package_dir(config_dir: &str, target: &str) -> (dir: String)
    ensures
        dir@ == built_package_dir_of(config_dir@, target@),
{
    let bare = strip_leading_slash_pairs(target);
    let package_path = first_segment(bare.as_str(), ':');
    let name = last_segment(target, ':');
    let mut dir = String::from_str(config_dir);
    dir.append("/");
    dir.append(package_path.as_str());
    dir.append("/__");
    dir.append(name.as_str());
    dir.append("__/");
    dir.append(name.as_str());
    dir
}

/// What was found of one entry of the output root.
#[derive(Debug, Clone, PartialEq, Eq)]
pub struct ConfigDirProbe {
    /// The path of the entry.
    pub path: String,
    /// Whether the entry is a directory.
    pub is_dir: bool,
    /// Whether the place of the built package exists below it.
    pub package_exists: bool,
}

impl ConfigDirProbe {
    /// Whether the entry holds the built package: it is a directory, and
    /// the place of the package exists below it.
    pub open spec fn matches_layout(self) -> bool {
        self.is_dir && self.package_exists
    }
}

/// The place of the first probe that holds a built package; the length of
/// `probes` where none does.
pub open spec fn first_match(probes: Seq<ConfigDirProbe>) -> int
    decreases probes.len(),
{
    if probes.len() == 0 {
        0
    } else if probes[0].matches_layout() {
        0
    } else {
        1 + first_match(probes.drop_first())
    }
}

/// What [`first_match`] finds: no probe before it holds a built package,
/// and it is either the end or a probe that does.
pub proof fn lemma_first_match(probes: Seq<ConfigDirProbe>)
    ensures
        0 <= first_match(probes) <= probes.len(),
        forall|i: int| 0 <= i < first_match(probes) ==> !(#[trigger] probes[i]).matches_layout(),
        first_match(probes) < probes.len() ==> probes[first_match(probes)].matches_layout(),
    decreases probes.len(),
{
    if probes.len() > 0 && !probes[0].matches_layout() {
        let rest = probes.drop_first();
        lemma_first_match(rest);
        assert forall|i: int| 0 <= i < first_match(probes) implies !(
        #[trigger] probes[i]).matches_layout() by {
            if i > 0 {
                assert(probes[i] == rest[i - 1]);
            }
        }
        assert(first_match(probes) < probes.len() ==> probes[first_match(probes)] == rest[first_match(
            rest,
        )]);
    }
}

/// Picks the built package of `target` among the entries of the output
/// root: the first entry, in the order given, that is a directory and holds
/// the place of the package. Where there is none, the output is not found.
pub fn select_built_package(target: &str, probes: &Vec<ConfigDirProbe>) -> (out: Result<
    String,
    PackError,
>)
    ensures
        first_match(probes@) == probes@.len() ==> out == Err::<String, PackError>(
            PackError::OutputNotFound,
        ),
        first_match(probes@) < probes@.len() ==> out is Ok && out->Ok_0@ == built_package_dir_of(
            probes@[first_match(probes@)].path@,
            target@,
        ),
{
    let mut i: usize = 0;
    assert(probes@.skip(0) =~= probes@);
    while i < probes.len()
        invariant
            i <= probes.len(),
            first_match(probes@) == i + first_match(probes@.skip(i as int)),
        decreases probes.len() - i,
    {
        let probe = &probes[i];
        assert(probes@.skip(i as int)[0] == probes@[i as int]);
        if probe.is_dir && probe.package_exists {
            return Ok(built_package_dir(probe.path.as_str(), target));
        }
        assert(probes@.skip(i as int).drop_first() =~= probes@.skip(i as int + 1));
        i = i + 1;
    }
    Err(PackError::OutputNotFound)
}

/// How the output of a target is come by.
#[derive(Debug, Clone, Copy, PartialEq, Eq, Structural)]
pub enum LocateMethod {
    /// The output was built before and is searched below the output root.
    FindBuilt,
    /// The target is built now, and the build reports where the output lies.
    Build,
}

/// The way to the output: a target that is not rebuilt is searched, any
/// other is built.
pub open spec fn locate_method_of(skip_build: bool) -> LocateMethod {
    if skip_build {
        LocateMethod::FindBuilt
    } else {
        LocateMethod::Build
    }
}

/// Chooses between searching for a built output and building the target.
pub fn locate_method(skip_build: bool) -> (method: LocateMethod)
    ensures
        method == locate_method_of(skip_build),
{
    if skip_build {
        LocateMethod::FindBuilt
    } else {
        LocateMethod::Build
    }
}

/// What was seen of the output of a target, by the way that was taken.
pub enum OutputEvidence {
    /// The entries of the output root, as they were probed.
    Probed { probes: Vec<ConfigDirProbe> },
    /// The end of a build: whether it succeeded, and what it reported.
    Built { build_ok: bool, report: String },
}

/// Where the output of `target` lies according to the evidence, or why
/// there is none: a search fails with `OutputNotFound`, a build with
/// `BuildFailed` or, where its report names no path, with `ParseError`.
pub open spec fn located_output(target: Seq<char>, evidence: OutputEvidence) -> Result<
    Seq<char>,
    PackError,
> {
    match evidence {
        OutputEvidence::Probed { probes } => if first_match(probes@) < probes@.len() {
            Ok(built_package_dir_of(probes@[first_match(probes@)].path@, target))
        } else {
            Err(PackError::OutputNotFound)
        },
        OutputEvidence::Built { build_ok, report } => if !build_ok {
            Err(PackError::BuildFailed)
        } else if reported_output(report@) is Some {
            Ok(reported_output(report@)->0)
        } else {
            Err(PackError::ParseError)
        },
    }
}

/// Settles where the output of `target` lies from what was seen of it.
pub fn locate_output(target: &str, evidence: &OutputEvidence) -> (out: Result<String, PackError>)
    ensures
        out is Ok <==> located_output(target@, *evidence) is Ok,
        out is Ok ==> out->Ok_0@ == located_output(target@, *evidence)->Ok_0,
        out is Err ==> out->Err_0 == located_output(target@, *evidence)->Err_0,
{
    proof {
        if let OutputEvidence::Probed { probes } = evidence {
            lemma_first_match(probes@);
        }
    }
    match evidence {
        OutputEvidence::Probed { probes } => select_built_package(target, probes),
        OutputEvidence::Built { build_ok, report } => build_outcome(*build_ok, report.as_str()),
    }
}

} // verus!
