//! The configuration fingerprint: a digest over the compatibility tag, the
//! platform, the feature flags, the toolchain version and the dependency
//! set, in that order. Every lookup is best-effort: one that fails gives its
//! default or is left out, and a fingerprint always results.

use crate::digest::{fingerprint, fingerprint_of};
use crate::text::{first_line, leading_line, trim, trimmed};
use vstd::prelude::*;
use vstd::string::*;
use vstd::utf8::encode_utf8;

verus! {

/// A compiled regular expression of the `regex` crate.
#[verifier::external_type_specification]
#[verifier::external_body]
pub struct ExRegex(regex::Regex);

/// A pattern compiled with the default options of the `regex` crate. Only
/// [`compile_regex`] makes one, so what a pattern matches depends on its
/// text alone.
pub struct Pattern {
    re: regex::Regex,
}

/// The pattern that `re` was compiled from.
pub uninterp spec fn pattern_of(re: regex::Regex) -> Seq<char>;

/// Whether `pattern` is a regular expression that the `regex` crate
/// compiles.
pub uninterp spec fn regex_compiles(pattern: Seq<char>) -> bool;

/// The text that capture group `group` took in the leftmost match of
/// `pattern`, compiled with the default options, in `text`; `None` where the
/// pattern matches nowhere or the group took no part.
pub uninterp spec fn regex_group(pattern: Seq<char>, text: Seq<char>, group: nat) -> Option<
    Seq<char>,
>;

/// `Regex::new` of the `regex` crate, its error dropped: the pattern
/// compiled with the default options, or `None` where it is refused.
#[verifier::external_body]
fn compile_regex(pattern: &str) -> (compiled: Option<Pattern>)
    ensures
        compiled is Some <==> regex_compiles(pattern@),
        compiled is Some ==> pattern_of(compiled->0.re) == pattern@,
{
    regex::Regex::new(pattern).ok().map(|re| Pattern { re })
}

/// `Regex::captures`, then `Captures::get` and `Match::as_str`: the text of
/// one capture group of the leftmost match, copied into a string.
#[verifier::external_body]
fn capture_group(pattern: &Pattern, text: &str, group: usize) -> (found: Option<String>)
    ensures
        found is Some <==> regex_group(pattern_of(pattern.re), text@, group as nat) is Some,
        found is Some ==> Some(found->0@) == regex_group(
            pattern_of(pattern.re),
            text@,
            group as nat,
        ),
{
    pattern.re.captures(text).and_then(|caps| caps.get(group)).map(|m| m.as_str().to_string())
}

/// What came of looking a source up.
#[derive(Debug, Clone, PartialEq, Eq)]
pub enum Lookup {
    /// The source does not exist.
    Absent,
    /// The source exists and could not be read.
    Unreadable,
    /// The source was read, and this is what it holds.
    Found(String),
}

/// What came of asking a program for the platform. Only a run that started
/// and ended well has found something; one that could not be started is
/// absent, and one that started and failed is unreadable.
pub open spec fn platform_lookup_of(started: bool, succeeded: bool, output: Seq<char>) -> Option<
    Seq<char>,
> {
    if started && succeeded {
        Some(output)
    } else {
        None
    }
}

/// What came of asking the toolchain for its version. A toolchain that can
/// be invoked has reported, however the run ended.
pub open spec fn toolchain_lookup_of(started: bool, output: Seq<char>) -> Option<Seq<char>> {
    if started {
        Some(output)
    } else {
        None
    }
}

/// The dependency report that counts: the output of the dependency query,
/// where the target is rebuilt and the query started and ended well.
pub open spec fn dependency_report_of(
    skip_build: bool,
    started: bool,
    succeeded: bool,
    output: Seq<u8>,
) -> Option<Seq<u8>> {
    if !skip_build && started && succeeded {
        Some(output)
    } else {
        None
    }
}

/// Judges the run of the platform query.
pub fn platform_lookup(started: bool, succeeded: bool, output: String) -> (lookup: Lookup)
    ensures
        lookup.found() == platform_lookup_of(started, succeeded, output@),
        !started ==> lookup == Lookup::Absent,
        started && !succeeded ==> lookup == Lookup::Unreadable,
{
    if !started {
        Lookup::Absent
    } else if !succeeded {
        Lookup::Unreadable
    } else {
        Lookup::Found(output)
    }
}

/// Judges the run of the toolchain's version report.
pub fn toolchain_lookup(started: bool, output: String) -> (lookup: Lookup)
    ensures
        lookup.found() == toolchain_lookup_of(started, output@),
        !started ==> lookup == Lookup::Absent,
{
    if started {
        Lookup::Found(output)
    } else {
        Lookup::Absent
    }
}

/// Judges the run of the dependency query.
pub fn dependency_report(skip_build: bool, started: bool, succeeded: bool, output: Vec<u8>) -> (report:
    Option<Vec<u8>>)
    ensures
        report is Some <==> dependency_report_of(skip_build, started, succeeded, output@) is Some,
        report is Some ==> Some(report->0@) == dependency_report_of(
            skip_build,
            started,
            succeeded,
            output@,
        ),
{
    if !skip_build && started && succeeded {
        Some(output)
    } else {
        None
    }
}

impl Lookup {
    /// What the lookup found, if anything. A source that is absent and one
    /// that cannot be read count the same.
    pub open spec fn found(self) -> Option<Seq<char>> {
        match self {
            Lookup::Found(content) => Some(content@),
            _ => None,
        }
    }
}

/// The sources that the configuration fingerprint is made from.
#[derive(Debug, Clone, PartialEq, Eq)]
pub struct ConfigSources {
    /// The project configuration that declares the compatibility tag.
    pub package_config: Lookup,
    /// What the operating system reports as the machine's architecture.
    pub platform: Lookup,
    /// The configuration that declares the feature flags.
    pub use_config: Lookup,
    /// The version report of the toolchain.
    pub toolchain_report: Lookup,
    /// The build system's list of the target's dependencies, as it came.
    pub dependency_report: Option<Vec<u8>>,
}

/// The pattern that finds the compatibility tag.
pub open spec fn compat_pattern() -> Seq<char> {
    "PACKAGE_COMPAT\\s*=\\s*[\"'](\\w+)[\"']"@
}

/// The pattern that finds the feature flags.
pub open spec fn use_flags_pattern() -> Seq<char> {
    "INSTALL_USE_FLAGS\\s*=\\s*\\[(.*?)\\]"@
}

/// The first capture group of `pattern` in what the lookup found.
pub open spec fn captured(pattern: Seq<char>, source: Lookup) -> Option<Seq<char>> {
    if source.found() is Some && regex_compiles(pattern) {
        regex_group(pattern, source.found()->0, 1)
    } else {
        None
    }
}

/// The compatibility tag that the package configuration declares, if any.
pub open spec fn compat_tag(sources: ConfigSources) -> Option<Seq<char>> {
    captured(compat_pattern(), sources.package_config)
}

/// The platform identifier: what the operating system reported, trimmed.
pub open spec fn platform_id(sources: ConfigSources) -> Option<Seq<char>> {
    match sources.platform.found() {
        Some(raw) => Some(trimmed(raw)),
        None => None,
    }
}

/// The feature flags that the configuration declares, if any.
pub open spec fn use_flags(sources: ConfigSources) -> Option<Seq<char>> {
    captured(use_flags_pattern(), sources.use_config)
}

/// The toolchain version: the first line of its version report.
pub open spec fn toolchain_version(sources: ConfigSources) -> Option<Seq<char>> {
    match sources.toolchain_report.found() {
        Some(report) => first_line(report),
        None => None,
    }
}

/// The digest of the dependency report. It counts only when the target is
/// rebuilt.
pub open spec fn dependency_digest(sources: ConfigSources, skip_build: bool) -> Option<Seq<char>> {
    match sources.dependency_report {
        Some(report) if !skip_build => Some(fingerprint_of(report@)),
        _ => None,
    }
}

/// `parts` with `label` and `value` behind it, where there is a value.
pub open spec fn with_component(parts: Seq<Seq<char>>, label: Seq<char>, value: Option<Seq<char>>) -> Seq<
    Seq<char>,
> {
    match value {
        Some(v) => parts.push(label + v),
        None => parts,
    }
}

/// The components of the configuration, in their fixed order: the
/// compatibility tag and the platform always, each with its default; the
/// feature flags, the toolchain version and the dependency digest where
/// they are known.
pub open spec fn components_of(
    compat: Option<Seq<char>>,
    platform: Option<Seq<char>>,
    flags: Option<Seq<char>>,
    toolchain: Option<Seq<char>>,
    dependencies: Option<Seq<char>>,
) -> Seq<Seq<char>> {
    let compat = match compat {
        Some(tag) => tag,
        None => "buckos"@,
    };
    let platform = match platform {
        Some(id) => id,
        None => "unknown"@,
    };
    with_component(
        with_component(
            with_component(seq!["compat:"@ + compat, "platform:"@ + platform], "use:"@, flags),
            "gcc:"@,
            toolchain,
        ),
        "deps:"@,
        dependencies,
    )
}

/// The parts with `separator` between each two neighbours.
pub open spec fn joined(parts: Seq<Seq<char>>, separator: Seq<char>) -> Seq<char>
    decreases parts.len(),
{
    if parts.len() == 0 {
        Seq::empty()
    } else if parts.len() == 1 {
        parts[0]
    } else {
        joined(parts.drop_last(), separator) + separator + parts.last()
    }
}

/// The text that is hashed: the components, with a bar between them.
pub open spec fn config_string_of(sources: ConfigSources, skip_build: bool) -> Seq<char> {
    joined(
        components_of(
            compat_tag(sources),
            platform_id(sources),
            use_flags(sources),
            toolchain_version(sources),
            dependency_digest(sources, skip_build),
        ),
        "|"@,
    )
}

/// The configuration fingerprint: the fingerprint of the UTF-8 bytes of the
/// configuration string.
pub open spec fn config_fingerprint_of(sources: ConfigSources, skip_build: bool) -> Seq<char> {
    fingerprint_of(encode_utf8(config_string_of(sources, skip_build)))
}

/// The views of the strings of a vector.
pub open spec fn texts_of(parts: Seq<String>) -> Seq<Seq<char>> {
    parts.map_values(|s: String| s@)
}

fn push_component(parts: &mut Vec<String>, label: &str, value: Option<&str>)
    ensures
        texts_of(final(parts)@) == with_component(
            texts_of(old(parts)@),
            label@,
            match value {
                Some(v) => Some(v@),
                None => None,
            },
        ),
{
    match value {
        Some(v) => {
            let mut part = String::from_str(label);
            part.append(v);
            parts.push(part);
            assert(texts_of(parts@) =~= texts_of(old(parts)@).push(label@ + v@));
        },
        None => {},
    }
}

/// Lists the components of the configuration from what the lookups gave.
pub fn config_components(
    compat: Option<&str>,
    platform: Option<&str>,
    flags: Option<&str>,
    toolchain: Option<&str>,
    dependencies: Option<&str>,
) -> (parts: Vec<String>)
    ensures
        texts_of(parts@) == components_of(
            match compat {
                Some(v) => Some(v@),
                None => None,
            },
            match platform {
                Some(v) => Some(v@),
                None => None,
            },
            match flags {
                Some(v) => Some(v@),
                None => None,
            },
            match toolchain {
                Some(v) => Some(v@),
                None => None,
            },
            match dependencies {
                Some(v) => Some(v@),
                None => None,
            },
        ),
{
    let mut parts: Vec<String> = Vec::new();
    let mut first = String::from_str("compat:");
    match compat {
        Some(tag) => first.append(tag),
        None => first.append("buckos"),
    }
    let mut second = String::from_str("platform:");
    match platform {
        Some(id) => second.append(id),
        None => second.append("unknown"),
    }
    parts.push(first);
    parts.push(second);
    assert(texts_of(parts@) =~= seq![first@, second@]);
    push_component(&mut parts, "use:", flags);
    push_component(&mut parts, "gcc:", toolchain);
    push_component(&mut parts, "deps:", dependencies);
    parts
}

/// Joins the parts with `separator` between them.
pub fn join(parts: &Vec<String>, separator: &str) -> (out: String)
    ensures
        out@ == joined(texts_of(parts@), separator@),
{
    let mut out = String::new();
    let mut i: usize = 0;
    assert(texts_of(parts@).take(0) =~= Seq::<Seq<char>>::empty());
    while i < parts.len()
        invariant
            i <= parts.len(),
            out@ == joined(texts_of(parts@).take(i as int), separator@),
        decreases parts.len() - i,
    {
        proof {
            let longer = texts_of(parts@).take(i as int + 1);
            assert(longer.drop_last() =~= texts_of(parts@).take(i as int));
            assert(longer.last() == parts@[i as int]@);
        }
        if i > 0 {
            out.append(separator);
        } else {
            assert(Seq::<char>::empty() + parts@[0]@ =~= parts@[0]@);
        }
        out.append(parts[i].as_str());
        i = i + 1;
    }
    assert(texts_of(parts@).take(i as int) =~= texts_of(parts@));
    out
}

/// The fingerprint of a list of components.
pub fn fingerprint_components(parts: &Vec<String>) -> (out: String)
    ensures
        out@ == fingerprint_of(encode_utf8(joined(texts_of(parts@), "|"@))),
        out@.len() == 16,
{
    let text = join(parts, "|");
    fingerprint(text.as_str().as_bytes())
}

fn capture_first(pattern: &str, source: &Lookup) -> (found: Option<String>)
    ensures
        found is Some <==> captured(pattern@, *source) is Some,
        found is Some ==> Some(found->0@) == captured(pattern@, *source),
{
    match source {
        Lookup::Found(content) => match compile_regex(pattern) {
            Some(compiled) => capture_group(&compiled, content.as_str(), 1),
            None => None,
        },
        _ => None,
    }
}

fn as_slice_option(value: &Option<String>) -> (out: Option<&str>)
    ensures
        out is Some <==> value is Some,
        out is Some ==> out->0@ == value->0@,
{
    match value {
        Some(s) => Some(s.as_str()),
        None => None,
    }
}

/// Computes the configuration fingerprint of a target. With `skip_build`
/// the dependency report is left out of it.
pub fn config_fingerprint(sources: &ConfigSources, skip_build: bool) -> (out: String)
    ensures
        out@ == config_fingerprint_of(*sources, skip_build),
        out@.len() == 16,
{
    let compat = capture_first("PACKAGE_COMPAT\\s*=\\s*[\"'](\\w+)[\"']", &sources.package_config);
    let platform = match &sources.platform {
        Lookup::Found(raw) => Some(trim(raw.as_str())),
        _ => None,
    };
    let flags = capture_first("INSTALL_USE_FLAGS\\s*=\\s*\\[(.*?)\\]", &sources.use_config);
    let toolchain = match &sources.toolchain_report {
        Lookup::Found(report) => leading_line(report.as_str()),
        _ => None,
    };
    let dependencies = match &sources.dependency_report {
        Some(report) => if skip_build {
            None
        } else {
            Some(fingerprint(report.as_slice()))
        },
        None => None,
    };
    let parts = config_components(
        as_slice_option(&compat),
        as_slice_option(&platform),
        as_slice_option(&flags),
        as_slice_option(&toolchain),
        as_slice_option(&dependencies),
    );
    fingerprint_components(&parts)
}

/// A source that cannot be read counts as one that is not there: the
/// fingerprint is the same whichever of the two a lookup reports.
pub proof fn lemma_unreadable_as_absent(a: ConfigSources, b: ConfigSources, skip_build: bool)
    requires
        a.package_config.found() == b.package_config.found(),
        a.platform.found() == b.platform.found(),
        a.use_config.found() == b.use_config.found(),
        a.toolchain_report.found() == b.toolchain_report.found(),
        a.dependency_report == b.dependency_report,
    ensures
        config_fingerprint_of(a, skip_build) == config_fingerprint_of(b, skip_build),
{
}

/// A platform that cannot be asked and one that answers with a failure
/// count the same: neither is available, and the platform is unknown.
pub proof fn lemma_failed_platform_is_unknown(
    sources: ConfigSources,
    other: ConfigSources,
    output: Seq<char>,
    skip_build: bool,
)
    requires
        sources.platform.found() == platform_lookup_of(false, false, output),
        other.platform.found() == platform_lookup_of(true, false, output),
        sources.package_config.found() == other.package_config.found(),
        sources.use_config.found() == other.use_config.found(),
        sources.toolchain_report.found() == other.toolchain_report.found(),
        sources.dependency_report == other.dependency_report,
    ensures
        platform_id(sources) is None,
        platform_id(other) is None,
        config_fingerprint_of(sources, skip_build) == config_fingerprint_of(other, skip_build),
{
}

} // verus!
