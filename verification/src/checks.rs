//! The rules. Each rule looks for one known failure in the text of a log, or
//! in what is known of the log's origin, and reports it if it is there. A rule
//! takes the text and the context and returns one finding or none; it keeps
//! nothing between calls and changes neither.

use crate::environment::{ContextView, EnvironmentContext, Launcher};
use crate::java_version::{java_version_of, match_java_classfile_version};
use crate::pattern::{
    first_group, first_match, grab, grab_all, group, pattern_views, Captures,
};
use crate::report::{report_view, CheckReport, ReportView};
use crate::severity::Severity;
use vstd::prelude::*;

verus! {

/// The head of a crash report: the line of context and the first line of
/// the error that follows it.
pub const CRASH_REPORT: &'static str =
    r"---- Minecraft Crash Report ----\n// .+\n\nTime: .+\nDescription: (.+)\n\n(.+)\n";

/// A mod that needs another mod in a range of versions.
pub const DEPENDENCY_BETWEEN: &'static str =
    r"Mod '(.+)' \(\S+\)(?: \S+)? requires any version between \S+ and \S+ of (.+), which is missing!";

/// A mod that needs another mod in some version or a later one.
pub const DEPENDENCY_OR_LATER: &'static str =
    r"Mod '(.+)' \(\S+\)(?: \S+)? requires version \S+ or later of (.+), which is missing!";

/// A mod that needs another mod in any version.
pub const DEPENDENCY_ANY: &'static str =
    r"Mod '(.+)' \(\S+\)(?: \S+)? requires any version of (.+), which is missing!";

/// A mixin whose injection found no target.
pub const MIXIN_INJECTION: &'static str =
    r"InvalidInjectionException: Critical injection failure: @Inject annotation on \S+ could not find any targets matching '.+' in \S+\. Using refmap \S+ \[PREINJECT Applicator Phase \-> \S+:(\w+) from mod (\w+)";

/// A mixin whose accessor found no candidate.
pub const MIXIN_ACCESSOR: &'static str =
    r"InvalidAccessorException: No candidates were found matching \S+ in \S+ for \S+:(\w+) from mod (\w+)";

/// A mixin that could not be applied.
pub const MIXIN_APPLY: &'static str =
    r"MixinApplyError: Mixin \[\S+\.mixins\.json:\S+ from mod (\S+)\] from phase \[\S+\] in config \[\S+\.mixins\.json\] FAILED during \S+";

/// An entrypoint that failed.
pub const ENTRYPOINT: &'static str =
    r"RuntimeException: Could not execute entrypoint stage '\S+' due to errors, provided by '(\S+)'!";

/// The launcher's advice to replace a Java installation.
pub const JAVA_REPLACE: &'static str =
    r"- Replace '.+' \(java\) ([0-9]+) with version ([0-9]+) or later\.";

/// A class file that is too recent for the Java runtime in use.
pub const JAVA_CLASS_VERSION: &'static str =
    r"UnsupportedClassVersionError: \S+ has been compiled by a more recent version of the Java Runtime \(class file version (\S+)\), this version of the Java Runtime only recognizes class file versions up to (\S+)";

/// A field that is not there at run time.
pub const NO_SUCH_FIELD: &'static str = r"java\.lang\.NoSuchFieldError";

/// A mod that declares itself incompatible with OptiFabric.
pub const OPTIFABRIC_INCOMPATIBLE: &'static str =
    r"Mod '.+' \(\S+\) \S+ is incompatible with any version of mod '.+' \(optifabric\)";

/// A class of OptiFabric.
pub const OPTIFABRIC_PACKAGE: &'static str = r"me\.modmuss50\.optifabric";

/// A renderer that is asked for and is not there.
pub const RENDERER_MISSING: &'static str =
    r#"because the return value of "net\.fabricmc\.fabric\.api\.renderer\.v1\.RendererAccess\.getRenderer\(\)" is null"#;

/// The identifier of OptiFabric among the known mods.
pub const OPTIFABRIC_ID: &'static str = "optifabric";

/// The identifier of BCLib among the known mods.
pub const BCLIB_ID: &'static str = "bclib";

/// The finding for the head of a crash report.
pub open spec fn crash_summary(description: Seq<char>, error: Seq<char>) -> ReportView {
    ReportView {
        title: "Crash report analysis"@,
        description: "Context: `"@ + description + "`\n```\n"@ + error + "\n```"@,
        severity: Severity::Info,
    }
}

/// The finding for a crash report of which the groups were caught: none
/// where the description or the error is not among them.
pub open spec fn crash_summary_of(groups: Seq<Option<Seq<char>>>) -> Option<ReportView> {
    match (group(groups, 1), group(groups, 2)) {
        (Some(description), Some(error)) => Some(crash_summary(description, error)),
        _ => None,
    }
}

/// What `crash_report_analysis` finds in a log.
pub open spec fn crash_report_analysis_finding(log: Seq<char>) -> Option<ReportView> {
    match first_match(seq![CRASH_REPORT@], log) {
        Some(groups) => crash_summary_of(groups),
        None => None,
    }
}

/// Reports the head of a crash report from the groups of its match.
pub fn report_crash_summary(caps: &Captures) -> (report: Option<CheckReport>)
    ensures
        report_view(report) == crash_summary_of(caps@),
{
    match (caps.get(1), caps.get(2)) {
        (Some(description), Some(error)) => Some(
            CheckReport {
                title: String::from_str("Crash report analysis"),
                description: String::from_str("Context: `").concat(description).concat(
                    "`\n```\n",
                ).concat(error).concat("\n```"),
                severity: Severity::Info,
            },
        ),
        _ => None,
    }
}

/// Finds the head of a crash report and quotes its line of context and the
/// first line of the error.
pub fn crash_report_analysis(log: &str, _ctx: &EnvironmentContext) -> (report: Option<CheckReport>)
    ensures
        report_view(report) == crash_report_analysis_finding(log@),
{
    let patterns = [CRASH_REPORT];
    proof {
        assert(pattern_views(patterns@) =~= seq![CRASH_REPORT@]);
    }
    match grab_all(log, &patterns) {
        Some(caps) => report_crash_summary(&caps),
        None => None,
    }
}

/// The alternative wordings of a missing dependency, in the order in which
/// they are tried.
pub open spec fn dependency_patterns() -> Seq<Seq<char>> {
    seq![DEPENDENCY_BETWEEN@, DEPENDENCY_OR_LATER@, DEPENDENCY_ANY@]
}

/// The finding for a mod that needs a mod that is not installed.
pub open spec fn missing_dependency(dependent: Seq<char>, dependency: Seq<char>) -> ReportView {
    ReportView {
        title: "Missing dependency"@,
        description: "The `"@ + dependent + "` mod needs `"@ + dependency
            + "` to be installed, but it is missing."@,
        severity: Severity::High,
    }
}

/// The finding for a missing dependency of which the groups were caught:
/// none where the dependent or the dependency is not among them.
pub open spec fn missing_dependency_of(groups: Seq<Option<Seq<char>>>) -> Option<ReportView> {
    match (group(groups, 1), group(groups, 2)) {
        (Some(dependent), Some(dependency)) => Some(missing_dependency(dependent, dependency)),
        _ => None,
    }
}

/// What `dependency_generic` finds in a log.
pub open spec fn dependency_generic_finding(log: Seq<char>) -> Option<ReportView> {
    match first_match(dependency_patterns(), log) {
        Some(groups) => missing_dependency_of(groups),
        None => None,
    }
}

/// Reports a missing dependency from the groups of its match.
pub fn report_missing_dependency(caps: &Captures) -> (report: Option<CheckReport>)
    ensures
        report_view(report) == missing_dependency_of(caps@),
{
    match (caps.get(1), caps.get(2)) {
        (Some(dependent), Some(dependency)) => Some(
            CheckReport {
                title: String::from_str("Missing dependency"),
                description: String::from_str("The `").concat(dependent).concat(
                    "` mod needs `",
                ).concat(dependency).concat("` to be installed, but it is missing."),
                severity: Severity::High,
            },
        ),
        _ => None,
    }
}

/// Finds a mod that needs a mod that is not installed, in any of the three
/// wordings of that complaint.
pub fn dependency_generic(log: &str, _ctx: &EnvironmentContext) -> (report: Option<CheckReport>)
    ensures
        report_view(report) == dependency_generic_finding(log@),
{
    let patterns = [DEPENDENCY_BETWEEN, DEPENDENCY_OR_LATER, DEPENDENCY_ANY];
    proof {
        assert(pattern_views(patterns@) =~= dependency_patterns());
    }
    match grab_all(log, &patterns) {
        Some(caps) => report_missing_dependency(&caps),
        None => None,
    }
}

/// The alternative wordings of a mixin that found nothing to work on, in the
/// order in which they are tried.
pub open spec fn mixin_target_patterns() -> Seq<Seq<char>> {
    seq![MIXIN_INJECTION@, MIXIN_ACCESSOR@]
}

/// The finding for a mixin that found nothing to work on.
pub open spec fn mixin_inject_failed(mixin: Seq<char>, mod_id: Seq<char>) -> ReportView {
    ReportView {
        title: "Mixin inject failed"@,
        description: "Mixin `"@ + mixin + "` from mod `"@ + mod_id
            + "` has failed. It is possible that `"@ + mod_id
            + "` is not compatible with this Minecraft version, consider double-checking its version."@,
        severity: Severity::High,
    }
}

/// The finding for such a mixin of which the groups were caught: none where
/// the mixin or its mod is not among them.
pub open spec fn mixin_inject_failed_of(groups: Seq<Option<Seq<char>>>) -> Option<ReportView> {
    match (group(groups, 1), group(groups, 2)) {
        (Some(mixin), Some(mod_id)) => Some(mixin_inject_failed(mixin, mod_id)),
        _ => None,
    }
}

/// The finding for a mixin that could not be applied.
pub open spec fn mixin_error(mod_id: Seq<char>) -> ReportView {
    ReportView {
        title: "Mixin error"@,
        description: "The mod `"@ + mod_id
            + "` has encountered a mixin error, this may be caused by a mismatch in Minecraft version or a mod incompatibility. Further investigation is required."@,
        severity: Severity::High,
    }
}

/// The finding for an entrypoint that failed.
pub open spec fn entrypoint_error(mod_id: Seq<char>) -> ReportView {
    ReportView {
        title: "Entrypoint error"@,
        description: "The mod `"@ + mod_id
            + "` has encountered an error in it's entrypoint, though it may not have caused it. Further investigation is required."@,
        severity: Severity::High,
    }
}

/// What `crash_generic` finds in a log. Its three symptoms are looked for in
/// turn and the first that is there decides: a mixin without a target, then
/// a mixin that could not be applied, then an entrypoint that failed. A
/// symptom of the second or third kind whose mod was not caught counts as
/// not there.
pub open spec fn crash_generic_finding(log: Seq<char>) -> Option<ReportView> {
    match first_match(mixin_target_patterns(), log) {
        Some(groups) => mixin_inject_failed_of(groups),
        None => match first_group(first_match(seq![MIXIN_APPLY@], log)) {
            Some(Some(mod_id)) => Some(mixin_error(mod_id)),
            _ => match first_group(first_match(seq![ENTRYPOINT@], log)) {
                Some(Some(mod_id)) => Some(entrypoint_error(mod_id)),
                _ => None,
            },
        },
    }
}

/// Reports a mixin that found nothing to work on from the groups of its match.
pub fn report_mixin_inject_failed(caps: &Captures) -> (report: Option<CheckReport>)
    ensures
        report_view(report) == mixin_inject_failed_of(caps@),
{
    match (caps.get(1), caps.get(2)) {
        (Some(mixin), Some(mod_id)) => Some(
            CheckReport {
                title: String::from_str("Mixin inject failed"),
                description: String::from_str("Mixin `").concat(mixin).concat(
                    "` from mod `",
                ).concat(mod_id).concat("` has failed. It is possible that `").concat(
                    mod_id,
                ).concat(
                    "` is not compatible with this Minecraft version, consider double-checking its version.",
                ),
                severity: Severity::High,
            },
        ),
        _ => None,
    }
}

/// Reports a mixin of the given mod that could not be applied.
pub fn report_mixin_error(mod_id: &str) -> (report: CheckReport)
    ensures
        report@ == mixin_error(mod_id@),
{
    CheckReport {
        title: String::from_str("Mixin error"),
        description: String::from_str("The mod `").concat(mod_id).concat(
            "` has encountered a mixin error, this may be caused by a mismatch in Minecraft version or a mod incompatibility. Further investigation is required.",
        ),
        severity: Severity::High,
    }
}

/// Reports an entrypoint of the given mod that failed.
pub fn report_entrypoint_error(mod_id: &str) -> (report: CheckReport)
    ensures
        report@ == entrypoint_error(mod_id@),
{
    CheckReport {
        title: String::from_str("Entrypoint error"),
        description: String::from_str("The mod `").concat(mod_id).concat(
            "` has encountered an error in it's entrypoint, though it may not have caused it. Further investigation is required.",
        ),
        severity: Severity::High,
    }
}

/// Finds a mod that failed while the game started: through a mixin without
/// a target, a mixin that could not be applied, or an entrypoint.
pub fn crash_generic(log: &str, _ctx: &EnvironmentContext) -> (report: Option<CheckReport>)
    ensures
        report_view(report) == crash_generic_finding(log@),
{
    let targets = [MIXIN_INJECTION, MIXIN_ACCESSOR];
    let apply = [MIXIN_APPLY];
    let entrypoint = [ENTRYPOINT];
    proof {
        assert(pattern_views(targets@) =~= mixin_target_patterns());
        assert(pattern_views(apply@) =~= seq![MIXIN_APPLY@]);
        assert(pattern_views(entrypoint@) =~= seq![ENTRYPOINT@]);
    }
    if let Some(caps) = grab_all(log, &targets) {
        return report_mixin_inject_failed(&caps);
    }
    if let Some(Some(mod_id)) = grab(log, &apply) {
        return Some(report_mixin_error(mod_id.as_str()));
    }
    if let Some(Some(mod_id)) = grab(log, &entrypoint) {
        return Some(report_entrypoint_error(mod_id.as_str()));
    }
    None
}

/// The finding for a Java release that is older than the one needed.
pub open spec fn java_mismatch(need: Seq<char>, has: Seq<char>) -> ReportView {
    ReportView {
        title: "Incorrect Java version"@,
        description: "A mod or Minecraft itself requires Java "@ + need
            + " to be used, but an older version, Java "@ + has
            + " is being used instead. You may have to [download](https://adoptium.net/temurin/releases/?version="@
            + need + ") a newer Java version and/or select it in your launcher."@,
        severity: Severity::High,
    }
}

/// The finding for a Java release that is not the one needed, where it is
/// not known which releases are meant.
pub open spec fn java_mismatch_unnamed() -> ReportView {
    ReportView {
        title: "Incorrect Java version"@,
        description: "A mod or Minecraft itself requires a different version of Java from the one that is available. You may have to [download](https://adoptium.net/temurin/releases/) a newer Java version and/or select it in your launcher."@,
        severity: Severity::High,
    }
}

/// The finding for the launcher's advice to replace Java, of which the
/// groups were caught: the first is the release in use, the second the one
/// needed. None where either is not among them.
pub open spec fn java_replace_of(groups: Seq<Option<Seq<char>>>) -> Option<ReportView> {
    match (group(groups, 1), group(groups, 2)) {
        (Some(has), Some(need)) => Some(java_mismatch(need, has)),
        _ => None,
    }
}

/// The finding for a class file that is too recent, of which the groups
/// were caught: the first is the version of the class file, the second the
/// latest version that the runtime reads. Where both versions have a
/// release the finding names both, else it names none. There is no finding
/// where either version is not among the groups.
pub open spec fn class_version_of(groups: Seq<Option<Seq<char>>>) -> Option<ReportView> {
    match (group(groups, 1), group(groups, 2)) {
        (Some(compiled), Some(recognized)) => Some(
            match (java_version_of(compiled), java_version_of(recognized)) {
                (Some(need), Some(has)) => java_mismatch(need, has),
                _ => java_mismatch_unnamed(),
            },
        ),
        _ => None,
    }
}

/// A class file version without a known release does not silence the
/// finding: where both versions were caught and either has no release, the
/// finding is the one that names no release, at the same severity.
pub proof fn lemma_unknown_release_degrades(groups: Seq<Option<Seq<char>>>)
    requires
        group(groups, 1) is Some,
        group(groups, 2) is Some,
        java_version_of(group(groups, 1).unwrap()) is None || java_version_of(
            group(groups, 2).unwrap(),
        ) is None,
    ensures
        class_version_of(groups) == Some(java_mismatch_unnamed()),
        java_mismatch_unnamed().severity == Severity::High,
{
}

/// What `java` finds in a log: the launcher's advice if it is there, else a
/// class file that is too recent.
pub open spec fn java_finding(log: Seq<char>) -> Option<ReportView> {
    match first_match(seq![JAVA_REPLACE@], log) {
        Some(groups) => java_replace_of(groups),
        None => match first_match(seq![JAVA_CLASS_VERSION@], log) {
            Some(groups) => class_version_of(groups),
            None => None,
        },
    }
}

/// Reports that the release `need` of Java is needed where `has` is in use.
pub fn report_java_mismatch(need: &str, has: &str) -> (report: CheckReport)
    ensures
        report@ == java_mismatch(need@, has@),
{
    CheckReport {
        title: String::from_str("Incorrect Java version"),
        description: String::from_str("A mod or Minecraft itself requires Java ").concat(
            need,
        ).concat(" to be used, but an older version, Java ").concat(has).concat(
            " is being used instead. You may have to [download](https://adoptium.net/temurin/releases/?version=",
        ).concat(need).concat(") a newer Java version and/or select it in your launcher."),
        severity: Severity::High,
    }
}

/// Reports that another release of Java is needed, without naming one.
pub fn report_java_mismatch_unnamed() -> (report: CheckReport)
    ensures
        report@ == java_mismatch_unnamed(),
{
    CheckReport {
        title: String::from_str("Incorrect Java version"),
        description: String::from_str(
            "A mod or Minecraft itself requires a different version of Java from the one that is available. You may have to [download](https://adoptium.net/temurin/releases/) a newer Java version and/or select it in your launcher.",
        ),
        severity: Severity::High,
    }
}

/// Reports the launcher's advice to replace Java from the groups of its match.
pub fn report_java_replace(caps: &Captures) -> (report: Option<CheckReport>)
    ensures
        report_view(report) == java_replace_of(caps@),
{
    match (caps.get(1), caps.get(2)) {
        (Some(has), Some(need)) => Some(report_java_mismatch(need, has)),
        _ => None,
    }
}

/// Reports a class file that is too recent from the groups of its match.
pub fn report_class_version(caps: &Captures) -> (report: Option<CheckReport>)
    ensures
        report_view(report) == class_version_of(caps@),
{
    match (caps.get(1), caps.get(2)) {
        (Some(compiled), Some(recognized)) => {
            let need = match_java_classfile_version(compiled);
            let has = match_java_classfile_version(recognized);
            match (need, has) {
                (Some(need), Some(has)) => Some(report_java_mismatch(need, has)),
                _ => Some(report_java_mismatch_unnamed()),
            }
        },
        _ => None,
    }
}

/// Finds a Java release that is too old for the game or for a mod.
pub fn java(log: &str, _ctx: &EnvironmentContext) -> (report: Option<CheckReport>)
    ensures
        report_view(report) == java_finding(log@),
{
    let replace = [JAVA_REPLACE];
    let class_version = [JAVA_CLASS_VERSION];
    proof {
        assert(pattern_views(replace@) =~= seq![JAVA_REPLACE@]);
        assert(pattern_views(class_version@) =~= seq![JAVA_CLASS_VERSION@]);
    }
    if let Some(caps) = grab_all(log, &replace) {
        return report_java_replace(&caps);
    }
    if let Some(caps) = grab_all(log, &class_version) {
        return report_class_version(&caps);
    }
    None
}

/// The finding for a field that is not there at run time.
pub open spec fn field_missing() -> ReportView {
    ReportView {
        title: "Field missing error"@,
        description: "On the logical server some fields may be deleted by Fabric Loader when a mod defines them as client-only. Since this feature was broken before loader `0.15`, some mods may have implemented it incorrectly. See if there's an update for the mod in question, or try downgrading Fabric Loader."@,
        severity: Severity::High,
    }
}

/// What `missing_field` finds in a log.
pub open spec fn missing_field_finding(log: Seq<char>) -> Option<ReportView> {
    if first_match(seq![NO_SUCH_FIELD@], log) is Some {
        Some(field_missing())
    } else {
        None
    }
}

/// Reports a field that is not there at run time.
pub fn report_field_missing() -> (report: CheckReport)
    ensures
        report@ == field_missing(),
{
    CheckReport {
        title: String::from_str("Field missing error"),
        description: String::from_str(
            "On the logical server some fields may be deleted by Fabric Loader when a mod defines them as client-only. Since this feature was broken before loader `0.15`, some mods may have implemented it incorrectly. See if there's an update for the mod in question, or try downgrading Fabric Loader.",
        ),
        severity: Severity::High,
    }
}

/// Finds a field that is not there at run time.
pub fn missing_field(log: &str, _ctx: &EnvironmentContext) -> (report: Option<CheckReport>)
    ensures
        report_view(report) == missing_field_finding(log@),
{
    let patterns = [NO_SUCH_FIELD];
    proof {
        assert(pattern_views(patterns@) =~= seq![NO_SUCH_FIELD@]);
    }
    if grab_all(log, &patterns).is_some() {
        Some(report_field_missing())
    } else {
        None
    }
}

/// The finding for a log that PolyMC wrote.
pub open spec fn polymc_detected() -> ReportView {
    ReportView {
        title: "PolyMC Detected"@,
        description: "PolyMC is an outdated launcher maintained by a queerphobic team. Consider switching to [Prism Launcher](https://prismlauncher.org/), a fork with more features and better support."@,
        severity: Severity::Medium,
    }
}

/// What `polymc` finds in a context. An unknown launcher is not PolyMC.
pub open spec fn polymc_finding(ctx: ContextView) -> Option<ReportView> {
    if ctx.launcher == Some(Launcher::PolyMC) {
        Some(polymc_detected())
    } else {
        None
    }
}

/// Reports a log that PolyMC wrote.
pub fn report_polymc_detected() -> (report: CheckReport)
    ensures
        report@ == polymc_detected(),
{
    CheckReport {
        title: String::from_str("PolyMC Detected"),
        description: String::from_str(
            "PolyMC is an outdated launcher maintained by a queerphobic team. Consider switching to [Prism Launcher](https://prismlauncher.org/), a fork with more features and better support.",
        ),
        severity: Severity::Medium,
    }
}

/// Finds that the launcher is PolyMC. The text of the log is not read.
pub fn polymc(_log: &str, ctx: &EnvironmentContext) -> (report: Option<CheckReport>)
    ensures
        report_view(report) == polymc_finding(ctx@),
{
    match ctx.launcher() {
        Some(Launcher::PolyMC) => Some(report_polymc_detected()),
        _ => None,
    }
}

/// The texts that show OptiFabric, in the order in which they are tried.
pub open spec fn optifabric_patterns() -> Seq<Seq<char>> {
    seq![OPTIFABRIC_INCOMPATIBLE@, OPTIFABRIC_PACKAGE@]
}

/// The finding for OptiFabric.
pub open spec fn optifabric_detected() -> ReportView {
    ReportView {
        title: "OptiFabric detected"@,
        description: "Optifine is known to cause problems with many mods on Fabric. If you're having strange issues or crashes, consider replacing it with some of the many available [alternatives](https://lambdaurora.dev/optifine_alternatives/)."@,
        severity: Severity::High,
    }
}

/// What `optifabric` finds: OptiFabric among the known mods, or in the text
/// of the log. Either is enough.
pub open spec fn optifabric_finding(log: Seq<char>, ctx: ContextView) -> Option<ReportView> {
    if ctx.known_mods.contains_key(OPTIFABRIC_ID@) || first_match(optifabric_patterns(), log)
        is Some {
        Some(optifabric_detected())
    } else {
        None
    }
}

/// Reports OptiFabric.
pub fn report_optifabric_detected() -> (report: CheckReport)
    ensures
        report@ == optifabric_detected(),
{
    CheckReport {
        title: String::from_str("OptiFabric detected"),
        description: String::from_str(
            "Optifine is known to cause problems with many mods on Fabric. If you're having strange issues or crashes, consider replacing it with some of the many available [alternatives](https://lambdaurora.dev/optifine_alternatives/).",
        ),
        severity: Severity::High,
    }
}

/// Finds OptiFabric, among the known mods or in the text of the log.
pub fn optifabric(log: &str, ctx: &EnvironmentContext) -> (report: Option<CheckReport>)
    ensures
        report_view(report) == optifabric_finding(log@, ctx@),
{
    let patterns = [OPTIFABRIC_INCOMPATIBLE, OPTIFABRIC_PACKAGE];
    proof {
        assert(pattern_views(patterns@) =~= optifabric_patterns());
    }
    if ctx.has_mod(OPTIFABRIC_ID) || grab_all(log, &patterns).is_some() {
        Some(report_optifabric_detected())
    } else {
        None
    }
}

/// The finding for BCLib.
pub open spec fn bclib_detected() -> ReportView {
    ReportView {
        title: "BCLib detected"@,
        description: "BCLib is known to cause issues with some mods. If you're experiencing crashes or other problems, consider trying without it."@,
        severity: Severity::Medium,
    }
}

/// What `bclib` finds in a context.
pub open spec fn bclib_finding(ctx: ContextView) -> Option<ReportView> {
    if ctx.known_mods.contains_key(BCLIB_ID@) {
        Some(bclib_detected())
    } else {
        None
    }
}

/// Reports BCLib.
pub fn report_bclib_detected() -> (report: CheckReport)
    ensures
        report@ == bclib_detected(),
{
    CheckReport {
        title: String::from_str("BCLib detected"),
        description: String::from_str(
            "BCLib is known to cause issues with some mods. If you're experiencing crashes or other problems, consider trying without it.",
        ),
        severity: Severity::Medium,
    }
}

/// Finds BCLib among the known mods. The text of the log is not read.
pub fn bclib(_log: &str, ctx: &EnvironmentContext) -> (report: Option<CheckReport>)
    ensures
        report_view(report) == bclib_finding(ctx@),
{
    if ctx.has_mod(BCLIB_ID) {
        Some(report_bclib_detected())
    } else {
        None
    }
}

/// The finding for a renderer that is asked for and is not there.
pub open spec fn indium_missing() -> ReportView {
    ReportView {
        title: "Missing Indium"@,
        description: "A mod is trying to make use of Fabric Rendering API, which may be missing when rendering mods such as Sodium are loaded. If you use Sodium, install [Indium](https://modrinth.com/mod/indium) to resolve this."@,
        severity: Severity::High,
    }
}

/// What `indium` finds in a log.
pub open spec fn indium_finding(log: Seq<char>) -> Option<ReportView> {
    if first_match(seq![RENDERER_MISSING@], log) is Some {
        Some(indium_missing())
    } else {
        None
    }
}

/// Reports a renderer that is asked for and is not there.
pub fn report_indium_missing() -> (report: CheckReport)
    ensures
        report@ == indium_missing(),
{
    CheckReport {
        title: String::from_str("Missing Indium"),
        description: String::from_str(
            "A mod is trying to make use of Fabric Rendering API, which may be missing when rendering mods such as Sodium are loaded. If you use Sodium, install [Indium](https://modrinth.com/mod/indium) to resolve this.",
        ),
        severity: Severity::High,
    }
}

/// Finds a mod that asks for the renderer of the Fabric Rendering API where
/// there is none.
pub fn indium(log: &str, _ctx: &EnvironmentContext) -> (report: Option<CheckReport>)
    ensures
        report_view(report) == indium_finding(log@),
{
    let patterns = [RENDERER_MISSING];
    proof {
        assert(pattern_views(patterns@) =~= seq![RENDERER_MISSING@]);
    }
    if grab_all(log, &patterns).is_some() {
        Some(report_indium_missing())
    } else {
        None
    }
}

} // verus!
