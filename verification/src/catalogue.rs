//! The catalogue: every rule, in the order in which the rules are declared,
//! and the evaluation of a log against all of them. Every rule runs on every
//! log, whatever the rules before it found, and the findings come out in the
//! order of the catalogue.

use crate::checks::{
    bclib, bclib_finding, crash_generic, crash_generic_finding, crash_report_analysis,
    crash_report_analysis_finding, crash_summary_of, dependency_generic,
    dependency_generic_finding, dependency_patterns, field_missing, indium, indium_finding,
    indium_missing, java, java_finding, java_replace_of, missing_dependency_of, missing_field,
    missing_field_finding, mixin_inject_failed_of, mixin_target_patterns, optifabric,
    optifabric_detected, optifabric_finding, optifabric_patterns, polymc, polymc_finding,
    BCLIB_ID, CRASH_REPORT, ENTRYPOINT, JAVA_CLASS_VERSION, JAVA_REPLACE, MIXIN_APPLY,
    NO_SUCH_FIELD, OPTIFABRIC_ID, RENDERER_MISSING,
};
use crate::environment::{ContextView, EnvironmentContext, Launcher};
use crate::pattern::{lemma_first_match_wins, lemma_no_pattern_matches, pattern_match};
use crate::report::{report_view, reports_view, CheckReport, ReportView};
use vstd::prelude::*;

verus! {

/// The rules of the catalogue, in the order in which they are declared.
#[derive(Clone, Copy, Debug, PartialEq, Eq, Structural, Hash)]
pub enum Rule {
    CrashReportAnalysis,
    DependencyGeneric,
    CrashGeneric,
    Java,
    MissingField,
    PolyMC,
    OptiFabric,
    BCLib,
    Indium,
}

impl Rule {
    /// What the rule finds in a log with a context.
    pub open spec fn finding(self, log: Seq<char>, ctx: ContextView) -> Option<ReportView> {
        match self {
            Rule::CrashReportAnalysis => crash_report_analysis_finding(log),
            Rule::DependencyGeneric => dependency_generic_finding(log),
            Rule::CrashGeneric => crash_generic_finding(log),
            Rule::Java => java_finding(log),
            Rule::MissingField => missing_field_finding(log),
            Rule::PolyMC => polymc_finding(ctx),
            Rule::OptiFabric => optifabric_finding(log, ctx),
            Rule::BCLib => bclib_finding(ctx),
            Rule::Indium => indium_finding(log),
        }
    }

    /// Every pattern for which the rule searches the text of a log.
    pub open spec fn patterns(self) -> Seq<Seq<char>> {
        match self {
            Rule::CrashReportAnalysis => seq![CRASH_REPORT@],
            Rule::DependencyGeneric => dependency_patterns(),
            Rule::CrashGeneric => mixin_target_patterns() + seq![MIXIN_APPLY@, ENTRYPOINT@],
            Rule::Java => seq![JAVA_REPLACE@, JAVA_CLASS_VERSION@],
            Rule::MissingField => seq![NO_SUCH_FIELD@],
            Rule::PolyMC => seq![],
            Rule::OptiFabric => optifabric_patterns(),
            Rule::BCLib => seq![],
            Rule::Indium => seq![RENDERER_MISSING@],
        }
    }

    /// The patterns that the rule tries first, in the order in which it tries
    /// them: alternative wordings of the one failure that the rule is about.
    pub open spec fn alternatives(self) -> Seq<Seq<char>> {
        match self {
            Rule::CrashReportAnalysis => seq![CRASH_REPORT@],
            Rule::DependencyGeneric => dependency_patterns(),
            Rule::CrashGeneric => mixin_target_patterns(),
            Rule::Java => seq![JAVA_REPLACE@],
            Rule::MissingField => seq![NO_SUCH_FIELD@],
            Rule::PolyMC => seq![],
            Rule::OptiFabric => optifabric_patterns(),
            Rule::BCLib => seq![],
            Rule::Indium => seq![RENDERER_MISSING@],
        }
    }

    /// What the rule finds where one of its alternatives caught `groups`.
    pub open spec fn finding_of(self, groups: Seq<Option<Seq<char>>>) -> Option<ReportView> {
        match self {
            Rule::CrashReportAnalysis => crash_summary_of(groups),
            Rule::DependencyGeneric => missing_dependency_of(groups),
            Rule::CrashGeneric => mixin_inject_failed_of(groups),
            Rule::Java => java_replace_of(groups),
            Rule::MissingField => Some(field_missing()),
            Rule::PolyMC => None,
            Rule::OptiFabric => Some(optifabric_detected()),
            Rule::BCLib => None,
            Rule::Indium => Some(indium_missing()),
        }
    }

    /// Whether the context alone makes the rule fire.
    pub open spec fn fires_on_context(self, ctx: ContextView) -> bool {
        match self {
            Rule::PolyMC => ctx.launcher == Some(Launcher::PolyMC),
            Rule::OptiFabric => ctx.known_mods.contains_key(OPTIFABRIC_ID@),
            Rule::BCLib => ctx.known_mods.contains_key(BCLIB_ID@),
            _ => false,
        }
    }

    /// Evaluates the rule on a log with its context.
    pub fn check(self, log: &str, ctx: &EnvironmentContext) -> (report: Option<CheckReport>)
        ensures
            report_view(report) == self.finding(log@, ctx@),
    {
        match self {
            Rule::CrashReportAnalysis => crash_report_analysis(log, ctx),
            Rule::DependencyGeneric => dependency_generic(log, ctx),
            Rule::CrashGeneric => crash_generic(log, ctx),
            Rule::Java => java(log, ctx),
            Rule::MissingField => missing_field(log, ctx),
            Rule::PolyMC => polymc(log, ctx),
            Rule::OptiFabric => optifabric(log, ctx),
            Rule::BCLib => bclib(log, ctx),
            Rule::Indium => indium(log, ctx),
        }
    }
}

/// The catalogue.
pub open spec fn catalogue() -> Seq<Rule> {
    seq![
        Rule::CrashReportAnalysis,
        Rule::DependencyGeneric,
        Rule::CrashGeneric,
        Rule::Java,
        Rule::MissingField,
        Rule::PolyMC,
        Rule::OptiFabric,
        Rule::BCLib,
        Rule::Indium,
    ]
}

/// The findings of a list of rules on one log: for each rule that finds
/// something its finding, in the order of the rules.
pub open spec fn findings(rules: Seq<Rule>, log: Seq<char>, ctx: ContextView) -> Seq<ReportView>
    decreases rules.len(),
{
    if rules.len() == 0 {
        seq![]
    } else {
        let before = findings(rules.drop_last(), log, ctx);
        match rules.last().finding(log, ctx) {
            Some(report) => before.push(report),
            None => before,
        }
    }
}

/// The rules of the catalogue, in its order.
pub fn rules() -> (list: [Rule; 9])
    ensures
        list@ == catalogue(),
{
    let list = [
        Rule::CrashReportAnalysis,
        Rule::DependencyGeneric,
        Rule::CrashGeneric,
        Rule::Java,
        Rule::MissingField,
        Rule::PolyMC,
        Rule::OptiFabric,
        Rule::BCLib,
        Rule::Indium,
    ];
    assert(list@ =~= catalogue());
    list
}

/// Evaluates each of `rules` once on the log, in the order given, and
/// returns what they found in that order. A rule that finds nothing adds
/// nothing, and no finding is dropped or merged with another.
pub fn check_rules(rules: &[Rule], log: &str, ctx: &EnvironmentContext) -> (reports: Vec<
    CheckReport,
>)
    ensures
        reports_view(reports@) == findings(rules@, log@, ctx@),
{
    let mut reports: Vec<CheckReport> = Vec::new();
    let mut i: usize = 0;
    assert(reports_view(reports@) =~= findings(rules@.take(0), log@, ctx@));
    while i < rules.len()
        invariant
            i <= rules.len(),
            reports_view(reports@) == findings(rules@.take(i as int), log@, ctx@),
        decreases rules.len() - i,
    {
        proof {
            assert(rules@.take(i + 1).drop_last() =~= rules@.take(i as int));
        }
        let ghost before = reports@;
        match rules[i].check(log, ctx) {
            Some(report) => {
                reports.push(report);
                assert(reports_view(reports@) =~= reports_view(before).push(report@));
            },
            None => {},
        }
        i += 1;
    }
    assert(rules@.take(i as int) =~= rules@);
    reports
}

/// Evaluates every rule of the catalogue on the log and returns the
/// findings in the order of the catalogue. The result depends on the text
/// and the context alone: the same text with the same context gives the
/// same list.
pub fn check_checks(log: &str, ctx: &EnvironmentContext) -> (reports: Vec<CheckReport>)
    ensures
        reports_view(reports@) == findings(catalogue(), log@, ctx@),
{
    let list = rules();
    check_rules(&list, log, ctx)
}

/// A rule is silent on a log in which none of its patterns matches, unless
/// the context alone makes it fire.
pub proof fn lemma_silent_without_match(rule: Rule, log: Seq<char>, ctx: ContextView)
    requires
        forall|i: int|
            0 <= i < rule.patterns().len() ==> pattern_match(#[trigger] rule.patterns()[i], log)
                is None,
        !rule.fires_on_context(ctx),
    ensures
        rule.finding(log, ctx) is None,
{
    let all = rule.patterns();
    match rule {
        Rule::CrashReportAnalysis => {
            lemma_no_pattern_matches(seq![CRASH_REPORT@], log);
        },
        Rule::DependencyGeneric => {
            lemma_no_pattern_matches(dependency_patterns(), log);
        },
        Rule::CrashGeneric => {
            assert(all[0] == mixin_target_patterns()[0]);
            assert(all[1] == mixin_target_patterns()[1]);
            assert(all[2] == seq![MIXIN_APPLY@][0]);
            assert(all[3] == seq![ENTRYPOINT@][0]);
            lemma_no_pattern_matches(mixin_target_patterns(), log);
            lemma_no_pattern_matches(seq![MIXIN_APPLY@], log);
            lemma_no_pattern_matches(seq![ENTRYPOINT@], log);
        },
        Rule::Java => {
            assert(all[0] == seq![JAVA_REPLACE@][0]);
            assert(all[1] == seq![JAVA_CLASS_VERSION@][0]);
            lemma_no_pattern_matches(seq![JAVA_REPLACE@], log);
            lemma_no_pattern_matches(seq![JAVA_CLASS_VERSION@], log);
        },
        Rule::MissingField => {
            lemma_no_pattern_matches(seq![NO_SUCH_FIELD@], log);
        },
        Rule::PolyMC => {},
        Rule::OptiFabric => {
            lemma_no_pattern_matches(optifabric_patterns(), log);
        },
        Rule::BCLib => {},
        Rule::Indium => {
            lemma_no_pattern_matches(seq![RENDERER_MISSING@], log);
        },
    }
}

/// Where the context alone makes a rule fire, the rule fires whatever the
/// text of the log. A launcher that is not known makes no rule fire.
pub proof fn lemma_context_is_enough(rule: Rule, log: Seq<char>, ctx: ContextView)
    ensures
        rule.fires_on_context(ctx) ==> rule.finding(log, ctx) is Some,
        ctx.launcher is None ==> Rule::PolyMC.finding(log, ctx) is None,
{
}

/// A rule reads the text, the context, or both, and nothing else. The rules
/// that look for a launcher or for a mod among the known mods alone find the
/// same in every text; the rules that search the text alone find the same
/// with every context.
pub proof fn lemma_rules_read_what_they_need(
    rule: Rule,
    log_a: Seq<char>,
    ctx_a: ContextView,
    log_b: Seq<char>,
    ctx_b: ContextView,
)
    ensures
        rule == Rule::PolyMC || rule == Rule::BCLib ==> rule.finding(log_a, ctx_a) == rule.finding(
            log_b,
            ctx_a,
        ),
        rule != Rule::PolyMC && rule != Rule::BCLib && rule != Rule::OptiFabric ==> rule.finding(
            log_a,
            ctx_a,
        ) == rule.finding(log_a, ctx_b),
{
}

/// Of the alternatives of a rule, the first that matches decides the
/// finding: it is made from the groups which that alternative caught,
/// whatever a later alternative, or anything else that the rule looks for,
/// would give.
pub proof fn lemma_first_alternative_decides(rule: Rule, log: Seq<char>, ctx: ContextView, i: int)
    requires
        0 <= i < rule.alternatives().len(),
        pattern_match(rule.alternatives()[i], log) is Some,
        forall|j: int| 0 <= j < i ==> pattern_match(#[trigger] rule.alternatives()[j], log) is None,
    ensures
        rule.finding(log, ctx) == rule.finding_of(
            pattern_match(rule.alternatives()[i], log).unwrap(),
        ),
{
    lemma_first_match_wins(rule.alternatives(), log, i);
}

/// The findings stand in the order of the rules. Each finding is that of
/// one rule, the rules of two findings stand in the order of the findings,
/// and every rule that finds something has its finding in the list: `origin`
/// gives, for each place in the list, the place of its rule.
pub proof fn lemma_findings_in_rule_order(rules: Seq<Rule>, log: Seq<char>, ctx: ContextView) -> (origin:
    Seq<int>)
    ensures
        origin.len() == findings(rules, log, ctx).len(),
        forall|k: int|
            0 <= k < origin.len() ==> 0 <= #[trigger] origin[k] < rules.len()
                && rules[origin[k]].finding(log, ctx) == Some(findings(rules, log, ctx)[k]),
        forall|k: int, l: int| 0 <= k < l < origin.len() ==> origin[k] < origin[l],
        forall|i: int|
            0 <= i < rules.len() && (#[trigger] rules[i]).finding(log, ctx) is Some
                ==> origin.contains(i),
    decreases rules.len(),
{
    if rules.len() == 0 {
        seq![]
    } else {
        let front = rules.drop_last();
        let before = lemma_findings_in_rule_order(front, log, ctx);
        let last = rules.len() - 1;
        let origin = if rules.last().finding(log, ctx) is Some {
            before.push(last)
        } else {
            before
        };
        assert forall|i: int|
            0 <= i < rules.len() && (#[trigger] rules[i]).finding(log, ctx) is Some implies origin.contains(
            i,
        ) by {
            if i < last {
                assert(front[i].finding(log, ctx) is Some);
                let k = choose|k: int| 0 <= k < before.len() && before[k] == i;
                assert(origin[k] == i);
            } else {
                assert(origin[origin.len() - 1] == i);
            }
        }
        assert forall|k: int| 0 <= k < origin.len() implies 0 <= #[trigger] origin[k] < rules.len()
            && rules[origin[k]].finding(log, ctx) == Some(findings(rules, log, ctx)[k]) by {
            if k < before.len() {
                assert(front[before[k]] == rules[before[k]]);
            }
        }
        origin
    }
}

/// Where no rule of a list finds anything, the list of findings is empty.
pub proof fn lemma_no_finding_no_report(rules: Seq<Rule>, log: Seq<char>, ctx: ContextView)
    requires
        forall|i: int| 0 <= i < rules.len() ==> (#[trigger] rules[i]).finding(log, ctx) is None,
    ensures
        findings(rules, log, ctx).len() == 0,
    decreases rules.len(),
{
    if rules.len() > 0 {
        let front = rules.drop_last();
        assert forall|i: int| 0 <= i < front.len() implies (#[trigger] front[i]).finding(log, ctx)
            is None by {
            assert(rules[i].finding(log, ctx) is None);
        }
        lemma_no_finding_no_report(front, log, ctx);
        assert(rules[rules.len() - 1].finding(log, ctx) is None);
    }
}

/// A log in which no pattern of any rule matches, with a context that makes
/// no rule fire, has no findings.
pub proof fn lemma_quiet_log(log: Seq<char>, ctx: ContextView)
    requires
        forall|rule: Rule| !#[trigger] rule.fires_on_context(ctx),
        forall|rule: Rule, i: int|
            0 <= i < rule.patterns().len() ==> pattern_match(#[trigger] rule.patterns()[i], log)
                is None,
    ensures
        findings(catalogue(), log, ctx).len() == 0,
{
    assert forall|k: int| 0 <= k < catalogue().len() implies (#[trigger] catalogue()[k]).finding(
        log,
        ctx,
    ) is None by {
        lemma_silent_without_match(catalogue()[k], log, ctx);
    }
    lemma_no_finding_no_report(catalogue(), log, ctx);
}

/// Two evaluations agree: texts with the same characters, with contexts
/// that hold the same, have the same findings.
pub proof fn lemma_findings_repeat(
    log_a: &str,
    ctx_a: &EnvironmentContext,
    log_b: &str,
    ctx_b: &EnvironmentContext,
)
    requires
        log_a@ == log_b@,
        ctx_a@ == ctx_b@,
    ensures
        findings(catalogue(), log_a@, ctx_a@) == findings(catalogue(), log_b@, ctx_b@),
{
}

} // verus!
