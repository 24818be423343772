use log_diagnostics::catalogue::{check_checks, check_rules, rules, Rule};
use log_diagnostics::environment::{EnvironmentContext, Launcher, ModId, ModMetadata};
use log_diagnostics::report::{overall_severity, CheckReport};
use log_diagnostics::severity::Severity;

fn titles(reports: &[CheckReport]) -> Vec<&str> {
    reports.iter().map(|r| r.title.as_str()).collect()
}

fn fields(reports: &[CheckReport]) -> Vec<(String, String, Severity)> {
    reports.iter().map(|r| (r.title.clone(), r.description.clone(), r.severity)).collect()
}

fn with_mod(ctx: EnvironmentContext, id: &str) -> EnvironmentContext {
    ctx.with_mod(ModId(id.to_string()), ModMetadata { version: "3.0.0".to_string() })
}

const EVERYTHING: &str = "java.lang.NoSuchFieldError: x\nme.modmuss50.optifabric\nbecause the return value of \"net.fabricmc.fabric.api.renderer.v1.RendererAccess.getRenderer()\" is null\n- Replace 'Java' (java) 8 with version 17 or later.\nRuntimeException: Could not execute entrypoint stage 'main' due to errors, provided by 'entrymod'!\nMod 'Foo' (foo) 1.0.0 requires any version of Bar Lib, which is missing!\n---- Minecraft Crash Report ----\n// Oops.\n\nTime: now\nDescription: Initializing game\n\njava.lang.Error: boom\n";

#[test]
fn lone_missing_dependency() {
    let text = "[main/ERROR]: Incompatible mods found!\n - Mod 'Foo' (foo) requires any version of Bar Lib, which is missing!\n";
    let reports = check_checks(text, &EnvironmentContext::new(None));
    assert_eq!(reports.len(), 1);
    assert_eq!(reports[0].title, "Missing dependency");
    assert_eq!(reports[0].severity, Severity::High);
    assert!(reports[0].description.contains("`Foo`"));
    assert!(reports[0].description.contains("`Bar Lib`"));
}

#[test]
fn lone_unsupported_class_version() {
    let text = "Exception in thread \"main\" java.lang.UnsupportedClassVersionError: net/example/Main has been compiled by a more recent version of the Java Runtime (class file version 61.0), this version of the Java Runtime only recognizes class file versions up to 52.0\n";
    let reports = check_checks(text, &EnvironmentContext::new(None));
    assert_eq!(reports.len(), 1);
    assert_eq!(reports[0].title, "Incorrect Java version");
    assert!(reports[0].description.contains("requires Java 17 to be used"));
    assert!(reports[0].description.contains("Java 8 is being used"));
}

#[test]
fn quiet_log_gives_no_report() {
    let text = "[12:00:00] [main/INFO]: Loading Minecraft 1.20.1\n[12:00:01] [main/INFO]: Done\n";
    let reports = check_checks(text, &EnvironmentContext::new(None));
    assert!(reports.is_empty());
    assert!(check_checks("", &EnvironmentContext::new(None)).is_empty());
}

#[test]
fn bclib_known_whatever_the_text() {
    let ctx = with_mod(EnvironmentContext::new(None), "bclib");
    for text in ["", "arbitrary text", "bclib bclib bclib", "\u{fffd}\n\0"] {
        let reports = check_checks(text, &ctx);
        assert_eq!(reports.len(), 1);
        assert_eq!(reports[0].title, "BCLib detected");
        assert_eq!(reports[0].severity, Severity::Medium);
    }
}

#[test]
fn dependency_and_optifabric_both_reported() {
    let text = "at me.modmuss50.optifabric.mod.OptifabricSetup.run\nMod 'Foo' (foo) 1.0.0 requires any version of Bar Lib, which is missing!\n";
    let reports = check_checks(text, &EnvironmentContext::new(None));
    assert_eq!(titles(&reports), vec!["Missing dependency", "OptiFabric detected"]);
    assert_eq!(
        reports[0].description,
        "The `Foo` mod needs `Bar Lib` to be installed, but it is missing."
    );
    assert_eq!(reports[1].severity, Severity::High);
}

#[test]
fn reports_come_in_catalogue_order() {
    let ctx = with_mod(
        with_mod(EnvironmentContext::new(Some(Launcher::PolyMC)), "bclib"),
        "optifabric",
    );
    let reports = check_checks(EVERYTHING, &ctx);
    assert_eq!(
        titles(&reports),
        vec![
            "Crash report analysis",
            "Missing dependency",
            "Entrypoint error",
            "Incorrect Java version",
            "Field missing error",
            "PolyMC Detected",
            "OptiFabric detected",
            "BCLib detected",
            "Missing Indium",
        ]
    );
}

#[test]
fn no_rule_suppresses_another() {
    let ctx = with_mod(EnvironmentContext::new(Some(Launcher::Prism)), "bclib");
    let text = "java.lang.NoSuchFieldError\n- Replace 'Java' (java) 8 with version 17 or later.\n";
    let reports = check_checks(text, &ctx);
    assert_eq!(
        titles(&reports),
        vec!["Incorrect Java version", "Field missing error", "BCLib detected"]
    );
}

#[test]
fn evaluation_repeats() {
    let ctx = with_mod(EnvironmentContext::new(Some(Launcher::PolyMC)), "bclib");
    let first = check_checks(EVERYTHING, &ctx);
    let second = check_checks(EVERYTHING, &ctx);
    assert_eq!(fields(&first), fields(&second));
    let copy = EVERYTHING.to_string();
    let other = with_mod(EnvironmentContext::new(Some(Launcher::PolyMC)), "bclib");
    assert_eq!(fields(&first), fields(&check_checks(&copy, &other)));
}

#[test]
fn catalogue_lists_every_rule_once() {
    assert_eq!(
        rules(),
        [
            Rule::CrashReportAnalysis,
            Rule::DependencyGeneric,
            Rule::CrashGeneric,
            Rule::Java,
            Rule::MissingField,
            Rule::PolyMC,
            Rule::OptiFabric,
            Rule::BCLib,
            Rule::Indium,
        ]
    );
}

#[test]
fn check_rules_follows_the_given_order() {
    let ctx = with_mod(EnvironmentContext::new(None), "bclib");
    let text = "java.lang.NoSuchFieldError";
    let reports = check_rules(&[Rule::BCLib, Rule::Java, Rule::MissingField, Rule::BCLib], text, &ctx);
    assert_eq!(titles(&reports), vec!["BCLib detected", "Field missing error", "BCLib detected"]);
    assert!(check_rules(&[], text, &ctx).is_empty());
}

#[test]
fn rule_check_is_the_rule() {
    let ctx = EnvironmentContext::new(Some(Launcher::PolyMC));
    assert_eq!(Rule::PolyMC.check("", &ctx).unwrap().title, "PolyMC Detected");
    assert!(Rule::BCLib.check("", &ctx).is_none());
    assert_eq!(Rule::Indium.check(EVERYTHING, &ctx).unwrap().title, "Missing Indium");
    assert_eq!(Rule::CrashGeneric.check(EVERYTHING, &ctx).unwrap().title, "Entrypoint error");
}

#[test]
fn overall_severity_is_the_highest() {
    let ctx = with_mod(EnvironmentContext::new(None), "bclib");
    assert_eq!(overall_severity(&Vec::new()), Severity::Info);
    assert_eq!(overall_severity(&check_checks("", &ctx)), Severity::Medium);
    assert_eq!(overall_severity(&check_checks("java.lang.NoSuchFieldError", &ctx)), Severity::High);
    let text = "---- Minecraft Crash Report ----\n// Oops.\n\nTime: now\nDescription: d\n\ne\n";
    assert_eq!(overall_severity(&check_checks(text, &EnvironmentContext::new(None))), Severity::Info);
}
