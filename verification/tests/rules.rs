use log_diagnostics::checks::{
    bclib, crash_generic, crash_report_analysis, dependency_generic, indium, java, missing_field,
    optifabric, polymc, report_class_version, report_crash_summary, report_entrypoint_error,
    report_java_mismatch, report_java_replace, report_missing_dependency,
    report_mixin_error, report_mixin_inject_failed,
};
use log_diagnostics::environment::{EnvironmentContext, Launcher, ModId, ModMetadata};
use log_diagnostics::pattern::Captures;
use log_diagnostics::severity::Severity;

fn empty_context() -> EnvironmentContext {
    EnvironmentContext::new(None)
}

fn context_with_mod(id: &str) -> EnvironmentContext {
    EnvironmentContext::new(None)
        .with_mod(ModId(id.to_string()), ModMetadata { version: "1.0.0".to_string() })
}

fn captures(groups: &[Option<&str>]) -> Captures {
    Captures { groups: groups.iter().map(|g| g.map(|s| s.to_string())).collect() }
}

const CRASH: &str = "---- Minecraft Crash Report ----\n// Oops.\n\nTime: 2024-01-01 00:00:00\nDescription: Initializing game\n\njava.lang.RuntimeException: boom\n\tat example.Main.run(Main.java:1)\n";

const INJECTION: &str = "org.spongepowered.asm.mixin.injection.throwables.InvalidInjectionException: Critical injection failure: @Inject annotation on handler could not find any targets matching 'tick' in net.minecraft.Foo. Using refmap example-refmap.json [PREINJECT Applicator Phase -> example.mixins.json:ExampleMixin from mod examplemod -> Prepare Injections";

const ACCESSOR: &str = "InvalidAccessorException: No candidates were found matching field_1 in net.minecraft.Foo for example.mixins.json:AccessorMixin from mod othermod";

const APPLY: &str = "MixinApplyError: Mixin [example.mixins.json:ExampleMixin from mod applymod] from phase [DEFAULT] in config [example.mixins.json] FAILED during APPLY";

const ENTRY: &str = "java.lang.RuntimeException: Could not execute entrypoint stage 'main' due to errors, provided by 'entrymod'!";

const CLASS_VERSION: &str = "java.lang.UnsupportedClassVersionError: com/example/Main has been compiled by a more recent version of the Java Runtime (class file version 61.0), this version of the Java Runtime only recognizes class file versions up to 52.0";

#[test]
fn crash_report_quotes_context_and_error() {
    let report = crash_report_analysis(CRASH, &empty_context()).unwrap();
    assert_eq!(report.title, "Crash report analysis");
    assert_eq!(
        report.description,
        "Context: `Initializing game`\n```\njava.lang.RuntimeException: boom\n```"
    );
    assert_eq!(report.severity, Severity::Info);
}

#[test]
fn crash_report_needs_the_whole_head() {
    let text = "---- Minecraft Crash Report ----\nDescription: Initializing game\n";
    assert!(crash_report_analysis(text, &empty_context()).is_none());
}

#[test]
fn crash_summary_from_groups() {
    let caps = captures(&[Some("whole"), Some("Ticking entity"), Some("java.lang.Error")]);
    let report = report_crash_summary(&caps).unwrap();
    assert_eq!(report.description, "Context: `Ticking entity`\n```\njava.lang.Error\n```");
}

#[test]
fn crash_summary_without_a_group_is_no_report() {
    assert!(report_crash_summary(&captures(&[Some("whole"), Some("Ticking entity")])).is_none());
    assert!(report_crash_summary(&captures(&[Some("whole"), None, Some("x")])).is_none());
    assert!(report_crash_summary(&captures(&[])).is_none());
}

#[test]
fn dependency_any_version() {
    let text = "Mod 'Foo' (foo) 1.0.0 requires any version of Bar Lib, which is missing!";
    let report = dependency_generic(text, &empty_context()).unwrap();
    assert_eq!(report.title, "Missing dependency");
    assert_eq!(
        report.description,
        "The `Foo` mod needs `Bar Lib` to be installed, but it is missing."
    );
    assert_eq!(report.severity, Severity::High);
}

#[test]
fn dependency_version_or_later() {
    let text = "Mod 'Foo' (foo) 1.0.0 requires version 0.4.0 or later of fabric-api, which is missing!";
    let report = dependency_generic(text, &empty_context()).unwrap();
    assert_eq!(
        report.description,
        "The `Foo` mod needs `fabric-api` to be installed, but it is missing."
    );
}

#[test]
fn dependency_version_between() {
    let text = "Mod 'Foo' (foo) 1.0.0 requires any version between 1.0 and 2.0 of cloth, which is missing!";
    let report = dependency_generic(text, &empty_context()).unwrap();
    assert_eq!(
        report.description,
        "The `Foo` mod needs `cloth` to be installed, but it is missing."
    );
}

#[test]
fn dependency_first_wording_wins_over_earlier_text() {
    let text = "Mod 'Early' (early) 1 requires any version of Last Wording, which is missing!\nMod 'Late' (late) 1 requires any version between 1 and 2 of First Wording, which is missing!\n";
    let report = dependency_generic(text, &empty_context()).unwrap();
    assert_eq!(
        report.description,
        "The `Late` mod needs `First Wording` to be installed, but it is missing."
    );
}

#[test]
fn dependency_present_is_no_report() {
    let text = "Mod 'Foo' (foo) 1.0.0 requires any version of Bar Lib, which is present.";
    assert!(dependency_generic(text, &empty_context()).is_none());
}

#[test]
fn missing_dependency_from_groups() {
    let caps = captures(&[Some("whole"), Some("Foo"), Some("Bar Lib")]);
    let report = report_missing_dependency(&caps).unwrap();
    assert_eq!(report.title, "Missing dependency");
    assert_eq!(
        report.description,
        "The `Foo` mod needs `Bar Lib` to be installed, but it is missing."
    );
    assert_eq!(report.severity, Severity::High);
    assert!(report_missing_dependency(&captures(&[Some("whole"), Some("Foo")])).is_none());
    assert!(report_missing_dependency(&captures(&[Some("whole"), Some("Foo"), None])).is_none());
}

#[test]
fn mixin_injection_failure() {
    let report = crash_generic(INJECTION, &empty_context()).unwrap();
    assert_eq!(report.title, "Mixin inject failed");
    assert_eq!(report.description, "Mixin `ExampleMixin` from mod `examplemod` has failed. It is possible that `examplemod` is not compatible with this Minecraft version, consider double-checking its version.");
    assert_eq!(report.severity, Severity::High);
}

#[test]
fn mixin_accessor_failure() {
    let report = crash_generic(ACCESSOR, &empty_context()).unwrap();
    assert_eq!(report.title, "Mixin inject failed");
    assert_eq!(report.description, "Mixin `AccessorMixin` from mod `othermod` has failed. It is possible that `othermod` is not compatible with this Minecraft version, consider double-checking its version.");
}

#[test]
fn mixin_apply_error() {
    let report = crash_generic(APPLY, &empty_context()).unwrap();
    assert_eq!(report.title, "Mixin error");
    assert_eq!(report.description, "The mod `applymod` has encountered a mixin error, this may be caused by a mismatch in Minecraft version or a mod incompatibility. Further investigation is required.");
    assert_eq!(report.severity, Severity::High);
}

#[test]
fn entrypoint_error() {
    let report = crash_generic(ENTRY, &empty_context()).unwrap();
    assert_eq!(report.title, "Entrypoint error");
    assert_eq!(report.description, "The mod `entrymod` has encountered an error in it's entrypoint, though it may not have caused it. Further investigation is required.");
    assert_eq!(report.severity, Severity::High);
}

#[test]
fn crash_generic_first_symptom_wins() {
    let text = format!("{ENTRY}\n{APPLY}\n{ACCESSOR}\n{INJECTION}\n");
    let report = crash_generic(&text, &empty_context()).unwrap();
    assert_eq!(report.title, "Mixin inject failed");
    assert!(report.description.starts_with("Mixin `ExampleMixin` from mod `examplemod`"));

    let text = format!("{ENTRY}\n{APPLY}\n");
    assert_eq!(crash_generic(&text, &empty_context()).unwrap().title, "Mixin error");
}

#[test]
fn crash_generic_reports_from_values() {
    let caps = captures(&[Some("whole"), Some("M"), Some("m")]);
    assert_eq!(
        report_mixin_inject_failed(&caps).unwrap().description,
        "Mixin `M` from mod `m` has failed. It is possible that `m` is not compatible with this Minecraft version, consider double-checking its version."
    );
    assert!(report_mixin_inject_failed(&captures(&[Some("whole"), None, Some("m")])).is_none());
    assert_eq!(report_mixin_error("m").title, "Mixin error");
    assert_eq!(report_entrypoint_error("m").title, "Entrypoint error");
    assert_eq!(report_entrypoint_error("m").description, "The mod `m` has encountered an error in it's entrypoint, though it may not have caused it. Further investigation is required.");
}

#[test]
fn java_replace_advice() {
    let text = "- Replace 'Java' (java) 8 with version 17 or later.";
    let report = java(text, &empty_context()).unwrap();
    assert_eq!(report.title, "Incorrect Java version");
    assert_eq!(report.description, "A mod or Minecraft itself requires Java 17 to be used, but an older version, Java 8 is being used instead. You may have to [download](https://adoptium.net/temurin/releases/?version=17) a newer Java version and/or select it in your launcher.");
    assert_eq!(report.severity, Severity::High);
}

#[test]
fn java_class_version_names_releases() {
    let report = java(CLASS_VERSION, &empty_context()).unwrap();
    assert_eq!(report.title, "Incorrect Java version");
    assert_eq!(report.description, "A mod or Minecraft itself requires Java 17 to be used, but an older version, Java 8 is being used instead. You may have to [download](https://adoptium.net/temurin/releases/?version=17) a newer Java version and/or select it in your launcher.");
    assert_eq!(report.severity, Severity::High);
}

#[test]
fn java_class_version_unknown_degrades() {
    let text = CLASS_VERSION.replace("61.0", "99.0");
    let report = java(&text, &empty_context()).unwrap();
    assert_eq!(report.title, "Incorrect Java version");
    assert_eq!(report.description, "A mod or Minecraft itself requires a different version of Java from the one that is available. You may have to [download](https://adoptium.net/temurin/releases/) a newer Java version and/or select it in your launcher.");
    assert_eq!(report.severity, Severity::High);

    let text = CLASS_VERSION.replace("52.0", "52.0.");
    let report = java(&text, &empty_context()).unwrap();
    assert!(report.description.starts_with("A mod or Minecraft itself requires a different version"));
}

#[test]
fn java_replace_advice_comes_first() {
    let text = format!("{CLASS_VERSION}\n- Replace 'Java' (java) 11 with version 21 or later.\n");
    let report = java(&text, &empty_context()).unwrap();
    assert!(report.description.contains("requires Java 21 to be used"));
    assert!(report.description.contains("Java 11 is being used"));
}

#[test]
fn java_reports_from_values() {
    let caps = captures(&[Some("whole"), Some("8"), Some("17")]);
    let report = report_java_replace(&caps).unwrap();
    assert!(report.description.contains("requires Java 17 to be used, but an older version, Java 8 is"));
    assert!(report_java_replace(&captures(&[Some("whole"), Some("8")])).is_none());

    let caps = captures(&[Some("whole"), Some("65.0"), Some("49.0")]);
    let report = report_class_version(&caps).unwrap();
    assert!(report.description.contains("requires Java 21 to be used, but an older version, Java 5 is"));
    assert!(report.description.contains("?version=21)"));

    let caps = captures(&[Some("whole"), Some("65.0"), Some("48.0")]);
    let report = report_class_version(&caps).unwrap();
    assert!(report.description.contains("a different version of Java"));
    assert!(report_class_version(&captures(&[Some("whole"), None, Some("52.0")])).is_none());

    let report = report_java_mismatch("17", "8");
    assert_eq!(report.description, "A mod or Minecraft itself requires Java 17 to be used, but an older version, Java 8 is being used instead. You may have to [download](https://adoptium.net/temurin/releases/?version=17) a newer Java version and/or select it in your launcher.");
}

#[test]
fn missing_field_error() {
    let report = missing_field("Caused by: java.lang.NoSuchFieldError: field_1234", &empty_context()).unwrap();
    assert_eq!(report.title, "Field missing error");
    assert_eq!(report.description, "On the logical server some fields may be deleted by Fabric Loader when a mod defines them as client-only. Since this feature was broken before loader `0.15`, some mods may have implemented it incorrectly. See if there's an update for the mod in question, or try downgrading Fabric Loader.");
    assert_eq!(report.severity, Severity::High);
    assert!(missing_field("javaxlang.NoSuchFieldError", &empty_context()).is_none());
}

#[test]
fn polymc_fires_on_the_launcher_alone() {
    let ctx = EnvironmentContext::new(Some(Launcher::PolyMC));
    let report = polymc("", &ctx).unwrap();
    assert_eq!(report.title, "PolyMC Detected");
    assert_eq!(report.description, "PolyMC is an outdated launcher maintained by a queerphobic team. Consider switching to [Prism Launcher](https://prismlauncher.org/), a fork with more features and better support.");
    assert_eq!(report.severity, Severity::Medium);
    assert!(polymc("PolyMC version: 1.4.0", &empty_context()).is_none());
    assert!(polymc("PolyMC", &EnvironmentContext::new(Some(Launcher::Prism))).is_none());
    assert!(polymc("PolyMC", &EnvironmentContext::new(Some(Launcher::MultiMC))).is_none());
}

#[test]
fn optifabric_by_known_mod_or_by_text() {
    let report = optifabric("nothing here", &context_with_mod("optifabric")).unwrap();
    assert_eq!(report.title, "OptiFabric detected");
    assert_eq!(report.description, "Optifine is known to cause problems with many mods on Fabric. If you're having strange issues or crashes, consider replacing it with some of the many available [alternatives](https://lambdaurora.dev/optifine_alternatives/).");
    assert_eq!(report.severity, Severity::High);

    let by_class = optifabric("at me.modmuss50.optifabric.mod.Setup.run", &empty_context());
    assert_eq!(by_class.unwrap().title, "OptiFabric detected");

    let by_complaint = optifabric(
        "Mod 'Sodium' (sodium) 0.5.0 is incompatible with any version of mod 'OptiFabric' (optifabric)",
        &empty_context(),
    );
    assert_eq!(by_complaint.unwrap().title, "OptiFabric detected");

    assert!(optifabric("me-modmuss50-optifabric", &empty_context()).is_none());
    assert!(optifabric("nothing here", &context_with_mod("OptiFabric")).is_none());
}

#[test]
fn bclib_by_known_mod_only() {
    let report = bclib("", &context_with_mod("bclib")).unwrap();
    assert_eq!(report.title, "BCLib detected");
    assert_eq!(report.description, "BCLib is known to cause issues with some mods. If you're experiencing crashes or other problems, consider trying without it.");
    assert_eq!(report.severity, Severity::Medium);
    assert!(bclib("bclib", &empty_context()).is_none());
    assert!(bclib("", &context_with_mod("BCLib")).is_none());
    assert!(bclib("", &context_with_mod("bclib2")).is_none());
}

#[test]
fn indium_missing_renderer() {
    let text = "Cannot invoke \"Renderer.meshBuilder()\" because the return value of \"net.fabricmc.fabric.api.renderer.v1.RendererAccess.getRenderer()\" is null";
    let report = indium(text, &empty_context()).unwrap();
    assert_eq!(report.title, "Missing Indium");
    assert_eq!(report.description, "A mod is trying to make use of Fabric Rendering API, which may be missing when rendering mods such as Sodium are loaded. If you use Sodium, install [Indium](https://modrinth.com/mod/indium) to resolve this.");
    assert_eq!(report.severity, Severity::High);
    assert!(indium("getRenderer() is null", &empty_context()).is_none());
}

#[test]
fn rules_are_silent_without_their_signatures() {
    let ctx = empty_context();
    let text = "[12:00:00] [main/INFO]: Loading Minecraft 1.20.1 with Fabric Loader 0.15.0\n";
    assert!(crash_report_analysis(text, &ctx).is_none());
    assert!(dependency_generic(text, &ctx).is_none());
    assert!(crash_generic(text, &ctx).is_none());
    assert!(java(text, &ctx).is_none());
    assert!(missing_field(text, &ctx).is_none());
    assert!(polymc(text, &ctx).is_none());
    assert!(optifabric(text, &ctx).is_none());
    assert!(bclib(text, &ctx).is_none());
    assert!(indium(text, &ctx).is_none());
    assert!(java("", &ctx).is_none());
}
