use csp::CSP;
use csp::Directive;
use csp::Plugins;
use csp::RenderError;
use csp::ReportUris;
use csp::SandboxAllow;
use csp::SandboxAllowedList;
use csp::Source;
use csp::Sources;
use csp::SriFor;
use csp::TrustedTypes;

#[test]
fn empty_sources_render_as_none() {
    let csp = CSP::new().add(Directive::ObjectSrc(Sources::new()));
    assert_eq!(csp.render().unwrap(), "object-src 'none'");

    let csp = CSP::new().add(Directive::BaseUri(Sources::new()));
    assert_eq!(csp.render().unwrap(), "base-uri 'none'");

    let csp = CSP::new().add(Directive::DefaultSrc(Sources::new()));
    assert_eq!(csp.render().unwrap(), "default-src 'none'");
}

#[test]
fn sources_join_with_single_spaces_in_order() {
    let sources = Sources::new()
        .add(Source::Host("https://a.example.org".to_string()))
        .add(Source::Host("https://b.example.org".to_string()))
        .add(Source::Host("https://c.example.org".to_string()));
    assert_eq!(
        sources.render(),
        "https://a.example.org https://b.example.org https://c.example.org"
    );
}

#[test]
fn single_source_renders_alone() {
    let sources = Sources::new_with(Source::Self_);
    assert_eq!(sources.render(), "'self'");
}

#[test]
fn source_token_forms() {
    assert_eq!(Source::Scheme("https".to_string()).render(), "https:");
    assert_eq!(Source::Nonce("abc".to_string()).render(), "'nonce-abc'");
    assert_eq!(
        Source::Hash(("sha384".to_string(), "xyz".to_string())).render(),
        "'sha384-xyz'"
    );
    assert_eq!(Source::Host("http://*.example.com".to_string()).render(), "http://*.example.com");
    assert_eq!(Source::WasmUnsafeEval.render(), "'wasm-unsafe-eval'");
}

#[test]
fn all_sources_including_wasm() {
    let csp = CSP::new().add(Directive::ScriptSrc(
        Sources::new()
            .add(Source::Hash(("sha256".to_string(), "1234a".to_string())))
            .add(Source::Nonce("5678b".to_string()))
            .add(Source::ReportSample)
            .add(Source::StrictDynamic)
            .add(Source::UnsafeEval)
            .add(Source::WasmUnsafeEval)
            .add(Source::UnsafeHashes)
            .add(Source::UnsafeInline)
            .add(Source::Scheme("data".to_string()))
            .add(Source::Host("https://example.org".to_string()))
            .add(Source::Self_),
    ));

    assert_eq!(
        csp.render().unwrap(),
        "script-src 'sha256-1234a' 'nonce-5678b' 'report-sample' 'strict-dynamic' 'unsafe-eval' 'wasm-unsafe-eval' 'unsafe-hashes' 'unsafe-inline' data: https://example.org 'self'"
    );
}

#[test]
fn empty_required_collections_fail() {
    assert_eq!(Plugins::new().render(), Err(RenderError::EmptyCollection));
    assert_eq!(ReportUris::new().render(), Err(RenderError::EmptyCollection));
    assert_eq!(TrustedTypes::new().render(), Err(RenderError::EmptyCollection));
}

#[test]
fn nonempty_required_collections_space_join() {
    let plugins = Plugins::new_with(("application".to_string(), "pdf".to_string()))
        .add(("image".to_string(), "svg+xml".to_string()));
    assert_eq!(plugins.render().unwrap(), "application/pdf image/svg+xml");

    let uris = ReportUris::new_with("https://r1.example.org".to_string())
        .add("https://r2.example.org".to_string());
    assert_eq!(uris.render().unwrap(), "https://r1.example.org https://r2.example.org");

    let names = TrustedTypes::new_with("one".to_string()).add("two".to_string());
    assert_eq!(names.render().unwrap(), "one two");
}

#[test]
fn empty_collection_aborts_whole_policy() {
    let csp = CSP::new()
        .add(Directive::ImgSrc(Sources::new_with(Source::Self_)))
        .add(Directive::ReportUri(ReportUris::new()));
    assert_eq!(csp.render(), Err(RenderError::EmptyCollection));

    let csp = CSP::new().add(Directive::PluginTypes(Plugins::new()));
    assert_eq!(csp.render(), Err(RenderError::EmptyCollection));

    let csp = CSP::new().add(Directive::TrustedTypes(TrustedTypes::new()));
    assert_eq!(csp.render(), Err(RenderError::EmptyCollection));
}

#[test]
fn directives_join_with_semicolons() {
    let csp = CSP::new()
        .add(Directive::DefaultSrc(Sources::new_with(Source::Self_)))
        .add(Directive::ImgSrc(Sources::new()))
        .add(Directive::UpgradeInsecureRequests);
    assert_eq!(
        csp.render().unwrap(),
        "default-src 'self'; img-src 'none'; upgrade-insecure-requests"
    );
}

#[test]
fn strict_mode_replaces_in_place() {
    let csp = CSP::new()
        .add(Directive::ImgSrc(Sources::new_with(Source::Self_)))
        .add(Directive::ConnectSrc(Sources::new_with(Source::Self_)))
        .add(Directive::ImgSrc(
            Sources::new().add(Source::Scheme("https".to_string())),
        ));
    assert_eq!(csp.render().unwrap(), "img-src https:; connect-src 'self'");
}

#[test]
fn permissive_mode_keeps_duplicates() {
    let mut csp = CSP::new_permissive();
    csp.add_borrowed(Directive::ImgSrc(Sources::new_with(Source::Self_)));
    csp.add_borrowed(Directive::ImgSrc(
        Sources::new().add(Source::Scheme("https".to_string())),
    ));
    assert_eq!(csp.render().unwrap(), "img-src 'self'; img-src https:");
}

#[test]
fn sri_targets() {
    let csp = CSP::new_with(Directive::RequireSriFor(SriFor::Style));
    assert_eq!(csp.render().unwrap(), "require-sri-for style");

    let csp = CSP::new_with(Directive::RequireSriFor(SriFor::ScriptStyle));
    assert_eq!(csp.render().unwrap(), "require-sri-for script style");
}

#[test]
fn sandbox_token_forms() {
    assert_eq!(
        SandboxAllow::DownloadsWithoutUserActivation.render(),
        "allow-downloads-without-user-activation"
    );
    assert_eq!(SandboxAllow::Forms.render(), "allow-forms");
    assert_eq!(SandboxAllow::SameOrigin.render(), "allow-same-origin");
    assert_eq!(
        SandboxAllow::TopNavigationByUserActivation.render(),
        "allow-top-navigation-by-user-activation"
    );
}

#[test]
fn sandbox_list_joins_tokens() {
    let csp = CSP::new().add(Directive::Sandbox(
        SandboxAllowedList::new()
            .add(SandboxAllow::Forms)
            .add(SandboxAllow::Popups)
            .add(SandboxAllow::Modals),
    ));
    assert_eq!(csp.render().unwrap(), "sandbox allow-forms allow-popups allow-modals");
}

#[test]
fn getters_expose_contents() {
    let plugins = Plugins::new_with(("application".to_string(), "pdf".to_string()));
    assert_eq!(plugins.get().len(), 1);
    assert_eq!(plugins.get()[0].0, "application");
    assert_eq!(plugins.get()[0].1, "pdf");

    let uris = ReportUris::new_with("https://r.example.org".to_string());
    assert_eq!(uris.get().len(), 1);
    assert_eq!(uris.get()[0], "https://r.example.org");

    let names = TrustedTypes::new_with("only".to_string());
    assert_eq!(names.get().len(), 1);
    assert_eq!(names.get()[0], "only");

    let mut allows = SandboxAllowedList::new();
    assert_eq!(allows.len(), 0);
    allows.add_borrowed(SandboxAllow::Scripts);
    assert_eq!(allows.len(), 1);
    assert_eq!(allows.get().len(), 1);
}

#[test]
fn clones_render_identically() {
    let csp = CSP::new()
        .add(Directive::ImgSrc(Sources::new_with(Source::Self_)))
        .add(Directive::Sandbox(
            SandboxAllowedList::new().add(SandboxAllow::Scripts),
        ));
    assert_eq!(csp.clone().render().unwrap(), csp.render().unwrap());

    let sources = Sources::new_with(Source::Nonce("n0".to_string()));
    assert_eq!(sources.clone().render(), sources.render());
}

#[test]
fn render_leaves_policy_usable() {
    let mut csp = CSP::new();
    csp.add_borrowed(Directive::ImgSrc(Sources::new_with(Source::Self_)));
    assert_eq!(csp.render().unwrap(), "img-src 'self'");
    csp.add_borrowed(Directive::FontSrc(Sources::new()));
    assert_eq!(csp.render().unwrap(), "img-src 'self'; font-src 'none'");
}
