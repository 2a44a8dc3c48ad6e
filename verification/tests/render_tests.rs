use csp::CSP;
use csp::Directive;
use csp::Plugins;
use csp::ReportUris;
use csp::SandboxAllow;
use csp::SandboxAllowedList;
use csp::Source;
use csp::Sources;
use csp::SriFor;
use csp::TrustedTypes;

#[test]
/// Combines different directives and sources, checking that spaces and
/// semicolons are inserted correctly.
fn lib_large_csp() {
    let font_src = Source::Host("https://cdn.example.org".to_string());

    let mut csp = CSP::new()
        .add(Directive::ImgSrc(
            Sources::new_with(Source::Self_)
                .add(Source::Scheme("https".to_string()))
                .add(Source::Host("http://shields.io".to_string())),
        ))
        .add(Directive::ConnectSrc(
            Sources::new()
                .add(Source::Host("https://crates.io".to_string()))
                .add(Source::Self_),
        ))
        .add(Directive::StyleSrc(
            Sources::new_with(Source::Self_)
                .add(Source::UnsafeInline)
                .add(font_src.clone()),
        ));

    csp.add_borrowed(Directive::FontSrc(Sources::new_with(font_src)));

    let csp = csp.render().unwrap();
    println!("{}", csp);

    assert_eq!(csp, "img-src 'self' https: http://shields.io; connect-src https://crates.io 'self'; style-src 'self' 'unsafe-inline' https://cdn.example.org; font-src https://cdn.example.org");
}

#[test]
/// Exercises the source variations together.
fn lib_all_sources() {
    let csp = CSP::new().add(Directive::ScriptSrc(
        Sources::new()
            .add(Source::Hash(("sha256".to_string(), "1234a".to_string())))
            .add(Source::Nonce("5678b".to_string()))
            .add(Source::ReportSample)
            .add(Source::StrictDynamic)
            .add(Source::UnsafeEval)
            .add(Source::UnsafeHashes)
            .add(Source::UnsafeInline)
            .add(Source::Scheme("data".to_string()))
            .add(Source::Host("https://example.org".to_string()))
            .add(Source::Self_),
    ));

    assert_eq!(
        csp.render().unwrap(),
        "script-src 'sha256-1234a' 'nonce-5678b' 'report-sample' 'strict-dynamic' 'unsafe-eval' 'unsafe-hashes' 'unsafe-inline' data: https://example.org 'self'"
    );
}

#[test]
fn lib_empty_values() {
    let csp = CSP::new();

    assert_eq!(csp.render().unwrap(), "");

    let csp = CSP::new().add(Directive::ImgSrc(Sources::new()));

    assert_eq!(csp.render().unwrap(), "img-src 'none'");
}

#[test]
fn lib_sandbox() {
    let csp = CSP::new().add(Directive::Sandbox(SandboxAllowedList::new()));

    assert_eq!(csp.render().unwrap(), "sandbox");

    let csp = CSP::new().add(Directive::Sandbox(
        SandboxAllowedList::new().add(SandboxAllow::Scripts),
    ));

    assert_eq!(csp.render().unwrap(), "sandbox allow-scripts");
    assert_eq!(
        csp.render().unwrap(),
        "sandbox ".to_owned() + &SandboxAllow::Scripts.render()
    );
}

#[test]
fn lib_special() {
    let mut csp = CSP::new();
    let sri_directive = Directive::RequireSriFor(SriFor::Script);

    csp.add_borrowed(sri_directive);

    assert_eq!(csp.render().unwrap(), "require-sri-for script");

    let csp = CSP::new_with(Directive::BlockAllMixedContent);
    assert_eq!(csp.render().unwrap(), "block-all-mixed-content");

    let csp = CSP::new_with(Directive::PluginTypes(
        Plugins::new().add(("application".to_string(), "x-java-applet".to_string())),
    ));
    assert_eq!(csp.render().unwrap(), "plugin-types application/x-java-applet");

    let csp = CSP::new_with(Directive::ReportTo("endpoint-1".to_string()));
    assert_eq!(csp.render().unwrap(), "report-to endpoint-1");

    let csp = CSP::new_with(Directive::ReportUri(
        ReportUris::new_with("https://r1.example.org".to_string())
            .add("https://r2.example.org".to_string()),
    ));
    assert_eq!(
        csp.render().unwrap(),
        "report-uri https://r1.example.org https://r2.example.org"
    );

    let csp = CSP::new_with(Directive::TrustedTypes(
        TrustedTypes::new_with("hello".to_string()).add("hello2".to_string()),
    ));
    assert_eq!(csp.render().unwrap(), "trusted-types hello hello2");

    let csp = CSP::new_with(Directive::UpgradeInsecureRequests);
    assert_eq!(csp.render().unwrap(), "upgrade-insecure-requests");
}

#[test]
/// Combines different directives and sources, checking that spaces and
/// semicolons are inserted correctly.
fn test_large_csp() {
    let font_src = Source::Host("https://cdn.example.org".to_string());

    let mut csp = CSP::new()
        .add(Directive::ImgSrc(
            Sources::new_with(Source::Self_)
                .add(Source::Scheme("https".to_string()))
                .add(Source::Host("http://shields.io".to_string())),
        ))
        .add(Directive::ConnectSrc(
            Sources::new()
                .add(Source::Host("https://crates.io".to_string()))
                .add(Source::Self_),
        ))
        .add(Directive::StyleSrc(
            Sources::new_with(Source::Self_)
                .add(Source::UnsafeInline)
                .add(font_src.clone()),
        ));

    csp.add_borrowed(Directive::FontSrc(Sources::new_with(font_src)));

    let csp = csp.render().unwrap();
    println!("{}", csp);

    assert_eq!(csp, "img-src 'self' https: http://shields.io; connect-src https://crates.io 'self'; style-src 'self' 'unsafe-inline' https://cdn.example.org; font-src https://cdn.example.org");
}

#[test]
/// Exercises the source variations together.
fn test_all_sources() {
    let csp = CSP::new().add(Directive::ScriptSrc(
        Sources::new()
            .add(Source::Hash(("sha256".to_string(), "1234a".to_string())))
            .add(Source::Nonce("5678b".to_string()))
            .add(Source::ReportSample)
            .add(Source::StrictDynamic)
            .add(Source::UnsafeEval)
            .add(Source::UnsafeHashes)
            .add(Source::UnsafeInline)
            .add(Source::Scheme("data".to_string()))
            .add(Source::Host("https://example.org".to_string()))
            .add(Source::Self_),
    ));

    assert_eq!(
        csp.render().unwrap(),
        "script-src 'sha256-1234a' 'nonce-5678b' 'report-sample' 'strict-dynamic' 'unsafe-eval' 'unsafe-hashes' 'unsafe-inline' data: https://example.org 'self'"
    );
}

#[test]
fn test_empty_values() {
    let csp = CSP::new();

    assert_eq!(csp.render().unwrap(), "");

    let csp = CSP::new().add(Directive::ImgSrc(Sources::new()));

    assert_eq!(csp.render().unwrap(), "img-src 'none'");
}

#[test]
fn test_sandbox() {
    let csp = CSP::new().add(Directive::Sandbox(SandboxAllowedList::new()));

    assert_eq!(csp.render().unwrap(), "sandbox");

    let csp = CSP::new().add(Directive::Sandbox(
        SandboxAllowedList::new().add(SandboxAllow::Scripts),
    ));

    assert_eq!(csp.render().unwrap(), "sandbox allow-scripts");
    assert_eq!(
        csp.render().unwrap(),
        "sandbox ".to_owned() + &SandboxAllow::Scripts.render()
    );
}

#[test]
fn test_special() {
    let mut csp = CSP::new();
    let sri_directive = Directive::RequireSriFor(SriFor::Script);

    csp.add_borrowed(sri_directive);

    assert_eq!(csp.render().unwrap(), "require-sri-for script");

    let csp = CSP::new_with(Directive::BlockAllMixedContent);
    assert_eq!(csp.render().unwrap(), "block-all-mixed-content");

    let csp = CSP::new_with(Directive::PluginTypes(Plugins::new_with((
        "application".to_string(),
        "x-java-applet".to_string(),
    ))));
    assert_eq!(csp.render().unwrap(), "plugin-types application/x-java-applet");

    let csp = CSP::new_with(Directive::ReportTo("endpoint-1".to_string()));
    assert_eq!(csp.render().unwrap(), "report-to endpoint-1");

    let csp = CSP::new_with(Directive::ReportUri(
        ReportUris::new_with("https://r1.example.org".to_string())
            .add("https://r2.example.org".to_string()),
    ));
    assert_eq!(
        csp.render().unwrap(),
        "report-uri https://r1.example.org https://r2.example.org"
    );

    let csp = CSP::new_with(Directive::TrustedTypes(
        TrustedTypes::new_with("hello".to_string()).add("hello2".to_string()),
    ));
    assert_eq!(csp.render().unwrap(), "trusted-types hello hello2");

    let csp = CSP::new_with(Directive::UpgradeInsecureRequests);
    assert_eq!(csp.render().unwrap(), "upgrade-insecure-requests");
}
