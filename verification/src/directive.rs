//! CSP directives: the tagged union over every directive kind, each variant
//! carrying the argument type that directive takes, and its rendering to
//! `"name argument"` text.
use vstd::prelude::*;

use crate::plugin::Plugins;
use crate::plugin::plugins_text;
use crate::render::RenderError;
use crate::report_uri::ReportUris;
use crate::report_uri::report_uris_text;
use crate::sandbox::SandboxAllowedList;
use crate::sandbox::sandbox_list_text;
use crate::source::Sources;
use crate::source::sources_text;
use crate::sri::SriFor;
use crate::sri::sri_text;
use crate::trusted_type::TrustedTypes;
use crate::trusted_type::trusted_types_text;

verus! {

/// A CSP directive.
///
/// Most variants carry a [`Sources`] list; the rest carry the specialized
/// argument their directive takes, or none at all for the two boolean
/// directives.
#[derive(Debug)]
pub enum Directive {
    /// Restricts the URLs usable in a document's `<base>` element.
    BaseUri(Sources),
    /// Blocks loading any assets over HTTP when the page uses HTTPS.
    BlockAllMixedContent,
    /// Valid sources for web workers and nested browsing contexts.
    ChildSrc(Sources),
    /// Restricts the URLs loadable through script interfaces.
    ConnectSrc(Sources),
    /// Fallback for the other fetch directives.
    DefaultSrc(Sources),
    /// Valid sources for fonts.
    FontSrc(Sources),
    /// Restricts the targets of form submissions.
    FormAction(Sources),
    /// Valid parents that may embed this page.
    FrameAncestors(Sources),
    /// Valid sources for nested browsing contexts.
    FrameSrc(Sources),
    /// Valid sources of images and favicons.
    ImgSrc(Sources),
    /// Which manifest can be applied to the resource.
    ManifestSrc(Sources),
    /// Valid sources for audio and video.
    MediaSrc(Sources),
    /// Restricts the URLs a document may initiate navigations to.
    NavigateTo(Sources),
    /// Valid sources for `<object>`, `<embed>` and `<applet>` elements.
    ObjectSrc(Sources),
    /// Restricts the plugin MIME types that can be embedded.
    PluginTypes(Plugins),
    /// Valid resources to prefetch or prerender.
    PrefetchSrc(Sources),
    /// Names a stored reporting endpoint group; takes one opaque name.
    ReportTo(String),
    /// URIs that policy-violation reports are posted to.
    ReportUri(ReportUris),
    /// Requires Subresource Integrity for scripts or styles.
    RequireSriFor(SriFor),
    /// Sandboxes the requested resource; the list re-enables capabilities.
    Sandbox(SandboxAllowedList),
    /// Valid sources for JavaScript.
    ScriptSrc(Sources),
    /// Valid sources for inline script event handlers.
    ScriptSrcAttr(Sources),
    /// Valid sources for `<script>` elements.
    ScriptSrcElem(Sources),
    /// Valid sources for stylesheets.
    StyleSrc(Sources),
    /// Valid sources for inline styles on individual elements.
    StyleSrcAttr(Sources),
    /// Valid sources for `<style>` and stylesheet `<link>` elements.
    StyleSrcElem(Sources),
    /// Allowed trusted-type policy names for DOM XSS sinks.
    TrustedTypes(TrustedTypes),
    /// Treats all of the site's insecure URLs as HTTPS.
    UpgradeInsecureRequests,
    /// Valid sources for worker scripts.
    WorkerSrc(Sources),
}

/// The kind of a directive: its tag alone, payload ignored.  Two directives
/// of the same kind render under the same name, and the strict policy mode
/// deduplicates by this.
#[derive(Debug, Clone, Copy, PartialEq, Eq, Structural)]
pub enum DirectiveKind {
    /// Tag of [`Directive::BaseUri`].
    BaseUri,
    /// Tag of [`Directive::BlockAllMixedContent`].
    BlockAllMixedContent,
    /// Tag of [`Directive::ChildSrc`].
    ChildSrc,
    /// Tag of [`Directive::ConnectSrc`].
    ConnectSrc,
    /// Tag of [`Directive::DefaultSrc`].
    DefaultSrc,
    /// Tag of [`Directive::FontSrc`].
    FontSrc,
    /// Tag of [`Directive::FormAction`].
    FormAction,
    /// Tag of [`Directive::FrameAncestors`].
    FrameAncestors,
    /// Tag of [`Directive::FrameSrc`].
    FrameSrc,
    /// Tag of [`Directive::ImgSrc`].
    ImgSrc,
    /// Tag of [`Directive::ManifestSrc`].
    ManifestSrc,
    /// Tag of [`Directive::MediaSrc`].
    MediaSrc,
    /// Tag of [`Directive::NavigateTo`].
    NavigateTo,
    /// Tag of [`Directive::ObjectSrc`].
    ObjectSrc,
    /// Tag of [`Directive::PluginTypes`].
    PluginTypes,
    /// Tag of [`Directive::PrefetchSrc`].
    PrefetchSrc,
    /// Tag of [`Directive::ReportTo`].
    ReportTo,
    /// Tag of [`Directive::ReportUri`].
    ReportUri,
    /// Tag of [`Directive::RequireSriFor`].
    RequireSriFor,
    /// Tag of [`Directive::Sandbox`].
    Sandbox,
    /// Tag of [`Directive::ScriptSrc`].
    ScriptSrc,
    /// Tag of [`Directive::ScriptSrcAttr`].
    ScriptSrcAttr,
    /// Tag of [`Directive::ScriptSrcElem`].
    ScriptSrcElem,
    /// Tag of [`Directive::StyleSrc`].
    StyleSrc,
    /// Tag of [`Directive::StyleSrcAttr`].
    StyleSrcAttr,
    /// Tag of [`Directive::StyleSrcElem`].
    StyleSrcElem,
    /// Tag of [`Directive::TrustedTypes`].
    TrustedTypes,
    /// Tag of [`Directive::UpgradeInsecureRequests`].
    UpgradeInsecureRequests,
    /// Tag of [`Directive::WorkerSrc`].
    WorkerSrc,
}

/// The kind (tag) of a directive, payload ignored.
pub open spec fn directive_kind(d: Directive) -> DirectiveKind {
    match d {
        Directive::BaseUri(_) => DirectiveKind::BaseUri,
        Directive::BlockAllMixedContent => DirectiveKind::BlockAllMixedContent,
        Directive::ChildSrc(_) => DirectiveKind::ChildSrc,
        Directive::ConnectSrc(_) => DirectiveKind::ConnectSrc,
        Directive::DefaultSrc(_) => DirectiveKind::DefaultSrc,
        Directive::FontSrc(_) => DirectiveKind::FontSrc,
        Directive::FormAction(_) => DirectiveKind::FormAction,
        Directive::FrameAncestors(_) => DirectiveKind::FrameAncestors,
        Directive::FrameSrc(_) => DirectiveKind::FrameSrc,
        Directive::ImgSrc(_) => DirectiveKind::ImgSrc,
        Directive::ManifestSrc(_) => DirectiveKind::ManifestSrc,
        Directive::MediaSrc(_) => DirectiveKind::MediaSrc,
        Directive::NavigateTo(_) => DirectiveKind::NavigateTo,
        Directive::ObjectSrc(_) => DirectiveKind::ObjectSrc,
        Directive::PluginTypes(_) => DirectiveKind::PluginTypes,
        Directive::PrefetchSrc(_) => DirectiveKind::PrefetchSrc,
        Directive::ReportTo(_) => DirectiveKind::ReportTo,
        Directive::ReportUri(_) => DirectiveKind::ReportUri,
        Directive::RequireSriFor(_) => DirectiveKind::RequireSriFor,
        Directive::Sandbox(_) => DirectiveKind::Sandbox,
        Directive::ScriptSrc(_) => DirectiveKind::ScriptSrc,
        Directive::ScriptSrcAttr(_) => DirectiveKind::ScriptSrcAttr,
        Directive::ScriptSrcElem(_) => DirectiveKind::ScriptSrcElem,
        Directive::StyleSrc(_) => DirectiveKind::StyleSrc,
        Directive::StyleSrcAttr(_) => DirectiveKind::StyleSrcAttr,
        Directive::StyleSrcElem(_) => DirectiveKind::StyleSrcElem,
        Directive::TrustedTypes(_) => DirectiveKind::TrustedTypes,
        Directive::UpgradeInsecureRequests => DirectiveKind::UpgradeInsecureRequests,
        Directive::WorkerSrc(_) => DirectiveKind::WorkerSrc,
    }
}

/// The kebab-case CSP name of a directive kind.
pub open spec fn directive_name(k: DirectiveKind) -> Seq<char> {
    match k {
        DirectiveKind::BaseUri => "base-uri"@,
        DirectiveKind::BlockAllMixedContent => "block-all-mixed-content"@,
        DirectiveKind::ChildSrc => "child-src"@,
        DirectiveKind::ConnectSrc => "connect-src"@,
        DirectiveKind::DefaultSrc => "default-src"@,
        DirectiveKind::FontSrc => "font-src"@,
        DirectiveKind::FormAction => "form-action"@,
        DirectiveKind::FrameAncestors => "frame-ancestors"@,
        DirectiveKind::FrameSrc => "frame-src"@,
        DirectiveKind::ImgSrc => "img-src"@,
        DirectiveKind::ManifestSrc => "manifest-src"@,
        DirectiveKind::MediaSrc => "media-src"@,
        DirectiveKind::NavigateTo => "navigate-to"@,
        DirectiveKind::ObjectSrc => "object-src"@,
        DirectiveKind::PluginTypes => "plugin-types"@,
        DirectiveKind::PrefetchSrc => "prefetch-src"@,
        DirectiveKind::ReportTo => "report-to"@,
        DirectiveKind::ReportUri => "report-uri"@,
        DirectiveKind::RequireSriFor => "require-sri-for"@,
        DirectiveKind::Sandbox => "sandbox"@,
        DirectiveKind::ScriptSrc => "script-src"@,
        DirectiveKind::ScriptSrcAttr => "script-src-attr"@,
        DirectiveKind::ScriptSrcElem => "script-src-elem"@,
        DirectiveKind::StyleSrc => "style-src"@,
        DirectiveKind::StyleSrcAttr => "style-src-attr"@,
        DirectiveKind::StyleSrcElem => "style-src-elem"@,
        DirectiveKind::TrustedTypes => "trusted-types"@,
        DirectiveKind::UpgradeInsecureRequests => "upgrade-insecure-requests"@,
        DirectiveKind::WorkerSrc => "worker-src"@,
    }
}

impl DirectiveKind {
    /// The kebab-case CSP name of this kind.
    pub fn name(&self) -> (r: &'static str)
        ensures
            r@ == directive_name(*self),
    {
        match self {
            DirectiveKind::BaseUri => "base-uri",
            DirectiveKind::BlockAllMixedContent => "block-all-mixed-content",
            DirectiveKind::ChildSrc => "child-src",
            DirectiveKind::ConnectSrc => "connect-src",
            DirectiveKind::DefaultSrc => "default-src",
            DirectiveKind::FontSrc => "font-src",
            DirectiveKind::FormAction => "form-action",
            DirectiveKind::FrameAncestors => "frame-ancestors",
            DirectiveKind::FrameSrc => "frame-src",
            DirectiveKind::ImgSrc => "img-src",
            DirectiveKind::ManifestSrc => "manifest-src",
            DirectiveKind::MediaSrc => "media-src",
            DirectiveKind::NavigateTo => "navigate-to",
            DirectiveKind::ObjectSrc => "object-src",
            DirectiveKind::PluginTypes => "plugin-types",
            DirectiveKind::PrefetchSrc => "prefetch-src",
            DirectiveKind::ReportTo => "report-to",
            DirectiveKind::ReportUri => "report-uri",
            DirectiveKind::RequireSriFor => "require-sri-for",
            DirectiveKind::Sandbox => "sandbox",
            DirectiveKind::ScriptSrc => "script-src",
            DirectiveKind::ScriptSrcAttr => "script-src-attr",
            DirectiveKind::ScriptSrcElem => "script-src-elem",
            DirectiveKind::StyleSrc => "style-src",
            DirectiveKind::StyleSrcAttr => "style-src-attr",
            DirectiveKind::StyleSrcElem => "style-src-elem",
            DirectiveKind::TrustedTypes => "trusted-types",
            DirectiveKind::UpgradeInsecureRequests => "upgrade-insecure-requests",
            DirectiveKind::WorkerSrc => "worker-src",
        }
    }
}

/// Whether this directive carries a [`Sources`] argument.
pub open spec fn directive_takes_sources(d: Directive) -> bool {
    match d {
        Directive::BaseUri(_) => true,
        Directive::ChildSrc(_) => true,
        Directive::ConnectSrc(_) => true,
        Directive::DefaultSrc(_) => true,
        Directive::FontSrc(_) => true,
        Directive::FormAction(_) => true,
        Directive::FrameAncestors(_) => true,
        Directive::FrameSrc(_) => true,
        Directive::ImgSrc(_) => true,
        Directive::ManifestSrc(_) => true,
        Directive::MediaSrc(_) => true,
        Directive::NavigateTo(_) => true,
        Directive::ObjectSrc(_) => true,
        Directive::PrefetchSrc(_) => true,
        Directive::ScriptSrc(_) => true,
        Directive::ScriptSrcAttr(_) => true,
        Directive::ScriptSrcElem(_) => true,
        Directive::StyleSrc(_) => true,
        Directive::StyleSrcAttr(_) => true,
        Directive::StyleSrcElem(_) => true,
        Directive::WorkerSrc(_) => true,
        _ => false,
    }
}

/// The source list carried by a directive that takes one; empty for the
/// rest.
pub open spec fn directive_sources(d: Directive) -> Seq<crate::source::Source> {
    match d {
        Directive::BaseUri(s) => s@,
        Directive::ChildSrc(s) => s@,
        Directive::ConnectSrc(s) => s@,
        Directive::DefaultSrc(s) => s@,
        Directive::FontSrc(s) => s@,
        Directive::FormAction(s) => s@,
        Directive::FrameAncestors(s) => s@,
        Directive::FrameSrc(s) => s@,
        Directive::ImgSrc(s) => s@,
        Directive::ManifestSrc(s) => s@,
        Directive::MediaSrc(s) => s@,
        Directive::NavigateTo(s) => s@,
        Directive::ObjectSrc(s) => s@,
        Directive::PrefetchSrc(s) => s@,
        Directive::ScriptSrc(s) => s@,
        Directive::ScriptSrcAttr(s) => s@,
        Directive::ScriptSrcElem(s) => s@,
        Directive::StyleSrc(s) => s@,
        Directive::StyleSrcAttr(s) => s@,
        Directive::StyleSrcElem(s) => s@,
        Directive::WorkerSrc(s) => s@,
        _ => Seq::empty(),
    }
}

/// Whether the directive renders with an argument after its name.  False
/// for the two boolean directives, and for `sandbox` with an empty token
/// list, which renders as the bare word.
pub open spec fn directive_has_arg(d: Directive) -> bool {
    match d {
        Directive::BlockAllMixedContent => false,
        Directive::UpgradeInsecureRequests => false,
        Directive::Sandbox(l) => l@.len() > 0,
        _ => true,
    }
}

/// The text of the directive's argument alone; empty for a directive that
/// renders without one.
pub open spec fn directive_arg_text(d: Directive) -> Seq<char> {
    match d {
        Directive::BaseUri(s) => sources_text(s@),
        Directive::BlockAllMixedContent => Seq::empty(),
        Directive::ChildSrc(s) => sources_text(s@),
        Directive::ConnectSrc(s) => sources_text(s@),
        Directive::DefaultSrc(s) => sources_text(s@),
        Directive::FontSrc(s) => sources_text(s@),
        Directive::FormAction(s) => sources_text(s@),
        Directive::FrameAncestors(s) => sources_text(s@),
        Directive::FrameSrc(s) => sources_text(s@),
        Directive::ImgSrc(s) => sources_text(s@),
        Directive::ManifestSrc(s) => sources_text(s@),
        Directive::MediaSrc(s) => sources_text(s@),
        Directive::NavigateTo(s) => sources_text(s@),
        Directive::ObjectSrc(s) => sources_text(s@),
        Directive::PluginTypes(p) => plugins_text(p@),
        Directive::PrefetchSrc(s) => sources_text(s@),
        Directive::ReportTo(name) => name@,
        Directive::ReportUri(u) => report_uris_text(u@),
        Directive::RequireSriFor(f) => sri_text(f),
        Directive::Sandbox(l) => sandbox_list_text(l@),
        Directive::ScriptSrc(s) => sources_text(s@),
        Directive::ScriptSrcAttr(s) => sources_text(s@),
        Directive::ScriptSrcElem(s) => sources_text(s@),
        Directive::StyleSrc(s) => sources_text(s@),
        Directive::StyleSrcAttr(s) => sources_text(s@),
        Directive::StyleSrcElem(s) => sources_text(s@),
        Directive::TrustedTypes(t) => trusted_types_text(t@),
        Directive::UpgradeInsecureRequests => Seq::empty(),
        Directive::WorkerSrc(s) => sources_text(s@),
    }
}

/// The exact text of one directive: its name, then a space and its
/// argument when it renders with one.
pub open spec fn directive_text(d: Directive) -> Seq<char> {
    if directive_has_arg(d) {
        directive_name(directive_kind(d)) + " "@ + directive_arg_text(d)
    } else {
        directive_name(directive_kind(d))
    }
}

/// Whether the directive renders at all: false exactly for the three
/// directives whose argument collection must not be empty but is.
pub open spec fn directive_ok(d: Directive) -> bool {
    match d {
        Directive::PluginTypes(p) => p@.len() > 0,
        Directive::ReportUri(u) => u@.len() > 0,
        Directive::TrustedTypes(t) => t@.len() > 0,
        _ => true,
    }
}

/// Every directive that takes a source list renders an empty list as the
/// `'none'` keyword after its name.
pub proof fn lemma_empty_sources_render_none(d: Directive)
    requires
        directive_takes_sources(d),
        directive_sources(d).len() == 0,
    ensures
        directive_text(d) == directive_name(directive_kind(d)) + " "@ + "'none'"@,
{
}

/// The `sandbox` directive with an empty token list renders as the bare
/// word `sandbox`, with no trailing space.
pub proof fn lemma_sandbox_empty_renders_bare(l: SandboxAllowedList)
    requires
        l@.len() == 0,
    ensures
        directive_text(Directive::Sandbox(l)) == "sandbox"@,
{
}

impl Directive {
    /// The kind (tag) of this directive, payload ignored.
    pub fn kind(&self) -> (r: DirectiveKind)
        ensures
            r == directive_kind(*self),
    {
        match self {
            Directive::BaseUri(_) => DirectiveKind::BaseUri,
            Directive::BlockAllMixedContent => DirectiveKind::BlockAllMixedContent,
            Directive::ChildSrc(_) => DirectiveKind::ChildSrc,
            Directive::ConnectSrc(_) => DirectiveKind::ConnectSrc,
            Directive::DefaultSrc(_) => DirectiveKind::DefaultSrc,
            Directive::FontSrc(_) => DirectiveKind::FontSrc,
            Directive::FormAction(_) => DirectiveKind::FormAction,
            Directive::FrameAncestors(_) => DirectiveKind::FrameAncestors,
            Directive::FrameSrc(_) => DirectiveKind::FrameSrc,
            Directive::ImgSrc(_) => DirectiveKind::ImgSrc,
            Directive::ManifestSrc(_) => DirectiveKind::ManifestSrc,
            Directive::MediaSrc(_) => DirectiveKind::MediaSrc,
            Directive::NavigateTo(_) => DirectiveKind::NavigateTo,
            Directive::ObjectSrc(_) => DirectiveKind::ObjectSrc,
            Directive::PluginTypes(_) => DirectiveKind::PluginTypes,
            Directive::PrefetchSrc(_) => DirectiveKind::PrefetchSrc,
            Directive::ReportTo(_) => DirectiveKind::ReportTo,
            Directive::ReportUri(_) => DirectiveKind::ReportUri,
            Directive::RequireSriFor(_) => DirectiveKind::RequireSriFor,
            Directive::Sandbox(_) => DirectiveKind::Sandbox,
            Directive::ScriptSrc(_) => DirectiveKind::ScriptSrc,
            Directive::ScriptSrcAttr(_) => DirectiveKind::ScriptSrcAttr,
            Directive::ScriptSrcElem(_) => DirectiveKind::ScriptSrcElem,
            Directive::StyleSrc(_) => DirectiveKind::StyleSrc,
            Directive::StyleSrcAttr(_) => DirectiveKind::StyleSrcAttr,
            Directive::StyleSrcElem(_) => DirectiveKind::StyleSrcElem,
            Directive::TrustedTypes(_) => DirectiveKind::TrustedTypes,
            Directive::UpgradeInsecureRequests => DirectiveKind::UpgradeInsecureRequests,
            Directive::WorkerSrc(_) => DirectiveKind::WorkerSrc,
        }
    }

    /// Renders this directive to its exact text: the name, then a space
    /// and the argument when one is due.  Fails exactly when the argument
    /// is a `plugin-types`, `report-uri` or `trusted-types` collection
    /// that holds no element.
    pub fn render(&self) -> (r: Result<String, RenderError>)
        ensures
            directive_ok(*self) <==> r is Ok,
            !directive_ok(*self) ==> r == Err::<String, RenderError>(
                RenderError::EmptyCollection,
            ),
            r matches Ok(s) ==> s@ == directive_text(*self),
    {
        let k = self.kind();
        match self {
            Directive::BlockAllMixedContent => Ok(k.name().to_owned()),
            Directive::UpgradeInsecureRequests => Ok(k.name().to_owned()),
            Directive::Sandbox(l) => {
                if l.len() == 0 {
                    Ok(k.name().to_owned())
                } else {
                    let arg = l.render();
                    let mut out = k.name().to_owned();
                    out.append(" ");
                    out.append(arg.as_str());
                    Ok(out)
                }
            },
            Directive::PluginTypes(p) => {
                match p.render() {
                    Ok(arg) => {
                        let mut out = k.name().to_owned();
                        out.append(" ");
                        out.append(arg.as_str());
                        Ok(out)
                    },
                    Err(e) => Err(e),
                }
            },
            Directive::ReportUri(u) => {
                match u.render() {
                    Ok(arg) => {
                        let mut out = k.name().to_owned();
                        out.append(" ");
                        out.append(arg.as_str());
                        Ok(out)
                    },
                    Err(e) => Err(e),
                }
            },
            Directive::TrustedTypes(t) => {
                match t.render() {
                    Ok(arg) => {
                        let mut out = k.name().to_owned();
                        out.append(" ");
                        out.append(arg.as_str());
                        Ok(out)
                    },
                    Err(e) => Err(e),
                }
            },
            Directive::ReportTo(name) => {
                let mut out = k.name().to_owned();
                out.append(" ");
                out.append(name.as_str());
                Ok(out)
            },
            Directive::RequireSriFor(f) => {
                let arg = f.render();
                let mut out = k.name().to_owned();
                out.append(" ");
                out.append(arg.as_str());
                Ok(out)
            },
            Directive::BaseUri(s) => Ok(Self::render_with_sources(k, s)),
            Directive::ChildSrc(s) => Ok(Self::render_with_sources(k, s)),
            Directive::ConnectSrc(s) => Ok(Self::render_with_sources(k, s)),
            Directive::DefaultSrc(s) => Ok(Self::render_with_sources(k, s)),
            Directive::FontSrc(s) => Ok(Self::render_with_sources(k, s)),
            Directive::FormAction(s) => Ok(Self::render_with_sources(k, s)),
            Directive::FrameAncestors(s) => Ok(Self::render_with_sources(k, s)),
            Directive::FrameSrc(s) => Ok(Self::render_with_sources(k, s)),
            Directive::ImgSrc(s) => Ok(Self::render_with_sources(k, s)),
            Directive::ManifestSrc(s) => Ok(Self::render_with_sources(k, s)),
            Directive::MediaSrc(s) => Ok(Self::render_with_sources(k, s)),
            Directive::NavigateTo(s) => Ok(Self::render_with_sources(k, s)),
            Directive::ObjectSrc(s) => Ok(Self::render_with_sources(k, s)),
            Directive::PrefetchSrc(s) => Ok(Self::render_with_sources(k, s)),
            Directive::ScriptSrc(s) => Ok(Self::render_with_sources(k, s)),
            Directive::ScriptSrcAttr(s) => Ok(Self::render_with_sources(k, s)),
            Directive::ScriptSrcElem(s) => Ok(Self::render_with_sources(k, s)),
            Directive::StyleSrc(s) => Ok(Self::render_with_sources(k, s)),
            Directive::StyleSrcAttr(s) => Ok(Self::render_with_sources(k, s)),
            Directive::StyleSrcElem(s) => Ok(Self::render_with_sources(k, s)),
            Directive::WorkerSrc(s) => Ok(Self::render_with_sources(k, s)),
        }
    }

    /// The directive name, a space, and the rendered source list.
    fn render_with_sources(k: DirectiveKind, s: &Sources) -> (r: String)
        ensures
            r@ == directive_name(k) + " "@ + sources_text(s@),
    {
        let arg = s.render();
        let mut out = k.name().to_owned();
        out.append(" ");
        out.append(arg.as_str());
        out
    }
}

impl Clone for Directive {
    /// A clone has the same kind, renders to the same text, and fails to
    /// render exactly when the original does.
    fn clone(&self) -> (r: Self)
        ensures
            directive_kind(r) == directive_kind(*self),
            directive_ok(r) == directive_ok(*self),
            directive_text(r) == directive_text(*self),
    {
        match self {
            Directive::BaseUri(s) => Directive::BaseUri(s.clone()),
            Directive::BlockAllMixedContent => Directive::BlockAllMixedContent,
            Directive::ChildSrc(s) => Directive::ChildSrc(s.clone()),
            Directive::ConnectSrc(s) => Directive::ConnectSrc(s.clone()),
            Directive::DefaultSrc(s) => Directive::DefaultSrc(s.clone()),
            Directive::FontSrc(s) => Directive::FontSrc(s.clone()),
            Directive::FormAction(s) => Directive::FormAction(s.clone()),
            Directive::FrameAncestors(s) => Directive::FrameAncestors(s.clone()),
            Directive::FrameSrc(s) => Directive::FrameSrc(s.clone()),
            Directive::ImgSrc(s) => Directive::ImgSrc(s.clone()),
            Directive::ManifestSrc(s) => Directive::ManifestSrc(s.clone()),
            Directive::MediaSrc(s) => Directive::MediaSrc(s.clone()),
            Directive::NavigateTo(s) => Directive::NavigateTo(s.clone()),
            Directive::ObjectSrc(s) => Directive::ObjectSrc(s.clone()),
            Directive::PluginTypes(p) => Directive::PluginTypes(p.clone()),
            Directive::PrefetchSrc(s) => Directive::PrefetchSrc(s.clone()),
            Directive::ReportTo(name) => Directive::ReportTo(name.clone()),
            Directive::ReportUri(u) => Directive::ReportUri(u.clone()),
            Directive::RequireSriFor(f) => Directive::RequireSriFor(*f),
            Directive::Sandbox(l) => Directive::Sandbox(l.clone()),
            Directive::ScriptSrc(s) => Directive::ScriptSrc(s.clone()),
            Directive::ScriptSrcAttr(s) => Directive::ScriptSrcAttr(s.clone()),
            Directive::ScriptSrcElem(s) => Directive::ScriptSrcElem(s.clone()),
            Directive::StyleSrc(s) => Directive::StyleSrc(s.clone()),
            Directive::StyleSrcAttr(s) => Directive::StyleSrcAttr(s.clone()),
            Directive::StyleSrcElem(s) => Directive::StyleSrcElem(s.clone()),
            Directive::TrustedTypes(t) => Directive::TrustedTypes(t.clone()),
            Directive::UpgradeInsecureRequests => Directive::UpgradeInsecureRequests,
            Directive::WorkerSrc(s) => Directive::WorkerSrc(s.clone()),
        }
    }
}

} // verus!
