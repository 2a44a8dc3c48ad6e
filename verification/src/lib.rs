//! A typed builder for `Content-Security-Policy` header values.
//!
//! A policy is assembled from strongly-typed pieces — source expressions,
//! sandbox tokens, plugin MIME pairs, report URIs, trusted-type names —
//! wrapped in directives and collected into a [`CSP`], which renders to the
//! exact header-value string the CSP syntax requires.  Every rendering
//! function carries a contract pinning the produced text down to the
//! character.
//!
//! The builder does not validate policy semantics: host, scheme, nonce and
//! digest strings are kept verbatim, and contradictory directives are
//! rendered as given.
use vstd::prelude::*;

mod directive;
mod plugin;
mod render;
mod report_uri;
mod sandbox;
mod source;
mod sri;
mod trusted_type;

pub use directive::Directive;
pub use directive::DirectiveKind;
pub use directive::directive_kind;
pub use directive::directive_name;
pub use directive::directive_takes_sources;
pub use directive::directive_sources;
pub use directive::directive_has_arg;
pub use directive::directive_arg_text;
pub use directive::directive_text;
pub use directive::directive_ok;
pub use directive::lemma_empty_sources_render_none;
pub use directive::lemma_sandbox_empty_renders_bare;
pub use plugin::Plugins;
pub use plugin::plugin_text;
pub use plugin::plugins_text;
pub use render::RenderError;
pub use render::join_text;
pub use render::lemma_join_text_snoc;
pub use render::lemma_join_text_single;
pub use report_uri::ReportUris;
pub use report_uri::report_uris_text;
pub use sandbox::SandboxAllow;
pub use sandbox::SandboxAllowedList;
pub use sandbox::sandbox_allow_text;
pub use sandbox::sandbox_list_text;
pub use source::Source;
pub use source::Sources;
pub use source::source_text;
pub use source::sources_text;
pub use source::lemma_sources_text_empty;
pub use source::lemma_sources_text_single;
pub use source::lemma_sources_text_snoc;
pub use sri::SriFor;
pub use sri::sri_text;
pub use trusted_type::TrustedTypes;
pub use trusted_type::trusted_types_text;

use render::join_strings;

verus! {

/// A Content-Security-Policy under construction: an ordered list of
/// directives, rendered by joining the directive texts with `"; "`.
///
/// A policy is either strict — the default, where appending a directive
/// whose kind is already present replaces the earlier one in place — or
/// permissive, where every appended directive is kept.
#[derive(Debug)]
pub struct CSP {
    directives: Vec<Directive>,
    dedup: bool,
}

impl View for CSP {
    type V = Seq<Directive>;

    closed spec fn view(&self) -> Seq<Directive> {
        self.directives@
    }
}

/// The index of the first directive of kind `k` in `ds`, or `-1` when no
/// directive of that kind is present.
pub open spec fn find_kind(ds: Seq<Directive>, k: DirectiveKind) -> int
    decreases ds.len(),
{
    if ds.len() == 0 {
        -1
    } else if directive_kind(ds[0]) == k {
        0
    } else {
        let rest = find_kind(ds.drop_first(), k);
        if rest < 0 {
            -1
        } else {
            rest + 1
        }
    }
}

/// What `find_kind` finds: `-1` exactly when no directive of the kind is
/// present, and otherwise the first index holding that kind.
pub proof fn lemma_find_kind(ds: Seq<Directive>, k: DirectiveKind)
    ensures
        find_kind(ds, k) >= 0 <==> exists|i: int|
            0 <= i < ds.len() && directive_kind(#[trigger] ds[i]) == k,
        find_kind(ds, k) == -1 || 0 <= find_kind(ds, k) < ds.len(),
        find_kind(ds, k) >= 0 ==> directive_kind(ds[find_kind(ds, k)]) == k,
        forall|j: int| 0 <= j < find_kind(ds, k) ==> directive_kind(#[trigger] ds[j]) != k,
    decreases ds.len(),
{
    if ds.len() == 0 {
    } else if directive_kind(ds[0]) == k {
    } else {
        let rest = ds.drop_first();
        lemma_find_kind(rest, k);
        assert(forall|j: int| 0 <= j < rest.len() ==> #[trigger] rest[j] == ds[j + 1]);
        if exists|i: int| 0 <= i < ds.len() && directive_kind(#[trigger] ds[i]) == k {
            let i = choose|i: int| 0 <= i < ds.len() && directive_kind(#[trigger] ds[i]) == k;
            assert(directive_kind(rest[i - 1]) == k);
        }
        assert forall|j: int| 0 <= j < find_kind(ds, k) implies directive_kind(
            #[trigger] ds[j],
        ) != k by {
            if j >= 1 {
                assert(rest[j - 1] == ds[j]);
                assert(directive_kind(rest[j - 1]) != k);
            }
        };
    }
}

/// The list that appending `d` produces: under the strict mode, when a
/// directive of `d`'s kind is already present, `d` replaces the first such
/// directive at its original index; otherwise `d` goes to the end.
pub open spec fn policy_add(ds: Seq<Directive>, strict: bool, d: Directive) -> Seq<Directive> {
    if strict && find_kind(ds, directive_kind(d)) >= 0 {
        ds.update(find_kind(ds, directive_kind(d)), d)
    } else {
        ds.push(d)
    }
}

/// The exact header-value text of a policy: the directive texts joined by
/// `"; "` in order; the empty text for an empty policy.
pub open spec fn csp_text(ds: Seq<Directive>) -> Seq<char> {
    join_text(ds.map_values(|d: Directive| directive_text(d)), "; "@)
}

/// A policy of one directive renders as that directive's text alone.
pub proof fn lemma_csp_text_single(d: Directive)
    ensures
        csp_text(seq![d]) == directive_text(d),
{
    assert(seq![d].map_values(|x: Directive| directive_text(x)) =~= seq![directive_text(d)]);
}

/// Appending a directive to a non-empty policy appends exactly `"; "` and
/// that directive's text: n directives render as n texts joined by `"; "`,
/// in order, with no trailing separator.
pub proof fn lemma_csp_text_snoc(ds: Seq<Directive>, d: Directive)
    requires
        ds.len() > 0,
    ensures
        csp_text(ds.push(d)) == csp_text(ds) + "; "@ + directive_text(d),
{
    assert(ds.push(d).map_values(|x: Directive| directive_text(x)) =~= ds.map_values(
        |x: Directive| directive_text(x),
    ).push(directive_text(d)));
    lemma_join_text_snoc(ds.map_values(|x: Directive| directive_text(x)), directive_text(d), "; "@);
}

/// In the strict mode, appending a directive whose kind is already present
/// replaces the first directive of that kind in place: the list keeps its
/// length, the new directive stands at the replaced one's original index,
/// and every other position is untouched.
pub proof fn lemma_strict_add_replaces(ds: Seq<Directive>, d: Directive)
    requires
        exists|i: int| 0 <= i < ds.len() && directive_kind(#[trigger] ds[i]) == directive_kind(d),
    ensures
        ({
            let at = find_kind(ds, directive_kind(d));
            &&& 0 <= at < ds.len()
            &&& directive_kind(ds[at]) == directive_kind(d)
            &&& forall|j: int| 0 <= j < at ==> directive_kind(#[trigger] ds[j]) != directive_kind(d)
            &&& policy_add(ds, true, d) == ds.update(at, d)
            &&& policy_add(ds, true, d).len() == ds.len()
            &&& policy_add(ds, true, d)[at] == d
            &&& forall|j: int|
                0 <= j < ds.len() && j != at ==> #[trigger] policy_add(ds, true, d)[j] == ds[j]
        }),
{
    lemma_find_kind(ds, directive_kind(d));
}

impl Clone for CSP {
    /// A clone keeps the mode and holds directives of the same kinds that
    /// render to the same texts, so the clone renders exactly as the
    /// original does.
    fn clone(&self) -> (r: Self)
        ensures
            r.is_strict() == self.is_strict(),
            r@.len() == self@.len(),
            forall|i: int|
                0 <= i < self@.len() ==> {
                    &&& directive_kind(#[trigger] r@[i]) == directive_kind(self@[i])
                    &&& directive_ok(r@[i]) == directive_ok(self@[i])
                    &&& directive_text(r@[i]) == directive_text(self@[i])
                },
            csp_text(r@) == csp_text(self@),
    {
        let mut directives: Vec<Directive> = Vec::new();
        let mut i: usize = 0;
        while i < self.directives.len()
            invariant
                i <= self.directives.len(),
                directives@.len() == i,
                forall|j: int|
                    0 <= j < i ==> {
                        &&& directive_kind(#[trigger] directives@[j]) == directive_kind(
                            self.directives@[j],
                        )
                        &&& directive_ok(directives@[j]) == directive_ok(self.directives@[j])
                        &&& directive_text(directives@[j]) == directive_text(self.directives@[j])
                    },
            decreases self.directives.len() - i,
        {
            directives.push(self.directives[i].clone());
            i = i + 1;
        }
        proof {
            assert(directives@.map_values(|d: Directive| directive_text(d))
                =~= self.directives@.map_values(|d: Directive| directive_text(d)));
        }
        CSP { directives, dedup: self.dedup }
    }
}

impl CSP {
    /// Whether this policy deduplicates by directive kind when a directive
    /// is appended.
    pub closed spec fn is_strict(&self) -> bool {
        self.dedup
    }

    /// An empty policy in the strict mode.
    pub fn new() -> (r: Self)
        ensures
            r@ == Seq::<Directive>::empty(),
            r.is_strict(),
    {
        CSP { directives: Vec::new(), dedup: true }
    }

    /// A strict policy seeded with one directive.
    pub fn new_with(directive: Directive) -> (r: Self)
        ensures
            r@ == seq![directive],
            r.is_strict(),
    {
        let mut directives: Vec<Directive> = Vec::new();
        directives.push(directive);
        CSP { directives, dedup: true }
    }

    /// An empty policy in the permissive mode: appended directives are all
    /// kept, duplicate kinds included.
    pub fn new_permissive() -> (r: Self)
        ensures
            r@ == Seq::<Directive>::empty(),
            !r.is_strict(),
    {
        CSP { directives: Vec::new(), dedup: false }
    }

    /// The first index holding a directive of kind `k`, if any.
    fn find_first(directives: &Vec<Directive>, k: DirectiveKind) -> (r: Option<usize>)
        ensures
            match r {
                Some(at) => {
                    &&& at < directives@.len()
                    &&& directive_kind(directives@[at as int]) == k
                    &&& forall|j: int|
                        0 <= j < at ==> directive_kind(#[trigger] directives@[j]) != k
                },
                None => forall|j: int|
                    0 <= j < directives@.len() ==> directive_kind(#[trigger] directives@[j]) != k,
            },
    {
        let mut i: usize = 0;
        while i < directives.len()
            invariant
                i <= directives.len(),
                forall|j: int| 0 <= j < i ==> directive_kind(#[trigger] directives@[j]) != k,
            decreases directives.len() - i,
        {
            if directives[i].kind() == k {
                return Some(i);
            }
            i = i + 1;
        }
        None
    }

    /// Appends a directive in place.  In the strict mode a directive whose
    /// kind is already present replaces the first such directive at its
    /// original index; otherwise, and always in the permissive mode, the
    /// directive goes to the end.
    pub fn add_borrowed(&mut self, directive: Directive)
        ensures
            final(self).is_strict() == old(self).is_strict(),
            final(self)@ == policy_add(old(self)@, old(self).is_strict(), directive),
    {
        proof {
            lemma_find_kind(old(self)@, directive_kind(directive));
        }
        if self.dedup {
            let k = directive.kind();
            match Self::find_first(&self.directives, k) {
                Some(at) => {
                    self.directives[at] = directive;
                },
                None => {
                    self.directives.push(directive);
                },
            }
        } else {
            self.directives.push(directive);
        }
    }

    /// Appends a directive, returning the grown policy; same replacement
    /// rule as [`CSP::add_borrowed`].
    pub fn add(self, directive: Directive) -> (r: Self)
        ensures
            r.is_strict() == self.is_strict(),
            r@ == policy_add(self@, self.is_strict(), directive),
    {
        let mut grown = self;
        grown.add_borrowed(directive);
        grown
    }

    /// Renders the policy: the directive texts joined by `"; "` in order,
    /// the empty text for an empty policy.  Fails, with nothing rendered,
    /// exactly when some directive's argument is a `plugin-types`,
    /// `report-uri` or `trusted-types` collection holding no element.
    pub fn render(&self) -> (r: Result<String, RenderError>)
        ensures
            (forall|i: int| 0 <= i < self@.len() ==> directive_ok(#[trigger] self@[i])) <==> r
                is Ok,
            r matches Ok(s) ==> s@ == csp_text(self@),
            r is Err ==> r == Err::<String, RenderError>(RenderError::EmptyCollection),
    {
        let mut parts: Vec<String> = Vec::new();
        let mut i: usize = 0;
        while i < self.directives.len()
            invariant
                i <= self.directives.len(),
                parts@.len() == i,
                forall|j: int| 0 <= j < i ==> directive_ok(#[trigger] self.directives@[j]),
                forall|j: int|
                    0 <= j < i ==> (#[trigger] parts@[j])@ == directive_text(self.directives@[j]),
            decreases self.directives.len() - i,
        {
            match self.directives[i].render() {
                Ok(text) => {
                    parts.push(text);
                },
                Err(e) => {
                    proof {
                        assert(!directive_ok(self@[i as int]));
                    }
                    return Err(e);
                },
            }
            i = i + 1;
        }
        proof {
            assert(parts@.map_values(|p: String| p@) =~= self.directives@.map_values(
                |d: Directive| directive_text(d),
            ));
        }
        Ok(join_strings(&parts, "; "))
    }
}

} // verus!
