//! Fetch-source expressions and the ordered list of them that most
//! directives take as their argument.
use vstd::prelude::*;

use crate::render::join_text;
use crate::render::join_strings;
use crate::render::lemma_join_text_snoc;

verus! {

/// A single fetch-source expression.
///
/// Textual payloads (host, scheme, nonce, hash algorithm and digest) are
/// kept verbatim: nothing is escaped or validated.
#[derive(Debug)]
pub enum Source {
    /// An internet host by name or IP address, kept verbatim, with optional
    /// scheme, port and wildcards.
    Host(String),
    /// A scheme such as `https`; the trailing colon is added when rendering.
    Scheme(String),
    /// The `'self'` keyword: the origin the protected document is served from.
    Self_,
    /// The `'unsafe-eval'` keyword: allows `eval()` and similar mechanisms.
    UnsafeEval,
    /// The `'wasm-unsafe-eval'` keyword: allows compiling WebAssembly.
    WasmUnsafeEval,
    /// The `'unsafe-hashes'` keyword: allows specific inline event handlers.
    UnsafeHashes,
    /// The `'unsafe-inline'` keyword: allows inline scripts and styles.
    UnsafeInline,
    /// A nonce value; renders wrapped as `'nonce-…'`.
    Nonce(String),
    /// An (algorithm, digest) pair; renders wrapped as `'algorithm-digest'`.
    Hash((String, String)),
    /// The `'strict-dynamic'` keyword: trust given to a script propagates to
    /// the scripts it loads.
    StrictDynamic,
    /// The `'report-sample'` keyword: violation reports carry a code sample.
    ReportSample,
}

/// The exact CSP text of one source expression.
pub open spec fn source_text(s: Source) -> Seq<char> {
    match s {
        Source::Host(h) => h@,
        Source::Scheme(sch) => sch@ + ":"@,
        Source::Self_ => "'self'"@,
        Source::UnsafeEval => "'unsafe-eval'"@,
        Source::WasmUnsafeEval => "'wasm-unsafe-eval'"@,
        Source::UnsafeHashes => "'unsafe-hashes'"@,
        Source::UnsafeInline => "'unsafe-inline'"@,
        Source::Nonce(n) => "'nonce-"@ + n@ + "'"@,
        Source::Hash(p) => "'"@ + p.0@ + "-"@ + p.1@ + "'"@,
        Source::StrictDynamic => "'strict-dynamic'"@,
        Source::ReportSample => "'report-sample'"@,
    }
}

impl Clone for Source {
    /// A clone is equal to the original, payload included.
    fn clone(&self) -> (r: Self)
        ensures
            r == *self,
    {
        match self {
            Source::Host(h) => Source::Host(h.clone()),
            Source::Scheme(sch) => Source::Scheme(sch.clone()),
            Source::Self_ => Source::Self_,
            Source::UnsafeEval => Source::UnsafeEval,
            Source::WasmUnsafeEval => Source::WasmUnsafeEval,
            Source::UnsafeHashes => Source::UnsafeHashes,
            Source::UnsafeInline => Source::UnsafeInline,
            Source::Nonce(n) => Source::Nonce(n.clone()),
            Source::Hash(p) => Source::Hash((p.0.clone(), p.1.clone())),
            Source::StrictDynamic => Source::StrictDynamic,
            Source::ReportSample => Source::ReportSample,
        }
    }
}

impl Source {
    /// Renders this source expression to its exact CSP text.
    pub fn render(&self) -> (r: String)
        ensures
            r@ == source_text(*self),
    {
        match self {
            Source::Host(h) => h.clone(),
            Source::Scheme(sch) => {
                let mut r = sch.clone();
                r.append(":");
                r
            },
            Source::Self_ => "'self'".to_owned(),
            Source::UnsafeEval => "'unsafe-eval'".to_owned(),
            Source::WasmUnsafeEval => "'wasm-unsafe-eval'".to_owned(),
            Source::UnsafeHashes => "'unsafe-hashes'".to_owned(),
            Source::UnsafeInline => "'unsafe-inline'".to_owned(),
            Source::Nonce(n) => {
                let mut r = "'nonce-".to_owned();
                r.append(n.as_str());
                r.append("'");
                r
            },
            Source::Hash(p) => {
                let mut r = "'".to_owned();
                r.append(p.0.as_str());
                r.append("-");
                r.append(p.1.as_str());
                r.append("'");
                r
            },
            Source::StrictDynamic => "'strict-dynamic'".to_owned(),
            Source::ReportSample => "'report-sample'".to_owned(),
        }
    }
}

/// An ordered list of source expressions for a directive argument.
///
/// An empty list renders as the `'none'` keyword; a non-empty list renders
/// as its sources space-joined in insertion order.
#[derive(Debug)]
pub struct Sources {
    list: Vec<Source>,
}

impl Clone for Sources {
    /// A clone holds the same sources in the same order.
    fn clone(&self) -> (r: Self)
        ensures
            r@ == self@,
    {
        let list = self.list.clone();
        proof {
            assert(list@ =~= self.list@);
        }
        Sources { list }
    }
}

impl View for Sources {
    type V = Seq<Source>;

    closed spec fn view(&self) -> Seq<Source> {
        self.list@
    }
}

/// The exact CSP text of a source list: `'none'` when empty, otherwise the
/// source texts space-joined in order.
pub open spec fn sources_text(sources: Seq<Source>) -> Seq<char> {
    if sources.len() == 0 {
        "'none'"@
    } else {
        join_text(sources.map_values(|s: Source| source_text(s)), " "@)
    }
}

/// An empty source list renders as the `'none'` keyword.
pub proof fn lemma_sources_text_empty(sources: Seq<Source>)
    requires
        sources.len() == 0,
    ensures
        sources_text(sources) == "'none'"@,
{
}

/// A single source renders as its own text, with no space around it.
pub proof fn lemma_sources_text_single(s: Source)
    ensures
        sources_text(seq![s]) == source_text(s),
{
    assert(seq![s].map_values(|x: Source| source_text(x)) =~= seq![source_text(s)]);
}

/// Appending a source to a non-empty list appends exactly one space and
/// that source's text: n sources render as n texts in insertion order with
/// single spaces between them and none leading or trailing.
pub proof fn lemma_sources_text_snoc(sources: Seq<Source>, s: Source)
    requires
        sources.len() > 0,
    ensures
        sources_text(sources.push(s)) == sources_text(sources) + " "@ + source_text(s),
{
    assert(sources.push(s).map_values(|x: Source| source_text(x)) =~= sources.map_values(
        |x: Source| source_text(x),
    ).push(source_text(s)));
    lemma_join_text_snoc(sources.map_values(|x: Source| source_text(x)), source_text(s), " "@);
}

impl Sources {
    /// A source list holding nothing; it renders as `'none'`.
    pub fn new() -> (r: Self)
        ensures
            r@ == Seq::<Source>::empty(),
    {
        Sources { list: Vec::new() }
    }

    /// A source list seeded with one source.
    pub fn new_with(source: Source) -> (r: Self)
        ensures
            r@ == seq![source],
    {
        let mut list: Vec<Source> = Vec::new();
        list.push(source);
        Sources { list }
    }

    /// Appends a source in place, keeping insertion order.
    pub fn add_borrowed(&mut self, source: Source)
        ensures
            final(self)@ == old(self)@.push(source),
    {
        self.list.push(source);
    }

    /// Appends a source, returning the grown list.
    pub fn add(self, source: Source) -> (r: Self)
        ensures
            r@ == self@.push(source),
    {
        let mut grown = self;
        grown.list.push(source);
        grown
    }

    /// Renders the list: `'none'` when empty, otherwise the sources
    /// space-joined in insertion order.
    pub fn render(&self) -> (r: String)
        ensures
            r@ == sources_text(self@),
    {
        if self.list.len() == 0 {
            return "'none'".to_owned();
        }
        let mut parts: Vec<String> = Vec::new();
        let mut i: usize = 0;
        while i < self.list.len()
            invariant
                i <= self.list.len(),
                parts@.len() == i,
                forall|j: int|
                    0 <= j < i ==> (#[trigger] parts@[j])@ == source_text(self.list@[j]),
            decreases self.list.len() - i,
        {
            parts.push(self.list[i].render());
            i = i + 1;
        }
        proof {
            assert(parts@.map_values(|p: String| p@) =~= self.list@.map_values(
                |s: Source| source_text(s),
            ));
        }
        join_strings(&parts, " ")
    }
}

} // verus!
