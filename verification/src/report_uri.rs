//! Report URIs: the argument of the `report-uri` directive.
use vstd::prelude::*;

use crate::render::RenderError;
use crate::render::join_text;
use crate::render::join_strings;

verus! {

/// An ordered list of opaque report URIs for `report-uri`.
///
/// The URIs are kept verbatim and space-joined in insertion order.  An
/// empty list has no meaningful CSP form and fails to render.
#[derive(Debug)]
pub struct ReportUris {
    list: Vec<String>,
}

impl View for ReportUris {
    type V = Seq<String>;

    closed spec fn view(&self) -> Seq<String> {
        self.list@
    }
}

impl Clone for ReportUris {
    /// A clone holds the same URIs in the same order.
    fn clone(&self) -> (r: Self)
        ensures
            r@ == self@,
    {
        let list = self.list.clone();
        proof {
            assert(list@ =~= self.list@);
        }
        ReportUris { list }
    }
}

/// The text of a report-URI list: the URIs space-joined in order.  Only
/// meaningful for a non-empty list; rendering an empty one fails instead.
pub open spec fn report_uris_text(uris: Seq<String>) -> Seq<char> {
    join_text(uris.map_values(|u: String| u@), " "@)
}

impl ReportUris {
    /// A URI list holding nothing; rendering it fails.
    pub fn new() -> (r: Self)
        ensures
            r@ == Seq::<String>::empty(),
    {
        ReportUris { list: Vec::new() }
    }

    /// A URI list seeded with one URI.
    pub fn new_with(report_uri: String) -> (r: Self)
        ensures
            r@ == seq![report_uri],
    {
        let mut list: Vec<String> = Vec::new();
        list.push(report_uri);
        ReportUris { list }
    }

    /// Appends a URI in place, keeping insertion order.
    pub fn add_borrowed(&mut self, report_uri: String)
        ensures
            final(self)@ == old(self)@.push(report_uri),
    {
        self.list.push(report_uri);
    }

    /// Appends a URI, returning the grown list.
    pub fn add(self, report_uri: String) -> (r: Self)
        ensures
            r@ == self@.push(report_uri),
    {
        let mut grown = self;
        grown.list.push(report_uri);
        grown
    }

    /// The URIs in insertion order.
    pub fn get(&self) -> (r: &Vec<String>)
        ensures
            r@ == self@,
    {
        &self.list
    }

    /// Renders the list, space-joining the URIs in insertion order; an
    /// empty list is a caller bug and fails.
    pub fn render(&self) -> (r: Result<String, RenderError>)
        ensures
            self@.len() == 0 <==> r is Err,
            self@.len() == 0 ==> r == Err::<String, RenderError>(RenderError::EmptyCollection),
            self@.len() > 0 ==> (r matches Ok(s) && s@ == report_uris_text(self@)),
    {
        if self.list.len() == 0 {
            return Err(RenderError::EmptyCollection);
        }
        proof {
            assert(self.list@.map_values(|p: String| p@) =~= self.list@.map_values(
                |u: String| u@,
            ));
        }
        Ok(join_strings(&self.list, " "))
    }
}

} // verus!
