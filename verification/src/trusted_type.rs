//! Trusted-type policy names: the argument of the `trusted-types`
//! directive.
use vstd::prelude::*;

use crate::render::RenderError;
use crate::render::join_text;
use crate::render::join_strings;

verus! {

/// An ordered list of opaque trusted-type policy names for `trusted-types`.
///
/// The names are kept verbatim and space-joined in insertion order.  An
/// empty list has no meaningful CSP form and fails to render.
#[derive(Debug)]
pub struct TrustedTypes {
    list: Vec<String>,
}

impl View for TrustedTypes {
    type V = Seq<String>;

    closed spec fn view(&self) -> Seq<String> {
        self.list@
    }
}

impl Clone for TrustedTypes {
    /// A clone holds the same names in the same order.
    fn clone(&self) -> (r: Self)
        ensures
            r@ == self@,
    {
        let list = self.list.clone();
        proof {
            assert(list@ =~= self.list@);
        }
        TrustedTypes { list }
    }
}

/// The text of a trusted-type name list: the names space-joined in order.
/// Only meaningful for a non-empty list; rendering an empty one fails
/// instead.
pub open spec fn trusted_types_text(names: Seq<String>) -> Seq<char> {
    join_text(names.map_values(|n: String| n@), " "@)
}

impl TrustedTypes {
    /// A name list holding nothing; rendering it fails.
    pub fn new() -> (r: Self)
        ensures
            r@ == Seq::<String>::empty(),
    {
        TrustedTypes { list: Vec::new() }
    }

    /// A name list seeded with one policy name.
    pub fn new_with(trusted_type: String) -> (r: Self)
        ensures
            r@ == seq![trusted_type],
    {
        let mut list: Vec<String> = Vec::new();
        list.push(trusted_type);
        TrustedTypes { list }
    }

    /// Appends a name in place, keeping insertion order.
    pub fn add_borrowed(&mut self, trusted_type: String)
        ensures
            final(self)@ == old(self)@.push(trusted_type),
    {
        self.list.push(trusted_type);
    }

    /// Appends a name, returning the grown list.
    pub fn add(self, trusted_type: String) -> (r: Self)
        ensures
            r@ == self@.push(trusted_type),
    {
        let mut grown = self;
        grown.list.push(trusted_type);
        grown
    }

    /// The names in insertion order.
    pub fn get(&self) -> (r: &Vec<String>)
        ensures
            r@ == self@,
    {
        &self.list
    }

    /// Renders the list, space-joining the names in insertion order; an
    /// empty list is a caller bug and fails.
    pub fn render(&self) -> (r: Result<String, RenderError>)
        ensures
            self@.len() == 0 <==> r is Err,
            self@.len() == 0 ==> r == Err::<String, RenderError>(RenderError::EmptyCollection),
            self@.len() > 0 ==> (r matches Ok(s) && s@ == trusted_types_text(self@)),
    {
        if self.list.len() == 0 {
            return Err(RenderError::EmptyCollection);
        }
        proof {
            assert(self.list@.map_values(|p: String| p@) =~= self.list@.map_values(
                |n: String| n@,
            ));
        }
        Ok(join_strings(&self.list, " "))
    }
}

} // verus!
