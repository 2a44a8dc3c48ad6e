//! Plugin MIME type/subtype pairs: the argument of the `plugin-types`
//! directive.
use vstd::prelude::*;

use crate::render::RenderError;
use crate::render::join_text;
use crate::render::join_strings;

verus! {

/// An ordered list of (type, subtype) MIME pairs for `plugin-types`.
///
/// Each pair renders as `type/subtype`; the pairs are space-joined in
/// insertion order.  An empty list has no meaningful CSP form and fails to
/// render.
#[derive(Debug)]
pub struct Plugins {
    list: Vec<(String, String)>,
}

impl View for Plugins {
    type V = Seq<(String, String)>;

    closed spec fn view(&self) -> Seq<(String, String)> {
        self.list@
    }
}

impl Clone for Plugins {
    /// A clone holds the same pairs in the same order.
    fn clone(&self) -> (r: Self)
        ensures
            r@ == self@,
    {
        let mut list: Vec<(String, String)> = Vec::new();
        let mut i: usize = 0;
        while i < self.list.len()
            invariant
                i <= self.list.len(),
                list@.len() == i,
                forall|j: int| 0 <= j < i ==> #[trigger] list@[j] == self.list@[j],
            decreases self.list.len() - i,
        {
            let pair = (self.list[i].0.clone(), self.list[i].1.clone());
            list.push(pair);
            i = i + 1;
        }
        proof {
            assert(list@ =~= self.list@);
        }
        Plugins { list }
    }
}

/// The text of one MIME pair: the type, a slash, the subtype.
pub open spec fn plugin_text(p: (String, String)) -> Seq<char> {
    p.0@ + "/"@ + p.1@
}

/// The text of a plugin list: the pair texts space-joined in order.  Only
/// meaningful for a non-empty list; rendering an empty one fails instead.
pub open spec fn plugins_text(plugins: Seq<(String, String)>) -> Seq<char> {
    join_text(plugins.map_values(|p: (String, String)| plugin_text(p)), " "@)
}

impl Plugins {
    /// A plugin list holding nothing; rendering it fails.
    pub fn new() -> (r: Self)
        ensures
            r@ == Seq::<(String, String)>::empty(),
    {
        Plugins { list: Vec::new() }
    }

    /// A plugin list seeded with one (type, subtype) pair.
    pub fn new_with(plugin: (String, String)) -> (r: Self)
        ensures
            r@ == seq![plugin],
    {
        let mut list: Vec<(String, String)> = Vec::new();
        list.push(plugin);
        Plugins { list }
    }

    /// Appends a pair in place, keeping insertion order.
    pub fn add_borrowed(&mut self, plugin: (String, String))
        ensures
            final(self)@ == old(self)@.push(plugin),
    {
        self.list.push(plugin);
    }

    /// Appends a pair, returning the grown list.
    pub fn add(self, plugin: (String, String)) -> (r: Self)
        ensures
            r@ == self@.push(plugin),
    {
        let mut grown = self;
        grown.list.push(plugin);
        grown
    }

    /// The pairs in insertion order.
    pub fn get(&self) -> (r: &Vec<(String, String)>)
        ensures
            r@ == self@,
    {
        &self.list
    }

    /// Renders the list, space-joining the `type/subtype` pairs in
    /// insertion order; an empty list is a caller bug and fails.
    pub fn render(&self) -> (r: Result<String, RenderError>)
        ensures
            self@.len() == 0 <==> r is Err,
            self@.len() == 0 ==> r == Err::<String, RenderError>(RenderError::EmptyCollection),
            self@.len() > 0 ==> (r matches Ok(s) && s@ == plugins_text(self@)),
    {
        if self.list.len() == 0 {
            return Err(RenderError::EmptyCollection);
        }
        let mut parts: Vec<String> = Vec::new();
        let mut i: usize = 0;
        while i < self.list.len()
            invariant
                i <= self.list.len(),
                parts@.len() == i,
                forall|j: int|
                    0 <= j < i ==> (#[trigger] parts@[j])@ == plugin_text(self.list@[j]),
            decreases self.list.len() - i,
        {
            let mut part = self.list[i].0.clone();
            part.append("/");
            part.append(self.list[i].1.as_str());
            parts.push(part);
            i = i + 1;
        }
        proof {
            assert(parts@.map_values(|p: String| p@) =~= self.list@.map_values(
                |p: (String, String)| plugin_text(p),
            ));
        }
        Ok(join_strings(&parts, " "))
    }
}

} // verus!
