//! The target of the `require-sri-for` directive.
use vstd::prelude::*;

verus! {

/// What Subresource Integrity is required for.
#[derive(Debug, Clone, Copy)]
pub enum SriFor {
    /// Requires SRI for scripts.
    Script,
    /// Requires SRI for style sheets.
    Style,
    /// Requires SRI for both scripts and style sheets.
    ScriptStyle,
}

/// The fixed text of an SRI target.
pub open spec fn sri_text(s: SriFor) -> Seq<char> {
    match s {
        SriFor::Script => "script"@,
        SriFor::Style => "style"@,
        SriFor::ScriptStyle => "script style"@,
    }
}

impl SriFor {
    /// Renders this target to its fixed text.
    pub fn render(&self) -> (r: String)
        ensures
            r@ == sri_text(*self),
    {
        match self {
            SriFor::Script => "script".to_owned(),
            SriFor::Style => "style".to_owned(),
            SriFor::ScriptStyle => "script style".to_owned(),
        }
    }
}

} // verus!
