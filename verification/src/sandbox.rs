//! Sandbox permission tokens and the ordered list of them that the
//! `sandbox` directive takes as its argument.
use vstd::prelude::*;

use crate::render::join_text;
use crate::render::join_strings;

verus! {

/// One sandbox permission token, re-enabling a capability that the
/// `sandbox` directive otherwise disables.
#[derive(Debug, Clone, Copy)]
pub enum SandboxAllow {
    /// Allows downloads without a gesture from the user.
    DownloadsWithoutUserActivation,
    /// Allows the embedded browsing context to submit forms.
    Forms,
    /// Allows the embedded browsing context to open modal windows.
    Modals,
    /// Allows the embedded browsing context to disable screen-orientation
    /// locking.
    OrientationLock,
    /// Allows the embedded browsing context to use the Pointer Lock API.
    PointerLock,
    /// Allows popups.
    Popups,
    /// Allows a sandboxed document to open new windows without forcing the
    /// sandboxing flags upon them.
    PopupsToEscapeSandbox,
    /// Allows embedders to control whether an iframe can start a
    /// presentation session.
    Presentation,
    /// Allows the content to be treated as being from its normal origin.
    SameOrigin,
    /// Allows the embedded browsing context to run scripts.
    Scripts,
    /// Allows the resource to request access to the parent's storage
    /// capabilities.
    StorageAccessByUserActivation,
    /// Allows the embedded browsing context to navigate the top-level
    /// browsing context.
    TopNavigation,
    /// Allows top-level navigation, but only if initiated by a user gesture.
    TopNavigationByUserActivation,
}

/// The fixed text of one sandbox permission token.
pub open spec fn sandbox_allow_text(a: SandboxAllow) -> Seq<char> {
    match a {
        SandboxAllow::DownloadsWithoutUserActivation => "allow-downloads-without-user-activation"@,
        SandboxAllow::Forms => "allow-forms"@,
        SandboxAllow::Modals => "allow-modals"@,
        SandboxAllow::OrientationLock => "allow-orientation-lock"@,
        SandboxAllow::PointerLock => "allow-pointer-lock"@,
        SandboxAllow::Popups => "allow-popups"@,
        SandboxAllow::PopupsToEscapeSandbox => "allow-popups-to-escape-sandbox"@,
        SandboxAllow::Presentation => "allow-presentation"@,
        SandboxAllow::SameOrigin => "allow-same-origin"@,
        SandboxAllow::Scripts => "allow-scripts"@,
        SandboxAllow::StorageAccessByUserActivation => "allow-storage-access-by-user-activation"@,
        SandboxAllow::TopNavigation => "allow-top-navigation"@,
        SandboxAllow::TopNavigationByUserActivation => "allow-top-navigation-by-user-activation"@,
    }
}

impl SandboxAllow {
    /// Renders this token to its fixed text.
    pub fn render(&self) -> (r: String)
        ensures
            r@ == sandbox_allow_text(*self),
    {
        match self {
            SandboxAllow::DownloadsWithoutUserActivation => {
                "allow-downloads-without-user-activation".to_owned()
            },
            SandboxAllow::Forms => "allow-forms".to_owned(),
            SandboxAllow::Modals => "allow-modals".to_owned(),
            SandboxAllow::OrientationLock => "allow-orientation-lock".to_owned(),
            SandboxAllow::PointerLock => "allow-pointer-lock".to_owned(),
            SandboxAllow::Popups => "allow-popups".to_owned(),
            SandboxAllow::PopupsToEscapeSandbox => "allow-popups-to-escape-sandbox".to_owned(),
            SandboxAllow::Presentation => "allow-presentation".to_owned(),
            SandboxAllow::SameOrigin => "allow-same-origin".to_owned(),
            SandboxAllow::Scripts => "allow-scripts".to_owned(),
            SandboxAllow::StorageAccessByUserActivation => {
                "allow-storage-access-by-user-activation".to_owned()
            },
            SandboxAllow::TopNavigation => "allow-top-navigation".to_owned(),
            SandboxAllow::TopNavigationByUserActivation => {
                "allow-top-navigation-by-user-activation".to_owned()
            },
        }
    }
}

/// An ordered list of sandbox permission tokens.
///
/// An empty list renders as the empty text, so the `sandbox` directive word
/// stands alone; a non-empty list renders space-joined in insertion order.
#[derive(Debug)]
pub struct SandboxAllowedList {
    list: Vec<SandboxAllow>,
}

impl View for SandboxAllowedList {
    type V = Seq<SandboxAllow>;

    closed spec fn view(&self) -> Seq<SandboxAllow> {
        self.list@
    }
}

impl Clone for SandboxAllowedList {
    /// A clone holds the same tokens in the same order.
    fn clone(&self) -> (r: Self)
        ensures
            r@ == self@,
    {
        let list = self.list.clone();
        proof {
            assert(list@ =~= self.list@);
        }
        SandboxAllowedList { list }
    }
}

/// The exact text of a sandbox token list: empty when the list is empty,
/// otherwise the token texts space-joined in order.
pub open spec fn sandbox_list_text(allows: Seq<SandboxAllow>) -> Seq<char> {
    if allows.len() == 0 {
        Seq::empty()
    } else {
        join_text(allows.map_values(|a: SandboxAllow| sandbox_allow_text(a)), " "@)
    }
}

impl SandboxAllowedList {
    /// A token list holding nothing; under `sandbox` the directive word
    /// then stands alone.
    pub fn new() -> (r: Self)
        ensures
            r@ == Seq::<SandboxAllow>::empty(),
    {
        SandboxAllowedList { list: Vec::new() }
    }

    /// A token list seeded with one token.
    pub fn new_with(sandbox_allow: SandboxAllow) -> (r: Self)
        ensures
            r@ == seq![sandbox_allow],
    {
        let mut list: Vec<SandboxAllow> = Vec::new();
        list.push(sandbox_allow);
        SandboxAllowedList { list }
    }

    /// Appends a token in place, keeping insertion order.
    pub fn add_borrowed(&mut self, sandbox_allow: SandboxAllow)
        ensures
            final(self)@ == old(self)@.push(sandbox_allow),
    {
        self.list.push(sandbox_allow);
    }

    /// Appends a token, returning the grown list.
    pub fn add(self, sandbox_allow: SandboxAllow) -> (r: Self)
        ensures
            r@ == self@.push(sandbox_allow),
    {
        let mut grown = self;
        grown.list.push(sandbox_allow);
        grown
    }

    /// The tokens in insertion order.
    pub fn get(&self) -> (r: &Vec<SandboxAllow>)
        ensures
            r@ == self@,
    {
        &self.list
    }

    /// How many tokens the list holds.
    pub fn len(&self) -> (r: usize)
        ensures
            r == self@.len(),
    {
        self.list.len()
    }

    /// Renders the list: the empty text when empty, otherwise the tokens
    /// space-joined in insertion order.
    pub fn render(&self) -> (r: String)
        ensures
            r@ == sandbox_list_text(self@),
    {
        if self.list.len() == 0 {
            return String::new();
        }
        let mut parts: Vec<String> = Vec::new();
        let mut i: usize = 0;
        while i < self.list.len()
            invariant
                i <= self.list.len(),
                parts@.len() == i,
                forall|j: int|
                    0 <= j < i ==> (#[trigger] parts@[j])@ == sandbox_allow_text(self.list@[j]),
            decreases self.list.len() - i,
        {
            parts.push(self.list[i].render());
            i = i + 1;
        }
        proof {
            assert(parts@.map_values(|p: String| p@) =~= self.list@.map_values(
                |a: SandboxAllow| sandbox_allow_text(a),
            ));
        }
        join_strings(&parts, " ")
    }
}

} // verus!
