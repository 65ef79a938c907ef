use vstd::prelude::*;

use crate::text::str_eq;

verus! {

/// The closed set of select-menu kinds. Each kind has a trigger button in the
/// introductory message, and the button's custom identifier names the kind.
#[derive(Clone, Copy, Debug, PartialEq, Eq, Structural)]
pub enum SelectMenuKind {
    String,
    User,
    Role,
    Mentionable,
    Channel,
}

impl SelectMenuKind {
    /// The custom identifier embedded in this kind's trigger button.
    pub open spec fn spec_id(self) -> Seq<char> {
        match self {
            SelectMenuKind::String => "string"@,
            SelectMenuKind::User => "user"@,
            SelectMenuKind::Role => "role"@,
            SelectMenuKind::Mentionable => "mentionable"@,
            SelectMenuKind::Channel => "channel"@,
        }
    }

    pub fn as_str(&self) -> (r: &'static str)
        ensures
            r@ == self.spec_id(),
    {
        match self {
            SelectMenuKind::String => "string",
            SelectMenuKind::User => "user",
            SelectMenuKind::Role => "role",
            SelectMenuKind::Mentionable => "mentionable",
            SelectMenuKind::Channel => "channel",
        }
    }

    /// Which kind, if any, a custom identifier names.
    pub open spec fn spec_from_id(s: Seq<char>) -> Option<SelectMenuKind> {
        if s == "string"@ {
            Some(SelectMenuKind::String)
        } else if s == "user"@ {
            Some(SelectMenuKind::User)
        } else if s == "role"@ {
            Some(SelectMenuKind::Role)
        } else if s == "mentionable"@ {
            Some(SelectMenuKind::Mentionable)
        } else if s == "channel"@ {
            Some(SelectMenuKind::Channel)
        } else {
            None
        }
    }

    /// Recovers a kind from a trigger's custom identifier; every string
    /// outside the closed identifier set is rejected.
    pub fn from_str(s: &str) -> (r: Result<SelectMenuKind, ()>)
        ensures
            r matches Ok(k) ==> Self::spec_from_id(s@) == Some(k),
            r is Err <==> Self::spec_from_id(s@) is None,
    {
        if str_eq(s, "string") {
            Ok(SelectMenuKind::String)
        } else if str_eq(s, "user") {
            Ok(SelectMenuKind::User)
        } else if str_eq(s, "role") {
            Ok(SelectMenuKind::Role)
        } else if str_eq(s, "mentionable") {
            Ok(SelectMenuKind::Mentionable)
        } else if str_eq(s, "channel") {
            Ok(SelectMenuKind::Channel)
        } else {
            Err(())
        }
    }

    /// The kinds in the order their trigger buttons appear.
    pub open spec fn all_spec() -> Seq<SelectMenuKind> {
        seq![
            SelectMenuKind::String,
            SelectMenuKind::User,
            SelectMenuKind::Role,
            SelectMenuKind::Mentionable,
            SelectMenuKind::Channel,
        ]
    }

    /// Every kind, in the order the trigger buttons are laid out.
    pub fn all() -> (r: Vec<SelectMenuKind>)
        ensures
            r@ == Self::all_spec(),
    {
        let mut kinds: Vec<SelectMenuKind> = Vec::new();
        kinds.push(SelectMenuKind::String);
        kinds.push(SelectMenuKind::User);
        kinds.push(SelectMenuKind::Role);
        kinds.push(SelectMenuKind::Mentionable);
        kinds.push(SelectMenuKind::Channel);
        proof {
            assert(kinds@ =~= Self::all_spec());
        }
        kinds
    }
}

} // verus!
