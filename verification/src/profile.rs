use vstd::prelude::*;
use vstd::string::StringExecFns;
use crate::text::{dec_digits, push_decimal};

verus! {

/// How many stock placeholder pictures exist; a user without a picture gets
/// one of them, chosen by their id.
pub const PROPIC_COUNT: u64 = 8;

/// The profile details the greeter shows. Immutable once fetched; both
/// display fields are optional and fall back to values generated from the
/// user's id.
pub struct ProfileDetails {
    /// The user's chosen display name, if any.
    pub display_name: Option<String>,
    /// A reference to the user's own profile picture, if any.
    pub profile_pic: Option<String>,
    /// The user's principal id, from which the fallbacks are generated.
    pub user_id: u64,
}

/// The generated default display name for a user without one.
pub open spec fn fallback_name(id: u64) -> Seq<char> {
    "user"@ + dec_digits(id as nat)
}

/// The stock placeholder picture for a user without one, chosen by id.
pub open spec fn fallback_pic(id: u64) -> Seq<char> {
    "/img/propic-"@ + dec_digits((id % PROPIC_COUNT) as nat) + ".png"@
}

impl ProfileDetails {
    /// The name the greeter shows for these details.
    pub open spec fn spec_display_name(&self) -> Seq<char> {
        match self.display_name {
            Some(n) => n@,
            None => fallback_name(self.user_id),
        }
    }

    /// The picture the greeter shows for these details.
    pub open spec fn spec_profile_pic(&self) -> Seq<char> {
        match self.profile_pic {
            Some(p) => p@,
            None => fallback_pic(self.user_id),
        }
    }

    /// The display name, or the generated default when none was chosen.
    pub fn display_name_or_fallback(&self) -> (r: String)
        ensures
            r@ == self.spec_display_name(),
    {
        match &self.display_name {
            Some(n) => n.clone(),
            None => {
                let mut s = String::from_str("user");
                push_decimal(self.user_id, &mut s);
                s
            },
        }
    }

    /// The profile picture, or the stock placeholder when none was set.
    pub fn profile_pic_or_fallback(&self) -> (r: String)
        ensures
            r@ == self.spec_profile_pic(),
    {
        match &self.profile_pic {
            Some(p) => p.clone(),
            None => {
                let mut s = String::from_str("/img/propic-");
                push_decimal(self.user_id % PROPIC_COUNT, &mut s);
                s.append(".png");
                s
            },
        }
    }
}

} // verus!
