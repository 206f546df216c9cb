use crate::text::str_eq;
use vstd::prelude::*;
use vstd::string::*;

verus! {

/// The type of a ban.
#[derive(Debug, Clone, PartialEq, Eq, Structural)]
pub enum PublicBanType {
    /// A standard ban
    Standard,
    /// A soft ban
    Soft,
    /// A hard ban
    Hard,
}

impl PublicBanType {
    /// The name of the variant, as the API writes it.
    pub open spec fn name(self) -> Seq<char> {
        match self {
            PublicBanType::Standard => "Standard"@,
            PublicBanType::Soft => "Soft"@,
            PublicBanType::Hard => "Hard"@,
        }
    }

    /// The name of the variant, as the API writes it.
    #[must_use]
    pub fn as_str(&self) -> (r: &'static str)
        ensures
            r@ == self.name(),
    {
        match self {
            PublicBanType::Standard => "Standard",
            PublicBanType::Soft => "Soft",
            PublicBanType::Hard => "Hard",
        }
    }

    /// The name of the variant, as a string of its own.
    #[must_use]
    pub fn to_string(&self) -> (r: String)
        ensures
            r@ == self.name(),
    {
        String::from_str(self.as_str())
    }

    /// The variant that a name stands for. The name has to match to the
    /// letter.
    #[must_use]
    pub fn from_name(name: &str) -> (r: Option<Self>)
        ensures
            match r {
                Some(variant) => variant.name() == name@,
                None => forall|variant: Self| variant.name() != name@,
            },
    {
        if str_eq(name, "Standard") {
            Some(PublicBanType::Standard)
        } else if str_eq(name, "Soft") {
            Some(PublicBanType::Soft)
        } else if str_eq(name, "Hard") {
            Some(PublicBanType::Hard)
        } else {
            None
        }
    }

    /// No two variants share a name.
    pub proof fn lemma_names_differ(a: Self, b: Self)
        requires
            a.name() == b.name(),
        ensures
            a == b,
    {
        reveal_strlit("Standard");
        reveal_strlit("Soft");
        reveal_strlit("Hard");
        assert("Standard"@.len() == 8);
        assert("Soft"@.len() == 4);
        assert("Hard"@.len() == 4);
        assert("Soft"@[0] != "Hard"@[0]);
    }
}

} // verus!
