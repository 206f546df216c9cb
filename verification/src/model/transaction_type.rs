use crate::text::str_eq;
use vstd::prelude::*;
use vstd::string::*;

verus! {

/// A description of the type of transaction that happens with credits in Neos
#[derive(Debug, Clone, PartialEq, Eq, Hash, Structural)]
pub enum TransactionType {
    /// An user sending monies to another user
    User2User,
    /// Taking monies out
    Withdrawal,
    /// Putting monies in
    Deposit,
    /// Giving monies to express gratitude
    Tip,
    /// Exchanging monies for goods/services
    Purchase,
}

impl TransactionType {
    /// The name of the variant, as the API writes it.
    pub open spec fn name(self) -> Seq<char> {
        match self {
            TransactionType::User2User => "User2User"@,
            TransactionType::Withdrawal => "Withdrawal"@,
            TransactionType::Deposit => "Deposit"@,
            TransactionType::Tip => "Tip"@,
            TransactionType::Purchase => "Purchase"@,
        }
    }

    /// The name of the variant, as the API writes it.
    #[must_use]
    pub fn as_str(&self) -> (r: &'static str)
        ensures
            r@ == self.name(),
    {
        match self {
            TransactionType::User2User => "User2User",
            TransactionType::Withdrawal => "Withdrawal",
            TransactionType::Deposit => "Deposit",
            TransactionType::Tip => "Tip",
            TransactionType::Purchase => "Purchase",
        }
    }

    /// The name of the variant, as a string of its own.
    #[must_use]
    pub fn to_string(&self) -> (r: String)
        ensures
            r@ == self.name(),
    {
        String::from_str(self.as_str())
    }

    /// The variant that a name stands for. The name has to match to the
    /// letter.
    #[must_use]
    pub fn from_name(name: &str) -> (r: Option<Self>)
        ensures
            match r {
                Some(variant) => variant.name() == name@,
                None => forall|variant: Self| variant.name() != name@,
            },
    {
        if str_eq(name, "User2User") {
            Some(TransactionType::User2User)
        } else if str_eq(name, "Withdrawal") {
            Some(TransactionType::Withdrawal)
        } else if str_eq(name, "Deposit") {
            Some(TransactionType::Deposit)
        } else if str_eq(name, "Tip") {
            Some(TransactionType::Tip)
        } else if str_eq(name, "Purchase") {
            Some(TransactionType::Purchase)
        } else {
            None
        }
    }

    /// No two variants share a name.
    pub proof fn lemma_names_differ(a: Self, b: Self)
        requires
            a.name() == b.name(),
        ensures
            a == b,
    {
        reveal_strlit("User2User");
        reveal_strlit("Withdrawal");
        reveal_strlit("Deposit");
        reveal_strlit("Tip");
        reveal_strlit("Purchase");
        assert("User2User"@.len() == 9);
        assert("Withdrawal"@.len() == 10);
        assert("Deposit"@.len() == 7);
        assert("Tip"@.len() == 3);
        assert("Purchase"@.len() == 8);
    }

    /// The number of the variant, as the API writes it.
    pub open spec fn repr(self) -> u8 {
        match self {
            TransactionType::User2User => 0,
            TransactionType::Withdrawal => 1,
            TransactionType::Deposit => 2,
            TransactionType::Tip => 3,
            TransactionType::Purchase => 4,
        }
    }

    /// The number of the variant, as the API writes it.
    #[must_use]
    pub fn to_repr(&self) -> (r: u8)
        ensures
            r == self.repr(),
    {
        match self {
            TransactionType::User2User => 0,
            TransactionType::Withdrawal => 1,
            TransactionType::Deposit => 2,
            TransactionType::Tip => 3,
            TransactionType::Purchase => 4,
        }
    }

    /// The variant that a number stands for.
    #[must_use]
    pub fn from_repr(number: u8) -> (r: Option<Self>)
        ensures
            match r {
                Some(variant) => variant.repr() == number,
                None => forall|variant: Self| variant.repr() != number,
            },
    {
        if number == 0 {
            Some(TransactionType::User2User)
        } else if number == 1 {
            Some(TransactionType::Withdrawal)
        } else if number == 2 {
            Some(TransactionType::Deposit)
        } else if number == 3 {
            Some(TransactionType::Tip)
        } else if number == 4 {
            Some(TransactionType::Purchase)
        } else {
            None
        }
    }

    /// The variant that an unsigned number stands for: none where the
    /// number does not fit in eight bits.
    #[must_use]
    pub fn from_u64(number: u64) -> (r: Option<Self>)
        ensures
            match r {
                Some(variant) => variant.repr() == number,
                None => forall|variant: Self| variant.repr() != number,
            },
    {
        if number <= 255 {
            Self::from_repr(number as u8)
        } else {
            None
        }
    }

    /// The variant that a signed number stands for: none where the number
    /// does not fit in eight bits without a sign.
    #[must_use]
    pub fn from_i64(number: i64) -> (r: Option<Self>)
        ensures
            match r {
                Some(variant) => variant.repr() == number,
                None => forall|variant: Self| variant.repr() != number,
            },
    {
        if 0 <= number && number <= 255 {
            Self::from_repr(number as u8)
        } else {
            None
        }
    }
}

} // verus!
