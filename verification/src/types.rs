//! Small value types shared by the whole service.
use vstd::prelude::*;
use crate::text::str_eq;

verus! {

/// Display language chosen by an account.
#[derive(Clone, Copy, Debug, PartialEq, Eq, Structural)]
pub enum Language {
    EnUs,
    ZhCn,
    FrFr,
    EsEs,
}

/// Standing of an account. Whether a token or a code is accepted depends
/// on it.
#[derive(Clone, Copy, Debug, PartialEq, Eq, PartialOrd, Structural)]
pub enum AccountStatus {
    Active,
    Inactive,
    Suspend,
}

impl AccountStatus {
    /// The name that stands for a status inside a token.
    pub open spec fn name_spec(self) -> Seq<char> {
        match self {
            AccountStatus::Active => "Active"@,
            AccountStatus::Inactive => "Inactive"@,
            AccountStatus::Suspend => "Suspend"@,
        }
    }

    /// The status that a name stands for, if it is one of the three names.
    pub open spec fn from_name_spec(name: Seq<char>) -> Option<AccountStatus> {
        if name == "Active"@ {
            Some(AccountStatus::Active)
        } else if name == "Inactive"@ {
            Some(AccountStatus::Inactive)
        } else if name == "Suspend"@ {
            Some(AccountStatus::Suspend)
        } else {
            None
        }
    }

    pub fn name(self) -> (r: &'static str)
        ensures
            r@ == self.name_spec(),
    {
        match self {
            AccountStatus::Active => "Active",
            AccountStatus::Inactive => "Inactive",
            AccountStatus::Suspend => "Suspend",
        }
    }

    pub fn from_name(name: &str) -> (r: Option<AccountStatus>)
        ensures
            r == Self::from_name_spec(name@),
    {
        if str_eq(name, "Active") {
            Some(AccountStatus::Active)
        } else if str_eq(name, "Inactive") {
            Some(AccountStatus::Inactive)
        } else if str_eq(name, "Suspend") {
            Some(AccountStatus::Suspend)
        } else {
            None
        }
    }

    /// A name read back gives the status it was written for.
    pub proof fn lemma_name_round_trip(self)
        ensures
            Self::from_name_spec(self.name_spec()) == Some(self),
    {
        reveal_strlit("Active");
        reveal_strlit("Inactive");
        reveal_strlit("Suspend");
        assert("Active"@.len() == 6);
        assert("Inactive"@.len() == 8);
        assert("Suspend"@.len() == 7);
    }
}

} // verus!
