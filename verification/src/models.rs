use vstd::prelude::*;

verus! {

/// An engineer who can be on duty: name and phone number.
#[derive(Debug, PartialEq, Eq)]
pub struct Engineer {
    pub first_name: String,
    pub last_name: String,
    pub phone_number: String,
}

impl Engineer {
    /// Whether this is the placeholder engineer that a fresh configuration holds.
    pub open spec fn is_placeholder(&self) -> bool {
        &&& self.first_name@ == "Tom"@
        &&& self.last_name@ == "Hanks"@
        &&& self.phone_number@ == "+38(012)-345-67-89"@
    }
}

impl Clone for Engineer {
    fn clone(&self) -> (r: Self)
        ensures
            r == *self,
    {
        Engineer {
            first_name: self.first_name.clone(),
            last_name: self.last_name.clone(),
            phone_number: self.phone_number.clone(),
        }
    }
}

impl Default for Engineer {
    fn default() -> (r: Self)
        ensures
            r.is_placeholder(),
    {
        Engineer {
            first_name: String::from_str("Tom"),
            last_name: String::from_str("Hanks"),
            phone_number: String::from_str("+38(012)-345-67-89"),
        }
    }
}

} // verus!
