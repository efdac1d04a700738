use vstd::prelude::*;
use vstd::string::*;

verus! {

/// A boolean that configuration files spell `no` and `yes`.
#[derive(Debug, Clone, Copy, PartialEq, Eq, Structural)]
pub enum YesNoBool {
    False,
    True,
}

impl YesNoBool {
    /// The spelling of the value in a configuration file.
    pub open spec fn text(self) -> Seq<char> {
        match self {
            YesNoBool::False => "no"@,
            YesNoBool::True => "yes"@,
        }
    }

    /// The truth value that is stored for this setting.
    pub open spec fn spec_as_bool(self) -> bool {
        self == YesNoBool::True
    }

    #[verifier::when_used_as_spec(spec_as_bool)]
    pub fn as_bool(self) -> (r: bool)
        ensures
            r == self.spec_as_bool(),
    {
        match self {
            YesNoBool::False => false,
            YesNoBool::True => true,
        }
    }

    pub fn from_bool(value: bool) -> (r: Self)
        ensures
            r.as_bool() == value,
    {
        if value {
            YesNoBool::True
        } else {
            YesNoBool::False
        }
    }

    pub fn to_string(&self) -> (r: String)
        ensures
            r@ == self.text(),
    {
        match self {
            YesNoBool::False => String::from_str("no"),
            YesNoBool::True => String::from_str("yes"),
        }
    }
}

} // verus!
