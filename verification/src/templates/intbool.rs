use vstd::prelude::*;
use vstd::string::*;

verus! {

/// A boolean that configuration files spell `0` and `1`.
#[derive(Debug, Clone, Copy, PartialEq, Eq, Structural)]
pub enum IntBool {
    False,
    True,
}

impl IntBool {
    /// The spelling of the value in a configuration file.
    pub open spec fn text(self) -> Seq<char> {
        match self {
            IntBool::False => "0"@,
            IntBool::True => "1"@,
        }
    }

    /// The truth value that is stored for this setting.
    pub open spec fn spec_as_bool(self) -> bool {
        self == IntBool::True
    }

    #[verifier::when_used_as_spec(spec_as_bool)]
    pub fn as_bool(self) -> (r: bool)
        ensures
            r == self.spec_as_bool(),
    {
        match self {
            IntBool::False => false,
            IntBool::True => true,
        }
    }

    pub fn from_bool(value: bool) -> (r: Self)
        ensures
            r.as_bool() == value,
    {
        if value {
            IntBool::True
        } else {
            IntBool::False
        }
    }

    pub fn to_string(&self) -> (r: String)
        ensures
            r@ == self.text(),
    {
        match self {
            IntBool::False => String::from_str("0"),
            IntBool::True => String::from_str("1"),
        }
    }
}

} // verus!
