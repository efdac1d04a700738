use vstd::prelude::*;
use vstd::string::*;

verus! {

/// A boolean that configuration files spell `off` and `On`.
#[derive(Debug, Clone, Copy, PartialEq, Eq, Structural)]
pub enum OnOffBool {
    False,
    True,
}

impl OnOffBool {
    /// The spelling of the value in a configuration file.
    pub open spec fn text(self) -> Seq<char> {
        match self {
            OnOffBool::False => "off"@,
            OnOffBool::True => "On"@,
        }
    }

    /// The truth value that is stored for this setting.
    pub open spec fn spec_as_bool(self) -> bool {
        self == OnOffBool::True
    }

    #[verifier::when_used_as_spec(spec_as_bool)]
    pub fn as_bool(self) -> (r: bool)
        ensures
            r == self.spec_as_bool(),
    {
        match self {
            OnOffBool::False => false,
            OnOffBool::True => true,
        }
    }

    pub fn from_bool(value: bool) -> (r: Self)
        ensures
            r.as_bool() == value,
    {
        if value {
            OnOffBool::True
        } else {
            OnOffBool::False
        }
    }

    pub fn to_string(&self) -> (r: String)
        ensures
            r@ == self.text(),
    {
        match self {
            OnOffBool::False => String::from_str("off"),
            OnOffBool::True => String::from_str("On"),
        }
    }
}

} // verus!
