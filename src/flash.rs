//! One-shot messages shown to the user after a request.
use vstd::prelude::*;

verus! {

/// A message and the display class that its kind maps to.
pub struct FlashMsg {
    name: String,
    message: String,
}

/// The display class of a message kind: `error` shows as `danger`, and an
/// unknown kind as `primary`.
pub open spec fn flash_class(kind: Seq<char>) -> Seq<char> {
    if kind == "success"@ {
        "success"@
    } else if kind == "warning"@ {
        "warning"@
    } else if kind == "error"@ {
        "danger"@
    } else {
        "primary"@
    }
}

impl FlashMsg {
    /// The display class.
    pub closed spec fn spec_name(&self) -> Seq<char> {
        self.name@
    }

    /// The message text.
    pub closed spec fn spec_message(&self) -> Seq<char> {
        self.message@
    }

    /// A message of the given kind.
    pub fn new(kind: &str, message: &str) -> (r: FlashMsg)
        ensures
            r.spec_name() == flash_class(kind@),
            r.spec_message() == message@,
    {
        let k = String::from_str(kind);
        let name = if k == String::from_str("success") {
            String::from_str("success")
        } else if k == String::from_str("warning") {
            String::from_str("warning")
        } else if k == String::from_str("error") {
            String::from_str("danger")
        } else {
            String::from_str("primary")
        };
        FlashMsg { name, message: String::from_str(message) }
    }

    /// The display class.
    pub fn name(&self) -> (r: &str)
        ensures
            r@ == self.spec_name(),
    {
        self.name.as_str()
    }

    /// The message text.
    pub fn message(&self) -> (r: &str)
        ensures
            r@ == self.spec_message(),
    {
        self.message.as_str()
    }
}

} // verus!
