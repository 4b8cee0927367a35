use vstd::prelude::*;

verus! {

/// The request methods that a request description may name.
#[derive(Clone, Copy, Debug, PartialEq, Eq, Structural)]
pub enum Verb {
    Get,
    Post,
    Put,
    Delete,
    Patch,
}

/// The method that a textual name stands for; names are matched exactly,
/// case included.
pub open spec fn verb_of(name: Seq<char>) -> Option<Verb> {
    if name == "GET"@ {
        Some(Verb::Get)
    } else if name == "POST"@ {
        Some(Verb::Post)
    } else if name == "PUT"@ {
        Some(Verb::Put)
    } else if name == "DELETE"@ {
        Some(Verb::Delete)
    } else if name == "PATCH"@ {
        Some(Verb::Patch)
    } else {
        None
    }
}

impl Verb {
    /// The textual name of the method.
    pub open spec fn name(self) -> Seq<char> {
        match self {
            Verb::Get => "GET"@,
            Verb::Post => "POST"@,
            Verb::Put => "PUT"@,
            Verb::Delete => "DELETE"@,
            Verb::Patch => "PATCH"@,
        }
    }

    pub fn as_str(&self) -> (r: &'static str)
        ensures
            r@ == self.name(),
    {
        match self {
            Verb::Get => "GET",
            Verb::Post => "POST",
            Verb::Put => "PUT",
            Verb::Delete => "DELETE",
            Verb::Patch => "PATCH",
        }
    }
}

/// Looks up the method named by `name`; `None` for any other text.
pub fn parse_method(name: &str) -> (r: Option<Verb>)
    ensures
        r == verb_of(name@),
{
    let owned = String::from_str(name);
    if owned == String::from_str("GET") {
        Some(Verb::Get)
    } else if owned == String::from_str("POST") {
        Some(Verb::Post)
    } else if owned == String::from_str("PUT") {
        Some(Verb::Put)
    } else if owned == String::from_str("DELETE") {
        Some(Verb::Delete)
    } else if owned == String::from_str("PATCH") {
        Some(Verb::Patch)
    } else {
        None
    }
}

} // verus!
