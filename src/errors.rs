use vstd::prelude::*;

verus! {

/// A request that failed its field checks, with the message the API answers.
pub struct ValidationError {
    pub message: String,
}

impl ValidationError {
    pub fn new(message: &str) -> (r: ValidationError)
        ensures
            r.message@ == message@,
    {
        ValidationError { message: String::from_str(message) }
    }
}

/// Whether `s` holds no characters.
pub fn blank(s: &String) -> (r: bool)
    ensures
        r == (s@.len() == 0),
{
    s.as_str().is_empty()
}

} // verus!
