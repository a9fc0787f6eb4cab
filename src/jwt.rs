use vstd::prelude::*;

verus! {

/// The claims of a token: subject, audience and expiry (seconds since the
/// epoch).
pub struct Claims {
    pub sub: String,
    pub aud: String,
    pub exp: usize,
}

impl Claims {
    /// Builds the claims from their three fields.
    pub fn new(sub: String, aud: String, exp: usize) -> (r: Self)
        ensures
            r.sub@ == sub@,
            r.aud@ == aud@,
            r.exp == exp,
    {
        Claims { sub, aud, exp }
    }
}

} // verus!
