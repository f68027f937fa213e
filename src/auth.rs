use vstd::prelude::*;

verus! {

/// `supplied` is present and equal, character for character, to `secret`.
pub open spec fn authorized(supplied: Option<String>, secret: String) -> bool {
    supplied matches Some(k) && k@ == secret@
}

/// Whether `supplied` is exactly the shared secret. An absent key never
/// passes. This is a plain equality test, not a constant-time one.
pub fn authorize(supplied: &Option<String>, secret: &String) -> (r: bool)
    ensures
        r == authorized(*supplied, *secret),
{
    match supplied {
        Some(k) => *k == *secret,
        None => false,
    }
}

} // verus!

verus! {

/// Process configuration that the handlers share: the read secret and the
/// default page size of a bounded read. Built once at startup.
pub struct Config {
    pub key: String,
    pub limit: u64,
}

impl Config {
    pub fn new(key: String, limit: u64) -> (r: Config)
        ensures
            r.key == key,
            r.limit == limit,
    {
        Config { key, limit }
    }
}

} // verus!
