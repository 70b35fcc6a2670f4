//! The account settings that the workflow starts from.

use vstd::prelude::*;
use vstd::string::StringSliceAdditionalSpecFns;
use vstd::utf8::encode_utf8;

verus! {

/// The product to authenticate for and the account's credentials.
#[derive(Clone, Debug)]
pub struct UplayConfig {
    pub app_id: u32,
    pub email: String,
    pub password: String,
}

/// The email that a freshly written settings file holds.
pub open spec fn placeholder_email() -> Seq<u8> {
    "UplayEmu@rat43.com".spec_bytes()
}

/// The password that a freshly written settings file holds.
pub open spec fn placeholder_password() -> Seq<u8> {
    "UplayPassword74".spec_bytes()
}

fn same_bytes(a: &[u8], b: &[u8]) -> (r: bool)
    ensures
        r == (a@ == b@),
{
    if a.len() != b.len() {
        return false;
    }
    let mut i: usize = 0;
    while i < a.len()
        invariant
            a@.len() == b@.len(),
            i <= a@.len(),
            forall|j: int| 0 <= j < i ==> a@[j] == b@[j],
        decreases a@.len() - i,
    {
        if a[i] != b[i] {
            return false;
        }
        i = i + 1;
    }
    assert(a@ =~= b@);
    true
}

impl UplayConfig {
    /// Whether the settings hold usable credentials: an email and a password
    /// that are neither empty nor the placeholders of a fresh settings file.
    pub fn has_credentials(&self) -> (r: bool)
        ensures
            r == (self.email@.len() > 0 && self.password@.len() > 0 && encode_utf8(self.email@)
                != placeholder_email() && encode_utf8(self.password@) != placeholder_password()),
    {
        let e = self.email.as_str().as_bytes();
        let p = self.password.as_str().as_bytes();
        if e.len() == 0 || p.len() == 0 {
            return false;
        }
        !same_bytes(e, "UplayEmu@rat43.com".as_bytes()) && !same_bytes(p, "UplayPassword74".as_bytes())
    }
}

} // verus!
