use vstd::prelude::*;
use vstd::string::StrSliceExecFns;

verus! {

/// Characters admitted in a principal: lowercase ASCII letters and digits,
/// the alphabet of bech32-style account addresses.
pub open spec fn valid_addr_char(c: char) -> bool {
    (97 <= c as u32 && c as u32 <= 122) || (48 <= c as u32 && c as u32 <= 57)
}

/// A well-formed principal: between 3 and 90 characters, all drawn from the
/// address alphabet. Every state lookup and write keyed by a principal is
/// guarded by this predicate.
pub open spec fn valid_addr(s: Seq<char>) -> bool {
    &&& 3 <= s.len() <= 90
    &&& forall|i: int| 0 <= i < s.len() ==> valid_addr_char(#[trigger] s[i])
}

/// Syntax check for principals. Hosts may apply stricter rules of their own
/// on top; nothing in this core accepts an address that fails this check.
pub fn validate_address(s: &str) -> (r: bool)
    ensures
        r == valid_addr(s@),
{
    let n = s.unicode_len();
    if n < 3 || n > 90 {
        return false;
    }
    let mut i: usize = 0;
    while i < n
        invariant
            n == s@.len(),
            3 <= n <= 90,
            0 <= i <= n,
            forall|j: int| 0 <= j < i ==> valid_addr_char(#[trigger] s@[j]),
        decreases n - i,
    {
        let c = s.get_char(i);
        let u = c as u32;
        if !((97 <= u && u <= 122) || (48 <= u && u <= 57)) {
            return false;
        }
        i = i + 1;
    }
    true
}

} // verus!
