use vstd::prelude::*;
use vstd::string::StrSliceExecFns;

use crate::reason::Reason;
use crate::text::is_digit;
use crate::text::is_lower_alpha;

verus! {

/// First position at or after `i` that does not hold a lowercase letter.
pub open spec fn letters_end(s: Seq<char>, i: int) -> int
    decreases s.len() - i
        when 0 <= i <= s.len()
{
    if i < s.len() && is_lower_alpha(s[i]) {
        letters_end(s, i + 1)
    } else {
        i
    }
}

/// End of the longest chain of complete letter groups (each one or more
/// lowercase letters followed by `-`) starting at `i`.
pub open spec fn groups_end(s: Seq<char>, i: int) -> int
    decreases s.len() - i
        when 0 <= i <= s.len()
{
    let j = letters_end(s, i);
    if i < j && j < s.len() && s[j] == '-' {
        groups_end(s, j + 1)
    } else {
        i
    }
}

/// Number of complete letter groups in that longest chain.
pub open spec fn group_count(s: Seq<char>, i: int) -> nat
    decreases s.len() - i
        when 0 <= i <= s.len()
{
    let j = letters_end(s, i);
    if i < j && j < s.len() && s[j] == '-' {
        1 + group_count(s, j + 1)
    } else {
        0
    }
}

/// Shape of an availability zone: two or three `letters-` groups, then a
/// single digit and a single lowercase letter, as in `us-east-1a` or, for
/// isolated partitions, `us-isob-east-1a`.
pub open spec fn valid_zone(s: Seq<char>) -> bool {
    let e = groups_end(s, 0);
    let c = group_count(s, 0);
    &&& (c == 2 || c == 3)
    &&& e + 2 == s.len()
    &&& is_digit(s[e])
    &&& is_lower_alpha(s[e + 1])
}

/// Walk the chain of complete letter groups from the start of `s`,
/// returning where it ends and how many groups it holds.
pub(crate) fn scan_groups(s: &str) -> (r: (usize, usize))
    ensures
        r.0 as int == groups_end(s@, 0),
        r.1 as nat == group_count(s@, 0),
        r.0 <= s@.len(),
{
    let n = s.unicode_len();
    let mut i: usize = 0;
    let mut count: usize = 0;
    loop
        invariant
            i <= n,
            count <= i,
            n == s@.len(),
            groups_end(s@, 0) == groups_end(s@, i as int),
            group_count(s@, 0) == count + group_count(s@, i as int),
        ensures
            i <= n,
            groups_end(s@, 0) == i as int,
            group_count(s@, 0) == count as nat,
        decreases n - i,
    {
        let mut j = i;
        loop
            invariant
                i <= j <= n,
                n == s@.len(),
                letters_end(s@, i as int) == letters_end(s@, j as int),
            ensures
                i <= j <= n,
                letters_end(s@, i as int) == j as int,
            decreases n - j,
        {
            if j == n {
                break;
            }
            let c = s.get_char(j);
            if !('a' <= c && c <= 'z') {
                break;
            }
            j = j + 1;
        }
        if i < j && j < n {
            let c = s.get_char(j);
            if c == '-' {
                i = j + 1;
                count = count + 1;
                continue;
            }
        }
        break;
    }
    (i, count)
}

/// An availability zone that has passed the shape check.
pub struct AvailabilityZone {
    text: String,
}

impl View for AvailabilityZone {
    type V = Seq<char>;

    closed spec fn view(&self) -> Seq<char> {
        self.text@
    }
}

impl AvailabilityZone {
    /// Values of this type satisfy the shape invariant by construction.
    #[verifier::type_invariant]
    pub open spec fn wf(self) -> bool {
        valid_zone(self@)
    }

    /// Accept exactly the strings of the availability-zone shape.
    pub fn parse(s: &str) -> (r: Result<AvailabilityZone, Reason>)
        ensures
            r is Ok <==> valid_zone(s@),
            r matches Ok(z) ==> z@ == s@,
            r matches Err(e) ==> e == Reason::InvalidZone,
    {
        let n = s.unicode_len();
        let (e, count) = scan_groups(s);
        if !(count == 2 || count == 3) {
            return Err(Reason::InvalidZone);
        }
        if n < 2 || e != n - 2 {
            return Err(Reason::InvalidZone);
        }
        let c = s.get_char(e);
        if !('0' <= c && c <= '9') {
            return Err(Reason::InvalidZone);
        }
        let c = s.get_char(e + 1);
        if !('a' <= c && c <= 'z') {
            return Err(Reason::InvalidZone);
        }
        Ok(AvailabilityZone { text: s.to_owned() })
    }

    /// The accepted zone, as handed in.
    pub fn as_str(&self) -> (r: &str)
        ensures
            r@ == self@,
    {
        self.text.as_str()
    }
}

} // verus!
