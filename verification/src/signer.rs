use vstd::prelude::*;
use vstd::pervasive::unreached;
use vstd::string::StrSliceExecFns;
use vstd::string::StringExecFns;

use crate::domain::Domain;
use crate::reason::Reason;
use crate::text::is_digit;
use crate::zone::AvailabilityZone;
use crate::zone::group_count;
use crate::zone::groups_end;
use crate::zone::scan_groups;
use crate::zone::valid_zone;

verus! {

/// First position at or after `i` that does not hold a digit.
pub open spec fn digits_end(s: Seq<char>, i: int) -> int
    decreases s.len() - i
        when 0 <= i <= s.len()
{
    if i < s.len() && is_digit(s[i]) {
        digits_end(s, i + 1)
    } else {
        i
    }
}

/// Where the region prefix of `s` ends: the longest chain of complete
/// `letters-` groups must be followed by at least one digit, and the
/// prefix extends over all the digits that follow the chain.  `None`
/// where `s` has no such prefix.
pub open spec fn region_end(s: Seq<char>) -> Option<int> {
    let e = groups_end(s, 0);
    if group_count(s, 0) > 0 && e < s.len() && is_digit(s[e]) {
        Option::Some(digits_end(s, e))
    } else {
        Option::None
    }
}

/// The region named by `s`, where `s` has a region prefix.
pub open spec fn region_of(s: Seq<char>) -> Seq<char>
    recommends
        region_end(s) is Some,
{
    s.subrange(0, region_end(s)->Some_0)
}

/// Extract the leading region from a raw zone string by matching the
/// leading `letters-` groups and the digits after them, discarding the
/// rest.
pub fn extract_region(s: &str) -> (r: Result<String, Reason>)
    ensures
        r is Ok <==> region_end(s@) is Some,
        r matches Ok(v) ==> region_end(s@) matches Some(e) && v@ == s@.subrange(0, e),
        r matches Err(e) ==> e == Reason::InvalidRegion,
{
    let n = s.unicode_len();
    let (e, count) = scan_groups(s);
    if count == 0 || e == n {
        return Err(Reason::InvalidRegion);
    }
    let c = s.get_char(e);
    if !('0' <= c && c <= '9') {
        return Err(Reason::InvalidRegion);
    }
    let mut k = e;
    loop
        invariant
            e <= k <= n,
            n == s@.len(),
            digits_end(s@, e as int) == digits_end(s@, k as int),
        ensures
            e <= k <= n,
            digits_end(s@, e as int) == k as int,
        decreases n - k,
    {
        if k == n {
            break;
        }
        let c = s.get_char(k);
        if !('0' <= c && c <= '9') {
            break;
        }
        k = k + 1;
    }
    Ok(s.substring_char(0, k).to_owned())
}

/// A validated zone always yields a region: the chain of groups is
/// followed by the zone's single digit, so the region is the zone with
/// its final letter stripped.
pub proof fn lemma_zone_region(s: Seq<char>)
    requires
        valid_zone(s),
    ensures
        region_end(s) == Option::<int>::Some(s.len() - 1),
        region_of(s) == s.subrange(0, s.len() - 1),
{
    let e = groups_end(s, 0);
    assert(is_digit(s[e]));
    assert(!is_digit(s[e + 1]));
    assert(digits_end(s, e) == digits_end(s, e + 1));
    assert(digits_end(s, e + 1) == e + 1);
}

/// The fixed service prefix of the expected signer identity.
pub open spec fn signer_prefix() -> Seq<char> {
    "managed-ssh-signer."@
}

/// The expected signer identity for managed-key responses served under
/// the given zone and domain: the fixed service prefix, the region, and
/// the domain, joined with `.`.
pub open spec fn signer_text(zone: Seq<char>, domain: Seq<char>) -> Seq<char>
    recommends
        region_end(zone) is Some,
{
    signer_prefix() + region_of(zone) + "."@ + domain
}

/// The identity expected to have signed the managed-key response.  The
/// library only derives this handle; verifying a signature against it is
/// the business of an external collaborator.
pub struct SignerIdentity {
    text: String,
}

impl View for SignerIdentity {
    type V = Seq<char>;

    closed spec fn view(&self) -> Seq<char> {
        self.text@
    }
}

impl SignerIdentity {
    /// Derive the expected signer identity from a validated zone and a
    /// validated domain.
    pub fn resolve(zone: &AvailabilityZone, domain: &Domain) -> (r: SignerIdentity)
        ensures
            r@ == signer_text(zone@, domain@),
    {
        proof {
            use_type_invariant(zone);
            lemma_zone_region(zone@);
        }
        let region = match extract_region(zone.as_str()) {
            Ok(v) => v,
            Err(_) => unreached(),
        };
        let mut text = String::new();
        text.append("managed-ssh-signer.");
        text.append(region.as_str());
        text.append(".");
        text.append(domain.as_str());
        proof {
            assert(text@ =~= signer_text(zone@, domain@));
        }
        SignerIdentity { text }
    }

    /// The derived signer identity.
    pub fn as_str(&self) -> (r: &str)
        ensures
            r@ == self@,
    {
        self.text.as_str()
    }
}

} // verus!
