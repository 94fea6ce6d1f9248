use vstd::prelude::*;

use crate::reason::Reason;
use crate::text::str_eq;

verus! {

/// The fixed allow-list of known partition suffixes.  Membership is by
/// exact, whole-string equality: nothing that merely contains, extends or
/// truncates an entry is admitted.
pub open spec fn domain_allowed(s: Seq<char>) -> bool {
    ||| s == "amazonaws.com"@
    ||| s == "amazonaws.com.cn"@
    ||| s == "c2s.ic.gov"@
    ||| s == "sc2s.sgov.gov"@
}

/// A service domain that is on the allow-list.
pub struct Domain {
    text: String,
}

impl View for Domain {
    type V = Seq<char>;

    closed spec fn view(&self) -> Seq<char> {
        self.text@
    }
}

impl Domain {
    /// Values of this type satisfy the shape invariant by construction.
    #[verifier::type_invariant]
    pub open spec fn wf(self) -> bool {
        domain_allowed(self@)
    }

    /// Accept exactly the allow-listed partition suffixes.
    pub fn parse(s: &str) -> (r: Result<Domain, Reason>)
        ensures
            r is Ok <==> domain_allowed(s@),
            r matches Ok(d) ==> d@ == s@,
            r matches Err(e) ==> e == Reason::UntrustedDomain,
    {
        let ok = str_eq(s, "amazonaws.com") || str_eq(s, "amazonaws.com.cn") || str_eq(
            s,
            "c2s.ic.gov",
        ) || str_eq(s, "sc2s.sgov.gov");
        if ok {
            Ok(Domain { text: s.to_owned() })
        } else {
            Err(Reason::UntrustedDomain)
        }
    }

    /// The accepted domain, as handed in.
    pub fn as_str(&self) -> (r: &str)
        ensures
            r@ == self@,
    {
        self.text.as_str()
    }
}

/// The allow-list admits nothing but the four partition suffixes
/// themselves: any other string is rejected, in particular every string
/// that merely has an allowed domain as a prefix, suffix or substring.
/// (The allowed domains are not excluded from one another: one of them is
/// itself a prefix of another.)
pub proof fn lemma_domain_rejects_all_others(s: Seq<char>)
    requires
        s != "amazonaws.com"@,
        s != "amazonaws.com.cn"@,
        s != "c2s.ic.gov"@,
        s != "sc2s.sgov.gov"@,
    ensures
        !domain_allowed(s),
{
}

} // verus!
