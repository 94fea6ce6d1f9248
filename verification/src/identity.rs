use vstd::prelude::*;
use vstd::string::StrSliceExecFns;

use crate::reason::Reason;
use crate::text::is_lower_hex;
use crate::text::str_eq;

verus! {

/// Shape of a genuine instance identifier: `i-` followed by 8 to 32
/// lowercase hexadecimal characters.  The upper bound leaves room beyond
/// the lengths issued today, since other resource identifiers already use
/// 32 characters.
pub open spec fn valid_instance_id(s: Seq<char>) -> bool {
    &&& 10 <= s.len() <= 34
    &&& s[0] == 'i'
    &&& s[1] == '-'
    &&& forall|i: int| 2 <= i < s.len() ==> is_lower_hex(#[trigger] s[i])
}

/// An instance identifier that has passed the shape check.
pub struct InstanceIdentity {
    text: String,
}

impl View for InstanceIdentity {
    type V = Seq<char>;

    closed spec fn view(&self) -> Seq<char> {
        self.text@
    }
}

impl InstanceIdentity {
    /// Values of this type satisfy the shape invariant by construction.
    #[verifier::type_invariant]
    pub open spec fn wf(self) -> bool {
        valid_instance_id(self@)
    }

    /// Accept exactly the strings of the instance-identifier shape.
    pub fn parse(s: &str) -> (r: Result<InstanceIdentity, Reason>)
        ensures
            r is Ok <==> valid_instance_id(s@),
            r matches Ok(id) ==> id@ == s@,
            r matches Err(e) ==> e == Reason::InvalidIdentity,
    {
        let n = s.unicode_len();
        if n < 10 || n > 34 {
            return Err(Reason::InvalidIdentity);
        }
        if s.get_char(0) != 'i' {
            return Err(Reason::InvalidIdentity);
        }
        if s.get_char(1) != '-' {
            return Err(Reason::InvalidIdentity);
        }
        let mut i: usize = 2;
        while i < n
            invariant
                2 <= i <= n,
                n == s@.len(),
                forall|k: int| 2 <= k < i ==> is_lower_hex(#[trigger] s@[k]),
            decreases n - i,
        {
            let c = s.get_char(i);
            if !(('0' <= c && c <= '9') || ('a' <= c && c <= 'f')) {
                return Err(Reason::InvalidIdentity);
            }
            i = i + 1;
        }
        Ok(InstanceIdentity { text: s.to_owned() })
    }

    /// The accepted identifier, as handed in.
    pub fn as_str(&self) -> (r: &str)
        ensures
            r@ == self@,
    {
        self.text.as_str()
    }
}

/// What the local platform evidence surfaces showed: each surface is
/// either absent or holds a string.
#[derive(Debug)]
pub struct HypervisorEvidence {
    pub uuid: Option<String>,
    pub board_asset_tag: Option<String>,
}

/// Mathematical image of [`HypervisorEvidence`].
pub ghost struct EvidenceView {
    pub uuid: Option<Seq<char>>,
    pub board_asset_tag: Option<Seq<char>>,
}

impl View for HypervisorEvidence {
    type V = EvidenceView;

    open spec fn view(&self) -> EvidenceView {
        EvidenceView {
            uuid: match self.uuid {
                Option::None => Option::None,
                Option::Some(u) => Option::Some(u@),
            },
            board_asset_tag: match self.board_asset_tag {
                Option::None => Option::None,
                Option::Some(t) => Option::Some(t@),
            },
        }
    }
}

/// The marker with which a legacy hypervisor's UUID begins.
pub open spec fn legacy_marker() -> Seq<char> {
    "ec2"@
}

/// The UUID self-identifies the older virtualization generation.
pub open spec fn starts_with_legacy(u: Seq<char>) -> bool {
    u.len() >= 3 && u.subrange(0, 3) == legacy_marker()
}

/// The platform evidence corroborates the given instance identifier:
/// an absent UUID surface already attests the modern platform; a
/// legacy-marked UUID is honest by itself; any other UUID is trusted only
/// when the board asset tag equals the identifier exactly.
pub open spec fn platform_trusted(e: EvidenceView, id: Seq<char>) -> bool {
    match e.uuid {
        Option::None => true,
        Option::Some(u) => starts_with_legacy(u) || e.board_asset_tag == Option::Some(id),
    }
}

fn uuid_is_legacy(u: &str) -> (r: bool)
    ensures
        r == starts_with_legacy(u@),
{
    proof {
        reveal_strlit("ec2");
    }
    let n = u.unicode_len();
    if n < 3 {
        return false;
    }
    let r = u.get_char(0) == 'e' && u.get_char(1) == 'c' && u.get_char(2) == '2';
    proof {
        if r {
            assert(u@.subrange(0, 3) =~= legacy_marker());
        } else {
            assert(u@.subrange(0, 3)[0] == u@[0]);
            assert(u@.subrange(0, 3)[1] == u@[1]);
            assert(u@.subrange(0, 3)[2] == u@[2]);
        }
    }
    r
}

/// Decide whether the process runs on a platform whose evidence
/// corroborates the validated instance identifier.
pub fn verify_platform(e: &HypervisorEvidence, id: &InstanceIdentity) -> (r: Result<(), Reason>)
    ensures
        r is Ok <==> platform_trusted(e@, id@),
        r matches Err(x) ==> x == Reason::UntrustedPlatform,
{
    match &e.uuid {
        Option::None => Ok(()),
        Option::Some(u) => {
            if uuid_is_legacy(u.as_str()) {
                Ok(())
            } else {
                match &e.board_asset_tag {
                    Option::Some(tag) => {
                        if str_eq(tag.as_str(), id.as_str()) {
                            Ok(())
                        } else {
                            Err(Reason::UntrustedPlatform)
                        }
                    },
                    Option::None => Err(Reason::UntrustedPlatform),
                }
            }
        },
    }
}

} // verus!
