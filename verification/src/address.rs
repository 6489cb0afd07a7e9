//! IP addresses as the driver sees them, and the address-selection policy.
//!
//! Resolution produces a list of addresses; the driver picks the first one
//! tagged `V4` and never selects a `V6` address (a known limitation of the
//! selection policy, kept deliberately).

use vstd::prelude::*;

verus! {

/// An IP address produced by name resolution.  The driver's selection policy
/// looks only at the tag, never at the numeric value.
#[derive(Clone, Copy, PartialEq, Eq, Structural, Debug)]
pub enum Address {
    V4(u8, u8, u8, u8),
    V6(u16, u16, u16, u16, u16, u16, u16, u16),
}

/// The first address tagged `V4` in the list, if any.
pub open spec fn first_v4(addrs: Seq<Address>) -> Option<Address>
    decreases addrs.len(),
{
    if addrs.len() == 0 {
        None
    } else if addrs[0] is V4 {
        Some(addrs[0])
    } else {
        first_v4(addrs.drop_first())
    }
}

proof fn lemma_first_v4_skip(addrs: Seq<Address>, i: int)
    requires
        0 <= i <= addrs.len(),
        forall|j: int| 0 <= j < i ==> !((#[trigger] addrs[j]) is V4),
    ensures
        first_v4(addrs) == first_v4(addrs.skip(i)),
    decreases i,
{
    if i > 0 {
        assert(addrs.skip(0) =~= addrs);
        assert(addrs.drop_first() =~= addrs.skip(1));
        lemma_first_v4_skip(addrs.drop_first(), i - 1);
        assert(addrs.drop_first().skip(i - 1) =~= addrs.skip(i));
    } else {
        assert(addrs.skip(0) =~= addrs);
    }
}

/// Select the address the driver will connect to: the first `V4` entry.
pub fn select_address(addrs: &Vec<Address>) -> (r: Option<Address>)
    ensures
        r == first_v4(addrs@),
{
    let mut i: usize = 0;
    while i < addrs.len()
        invariant
            i <= addrs@.len(),
            forall|j: int| 0 <= j < i ==> !((#[trigger] addrs@[j]) is V4),
        decreases addrs@.len() - i,
    {
        let candidate = addrs[i];
        match candidate {
            Address::V4(_, _, _, _) => {
                proof {
                    lemma_first_v4_skip(addrs@, i as int);
                    assert(addrs@.skip(i as int)[0] == addrs@[i as int]);
                }
                return Some(candidate);
            },
            Address::V6(_, _, _, _, _, _, _, _) => {},
        }
        i = i + 1;
    }
    proof {
        lemma_first_v4_skip(addrs@, addrs@.len() as int);
    }
    None
}

} // verus!
