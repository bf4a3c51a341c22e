//! The snapshot naming convention.
//!
//! Each version's snapshot is a file named `"<version>.<target-name>"` inside
//! the snapshot store directory. Names are byte strings: the target's display
//! name is arbitrary bytes, and the version number is rendered in decimal.

use vstd::prelude::*;

verus! {

/// The ASCII digits of `v` in decimal, most significant first, with no
/// leading zeros (`0` itself renders as the single digit `0`).
pub open spec fn spec_decimal(v: nat) -> Seq<u8>
    decreases v,
{
    if v < 10 {
        seq![(48 + v) as u8]
    } else {
        spec_decimal(v / 10).push((48 + v % 10) as u8)
    }
}

/// The snapshot filename for `version` of a target named `target`:
/// the decimal version, one `.`, then the target's name bytes.
pub open spec fn spec_snapshot_name(version: nat, target: Seq<u8>) -> Seq<u8> {
    spec_decimal(version) + seq![46u8] + target
}

/// Append the decimal digits of `v` to `out`.
pub fn push_decimal(out: &mut Vec<u8>, v: u64)
    ensures
        final(out)@ == old(out)@ + spec_decimal(v as nat),
    decreases v,
{
    if v >= 10 {
        push_decimal(out, v / 10);
    }
    out.push(48 + (v % 10) as u8);
    proof {
        if v < 10 {
            assert(old(out)@ + spec_decimal(v as nat) =~= old(out)@.push((48 + v % 10) as u8));
        } else {
            assert(old(out)@ + spec_decimal(v as nat)
                =~= (old(out)@ + spec_decimal((v / 10) as nat)).push((48 + v % 10) as u8));
        }
    }
}

/// Build the snapshot filename for `version` of a target named `target`.
pub fn snapshot_name(version: u64, target: &Vec<u8>) -> (r: Vec<u8>)
    ensures
        r@ == spec_snapshot_name(version as nat, target@),
{
    let mut r: Vec<u8> = Vec::new();
    push_decimal(&mut r, version);
    r.push(46);
    proof {
        assert(r@ =~= spec_decimal(version as nat) + seq![46u8] + target@.subrange(0, 0));
    }
    let mut i: usize = 0;
    while i < target.len()
        invariant
            i <= target@.len(),
            r@ == spec_decimal(version as nat) + seq![46u8] + target@.subrange(0, i as int),
        decreases target@.len() - i,
    {
        r.push(target[i]);
        proof {
            assert(spec_decimal(version as nat) + seq![46u8] + target@.subrange(0, i + 1)
                =~= (spec_decimal(version as nat) + seq![46u8]
                    + target@.subrange(0, i as int)).push(target@[i as int]));
        }
        i = i + 1;
    }
    proof {
        assert(target@.subrange(0, target@.len() as int) =~= target@);
        assert(r@ =~= spec_snapshot_name(version as nat, target@));
    }
    r
}

} // verus!
