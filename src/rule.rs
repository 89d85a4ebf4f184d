//! Wolfram rule numbers and their eight-entry lookup tables.
use vstd::prelude::*;

verus! {

/// Bit `k` of the rule number `n`: whether neighbourhood pattern `k` yields a
/// live cell.
pub open spec fn rule_bit(n: u8, k: int) -> bool {
    (n >> (k as u8)) & 1u8 == 1u8
}

/// The lookup table of rule `n`: entry `k` is bit `k` of `n`
/// (bit 0 being the least significant).
pub open spec fn rule_table(n: u8) -> Seq<bool> {
    Seq::new(8, |k: int| rule_bit(n, k))
}

/// Decodes a rule number into its lookup table, bit `k` into entry `k`.
pub fn decode_rule(rule_num: u8) -> (rule: [bool; 8])
    ensures
        rule@ == rule_table(rule_num),
{
    let mut rule: [bool; 8] = [false; 8];
    let mut k: u8 = 0;
    while k < 8
        invariant
            k <= 8,
            rule@.len() == 8,
            forall|m: int| 0 <= m < k ==> rule@[m] == rule_bit(rule_num, m),
        decreases 8 - k,
    {
        rule[k as usize] = (rule_num >> k) & 1u8 == 1u8;
        k = k + 1;
    }
    assert(rule@ =~= rule_table(rule_num));
    rule
}

/// Decoding is a function of the rule number alone: two decodings of the same
/// number give the same table.
pub proof fn lemma_decode_rule_deterministic(rule_num: u8, first: [bool; 8], second: [bool; 8])
    requires
        first@ == rule_table(rule_num),
        second@ == rule_table(rule_num),
    ensures
        first@ == second@,
        forall|k: int| 0 <= k < 8 ==> first[k] == second[k],
{
}

} // verus!
