use vstd::prelude::*;

verus! {

/// The partition that holds `chat_id` among `shards` partitions: the
/// non-negative remainder of the chat by the number of partitions, so that
/// every chat has exactly one partition.
pub fn shard_index(chat_id: i64, shards: usize) -> (r: usize)
    requires
        shards > 0,
    ensures
        r < shards,
        r as int == (chat_id as int) % (shards as int),
{
    let n = shards as u64;
    if chat_id >= 0 {
        let r = (chat_id as u64) % n;
        assert(r as int == (chat_id as int) % (n as int));
        r as usize
    } else {
        // -(chat_id + 1) is the magnitude of chat_id less one, which fits.
        let a = ((-(chat_id + 1)) as u64) % n;
        let r = n - 1 - a;
        proof {
            let c = chat_id as int;
            let m = n as int;
            let q = (-(c + 1)) / m;
            assert(-(c + 1) == q * m + a) by {
                vstd::arithmetic::div_mod::lemma_fundamental_div_mod(-(c + 1), m);
            }
            assert(c == (-q - 1) * m + (m - 1 - a)) by (nonlinear_arith)
                requires
                    -(c + 1) == q * m + a,
            ;
            vstd::arithmetic::div_mod::lemma_mod_multiples_vanish(-q - 1, m - 1 - a, m);
            vstd::arithmetic::div_mod::lemma_small_mod((m - 1 - a) as nat, m as nat);
        }
        r as usize
    }
}

} // verus!
