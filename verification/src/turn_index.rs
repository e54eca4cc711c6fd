//! The turn index reader: pure projections of the turn table. One
//! query keeps only the rows whose lifecycle is worth showing, the
//! other lists every row in identifier order.

use vstd::prelude::*;
use vstd::seq_lib::group_filter_ensures;
use vstd::seq_lib::group_to_multiset_ensures;

use crate::records::TurnInfo;

verus! {

/// A row worth listing: its day was completed, or is being played.
pub open spec fn relevant(t: TurnInfo) -> bool {
    t.complete == Some(true) || t.active == Some(true)
}

/// True when the rows stand in non-decreasing identifier order.
pub open spec fn sorted_by_id(s: Seq<TurnInfo>) -> bool {
    forall|i: int, j: int| 0 <= i < j < s.len() ==> #[trigger] s[i].id <= #[trigger] s[j].id
}

impl TurnInfo {
    /// Keeps the rows where `complete = true` or `active = true`, in
    /// the order the store handed them over. A row with both flags
    /// absent or false is dropped.
    pub fn load(rows: &Vec<TurnInfo>) -> (r: Vec<TurnInfo>)
        ensures
            r@ == rows@.filter(|t: TurnInfo| relevant(t)),
            forall|i: int| 0 <= i < r@.len() ==> relevant(#[trigger] r@[i]),
    {
        broadcast use group_filter_ensures;

        let ghost pred = |t: TurnInfo| relevant(t);
        let mut out: Vec<TurnInfo> = Vec::new();
        let mut i: usize = 0;
        proof {
            assert(rows@.subrange(0, 0) =~= Seq::<TurnInfo>::empty());
            reveal(Seq::filter);
        }
        while i < rows.len()
            invariant
                i <= rows@.len(),
                out@ == rows@.subrange(0, i as int).filter(pred),
                pred == (|t: TurnInfo| relevant(t)),
            decreases rows@.len() - i,
        {
            let row = rows[i];
            let keep = match (row.complete, row.active) {
                (Some(c), _) if c => true,
                (_, Some(a)) => a,
                _ => false,
            };
            if keep {
                out.push(row);
            }
            proof {
                reveal(Seq::filter);
                let prefix = rows@.subrange(0, i as int);
                let next = rows@.subrange(0, i as int + 1);
                assert(next.drop_last() =~= prefix);
                assert(next.last() == rows@[i as int]);
            }
            i += 1;
        }
        proof {
            assert(rows@.subrange(0, rows@.len() as int) =~= rows@);
        }
        out
    }

    /// Lists every row, ordered ascending by `id`: the result holds
    /// exactly the rows given, rearranged into non-decreasing
    /// identifier order.
    pub fn loadall(rows: Vec<TurnInfo>) -> (r: Vec<TurnInfo>)
        ensures
            sorted_by_id(r@),
            r@.to_multiset() == rows@.to_multiset(),
    {
        broadcast use group_to_multiset_ensures;

        let mut out: Vec<TurnInfo> = Vec::new();
        let mut i: usize = 0;
        proof {
            assert(rows@.subrange(0, 0) =~= Seq::<TurnInfo>::empty());
            assert(Seq::<TurnInfo>::empty().to_multiset() =~= out@.to_multiset());
        }
        while i < rows.len()
            invariant
                i <= rows@.len(),
                sorted_by_id(out@),
                out@.to_multiset() == rows@.subrange(0, i as int).to_multiset(),
            decreases rows@.len() - i,
        {
            let row = rows[i];
            let mut p: usize = 0;
            while p < out.len() && out[p].id <= row.id
                invariant
                    p <= out@.len(),
                    forall|k: int| 0 <= k < p ==> #[trigger] out@[k].id <= row.id,
                decreases out@.len() - p,
            {
                p += 1;
            }
            proof {
                out@.insert_ensures(p as int, row);
                let prefix = rows@.subrange(0, i as int);
                let next = rows@.subrange(0, i as int + 1);
                assert(next =~= prefix.push(rows@[i as int]));
            }
            let ghost old_out = out@;
            out.insert(p, row);
            proof {
                let prefix = rows@.subrange(0, i as int);
                vstd::seq_lib::to_multiset_insert(old_out, p as int, row);
                vstd::seq_lib::to_multiset_build(prefix, rows@[i as int]);
                assert(out@.to_multiset() == old_out.insert(p as int, row).to_multiset());
                assert forall|a: int, b: int| 0 <= a < b < out@.len() implies #[trigger] out@[a].id
                    <= #[trigger] out@[b].id by {
                    if b < p {
                        assert(out@[a] == old_out[a] && out@[b] == old_out[b]);
                    } else if b == p {
                        assert(out@[a] == old_out[a] && out@[b] == row);
                    } else {
                        assert(out@[b] == old_out[b - 1]);
                        if a < p {
                            assert(out@[a] == old_out[a]);
                        } else if a == p {
                            assert(out@[a] == row);
                            assert(p < old_out.len() && !(old_out[p as int].id <= row.id));
                        } else {
                            assert(out@[a] == old_out[a - 1]);
                        }
                    }
                }
            }
            i += 1;
        }
        proof {
            assert(rows@.subrange(0, rows@.len() as int) =~= rows@);
        }
        out
    }
}

} // verus!
