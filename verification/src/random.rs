//! Random selection from host-drawn positions. The host's PRNG makes the
//! draws while a contract invocation runs; the selection made from them is
//! verified here for every value the PRNG can return.

use vstd::prelude::*;

verus! {

broadcast use vstd::seq_lib::group_to_multiset_ensures;

/// The items picked from `available` by `draws`, one after the other: each
/// draw is a position among the items not yet picked, and the item there is
/// taken out before the next draw.
pub open spec fn picked<T>(available: Seq<T>, draws: Seq<u64>) -> Seq<T>
    decreases draws.len(),
{
    if draws.len() == 0 {
        Seq::empty()
    } else {
        seq![available[draws[0] as int]] + picked(
            available.remove(draws[0] as int),
            draws.drop_first(),
        )
    }
}

/// Each draw is a position among the items left at its turn: the `i`-th of
/// the first `count` draws is below `len - i`.
pub open spec fn draws_in_range(draws: Seq<u64>, len: nat, count: nat) -> bool {
    &&& draws.len() >= count
    &&& forall|i: int| 0 <= i < count ==> #[trigger] draws[i] < len - i
}

/// Random selection helpers; the positions come from the host PRNG.
pub struct Randomness;

impl Randomness {
    /// The item of `items` at the drawn position `index`, or `None` when
    /// there are none. The host draws `index` below the number of items.
    pub fn select_one<T>(items: Vec<T>, index: u64) -> (r: Option<T>)
        requires
            items@.len() == 0 || index < items@.len(),
        ensures
            items@.len() == 0 ==> r is None,
            items@.len() > 0 ==> r == Some(items@[index as int]),
    {
        if items.len() == 0 {
            return None;
        }
        let mut items = items;
        let ghost original = items@;
        let item = items.swap_remove(index as usize);
        assert(original[index as int] == item);
        Some(item)
    }

    /// `count` items drawn without replacement, or all of `items` when there
    /// are no more than `count`. The host draws the `i`-th position below
    /// the number of items not yet picked, `items.len() - i`; the item there
    /// is taken out and appended to the result. The result is a
    /// sub-multiset of `items`.
    pub fn select_multiple<T>(items: Vec<T>, count: u32, draws: &Vec<u64>) -> (r: Vec<T>)
        requires
            items@.len() <= count || draws_in_range(draws@, items@.len(), count as nat),
        ensures
            items@.len() <= count ==> r@ == items@,
            items@.len() > count ==> r@ == picked(items@, draws@.take(count as int)),
            items@.len() > count ==> r@.len() == count,
            r@.to_multiset().subset_of(items@.to_multiset()),
    {
        if items.len() as u64 <= count as u64 {
            return items;
        }
        let ghost original = items@;
        let ghost all = draws@.take(count as int);
        let mut selected: Vec<T> = Vec::new();
        let mut available = items;
        let mut drawn: u32 = 0;
        assert(all.skip(0) =~= all);
        assert(selected@ + picked(available@, all.skip(0)) =~= picked(original, all));
        while drawn < count
            invariant
                drawn <= count,
                count < original.len(),
                draws_in_range(draws@, original.len(), count as nat),
                all == draws@.take(count as int),
                selected@.len() == drawn,
                available@.len() + drawn == original.len(),
                selected@ + picked(available@, all.skip(drawn as int)) == picked(original, all),
                selected@.to_multiset().add(available@.to_multiset()) == original.to_multiset(),
            decreases count - drawn,
        {
            let index = draws[drawn as usize];
            assert(draws@[drawn as int] < original.len() - drawn);
            let left: usize = available.len();
            assert(index < left);
            let ghost before_sel = selected@;
            let ghost before_av = available@;
            let ghost rest = all.skip(drawn as int);
            assert(rest.len() == count - drawn);
            assert(rest[0] == index);
            assert(rest.drop_first() =~= all.skip(drawn + 1));
            let i: usize = index as usize;
            assert(i as int == index as int);
            let item = available.remove(i);
            assert(available@ == before_av.remove(index as int));
            assert(item == before_av[index as int]);
            assert(before_av.remove(index as int).to_multiset() == before_av.to_multiset().remove(item));
            selected.push(item);
            assert(selected@.to_multiset() == before_sel.to_multiset().insert(item));
            assert(before_av.to_multiset().count(item) > 0);
            assert(selected@.to_multiset().add(available@.to_multiset()) =~= before_sel.to_multiset().add(before_av.to_multiset()));
            assert(picked(before_av, rest) == seq![item] + picked(available@, all.skip(drawn + 1)));
            assert(selected@ + picked(available@, all.skip(drawn + 1)) =~= before_sel + picked(before_av, rest));
            drawn = drawn + 1;
        }
        assert(all.skip(count as int) =~= Seq::<u64>::empty());
        assert(picked(available@, Seq::<u64>::empty()) =~= Seq::<T>::empty());
        assert(selected@ =~= picked(original, all));
        assert(selected@.to_multiset().subset_of(original.to_multiset()));
        selected
    }
}

} // verus!
