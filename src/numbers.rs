use vstd::prelude::*;

verus! {

/// The numbers of `s` that are positive and whose double is below 100,
/// doubled, in their original order.
pub open spec fn doubled_small_positives(s: Seq<i32>) -> Seq<i32>
    decreases s.len(),
{
    if s.len() == 0 {
        Seq::empty()
    } else {
        let rest = doubled_small_positives(s.drop_last());
        let n = s.last();
        if 0 < n && 2 * n < 100 {
            rest.push((2 * n) as i32)
        } else {
            rest
        }
    }
}

/// Keeps the positive numbers, doubles them, and keeps the doubles below 100.
pub fn process_numbers(numbers: Vec<i32>) -> (r: Vec<i32>)
    ensures
        r@ == doubled_small_positives(numbers@),
{
    let mut r: Vec<i32> = Vec::new();
    let mut i: usize = 0;
    while i < numbers.len()
        invariant
            i <= numbers.len(),
            r@ == doubled_small_positives(numbers@.subrange(0, i as int)),
        decreases numbers.len() - i,
    {
        let n = numbers[i];
        assert(numbers@.subrange(0, i as int + 1).drop_last() =~= numbers@.subrange(0, i as int));
        if 0 < n && n < 50 {
            r.push(n * 2);
        }
        i = i + 1;
    }
    assert(numbers@.subrange(0, numbers.len() as int) =~= numbers@);
    r
}

} // verus!
