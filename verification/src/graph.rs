//! Loops in the control flow of a body: whether a block can be reached
//! from itself.
use vstd::prelude::*;

verus! {

/// Whether control can pass from block `a` to block `b` in one step. A
/// successor that is no block of the body leads nowhere.
pub open spec fn spec_edge(successors: Seq<Vec<usize>>, a: int, b: int) -> bool {
    &&& 0 <= a < successors.len()
    &&& 0 <= b < successors.len()
    &&& successors[a]@.contains(b as usize)
}

/// Whether control can pass along `path`, block by block.
pub open spec fn spec_walk(successors: Seq<Vec<usize>>, path: Seq<int>) -> bool {
    forall|i: int| 0 <= i < path.len() - 1 ==> spec_edge(successors, #[trigger] path[i], path[i + 1])
}

/// Whether control can pass from `block` back to `block` in one step or
/// more: whether the block lies on a cycle. A cycle that can be reached
/// from the block but does not lead back to it is none in this sense.
pub open spec fn spec_in_cycle(successors: Seq<Vec<usize>>, block: int) -> bool {
    exists|path: Seq<int>|
        path.len() >= 2 && path[0] == block && path.last() == block && #[trigger] spec_walk(
            successors,
            path,
        )
}

/// The number of entries of `s` that are not set.
pub open spec fn spec_unseen(s: Seq<bool>) -> nat
    decreases s.len(),
{
    if s.len() == 0 {
        0
    } else {
        spec_unseen(s.drop_last()) + if s.last() {
            0nat
        } else {
            1nat
        }
    }
}

/// Setting an entry that was not set leaves one unset entry fewer.
proof fn lemma_one_more_seen(s: Seq<bool>, i: int)
    requires
        0 <= i < s.len(),
        !s[i],
    ensures
        spec_unseen(s.update(i, true)) + 1 == spec_unseen(s),
    decreases s.len(),
{
    if i == s.len() - 1 {
        assert(s.update(i, true).drop_last() =~= s.drop_last());
    } else {
        lemma_one_more_seen(s.drop_last(), i);
        assert(s.update(i, true).drop_last() =~= s.drop_last().update(i, true));
    }
}

/// A walk goes on by one step.
proof fn lemma_walk_extends(successors: Seq<Vec<usize>>, path: Seq<int>, b: int)
    requires
        path.len() >= 1,
        spec_walk(successors, path),
        spec_edge(successors, path.last(), b),
    ensures
        spec_walk(successors, path.push(b)),
{
    let longer = path.push(b);
    assert forall|i: int| 0 <= i < longer.len() - 1 implies spec_edge(
        successors,
        #[trigger] longer[i],
        longer[i + 1],
    ) by {
        if i < path.len() - 1 {
            assert(spec_edge(successors, path[i], path[i + 1]));
        }
    }
}

/// Whether everything has been looked at that can be reached from the
/// blocks that are done: each of their successors is seen, and none of
/// them is `block`.
spec fn closed(successors: Seq<Vec<usize>>, seen: Seq<bool>, done: Set<int>, block: int) -> bool {
    forall|a: int, b: int|
        done.contains(a) && #[trigger] spec_edge(successors, a, b) ==> seen[b] && b != block
}

/// Whether every block that is seen is done or still to be visited.
spec fn accounted(seen: Seq<bool>, done: Set<int>, to_visit: Seq<usize>, next: int) -> bool {
    forall|v: int|
        0 <= v < seen.len() && #[trigger] seen[v] ==> done.contains(v) || v == next
            || to_visit.contains(v as usize)
}

/// Where all that is seen is done, no walk leads from `block` back to it.
proof fn lemma_no_way_back(
    successors: Seq<Vec<usize>>,
    seen: Seq<bool>,
    done: Set<int>,
    block: int,
    path: Seq<int>,
    upto: int,
)
    requires
        seen.len() == successors.len(),
        closed(successors, seen, done, block),
        forall|v: int| 0 <= v < seen.len() && #[trigger] seen[v] ==> done.contains(v),
        done.contains(block),
        path.len() >= 2,
        path[0] == block,
        spec_walk(successors, path),
        0 <= upto < path.len(),
    ensures
        done.contains(path[upto]),
        upto > 0 ==> path[upto] != block,
    decreases upto,
{
    if upto > 0 {
        lemma_no_way_back(successors, seen, done, block, path, upto - 1);
        assert(spec_edge(successors, path[upto - 1], path[upto]));
    }
}

/// Checks whether the block is part of a cycle: whether control that has
/// passed the block can come to it again. What is asked is whether the
/// block itself lies on a cycle, not whether some cycle can be reached
/// from it: a loop that control only enters after it has left the block
/// for good does not count, for it does not run the block a second time.
/// `successors` holds, for each block of the body, the blocks that control
/// can pass to next.
#[verifier::rlimit(50)]
pub fn block_in_cycle(successors: &Vec<Vec<usize>>, block: usize) -> (r: bool)
    ensures
        r == spec_in_cycle(successors@, block as int),
{
    let n = successors.len();
    if block >= n {
        assert forall|path: Seq<int>|
            path.len() >= 2 && path[0] == block && path.last() == block implies !#[trigger] spec_walk(
            successors@,
            path,
        ) by {
            if spec_walk(successors@, path) {
                assert(spec_edge(successors@, path[0], path[1]));
            }
        }
        return false;
    }
    let mut seen: Vec<bool> = Vec::new();
    while seen.len() < n
        invariant
            seen@.len() <= n,
            forall|i: int| 0 <= i < seen@.len() ==> !seen@[i],
        decreases n - seen@.len(),
    {
        seen.push(false);
    }
    let mut to_visit: Vec<usize> = Vec::new();
    seen.set(block, true);
    let mut next = block;
    let ghost mut done: Set<int> = Set::empty();
    // How each seen block is reached from `block`.
    let ghost mut way: Map<int, Seq<int>> = Map::empty().insert(block as int, seq![block as int]);
    loop
        invariant
            n == successors@.len(),
            seen@.len() == n,
            block < n,
            next < n,
            seen@[block as int],
            seen@[next as int],
            !done.contains(next as int),
            forall|v: int| done.contains(v) ==> 0 <= v < n && seen@[v],
            forall|k: int|
                0 <= k < to_visit@.len() ==> (#[trigger] to_visit@[k]) < n && seen@[to_visit@[k] as int]
                    && !done.contains(to_visit@[k] as int) && to_visit@[k] != next,
            forall|j: int, k: int|
                0 <= j < k < to_visit@.len() ==> #[trigger] to_visit@[j] != #[trigger] to_visit@[k],
            accounted(seen@, done, to_visit@, next as int),
            closed(successors@, seen@, done, block as int),
            next != block ==> done.contains(block as int),
            forall|v: int|
                0 <= v < n && #[trigger] seen@[v] ==> way.dom().contains(v) && way[v].len() >= 1
                    && way[v][0] == block && way[v].last() == v && spec_walk(successors@, way[v]),
        decreases spec_unseen(seen@), to_visit@.len(),
    {
        let out = &successors[next];
        let ghost seen_before = seen@;
        let ghost stack_before = to_visit@;
        let mut i: usize = 0;
        while i < out.len()
            invariant
                n == successors@.len(),
                seen@.len() == n,
                block < n,
                next < n,
                *out == successors@[next as int],
                i <= out@.len(),
                seen@[block as int],
                seen@[next as int],
                !done.contains(next as int),
                forall|v: int| done.contains(v) ==> 0 <= v < n && seen@[v],
                forall|k: int|
                    0 <= k < to_visit@.len() ==> (#[trigger] to_visit@[k]) < n && seen@[to_visit@[k] as int]
                        && !done.contains(to_visit@[k] as int) && to_visit@[k] != next,
                forall|j: int, k: int|
                    0 <= j < k < to_visit@.len() ==> #[trigger] to_visit@[j]
                        != #[trigger] to_visit@[k],
                accounted(seen@, done, to_visit@, next as int),
                closed(successors@, seen@, done, block as int),
                next != block ==> done.contains(block as int),
                forall|v: int|
                    0 <= v < n && #[trigger] seen@[v] ==> way.dom().contains(v) && way[v].len() >= 1
                        && way[v][0] == block && way[v].last() == v && spec_walk(
                        successors@,
                        way[v],
                    ),
                forall|k: int|
                    0 <= k < i && (#[trigger] out@[k]) < n ==> seen@[out@[k] as int] && out@[k]
                        != block,
                spec_unseen(seen@) + to_visit@.len() == spec_unseen(seen_before) + stack_before.len(),
                to_visit@.len() >= stack_before.len(),
                to_visit@.len() > stack_before.len() ==> spec_unseen(seen@) < spec_unseen(
                    seen_before,
                ),
            decreases out@.len() - i,
        {
            let succ = out[i];
            if succ < n {
                assert(successors@[next as int]@.contains(succ));
                assert(spec_edge(successors@, next as int, succ as int));
                if !seen[succ] {
                    proof {
                        lemma_one_more_seen(seen@, succ as int);
                        lemma_walk_extends(successors@, way[next as int], succ as int);
                        way = way.insert(succ as int, way[next as int].push(succ as int));
                    }
                    let ghost stack = to_visit@;
                    seen.set(succ, true);
                    to_visit.push(succ);
                    assert forall|v: int|
                        0 <= v < seen@.len() && #[trigger] seen@[v] implies done.contains(v) || v
                        == next || to_visit@.contains(v as usize) by {
                        if v == succ {
                            assert(to_visit@[to_visit@.len() - 1] == succ);
                        } else if !done.contains(v) && v != next {
                            assert(stack.contains(v as usize));
                            let k = choose|k: int| 0 <= k < stack.len() && stack[k] == v as usize;
                            assert(to_visit@[k] == v as usize);
                        }
                    }
                } else if succ == block {
                    proof {
                        lemma_walk_extends(successors@, way[next as int], block as int);
                        let path = way[next as int].push(block as int);
                        assert(path.len() >= 2 && path[0] == block && path.last() == block);
                    }
                    return true;
                }
            }
            i += 1;
        }
        proof {
            // `next` is done: all its successors are seen, none is `block`.
            let before = done;
            done = done.insert(next as int);
            assert forall|a: int, b: int|
                done.contains(a) && #[trigger] spec_edge(successors@, a, b) implies seen@[b] && b
                != block by {
                if a == next {
                    let k = choose|k: int|
                        0 <= k < successors@[a]@.len() && successors@[a]@[k] == b as usize;
                    assert(out@[k] == b as usize);
                } else {
                    assert(before.contains(a));
                }
            }
        }
        let ghost stack = to_visit@;
        let ghost old_next = next;
        match to_visit.pop() {
            Some(x) => {
                next = x;
                proof {
                    assert(to_visit@ =~= stack.drop_last());
                    assert(stack[stack.len() - 1] == x);
                    assert forall|v: int|
                        0 <= v < seen@.len() && #[trigger] seen@[v] implies done.contains(v) || v
                        == next || to_visit@.contains(v as usize) by {
                        if !done.contains(v) && v != next {
                            assert(v != old_next);
                            assert(stack.contains(v as usize));
                            let k = choose|k: int| 0 <= k < stack.len() && stack[k] == v as usize;
                            assert(k < stack.len() - 1);
                            assert(to_visit@[k] == v as usize);
                        }
                    }
                }
            },
            None => {
                proof {
                    assert forall|v: int| 0 <= v < seen@.len() && #[trigger] seen@[v] implies done.contains(
                        v,
                    ) by {
                        if !done.contains(v) && v != old_next {
                            assert(stack.contains(v as usize));
                        }
                    }
                    assert forall|path: Seq<int>|
                        path.len() >= 2 && path[0] == block && path.last() == block implies !#[trigger] spec_walk(
                        successors@,
                        path,
                    ) by {
                        if spec_walk(successors@, path) {
                            lemma_no_way_back(
                                successors@,
                                seen@,
                                done,
                                block as int,
                                path,
                                path.len() - 1,
                            );
                        }
                    }
                }
                return false;
            },
        }
    }
}

} // verus!
