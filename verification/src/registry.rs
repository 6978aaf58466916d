//! Walking the command forest and checking the closed-surface invariant.
//!
//! The descriptor type is a closed enumeration; a complete command forest
//! must reach every variant exactly once. `check_exhaustive` decides that,
//! and `lemma_exhaustive_forest_is_variant_set` states what a passing check
//! means: the multiset of descriptors reachable by walking the forest equals
//! the descriptor type's full variant registry, with no duplicates.

use vstd::prelude::*;

use crate::cmd::{CommandTreeIntermediate, CommandTreeTop, DiscordCommandDescriptor};

verus! {

/// The descriptors reachable inside a sequence of subcommand groups, in
/// order.
pub open spec fn groups_descriptors<R>(gs: Seq<CommandTreeIntermediate<R>>) -> Seq<R>
    decreases gs.len(),
{
    if gs.len() == 0 {
        Seq::empty()
    } else {
        groups_descriptors(gs.drop_last()) + gs.last().children@
    }
}

/// The descriptors reachable in one top-level node: flat subcommands first,
/// then group children, in caller-given order; a naked shape reaches exactly
/// its one descriptor.
pub open spec fn tree_descriptors<R>(t: CommandTreeTop<R>) -> Seq<R> {
    match t {
        CommandTreeTop::Complex { subcommands, subcommand_groups, .. } => subcommands@
            + groups_descriptors(subcommand_groups@),
        CommandTreeTop::NakedChatInput(d, _) => seq![d],
        CommandTreeTop::NakedUser(d, _) => seq![d],
        CommandTreeTop::MessageContextMenu(d, _) => seq![d],
        CommandTreeTop::GlobalMessageContextMenu(d, _) => seq![d],
    }
}

/// The descriptors reachable across a whole forest, node by node.
pub open spec fn forest_descriptors<R>(ts: Seq<CommandTreeTop<R>>) -> Seq<R>
    decreases ts.len(),
{
    if ts.len() == 0 {
        Seq::empty()
    } else {
        forest_descriptors(ts.drop_last()) + tree_descriptors(ts.last())
    }
}

/// The registry positions of a sequence of descriptors.
pub open spec fn ids_of<R: DiscordCommandDescriptor>(ds: Seq<R>) -> Seq<int> {
    ds.map_values(|d: R| d.spec_id())
}

/// The closed-surface invariant of a forest: walking it reaches as many
/// descriptors as the type has variants, and no registry position twice.
pub open spec fn covers_all_variants<R: DiscordCommandDescriptor>(
    ts: Seq<CommandTreeTop<R>>,
) -> bool {
    &&& ids_of(forest_descriptors(ts)).no_duplicates()
    &&& forest_descriptors(ts).len() == R::spec_count()
}

/// Every descriptor value sits at its own registry position, which is in
/// range; a consequence of the registry law.
pub proof fn lemma_id_in_range<R: DiscordCommandDescriptor>(d: R)
    ensures
        0 <= d.spec_id() < R::spec_count(),
        R::spec_variants()[d.spec_id()] == d,
{
    R::lemma_registry();
    assert(R::spec_variants().contains(d));
    let i = choose|i: int| 0 <= i < R::spec_variants().len() && R::spec_variants()[i] == d;
    assert(R::spec_variants()[i].spec_id() == i);
}

/// Append every descriptor reachable in one node.
fn append_tree_descriptors<R: DiscordCommandDescriptor>(out: &mut Vec<R>, t: &CommandTreeTop<R>)
    ensures
        final(out)@ == old(out)@ + tree_descriptors(*t),
{
    match t {
        CommandTreeTop::Complex { subcommands, subcommand_groups, .. } => {
            let mut i: usize = 0;
            while i < subcommands.len()
                invariant
                    i <= subcommands.len(),
                    out@ == old(out)@ + subcommands@.subrange(0, i as int),
                decreases subcommands.len() - i,
            {
                out.push(subcommands[i]);
                proof {
                    assert(out@ =~= old(out)@ + subcommands@.subrange(0, i + 1));
                }
                i = i + 1;
            }
            proof {
                assert(subcommands@.subrange(0, subcommands@.len() as int) =~= subcommands@);
            }
            let mut j: usize = 0;
            while j < subcommand_groups.len()
                invariant
                    j <= subcommand_groups.len(),
                    out@ == old(out)@ + subcommands@ + groups_descriptors(
                        subcommand_groups@.subrange(0, j as int),
                    ),
                decreases subcommand_groups.len() - j,
            {
                let mut k: usize = 0;
                while k < subcommand_groups[j].children.len()
                    invariant
                        j < subcommand_groups@.len(),
                        k <= subcommand_groups@[j as int].children@.len(),
                        out@ == old(out)@ + subcommands@ + groups_descriptors(
                            subcommand_groups@.subrange(0, j as int),
                        ) + subcommand_groups@[j as int].children@.subrange(0, k as int),
                    decreases subcommand_groups@[j as int].children@.len() - k,
                {
                    out.push(subcommand_groups[j].children[k]);
                    proof {
                        assert(out@ =~= old(out)@ + subcommands@ + groups_descriptors(
                            subcommand_groups@.subrange(0, j as int),
                        ) + subcommand_groups@[j as int].children@.subrange(0, k + 1));
                    }
                    k = k + 1;
                }
                proof {
                    let g = subcommand_groups@[j as int];
                    assert(g.children@.subrange(0, g.children@.len() as int) =~= g.children@);
                    let pre = subcommand_groups@.subrange(0, j as int);
                    let post = subcommand_groups@.subrange(0, j + 1);
                    assert(post.drop_last() =~= pre);
                    assert(post.last() == g);
                    assert(groups_descriptors(post) == groups_descriptors(pre) + g.children@);
                    assert(out@ =~= old(out)@ + subcommands@ + groups_descriptors(post));
                }
                j = j + 1;
            }
            proof {
                assert(subcommand_groups@.subrange(0, subcommand_groups@.len() as int)
                    =~= subcommand_groups@);
                assert(out@ =~= old(out)@ + tree_descriptors(*t));
            }
        },
        CommandTreeTop::NakedChatInput(d, _) => {
            out.push(*d);
            proof {
                assert(out@ =~= old(out)@ + tree_descriptors(*t));
            }
        },
        CommandTreeTop::NakedUser(d, _) => {
            out.push(*d);
            proof {
                assert(out@ =~= old(out)@ + tree_descriptors(*t));
            }
        },
        CommandTreeTop::MessageContextMenu(d, _) => {
            out.push(*d);
            proof {
                assert(out@ =~= old(out)@ + tree_descriptors(*t));
            }
        },
        CommandTreeTop::GlobalMessageContextMenu(d, _) => {
            out.push(*d);
            proof {
                assert(out@ =~= old(out)@ + tree_descriptors(*t));
            }
        },
    }
}

/// Collect every descriptor reachable across the forest, in walk order.
pub fn collect_descriptors<R: DiscordCommandDescriptor>(
    trees: &Vec<CommandTreeTop<R>>,
) -> (r: Vec<R>)
    ensures
        r@ == forest_descriptors(trees@),
{
    let mut out: Vec<R> = Vec::new();
    let mut i: usize = 0;
    while i < trees.len()
        invariant
            i <= trees.len(),
            out@ == forest_descriptors(trees@.subrange(0, i as int)),
        decreases trees.len() - i,
    {
        append_tree_descriptors(&mut out, &trees[i]);
        proof {
            let pre = trees@.subrange(0, i as int);
            let post = trees@.subrange(0, i + 1);
            assert(post.drop_last() =~= pre);
            assert(post.last() == trees@[i as int]);
            assert(forest_descriptors(post) == forest_descriptors(pre) + tree_descriptors(
                trees@[i as int],
            ));
            assert(out@ =~= forest_descriptors(post));
        }
        i = i + 1;
    }
    proof {
        assert(trees@.subrange(0, trees@.len() as int) =~= trees@);
    }
    out
}

/// Decide the closed-surface invariant: walking the forest must reach every
/// variant of the descriptor type exactly once.
pub fn check_exhaustive<R: DiscordCommandDescriptor>(trees: &Vec<CommandTreeTop<R>>) -> (r: bool)
    ensures
        r <==> covers_all_variants::<R>(trees@),
{
    let ds = collect_descriptors(trees);
    let ghost ids = ids_of(ds@);
    let count = R::count();
    let mut seen: Vec<bool> = Vec::new();
    let mut k: usize = 0;
    while k < count
        invariant
            k <= count,
            seen@.len() == k,
            forall|m: int| 0 <= m < k ==> !(#[trigger] seen@[m]),
        decreases count - k,
    {
        seen.push(false);
        k = k + 1;
    }
    let mut i: usize = 0;
    while i < ds.len()
        invariant
            i <= ds.len(),
            ds@ == forest_descriptors(trees@),
            ids == ids_of(ds@),
            count as int == R::spec_count(),
            seen@.len() == count,
            forall|m: int|
                0 <= m < count as int ==> ((#[trigger] seen@[m]) <==> exists|p: int|
                    0 <= p < i && (#[trigger] ids[p]) == m),
            ids.subrange(0, i as int).no_duplicates(),
        decreases ds.len() - i,
    {
        let d = ds[i];
        proof {
            lemma_id_in_range::<R>(ds@[i as int]);
            assert(ids[i as int] == ds@[i as int].spec_id());
        }
        let id = d.id();
        if seen[id] {
            proof {
                let p = choose|p: int| 0 <= p < i && (#[trigger] ids[p]) == id as int;
                assert(ids[p] == ids[i as int]);
                assert(0 <= p < ids.len() && 0 <= (i as int) < ids.len() && p != i as int);
                assert(!ids.no_duplicates());
            }
            return false;
        }
        seen.set(id, true);
        proof {
            assert forall|m: int|
                0 <= m < count as int implies ((#[trigger] seen@[m]) <==> exists|p: int|
                    0 <= p < i + 1 && (#[trigger] ids[p]) == m) by {
                if m == id as int {
                    assert(ids[i as int] == m);
                } else {
                    assert(ids[i as int] != m);
                }
            }
            assert forall|p: int, q: int| #![trigger ids[p], ids[q]]
                0 <= p < i + 1 && 0 <= q < i + 1 && p != q implies ids[p] != ids[q] by {
                if q == i as int {
                    assert(!(exists|s: int| 0 <= s < i && (#[trigger] ids[s]) == id as int));
                    assert(ids.subrange(0, i as int)[p] == ids[p]);
                } else if p == i as int {
                    assert(!(exists|s: int| 0 <= s < i && (#[trigger] ids[s]) == id as int));
                    assert(ids.subrange(0, i as int)[q] == ids[q]);
                } else {
                    assert(ids.subrange(0, i as int)[p] != ids.subrange(0, i as int)[q]);
                }
            }
            assert(ids.subrange(0, i + 1).no_duplicates());
        }
        i = i + 1;
    }
    proof {
        assert(ids.subrange(0, ids.len() as int) =~= ids);
    }
    ds.len() == count
}

/// Exhaustiveness: a forest that passes the closed-surface check reaches
/// every variant of its descriptor type exactly once — the multiset of
/// descriptors collected by walking it equals the full variant registry,
/// with no duplicates.
pub proof fn lemma_exhaustive_forest_is_variant_set<R: DiscordCommandDescriptor>(
    ts: Seq<CommandTreeTop<R>>,
)
    requires
        covers_all_variants::<R>(ts),
    ensures
        forest_descriptors(ts).no_duplicates(),
        forest_descriptors(ts).to_multiset() == R::spec_variants().to_multiset(),
{
    broadcast use vstd::seq_lib::group_to_multiset_ensures;
    broadcast use vstd::seq_lib::seq_to_set_is_finite;

    R::lemma_registry();
    let ds = forest_descriptors(ts);
    let ids = ids_of(ds);
    let vs = R::spec_variants();
    let count = R::spec_count();
    assert forall|v: R| 0 <= (#[trigger] v.spec_id()) < count && vs[v.spec_id()] == v by {
        lemma_id_in_range::<R>(v);
    }
    assert forall|p: int, q: int|
        0 <= p < ds.len() && 0 <= q < ds.len() && p != q implies ds[p] != ds[q] by {
        assert(ids[p] == ds[p].spec_id());
        assert(ids[q] == ds[q].spec_id());
    }
    assert(ds.no_duplicates());
    assert forall|p: int, q: int|
        0 <= p < vs.len() && 0 <= q < vs.len() && p != q implies vs[p] != vs[q] by {
        assert(vs[p].spec_id() == p);
        assert(vs[q].spec_id() == q);
    }
    assert(vs.no_duplicates());
    assert(ids.len() == count);
    assert(ids.no_duplicates());
    ids.unique_seq_to_set();
    let idset = ids.to_set();
    assert(idset.len() == count);
    assert forall|x: int| idset.contains(x) implies vstd::set_lib::set_int_range(
        0,
        count,
    ).contains(x) by {
        let p = choose|p: int| 0 <= p < ids.len() && ids[p] == x;
        assert(ids[p] == ds[p].spec_id());
        assert(0 <= ds[p].spec_id() < count);
    }
    vstd::set_lib::lemma_int_range(0, count);
    vstd::set_lib::lemma_subset_equality(idset, vstd::set_lib::set_int_range(0, count));
    assert forall|i: int| 0 <= i < count implies ds.contains(#[trigger] vs[i]) by {
        assert(vstd::set_lib::set_int_range(0, count).contains(i));
        assert(idset.contains(i));
        assert(ids.contains(i));
        let p = choose|p: int| 0 <= p < ids.len() && ids[p] == i;
        assert(ids[p] == ds[p].spec_id());
        assert(vs[ds[p].spec_id()] == ds[p]);
        assert(ds[p] == vs[i]);
        assert(ds.contains(vs[i]));
    }
    ds.lemma_multiset_has_no_duplicates();
    vs.lemma_multiset_has_no_duplicates();
    assert forall|x: R| ds.to_multiset().count(x) == vs.to_multiset().count(x) by {
        if ds.contains(x) {
            let p = choose|p: int| 0 <= p < ds.len() && ds[p] == x;
            assert(vs[x.spec_id()] == x);
            assert(0 <= x.spec_id() < vs.len());
            assert(vs.contains(x));
            assert(ds.to_multiset().count(x) == 1);
            assert(vs.to_multiset().count(x) == 1);
        } else {
            assert(ds.to_multiset().count(x) == 0);
            if vs.contains(x) {
                let i = choose|i: int| 0 <= i < vs.len() && vs[i] == x;
                assert(ds.contains(vs[i]));
            }
            assert(vs.to_multiset().count(x) == 0);
        }
    }
    assert(ds.to_multiset() =~= vs.to_multiset());
}

/// The description bound the platform imposes, over a whole descriptor set:
/// every variant's description, and every description of every one of its
/// options, is strictly shorter than 100 characters.
pub open spec fn descriptions_within_limit<R: DiscordCommandDescriptor>() -> bool {
    &&& forall|i: int|
        0 <= i < R::spec_variants().len() ==> (
        #[trigger] R::spec_variants()[i]).spec_description().len() < 100
    &&& forall|i: int, j: int|
        0 <= i < R::spec_variants().len() && 0 <= j < R::spec_variants()[i].spec_options().len()
            ==> (#[trigger] R::spec_variants()[i].spec_options()[j]).description.len() < 100
}

/// Decide the description bound for a whole descriptor set by walking its
/// registry. The descriptor laws already prove the bound for every
/// implementation; this walk is what test suites run.
pub fn check_description_lengths<R: DiscordCommandDescriptor>() -> (r: bool)
    ensures
        r <==> descriptions_within_limit::<R>(),
{
    let vs = R::all_variants();
    let mut i: usize = 0;
    while i < vs.len()
        invariant
            i <= vs.len(),
            vs@ == R::spec_variants(),
            forall|p: int|
                0 <= p < i ==> (#[trigger] vs@[p]).spec_description().len() < 100,
            forall|p: int, j: int|
                0 <= p < i && 0 <= j < vs@[p].spec_options().len() ==> (
                #[trigger] vs@[p].spec_options()[j]).description.len() < 100,
        decreases vs.len() - i,
    {
        let v = vs[i];
        let d = v.description();
        if d.unicode_len() >= 100 {
            proof {
                assert(vs@[i as int].spec_description().len() >= 100);
            }
            return false;
        }
        let opts = v.options();
        let mut j: usize = 0;
        while j < opts.len()
            invariant
                i < vs@.len(),
                vs@ == R::spec_variants(),
                v == vs@[i as int],
                crate::cmd::wire_models(opts@) == v.spec_options(),
                j <= opts.len(),
                forall|q: int|
                    0 <= q < j ==> (#[trigger] v.spec_options()[q]).description.len() < 100,
            decreases opts.len() - j,
        {
            let od = opts[j].description();
            if od.unicode_len() >= 100 {
                proof {
                    assert(crate::cmd::wire_models(opts@)[j as int] == opts@[j as int].wire_model());
                    assert(vs@[i as int].spec_options()[j as int].description.len() >= 100);
                }
                return false;
            }
            proof {
                assert(crate::cmd::wire_models(opts@)[j as int] == opts@[j as int].wire_model());
            }
            j = j + 1;
        }
        i = i + 1;
    }
    true
}

} // verus!
