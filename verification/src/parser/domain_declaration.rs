//! The text of a model's variable domains: variables of one type are
//! listed together.
use vstd::prelude::*;
use indexmap::IndexMap;
use crate::text::{join, views, join_strings, first_index, lemma_first_index, first_appearances};

verus! {

/// What an `IndexMap` from type texts to variable names holds, in its
/// order: each key's text with its names' texts.
pub uninterp spec fn group_entries(m: IndexMap<String, Vec<String>>) -> Seq<(Seq<char>, Seq<Seq<char>>)>;

/// The keys of a list of groups, in order.
pub open spec fn group_keys(groups: Seq<(Seq<char>, Seq<Seq<char>>)>) -> Seq<Seq<char>> {
    groups.map_values(|g: (Seq<char>, Seq<Seq<char>>)| g.0)
}

/// `groups` after adding `name` to the group of `key`: appended to that
/// group if there is one, otherwise in a new group that comes last.
pub open spec fn spec_add_to_group(
    groups: Seq<(Seq<char>, Seq<Seq<char>>)>,
    key: Seq<char>,
    name: Seq<char>,
) -> Seq<(Seq<char>, Seq<Seq<char>>)> {
    match first_index(group_keys(groups), key) {
        Some(i) => groups.update(i, (groups[i].0, groups[i].1.push(name))),
        None => groups.push((key, seq![name])),
    }
}

/// The groups of a list of (name, type) pairs, in the order in which the
/// types first appear, each with its names in order.
pub open spec fn spec_groups(domain: Seq<(Seq<char>, Seq<char>)>) -> Seq<(Seq<char>, Seq<Seq<char>>)>
    decreases domain.len(),
{
    if domain.len() == 0 {
        seq![]
    } else {
        spec_add_to_group(spec_groups(domain.drop_last()), domain.last().1, domain.last().0)
    }
}

/// The line of a group: its names separated by `, `, then ` as ` and the
/// type.
pub open spec fn group_line(g: (Seq<char>, Seq<Seq<char>>)) -> Seq<char> {
    join(g.1, ", "@) + " as "@ + g.0
}

/// The text of a domain: one line per group.
pub open spec fn spec_format_domain(domain: Seq<(Seq<char>, Seq<char>)>) -> Seq<char> {
    join(spec_groups(domain).map_values(|g: (Seq<char>, Seq<Seq<char>>)| group_line(g)), "\n"@)
}

/// A list of (name, type) pairs as plain values.
pub open spec fn pair_views(v: Seq<(String, String)>) -> Seq<(Seq<char>, Seq<char>)> {
    v.map_values(|p: (String, String)| (p.0@, p.1@))
}

/// A list of groups as plain values.
pub open spec fn group_views(v: Seq<(String, Vec<String>)>) -> Seq<(Seq<char>, Seq<Seq<char>>)> {
    v.map_values(|g: (String, Vec<String>)| (g.0@, views(g.1@)))
}

/// `IndexMap::new`: a map with no entries.
#[verifier::external_body]
fn new_group_map() -> (r: IndexMap<String, Vec<String>>)
    ensures
        group_entries(r) == Seq::<(Seq<char>, Seq<Seq<char>>)>::empty(),
{
    IndexMap::new()
}

/// `IndexMap::entry(key).or_default()`: the list of the entry with an
/// equal key, which keeps its place; otherwise a new entry with an empty
/// list, which comes last. What is left in the list when the borrow ends is
/// that entry's list.
#[verifier::external_body]
fn group_entry<'a>(m: &'a mut IndexMap<String, Vec<String>>, key: String) -> (r: &'a mut Vec<String>)
    ensures
        match first_index(group_keys(group_entries(*old(m))), key@) {
            Some(i) => views(r@) == group_entries(*old(m))[i].1 && group_entries(*final(m))
                == group_entries(*old(m)).update(i, (group_entries(*old(m))[i].0, views(final(r)@))),
            None => r@.len() == 0 && group_entries(*final(m)) == group_entries(*old(m)).push(
                (key@, views(final(r)@)),
            ),
        },
{
    m.entry(key).or_default()
}

/// `IndexMap::into_iter`, collected: the entries in the map's order.
#[verifier::external_body]
fn group_map_into_entries(m: IndexMap<String, Vec<String>>) -> (r: Vec<(String, Vec<String>)>)
    ensures
        group_views(r@) == group_entries(m),
{
    m.into_iter().collect()
}

/// A line of a group.
fn format_group(g: &(String, Vec<String>)) -> (r: String)
    ensures
        r@ == group_line((g.0@, views(g.1@))),
{
    let mut line = join_strings(&g.1, ", ");
    line.append(" as ");
    line.append(g.0.as_str());
    line
}

/// The text of a domain given as its variables' names with the text of
/// their types, in order: one line per type, in the order in which the
/// types first appear, listing its variables in order as `a, b as T`.
pub fn format_domain(domain: &Vec<(String, String)>) -> (r: String)
    ensures
        r@ == spec_format_domain(pair_views(domain@)),
{
    let ghost all = pair_views(domain@);
    let mut groups = new_group_map();
    let mut i: usize = 0;
    while i < domain.len()
        invariant
            i <= domain.len(),
            all == pair_views(domain@),
            group_entries(groups) == spec_groups(all.take(i as int)),
        decreases domain.len() - i,
    {
        proof {
            assert(all.take(i + 1).drop_last() =~= all.take(i as int));
            assert(all.take(i + 1).last() == all[i as int]);
        }
        let ghost before = group_entries(groups);
        let names = group_entry(&mut groups, domain[i].1.clone());
        let ghost names_before = names@;
        let name = domain[i].0.clone();
        names.push(name);
        proof {
            assert(views(names@) =~= views(names_before).push(name@));
        }
        proof {
            let key = domain@[i as int].1@;
            match first_index(group_keys(before), key) {
                Some(j) => {
                    assert(group_entries(groups) =~= spec_add_to_group(before, key, name@));
                },
                None => {
                    assert(views(names_before) =~= Seq::<Seq<char>>::empty());
                    assert(group_entries(groups) =~= spec_add_to_group(before, key, name@));
                },
            }
        }
        i += 1;
    }
    proof {
        assert(all.take(domain.len() as int) =~= all);
    }
    let entries = group_map_into_entries(groups);
    let ghost lines = spec_groups(all).map_values(|g: (Seq<char>, Seq<Seq<char>>)| group_line(g));
    let mut result = String::new();
    let mut k: usize = 0;
    while k < entries.len()
        invariant
            k <= entries.len(),
            group_views(entries@) == spec_groups(all),
            lines == spec_groups(all).map_values(|g: (Seq<char>, Seq<Seq<char>>)| group_line(g)),
            result@ == join(lines.take(k as int), "\n"@),
        decreases entries.len() - k,
    {
        proof {
            assert(group_views(entries@)[k as int] == (entries@[k as int].0@, views(entries@[k as int].1@)));
            assert(lines.take(k + 1).drop_last() =~= lines.take(k as int));
            assert(lines.take(k + 1).last() == lines[k as int]);
            if k > 0 {
                let prev = lines.take(k as int);
                assert(prev.last() == lines[k - 1]);
                assert(lines[k - 1].len() > 0) by {
                    let g = spec_groups(all)[k - 1];
                    assert((join(g.1, ", "@) + " as "@ + g.0).len() >= " as "@.len());
                    reveal_strlit(" as ");
                }
                lemma_join_ends_with_last(prev, "\n"@);
            }
        }
        if result.unicode_len() > 0 {
            result.append("\n");
        }
        let line = format_group(&entries[k]);
        result.append(line.as_str());
        proof {
            if k == 0 {
                assert(lines.take(1) =~= seq![lines[0]]);
            }
        }
        k += 1;
    }
    proof {
        assert(lines.take(entries.len() as int) =~= lines);
    }
    result
}

/// The types of a list of (name, type) pairs, in order.
pub open spec fn pair_types(domain: Seq<(Seq<char>, Seq<char>)>) -> Seq<Seq<char>> {
    domain.map_values(|p: (Seq<char>, Seq<char>)| p.1)
}

/// Adding to a group that exists keeps the keys; adding to a new one adds
/// its key last.
proof fn lemma_add_to_group_keys(groups: Seq<(Seq<char>, Seq<Seq<char>>)>, key: Seq<char>, name: Seq<char>)
    ensures
        group_keys(spec_add_to_group(groups, key, name)) == if group_keys(groups).contains(key) {
            group_keys(groups)
        } else {
            group_keys(groups).push(key)
        },
{
    lemma_first_index(group_keys(groups), key);
    let r = spec_add_to_group(groups, key, name);
    match first_index(group_keys(groups), key) {
        Some(i) => {
            assert(group_keys(r) =~= group_keys(groups));
        },
        None => {
            assert(group_keys(r) =~= group_keys(groups).push(key));
        },
    }
}

/// A domain's text has one line per type, in the order in which the types
/// first appear among the variables.
pub proof fn lemma_one_group_per_type(domain: Seq<(Seq<char>, Seq<char>)>)
    ensures
        group_keys(spec_groups(domain)) == first_appearances(pair_types(domain)),
    decreases domain.len(),
{
    if domain.len() > 0 {
        lemma_one_group_per_type(domain.drop_last());
        assert(pair_types(domain).drop_last() =~= pair_types(domain.drop_last()));
        lemma_add_to_group_keys(spec_groups(domain.drop_last()), domain.last().1, domain.last().0);
    }
}

/// Every variable is listed on the line of its type.
pub proof fn lemma_variable_in_its_group(domain: Seq<(Seq<char>, Seq<char>)>, p: int)
    requires
        0 <= p < domain.len(),
    ensures
        exists|i: int|
            0 <= i < spec_groups(domain).len() && #[trigger] spec_groups(domain)[i].0 == domain[p].1
                && spec_groups(domain)[i].1.contains(domain[p].0),
    decreases domain.len(),
{
    let before = spec_groups(domain.drop_last());
    let key = domain.last().1;
    let name = domain.last().0;
    lemma_first_index(group_keys(before), key);
    let after = spec_groups(domain);
    if p == domain.len() - 1 {
        match first_index(group_keys(before), key) {
            Some(k) => {
                assert(group_keys(before)[k] == before[k].0);
                assert(after[k].1 == before[k].1.push(name));
                assert(after[k].1.last() == name);
                assert(after[k].1.contains(name));
                assert(group_keys(before)[k] == key);
                assert(after[k].0 == domain[p].1 && after[k].1.contains(domain[p].0));
            },
            None => {
                let k = before.len() as int;
                assert(after[k] == (key, seq![name]));
                assert(after[k].1[0] == name);
                assert(after[k].0 == domain[p].1 && after[k].1.contains(domain[p].0));
            },
        }
    } else {
        lemma_variable_in_its_group(domain.drop_last(), p);
        assert(domain.drop_last()[p] == domain[p]);
        let i = choose|i: int|
            0 <= i < before.len() && #[trigger] before[i].0 == domain[p].1 && before[i].1.contains(domain[p].0);
        let j = choose|j: int| 0 <= j < before[i].1.len() && before[i].1[j] == domain[p].0;
        match first_index(group_keys(before), key) {
            Some(k) => {
                if k == i {
                    assert(after[i].1 == before[i].1.push(name));
                    assert(after[i].1[j] == domain[p].0);
                } else {
                    assert(after[i] == before[i]);
                }
                assert(after[i].1.contains(domain[p].0));
                assert(after[i].0 == domain[p].1);
            },
            None => {
                assert(after[i] == before[i]);
                assert(after[i].0 == domain[p].1 && after[i].1.contains(domain[p].0));
            },
        }
    }
}

/// A join of at least one part is at least as long as its last part.
proof fn lemma_join_ends_with_last(parts: Seq<Seq<char>>, sep: Seq<char>)
    requires
        parts.len() > 0,
    ensures
        join(parts, sep).len() >= parts.last().len(),
{
}

} // verus!
