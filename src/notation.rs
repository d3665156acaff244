use vstd::prelude::*;

verus! {

/// The parts joined by single commas, with no comma before the first part
/// or after the last.
pub open spec fn comma_join(parts: Seq<Seq<char>>) -> Seq<char>
    decreases parts.len(),
{
    if parts.len() == 0 {
        seq![]
    } else if parts.len() == 1 {
        parts[0]
    } else {
        comma_join(parts.drop_last()) + seq![','] + parts.last()
    }
}

/// A name applied to arguments: `name(a1,...,ak)`.
pub open spec fn applied(name: Seq<char>, parts: Seq<Seq<char>>) -> Seq<char> {
    name + seq!['('] + comma_join(parts) + seq![')']
}

/// How many commas a text holds.
pub open spec fn comma_count(s: Seq<char>) -> nat
    decreases s.len(),
{
    if s.len() == 0 {
        0
    } else {
        comma_count(s.drop_last()) + if s.last() == ',' { 1nat } else { 0nat }
    }
}

/// Joining one more part adds one comma and that part.
pub proof fn lemma_comma_join_step(parts: Seq<Seq<char>>, i: int)
    requires
        1 <= i < parts.len(),
    ensures
        comma_join(parts.take(i + 1)) == comma_join(parts.take(i)) + seq![','] + parts[i],
{
    assert(parts.take(i + 1).drop_last() =~= parts.take(i));
}

pub proof fn lemma_comma_count_append(a: Seq<char>, b: Seq<char>)
    ensures
        comma_count(a + b) == comma_count(a) + comma_count(b),
    decreases b.len(),
{
    if b.len() == 0 {
        assert(a + b =~= a);
    } else {
        assert((a + b).drop_last() =~= a + b.drop_last());
        lemma_comma_count_append(a, b.drop_last());
    }
}

/// Where no part holds a comma, a join of k parts holds exactly k - 1 commas.
pub proof fn lemma_comma_join_separators(parts: Seq<Seq<char>>)
    requires
        parts.len() >= 1,
        forall|i: int| 0 <= i < parts.len() ==> comma_count(#[trigger] parts[i]) == 0,
    ensures
        comma_count(comma_join(parts)) == parts.len() - 1,
    decreases parts.len(),
{
    if parts.len() > 1 {
        let init = parts.drop_last();
        assert forall|i: int| 0 <= i < init.len() implies comma_count(#[trigger] init[i]) == 0 by {
            assert(init[i] == parts[i]);
        }
        lemma_comma_join_separators(init);
        lemma_comma_count_append(comma_join(init), seq![',']);
        lemma_comma_count_append(comma_join(init) + seq![','], parts.last());
        assert(seq![','].drop_last() =~= Seq::<char>::empty());
        assert(seq![','].last() == ',');
        assert(comma_count(Seq::<char>::empty()) == 0);
        assert(comma_count(seq![',']) == 1);
        assert(comma_count(parts[parts.len() - 1]) == 0);
    } else {
        assert(comma_count(parts[0]) == 0);
    }
}

} // verus!
