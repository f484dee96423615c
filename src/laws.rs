//! General facts about the output of a conversion.
use vstd::prelude::*;
use crate::archive::{CopiedEntry, SourceEntry};
use crate::engine::{copied_entries, no_malformed};
use crate::legacy::{decoded_name, is_malformed};
use crate::path_safety::is_safe_name;

verus! {

/// The output holds exactly the source entries whose decoded name is safe, in
/// source order, each under its decoded name and with its stored data as it
/// was in the source.
pub proof fn lemma_output_is_safe_entries_in_order(entries: Seq<SourceEntry>)
    ensures
        copied_entries(entries) == entries.filter(
            |e: SourceEntry| is_safe_name(decoded_name(e.0)),
        ).map_values(|e: SourceEntry| (decoded_name(e.0), e.1)),
    decreases entries.len(),
{
    reveal(Seq::filter);
    if entries.len() > 0 {
        lemma_output_is_safe_entries_in_order(entries.drop_last());
        let pred = |e: SourceEntry| is_safe_name(decoded_name(e.0));
        let f = |e: SourceEntry| (decoded_name(e.0), e.1);
        let rest = entries.drop_last().filter(pred);
        assert(rest.push(entries.last()).map_values(f) =~= rest.map_values(f).push(
            f(entries.last()),
        ));
    }
}

/// Converting a concatenation gives the concatenation of the outputs.
pub proof fn lemma_output_of_concat(a: Seq<SourceEntry>, b: Seq<SourceEntry>)
    ensures
        copied_entries(a + b) == copied_entries(a) + copied_entries(b),
    decreases b.len(),
{
    if b.len() == 0 {
        assert(a + b =~= a);
        assert(copied_entries(a) + copied_entries(b) =~= copied_entries(a));
    } else {
        lemma_output_of_concat(a, b.drop_last());
        assert((a + b).drop_last() =~= a + b.drop_last());
        assert((a + b).last() == b.last());
        let name = decoded_name(b.last().0);
        if is_safe_name(name) {
            assert(copied_entries(a) + copied_entries(b) =~= (copied_entries(a) + copied_entries(
                b.drop_last(),
            )).push((name, b.last().1)));
        }
    }
}

/// An entry whose decoded name is unsafe is left out of the output, and the
/// entries before and after it are handled as if it were not there.
pub proof fn lemma_unsafe_entry_excluded(entries: Seq<SourceEntry>, k: int)
    requires
        0 <= k < entries.len(),
        !is_safe_name(decoded_name(entries[k].0)),
    ensures
        copied_entries(entries) == copied_entries(entries.take(k)) + copied_entries(
            entries.skip(k + 1),
        ),
{
    let single = seq![entries[k]];
    assert(entries =~= entries.take(k) + single + entries.skip(k + 1));
    lemma_output_of_concat(entries.take(k) + single, entries.skip(k + 1));
    lemma_output_of_concat(entries.take(k), single);
    assert(single.drop_last() =~= Seq::<SourceEntry>::empty());
    assert(single.last() == entries[k]);
    assert(copied_entries(single) == copied_entries(single.drop_last()));
    assert(copied_entries(single.drop_last()).len() == 0);
    assert(copied_entries(entries.take(k)) + copied_entries(single) =~= copied_entries(
        entries.take(k),
    ));
}

/// Every name in the output is safe.
pub proof fn lemma_output_names_safe(entries: Seq<SourceEntry>)
    ensures
        forall|i: int|
            0 <= i < copied_entries(entries).len() ==> is_safe_name(
                #[trigger] copied_entries(entries)[i].0,
            ),
    decreases entries.len(),
{
    if entries.len() > 0 {
        let rest = entries.drop_last();
        lemma_output_names_safe(rest);
        assert forall|i: int| 0 <= i < copied_entries(entries).len() implies is_safe_name(
            #[trigger] copied_entries(entries)[i].0,
        ) by {
            if i < copied_entries(rest).len() {
                assert(copied_entries(entries)[i] == copied_entries(rest)[i]);
            }
        }
    }
}

/// A source whose decoded names are all safe is copied whole.
proof fn lemma_all_safe_copied_whole(
    again: Seq<SourceEntry>,
    out: Seq<CopiedEntry>,
)
    requires
        again.len() == out.len(),
        forall|i: int|
            0 <= i < again.len() ==> {
                &&& decoded_name(#[trigger] again[i].0) == out[i].0
                &&& again[i].1 == out[i].1
                &&& is_safe_name(out[i].0)
            },
    ensures
        copied_entries(again) == out,
    decreases again.len(),
{
    if again.len() > 0 {
        let a = again.drop_last();
        let o = out.drop_last();
        assert forall|i: int| 0 <= i < a.len() implies {
            &&& decoded_name(#[trigger] a[i].0) == o[i].0
            &&& a[i].1 == o[i].1
            &&& is_safe_name(o[i].0)
        } by {
            assert(a[i] == again[i]);
        }
        lemma_all_safe_copied_whole(a, o);
        let l = again.len() - 1;
        assert(decoded_name(again[l].0) == out[l].0);
        assert(out =~= o.push(out.last()));
    }
}

/// Converting again an output, read back as a source whose raw names decode
/// without fault to the names stored in the output, changes nothing: no name
/// is malformed and the same entries come out.
pub proof fn lemma_reconversion_changes_nothing(
    entries: Seq<SourceEntry>,
    again: Seq<SourceEntry>,
)
    requires
        again.len() == copied_entries(entries).len(),
        forall|i: int|
            0 <= i < again.len() ==> {
                &&& !is_malformed(#[trigger] again[i].0)
                &&& decoded_name(again[i].0) == copied_entries(entries)[i].0
                &&& again[i].1 == copied_entries(entries)[i].1
            },
    ensures
        no_malformed(again),
        copied_entries(again) == copied_entries(entries),
{
    lemma_output_names_safe(entries);
    let out = copied_entries(entries);
    assert forall|i: int| 0 <= i < again.len() implies {
        &&& decoded_name(#[trigger] again[i].0) == out[i].0
        &&& again[i].1 == out[i].1
        &&& is_safe_name(out[i].0)
    } by {
        assert(!is_malformed(again[i].0));
        assert(is_safe_name(copied_entries(entries)[i].0));
    }
    lemma_all_safe_copied_whole(again, out);
}

} // verus!
