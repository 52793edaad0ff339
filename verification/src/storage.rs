//! What the macro library on disk is made of: file names, which files are
//! loaded, and the order the library lists them in.
use vstd::prelude::*;

use crate::models::{MacroFile, MacroFileView, MACRO_FORMAT_VERSION};
use crate::state::macros_view;
use crate::text::{chars_of, push_text, to_lowercase, lowercase_text};

verus! {

/// The name of the file a macro with identifier `id` is stored in.
pub fn macro_file_name(id: &str) -> (file_name: String)
    ensures
        file_name@ == id@ + ".json"@,
{
    let mut f = id.to_owned();
    push_text(&mut f, ".json");
    f
}

/// Whether `a` comes strictly before `b` in lexicographic order of their
/// characters (by code point, which is also the byte order of their UTF-8).
pub open spec fn text_less(a: Seq<char>, b: Seq<char>) -> bool
    decreases a.len(),
{
    if a.len() == 0 {
        b.len() > 0
    } else if b.len() == 0 {
        false
    } else if a[0] != b[0] {
        (a[0] as int) < (b[0] as int)
    } else {
        text_less(a.drop_first(), b.drop_first())
    }
}

/// A common prefix does not change the order.
proof fn lemma_text_less_skip(a: Seq<char>, b: Seq<char>, i: int)
    requires
        0 <= i <= a.len(),
        i <= b.len(),
        forall|k: int| 0 <= k < i ==> a[k] == b[k],
    ensures
        text_less(a, b) == text_less(a.subrange(i, a.len() as int), b.subrange(i, b.len() as int)),
    decreases i,
{
    if i > 0 {
        lemma_text_less_skip(a.drop_first(), b.drop_first(), i - 1);
        assert(a.drop_first().subrange(i - 1, a.drop_first().len() as int) =~= a.subrange(
            i,
            a.len() as int,
        ));
        assert(b.drop_first().subrange(i - 1, b.drop_first().len() as int) =~= b.subrange(
            i,
            b.len() as int,
        ));
    } else {
        assert(a.subrange(0, a.len() as int) =~= a);
        assert(b.subrange(0, b.len() as int) =~= b);
    }
}

/// Whether `a` comes strictly before `b`.
fn chars_less(a: &Vec<char>, b: &Vec<char>) -> (less: bool)
    ensures
        less == text_less(a@, b@),
{
    let mut i: usize = 0;
    while i < a.len() && i < b.len() && a[i] == b[i]
        invariant
            i <= a.len(),
            i <= b.len(),
            forall|k: int| 0 <= k < i ==> a@[k] == b@[k],
        decreases a.len() - i,
    {
        i = i + 1;
    }
    proof {
        lemma_text_less_skip(a@, b@, i as int);
    }
    if i == a.len() {
        i < b.len()
    } else if i == b.len() {
        false
    } else {
        a[i] < b[i]
    }
}

/// Law: the order is a strict order: never both ways...
pub proof fn lemma_text_less_asymmetric(a: Seq<char>, b: Seq<char>)
    ensures
        !(text_less(a, b) && text_less(b, a)),
    decreases a.len(),
{
    if a.len() > 0 && b.len() > 0 && a[0] == b[0] {
        lemma_text_less_asymmetric(a.drop_first(), b.drop_first());
    }
}

/// Law: ... and transitive.
pub proof fn lemma_text_less_transitive(a: Seq<char>, b: Seq<char>, c: Seq<char>)
    requires
        text_less(a, b),
        text_less(b, c),
    ensures
        text_less(a, c),
    decreases a.len(),
{
    if a.len() > 0 && b.len() > 0 && c.len() > 0 && a[0] == b[0] && b[0] == c[0] {
        lemma_text_less_transitive(a.drop_first(), b.drop_first(), c.drop_first());
    }
}

/// Law: two texts that are not ordered either way are equal.
pub proof fn lemma_text_less_total(a: Seq<char>, b: Seq<char>)
    requires
        !text_less(a, b),
        !text_less(b, a),
    ensures
        a == b,
    decreases a.len(),
{
    if a.len() > 0 && b.len() > 0 {
        assert(a[0] == b[0]);
        lemma_text_less_total(a.drop_first(), b.drop_first());
        assert(a =~= seq![a[0]] + a.drop_first());
        assert(b =~= seq![b[0]] + b.drop_first());
    } else {
        assert(a =~= b);
    }
}

/// The key the library is sorted by: the lowercase name.
pub open spec fn sort_key(m: MacroFileView) -> Seq<char> {
    lowercase_text(m.name)
}

/// Where a stable sort inserts `m` into the sorted `sorted`: before the first
/// macro whose key is greater than its own, after all with an equal key.
pub open spec fn insertion_point(sorted: Seq<MacroFileView>, m: MacroFileView) -> nat
    decreases sorted.len(),
{
    if sorted.len() == 0 {
        0
    } else if text_less(sort_key(m), sort_key(sorted[0])) {
        0
    } else {
        1 + insertion_point(sorted.drop_first(), m)
    }
}

/// `macros` sorted by lowercase name; macros with equal keys keep their order.
pub open spec fn sorted_by_name(macros: Seq<MacroFileView>) -> Seq<MacroFileView>
    decreases macros.len(),
{
    if macros.len() == 0 {
        macros
    } else {
        let rest = sorted_by_name(macros.drop_last());
        rest.insert(insertion_point(rest, macros.last()) as int, macros.last())
    }
}

/// The macros of the format version this library reads, in their order.
pub open spec fn current_format(macros: Seq<MacroFileView>) -> Seq<MacroFileView> {
    macros.filter(|m: MacroFileView| m.version == MACRO_FORMAT_VERSION)
}

/// The insertion point is the first index whose key is greater.
proof fn lemma_insertion_point(sorted: Seq<MacroFileView>, m: MacroFileView, j: int)
    requires
        0 <= j <= sorted.len(),
        forall|k: int| 0 <= k < j ==> !text_less(sort_key(m), #[trigger] sort_key(sorted[k])),
        j < sorted.len() ==> text_less(sort_key(m), sort_key(sorted[j])),
    ensures
        insertion_point(sorted, m) == j,
    decreases j,
{
    if j > 0 {
        assert(!text_less(sort_key(m), sort_key(sorted[0])));
        assert forall|k: int| 0 <= k < j - 1 implies !text_less(
            sort_key(m),
            #[trigger] sort_key(sorted.drop_first()[k]),
        ) by {
            assert(sorted.drop_first()[k] == sorted[k + 1]);
        }
        lemma_insertion_point(sorted.drop_first(), m, j - 1);
    }
}

/// The macros loaded at start-up, from the files read in directory order:
/// those of the current format, sorted by lowercase name (a stable sort).
pub fn arrange_loaded_macros(candidates: Vec<MacroFile>) -> (arranged: Vec<MacroFile>)
    ensures
        macros_view(arranged@) == sorted_by_name(current_format(macros_view(candidates@))),
{
    let mut arranged: Vec<MacroFile> = Vec::new();
    let mut keys: Vec<Vec<char>> = Vec::new();
    let ghost all = macros_view(candidates@);
    let mut i: usize = 0;
    while i < candidates.len()
        invariant
            i <= candidates.len(),
            all == macros_view(candidates@),
            arranged@.len() == keys@.len(),
            macros_view(arranged@) == sorted_by_name(current_format(all.take(i as int))),
            forall|k: int|
                0 <= k < keys@.len() ==> #[trigger] keys@[k]@ == sort_key(macros_view(arranged@)[k]),
        decreases candidates.len() - i,
    {
        proof {
            assert(all.take(i + 1).drop_last() =~= all.take(i as int));
            assert(all.take(i + 1).last() == all[i as int]);
        }
        let ghost prefix = all.take(i as int);
        let ghost pick = |m: MacroFileView| m.version == MACRO_FORMAT_VERSION;
        proof {
            reveal(Seq::filter);
            assert(current_format(all.take(i + 1)) == all.take(i + 1).filter(pick));
            assert(all.take(i + 1).filter(pick) == (if pick(all[i as int]) {
                prefix.filter(pick).push(all[i as int])
            } else {
                prefix.filter(pick)
            }));
            assert(current_format(prefix) == prefix.filter(pick));
            assert(all[i as int] == candidates@[i as int]@);
            let f = current_format(prefix);
            assert(f.push(all[i as int]).drop_last() =~= f);
        }
        if candidates[i].version == MACRO_FORMAT_VERSION {
            let m = candidates[i].clone();
            let key = chars_of(to_lowercase(m.name.as_str()).as_str());
            let ghost sorted = macros_view(arranged@);
            let mut p: usize = 0;
            while p < keys.len() && !chars_less(&key, &keys[p])
                invariant
                    p <= keys@.len(),
                    arranged@.len() == keys@.len(),
                    sorted == macros_view(arranged@),
                    key@ == sort_key(m@),
                    forall|k: int|
                        0 <= k < keys@.len() ==> #[trigger] keys@[k]@ == sort_key(sorted[k]),
                    forall|k: int| 0 <= k < p ==> !text_less(sort_key(m@), #[trigger] sort_key(sorted[k])),
                decreases keys@.len() - p,
            {
                p = p + 1;
            }
            proof {
                lemma_insertion_point(sorted, m@, p as int);
            }
            let ghost arranged_before = arranged@;
            let ghost keys_before = keys@;
            arranged.insert(p, m);
            keys.insert(p, key);
            proof {
                assert(macros_view(arranged@) =~= sorted.insert(p as int, m@));
                assert forall|k: int| 0 <= k < keys@.len() implies #[trigger] keys@[k]@ == sort_key(
                    macros_view(arranged@)[k],
                ) by {
                    if k < p {
                        assert(keys@[k] == keys_before[k]);
                        assert(arranged@[k] == arranged_before[k]);
                    } else if k > p {
                        assert(keys@[k] == keys_before[k - 1]);
                        assert(arranged@[k] == arranged_before[k - 1]);
                    }
                }
            }
        }
        i = i + 1;
    }
    proof {
        assert(all.take(candidates.len() as int) =~= all);
    }
    arranged
}

/// Whether the macros are in order of their keys.
pub open spec fn is_sorted_by_name(macros: Seq<MacroFileView>) -> bool {
    forall|i: int, j: int|
        0 <= i < j < macros.len() ==> !text_less(
            #[trigger] sort_key(macros[j]),
            #[trigger] sort_key(macros[i]),
        )
}

/// Law: the arranged library is in order of lowercase names and holds
/// exactly the macros it was arranged from.
pub proof fn lemma_sorted_by_name(macros: Seq<MacroFileView>)
    ensures
        is_sorted_by_name(sorted_by_name(macros)),
        sorted_by_name(macros).to_multiset() == macros.to_multiset(),
    decreases macros.len(),
{
    broadcast use vstd::seq_lib::group_to_multiset_ensures;

    if macros.len() > 0 {
        let rest = sorted_by_name(macros.drop_last());
        let m = macros.last();
        lemma_sorted_by_name(macros.drop_last());
        let p = insertion_point(rest, m) as int;
        lemma_insertion_point_bounds(rest, m);
        let r = rest.insert(p, m);
        assert(r.len() == rest.len() + 1);
        assert forall|i: int, j: int| 0 <= i < j < r.len() implies !text_less(
            #[trigger] sort_key(r[j]),
            #[trigger] sort_key(r[i]),
        ) by {
            if j < p {
                assert(r[i] == rest[i] && r[j] == rest[j]);
            } else if j == p {
                assert(r[i] == rest[i]);
                assert(r[j] == m);
            } else if i == p {
                assert(r[i] == m);
                assert(r[j] == rest[j - 1]);
                if text_less(sort_key(rest[j - 1]), sort_key(m)) {
                    if j - 1 > p {
                        assert(!text_less(sort_key(rest[j - 1]), sort_key(rest[p])));
                        lemma_text_less_transitive(sort_key(rest[j - 1]), sort_key(m), sort_key(rest[p]));
                    } else {
                        lemma_text_less_asymmetric(sort_key(rest[p]), sort_key(m));
                    }
                }
            } else if i < p {
                assert(r[i] == rest[i]);
                assert(r[j] == rest[j - 1]);
            } else {
                assert(r[i] == rest[i - 1]);
                assert(r[j] == rest[j - 1]);
            }
        }
        assert(macros =~= macros.drop_last().push(m));
    }
}

/// The insertion point lies within the sorted list and splits it: no key
/// before it is greater than the new key, and (in a sorted list) the key at
/// it is.
proof fn lemma_insertion_point_bounds(sorted: Seq<MacroFileView>, m: MacroFileView)
    ensures
        insertion_point(sorted, m) <= sorted.len(),
        forall|k: int|
            0 <= k < insertion_point(sorted, m) ==> !text_less(
                sort_key(m),
                #[trigger] sort_key(sorted[k]),
            ),
        insertion_point(sorted, m) < sorted.len() ==> text_less(
            sort_key(m),
            sort_key(sorted[insertion_point(sorted, m) as int]),
        ),
    decreases sorted.len(),
{
    if sorted.len() > 0 && !text_less(sort_key(m), sort_key(sorted[0])) {
        lemma_insertion_point_bounds(sorted.drop_first(), m);
        assert forall|k: int| 0 <= k < insertion_point(sorted, m) implies !text_less(
            sort_key(m),
            #[trigger] sort_key(sorted[k]),
        ) by {
            if k > 0 {
                assert(sorted[k] == sorted.drop_first()[k - 1]);
            }
        }
    }
}

} // verus!
