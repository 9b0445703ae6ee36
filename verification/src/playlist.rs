//! The image store: an ordered playlist of image paths with a wrapping
//! cursor, and a first-in-first-out queue of newly discovered paths that is
//! folded into the playlist as it is drained.

use vstd::prelude::*;
use vstd::arithmetic::div_mod::{
    lemma_add_mod_noop, lemma_mod_add_multiples_vanish, lemma_mod_twice, lemma_small_mod,
};
use vstd::string::StringExecFns;

verus! {

/// Lexicographic order on paths, compared code point by code point.
pub open spec fn lex_le(a: Seq<char>, b: Seq<char>) -> bool
    decreases a.len(),
{
    if a.len() == 0 {
        true
    } else if b.len() == 0 {
        false
    } else if (a[0] as int) < (b[0] as int) {
        true
    } else if (a[0] as int) > (b[0] as int) {
        false
    } else {
        lex_le(a.drop_first(), b.drop_first())
    }
}

/// Every pair of entries stands in lexicographic order.
pub open spec fn sorted_paths(s: Seq<Seq<char>>) -> bool {
    forall|i: int, j: int| 0 <= i < j < s.len() ==> lex_le(s[i], s[j])
}

/// The character sequences behind a sequence of paths.
pub open spec fn path_views(v: Seq<String>) -> Seq<Seq<char>> {
    v.map_values(|p: String| p@)
}

/// Relies on `<[String]>::sort` (reached through `Vec`): it reorders the
/// entries in place into nondecreasing `Ord` order, and `Ord` on strings is
/// documented as lexicographic over the code points.
#[verifier::external_body]
fn sort_in_place(paths: &mut Vec<String>)
    ensures
        sorted_paths(path_views(final(paths)@)),
        path_views(final(paths)@).to_multiset() == path_views(old(paths)@).to_multiset(),
{
    paths.sort();
}

/// The scanned paths rearranged into lexicographic order; the playlist is
/// built from this ordering once at startup.
pub fn sorted_image_paths(images: Vec<String>) -> (r: Vec<String>)
    ensures
        sorted_paths(path_views(r@)),
        path_views(r@).to_multiset() == path_views(images@).to_multiset(),
        r@.len() == images@.len(),
{
    let mut sorted = images;
    let ghost before = sorted@;
    sort_in_place(&mut sorted);
    proof {
        path_views(sorted@).to_multiset_ensures();
        path_views(before).to_multiset_ensures();
    }
    sorted
}

/// The glob pattern that selects the JPEG files directly inside `directory`.
pub fn make_image_pattern(directory: &str) -> (r: String)
    ensures
        r@ == directory@ + "/*.jpg"@,
{
    let mut pattern: String = directory.to_owned();
    pattern.append("/*.jpg");
    pattern
}

/// The playlist, the pending queue and the cursor as mathematical values.
#[verifier::ext_equal]
pub struct StoreModel {
    pub images: Seq<Seq<char>>,
    pub queue: Seq<Seq<char>>,
    pub index: nat,
}

/// Mapping to views commutes with appending a path.
pub proof fn lemma_path_views_push(v: Seq<String>, p: String)
    ensures
        path_views(v.push(p)) == path_views(v).push(p@),
{
    assert(path_views(v.push(p)) =~= path_views(v).push(p@));
}

/// Mapping to views commutes with dropping the front path.
pub proof fn lemma_path_views_drop_first(v: Seq<String>)
    requires
        v.len() >= 1,
    ensures
        path_views(v.drop_first()) == path_views(v).drop_first(),
{
    assert(path_views(v.drop_first()) =~= path_views(v).drop_first());
}

/// The cursor one step forward, wrapping to the front at the end.
pub open spec fn advance_index(i: nat, len: nat) -> nat {
    if i + 1 == len {
        0
    } else {
        (i + 1) as nat
    }
}

/// The store with its cursor advanced by one.
pub open spec fn advance_store(s: StoreModel) -> StoreModel {
    StoreModel { index: advance_index(s.index, s.images.len()), ..s }
}

/// The store after one absorb step: if anything is pending, the oldest
/// pending path moves to the playlist tail; otherwise nothing changes.
pub open spec fn absorb_store(s: StoreModel) -> StoreModel {
    if s.queue.len() == 0 {
        s
    } else {
        StoreModel { images: s.images.push(s.queue[0]), queue: s.queue.drop_first(), index: s.index }
    }
}

/// The path one absorb step hands out for display: the oldest pending path,
/// or the playlist entry under the cursor when nothing is pending.
pub open spec fn absorb_path(s: StoreModel) -> Seq<char> {
    if s.queue.len() == 0 {
        s.images[s.index as int]
    } else {
        s.queue[0]
    }
}

/// The cursor after `n` single advances.
pub open spec fn advance_index_many(i: nat, len: nat, n: nat) -> nat
    decreases n,
{
    if n == 0 {
        i
    } else {
        advance_index_many(advance_index(i, len), len, (n - 1) as nat)
    }
}

proof fn lemma_advance_index_many_mod(i: nat, len: nat, n: nat)
    requires
        len >= 1,
        i < len,
    ensures
        advance_index_many(i, len, n) == (i + n) % len,
    decreases n,
{
    if n == 0 {
        lemma_small_mod(i, len);
    } else {
        let m = len as int;
        let j = advance_index(i, len);
        assert(j < len);
        lemma_advance_index_many_mod(j, len, (n - 1) as nat);
        if i + 1 == len {
            lemma_small_mod(0, len);
            assert(j as int == (i as int + 1) % m) by {
                assert((i as int + 1) % m == m % m);
                lemma_mod_add_multiples_vanish(0, m);
            }
        } else {
            lemma_small_mod((i + 1) as nat, len);
        }
        // (j + (n - 1)) % m == ((i + 1) + (n - 1)) % m
        lemma_add_mod_noop((i + 1) as int, (n - 1) as int, m);
        lemma_add_mod_noop(j as int, (n - 1) as int, m);
        lemma_mod_twice((i + 1) as int, m);
    }
}

/// Cyclic law: advancing the cursor as many times as the playlist is long
/// returns it to its starting position, for any playlist with at least one
/// entry.
pub proof fn lemma_advance_cycles(i: nat, len: nat)
    requires
        len >= 1,
        i < len,
    ensures
        advance_index_many(i, len, len) == i,
{
    lemma_advance_index_many_mod(i, len, len);
    lemma_mod_add_multiples_vanish(i as int, len as int);
    lemma_small_mod(i, len);
}

/// The store after `n` absorb steps.
pub open spec fn absorb_store_many(s: StoreModel, n: nat) -> StoreModel
    decreases n,
{
    if n == 0 {
        s
    } else {
        absorb_store_many(absorb_store(s), (n - 1) as nat)
    }
}

/// The paths handed out by `n` absorb steps, in order.
pub open spec fn absorb_paths(s: StoreModel, n: nat) -> Seq<Seq<char>>
    decreases n,
{
    if n == 0 {
        Seq::empty()
    } else {
        seq![absorb_path(s)] + absorb_paths(absorb_store(s), (n - 1) as nat)
    }
}

/// FIFO law: draining `n` pending paths hands them out in arrival order, and
/// appends each of them to the playlist tail exactly once — nothing is
/// duplicated, lost or reordered, and the cursor does not move.
pub proof fn lemma_absorb_fifo(s: StoreModel, n: nat)
    requires
        n <= s.queue.len(),
    ensures
        absorb_paths(s, n) == s.queue.take(n as int),
        absorb_store_many(s, n).images == s.images + s.queue.take(n as int),
        absorb_store_many(s, n).queue == s.queue.skip(n as int),
        absorb_store_many(s, n).index == s.index,
    decreases n,
{
    if n == 0 {
        assert(absorb_paths(s, n) =~= s.queue.take(0));
        assert(s.images + s.queue.take(0) =~= s.images);
        assert(s.queue.skip(0) =~= s.queue);
    } else {
        let s1 = absorb_store(s);
        lemma_absorb_fifo(s1, (n - 1) as nat);
        assert(s1.queue.take(n - 1) =~= s.queue.drop_first().take(n - 1));
        assert(absorb_paths(s, n) =~= s.queue.take(n as int)) by {
            assert(absorb_paths(s, n) == seq![s.queue[0]] + absorb_paths(s1, (n - 1) as nat));
        }
        assert(absorb_store_many(s, n).images =~= s.images + s.queue.take(n as int)) by {
            assert(absorb_store_many(s, n).images == s.images.push(s.queue[0]) + s1.queue.take(n - 1));
        }
        assert(absorb_store_many(s, n).queue =~= s.queue.skip(n as int));
    }
}

} // verus!
