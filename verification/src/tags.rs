//! Tag strings: a comma-separated list of short labels.

use crate::text::{chars_of, join, join_with, rows, split, split_on, string_of, trim, trimmed};
use vstd::prelude::*;

verus! {

/// The most tags that a snippet keeps.
pub const MAX_TAGS: usize = 10;

/// The pieces, each trimmed, without those that trimming leaves empty.
pub open spec fn clean_pieces(pieces: Seq<Seq<char>>) -> Seq<Seq<char>> {
    pieces.map_values(|p: Seq<char>| trimmed(p)).filter(|p: Seq<char>| p.len() > 0)
}

/// The first `n` entries, or all of them where there are fewer.
pub open spec fn at_most(pieces: Seq<Seq<char>>, n: nat) -> Seq<Seq<char>> {
    if pieces.len() > n {
        pieces.take(n as int)
    } else {
        pieces
    }
}

/// The tags that a raw tag string stands for: its comma-separated pieces,
/// trimmed, the empty ones dropped, in their order, the first ten of them.
pub open spec fn tag_list(raw: Seq<char>) -> Seq<Seq<char>> {
    at_most(clean_pieces(split_on(raw, ',')), MAX_TAGS as nat)
}

/// The stored form of a raw tag string: its tags joined by a comma and a
/// space.
pub open spec fn sanitized(raw: Seq<char>) -> Seq<char> {
    join(tag_list(raw), seq![',', ' '])
}

/// The pieces, each trimmed, without those that trimming leaves empty.
pub fn clean(pieces: &Vec<Vec<char>>) -> (kept: Vec<Vec<char>>)
    ensures
        rows(kept@) == clean_pieces(rows(pieces@)),
{
    let ghost trim_fn = |p: Seq<char>| trimmed(p);
    let ghost keep = |p: Seq<char>| p.len() > 0;
    let mut kept: Vec<Vec<char>> = Vec::new();
    let mut i: usize = 0;
    proof {
        reveal(Seq::filter);
        assert(rows(pieces@).take(0).map_values(trim_fn) =~= Seq::<Seq<char>>::empty());
        assert(rows(kept@) =~= Seq::<Seq<char>>::empty());
    }
    while i < pieces.len()
        invariant
            i <= pieces.len(),
            trim_fn == |p: Seq<char>| trimmed(p),
            keep == |p: Seq<char>| p.len() > 0,
            rows(kept@) == rows(pieces@).take(i as int).map_values(trim_fn).filter(keep),
        decreases pieces.len() - i,
    {
        let t = trim(&pieces[i]);
        proof {
            reveal(Seq::filter);
            let upto = rows(pieces@).take(i + 1).map_values(trim_fn);
            assert(upto.drop_last() =~= rows(pieces@).take(i as int).map_values(trim_fn));
            assert(upto.last() == t@);
        }
        if t.len() > 0 {
            let ghost before = kept@;
            kept.push(t);
            proof {
                assert(rows(kept@) =~= rows(before).push(t@));
            }
        }
        i += 1;
    }
    proof {
        assert(rows(pieces@).take(pieces.len() as int) =~= rows(pieces@));
    }
    kept
}

/// The first `n` entries, or all of them where there are fewer.
pub fn first(pieces: Vec<Vec<char>>, n: usize) -> (r: Vec<Vec<char>>)
    ensures
        rows(r@) == at_most(rows(pieces@), n as nat),
{
    let mut r = pieces;
    if r.len() > n {
        r.truncate(n);
        proof {
            assert(rows(r@) =~= rows(pieces@).take(n as int));
        }
    }
    r
}

/// Cleans a raw tag string: splits it at commas, trims each piece, drops the
/// empty ones, keeps the first ten and joins them with a comma and a space.
pub fn sanitize_tags(tags: &str) -> (r: String)
    ensures
        r@ == sanitized(tags@),
{
    let raw = chars_of(tags);
    let pieces = split(&raw, ',');
    let kept = first(clean(&pieces), MAX_TAGS);
    let mut sep: Vec<char> = Vec::new();
    sep.push(',');
    sep.push(' ');
    proof {
        assert(sep@ =~= seq![',', ' ']);
    }
    let joined = join_with(&kept, &sep);
    string_of(&joined)
}

} // verus!
