//! Backup rotation: which backup files to delete so that only the newest
//! few remain.
//!
//! Backup files are named after the clock at the moment they were written,
//! with the decimal timestamp between a fixed stem and a fixed extension,
//! so a shorter name is an older backup and names of equal length order
//! lexicographically by age. Pruning deletes the oldest files first and
//! keeps the newest ones, never more than the cap.

use vstd::prelude::*;
use vstd::string::StrSliceExecFns;

verus! {

/// Lexicographic order on character sequences, by code point.
pub open spec fn lex_le(a: Seq<char>, b: Seq<char>) -> bool
    decreases a.len(),
{
    if a.len() == 0 {
        true
    } else if b.len() == 0 {
        false
    } else if a[0] == b[0] {
        lex_le(a.drop_first(), b.drop_first())
    } else {
        (a[0] as u32) < (b[0] as u32)
    }
}

/// Age order on backup names: shorter names first, names of equal length
/// lexicographically. On names of the form stem, decimal timestamp,
/// extension this is exactly the numeric order of the timestamps.
pub open spec fn name_le(a: Seq<char>, b: Seq<char>) -> bool {
    ||| a.len() < b.len()
    ||| (a.len() == b.len() && lex_le(a, b))
}

/// The order is reflexive.
pub proof fn lemma_name_le_refl(a: Seq<char>)
    ensures
        name_le(a, a),
    decreases a.len(),
{
    if a.len() > 0 {
        lemma_name_le_refl(a.drop_first());
    }
}

/// The order is total: two names compare one way or the other.
pub proof fn lemma_name_le_total(a: Seq<char>, b: Seq<char>)
    ensures
        name_le(a, b) || name_le(b, a),
    decreases a.len(),
{
    if a.len() == b.len() && a.len() > 0 {
        if a[0] == b[0] {
            lemma_name_le_total(a.drop_first(), b.drop_first());
        } else {
            vstd::utf8::char_u32_cast(a[0], a[0] as u32);
            vstd::utf8::char_u32_cast(b[0], b[0] as u32);
        }
    }
}

/// The order is transitive.
pub proof fn lemma_name_le_trans(a: Seq<char>, b: Seq<char>, c: Seq<char>)
    requires
        name_le(a, b),
        name_le(b, c),
    ensures
        name_le(a, c),
    decreases a.len(),
{
    if a.len() == b.len() && b.len() == c.len() && a.len() > 0 {
        if a[0] == b[0] && b[0] == c[0] {
            lemma_name_le_trans(a.drop_first(), b.drop_first(), c.drop_first());
        }
    }
}

/// Compares two names in the age order.
pub fn name_le_exec(a: &str, b: &str) -> (r: bool)
    ensures
        r == name_le(a@, b@),
{
    let an = a.unicode_len();
    let bn = b.unicode_len();
    if an < bn {
        true
    } else if an > bn {
        false
    } else {
        proof {
            assert(a@.skip(0) =~= a@);
            assert(b@.skip(0) =~= b@);
        }
        let mut i: usize = 0;
        while i < an
            invariant
                an == a@.len(),
                bn == b@.len(),
                an == bn,
                i <= an,
                lex_le(a@, b@) == lex_le(a@.skip(i as int), b@.skip(i as int)),
            decreases an - i,
        {
            let ca = a.get_char(i);
            let cb = b.get_char(i);
            proof {
                assert(a@.skip(i as int)[0] == a@[i as int]);
                assert(b@.skip(i as int)[0] == b@[i as int]);
                assert(a@.skip(i as int).drop_first() =~= a@.skip(i as int + 1));
                assert(b@.skip(i as int).drop_first() =~= b@.skip(i as int + 1));
            }
            if ca != cb {
                return (ca as u32) < (cb as u32);
            }
            i = i + 1;
        }
        proof {
            assert(a@.skip(an as int).len() == 0);
        }
        true
    }
}

/// The index of an oldest name in a non-empty list.
fn oldest_index(v: &Vec<String>) -> (r: usize)
    requires
        v@.len() > 0,
    ensures
        r < v@.len(),
        forall|i: int| 0 <= i < v@.len() ==> name_le(v@[r as int]@, #[trigger] v@[i]@),
{
    let mut best: usize = 0;
    let mut i: usize = 1;
    proof {
        lemma_name_le_refl(v@[0]@);
    }
    while i < v.len()
        invariant
            best < i <= v@.len(),
            forall|j: int| 0 <= j < i ==> name_le(v@[best as int]@, #[trigger] v@[j]@),
        decreases v@.len() - i,
    {
        if name_le_exec(v[i].as_str(), v[best].as_str()) {
            proof {
                let ghost old_best = best as int;
                assert forall|j: int| 0 <= j < i + 1 implies name_le(
                    v@[i as int]@,
                    #[trigger] v@[j]@,
                ) by {
                    if j < i {
                        lemma_name_le_trans(v@[i as int]@, v@[old_best]@, v@[j]@);
                    } else {
                        lemma_name_le_refl(v@[i as int]@);
                    }
                }
            }
            best = i;
        } else {
            proof {
                lemma_name_le_total(v@[i as int]@, v@[best as int]@);
            }
        }
        i = i + 1;
    }
    best
}

/// The names to delete so that at most `keep` remain: all but the `keep`
/// newest, oldest first. Every returned name comes from the list, and every
/// returned name is at most as new as every name left standing.
pub fn prune_names(files: Vec<String>, keep: usize) -> (r: (Vec<String>, Vec<String>))
    ensures
        r.1@.len() == if files@.len() <= keep {
            files@.len() as int
        } else {
            keep as int
        },
        r.0@.len() == files@.len() - r.1@.len(),
        forall|x: int| 0 <= x < r.0@.len() ==> files@.map_values(|s: String| s@).contains(
            #[trigger] r.0@[x]@,
        ),
        forall|y: int| 0 <= y < r.1@.len() ==> files@.map_values(|s: String| s@).contains(
            #[trigger] r.1@[y]@,
        ),
        forall|x: int, y: int|
            0 <= x < r.0@.len() && 0 <= y < r.1@.len() ==> name_le(
                #[trigger] r.0@[x]@,
                #[trigger] r.1@[y]@,
            ),
{
    let ghost all = files@.map_values(|s: String| s@);
    let mut remaining = files;
    let mut doomed: Vec<String> = Vec::new();
    proof {
        assert forall|y: int| 0 <= y < remaining@.len() implies all.contains(
            #[trigger] remaining@[y]@,
        ) by {
            assert(all[y] == remaining@[y]@);
        }
    }
    while remaining.len() > keep
        invariant
            remaining@.len() >= keep || doomed@.len() == 0,
            doomed@.len() + remaining@.len() == all.len(),
            forall|x: int| 0 <= x < doomed@.len() ==> all.contains(#[trigger] doomed@[x]@),
            forall|x: int, y: int|
                0 <= x < doomed@.len() && 0 <= y < remaining@.len() ==> name_le(
                    #[trigger] doomed@[x]@,
                    #[trigger] remaining@[y]@,
                ),
            forall|x: int, y: int|
                0 <= x < doomed@.len() && 0 <= y < doomed@.len() && x <= y ==> name_le(
                    #[trigger] doomed@[x]@,
                    #[trigger] doomed@[y]@,
                ),
            forall|y: int| 0 <= y < remaining@.len() ==> all.contains(#[trigger] remaining@[y]@),
        decreases remaining@.len(),
    {
        let idx = oldest_index(&remaining);
        let name = remaining.remove(idx);
        proof {
            assert forall|x: int, y: int|
                0 <= x < doomed@.len() + 1 && 0 <= y < remaining@.len() implies name_le(
                #[trigger] doomed@.push(name)[x]@,
                #[trigger] remaining@[y]@,
            ) by {
                if x < doomed@.len() {
                    lemma_name_le_trans(doomed@[x]@, name@, remaining@[y]@);
                }
            }
        }
        doomed.push(name);
    }
    (doomed, remaining)
}

} // verus!
