//! The secret-set loader's pure part: splitting the key file's text into
//! lines and keeping exactly the 32-character ones as shared secrets.

use vstd::prelude::*;
use vstd::string::StrSliceExecFns;
use vstd::string::StringExecFns;

verus! {

/// Required length of a shared secret line, in characters: a 32-character
/// base32 string encoding a 160-bit key.
pub const KEY_LENGTH: usize = 32;

/// Splits `rest` on newlines, with `cur` the partial line read so far and
/// `acc` the lines already complete. A trailing newline yields a final
/// empty line, as splitting does.
pub open spec fn spec_split_rec(rest: Seq<char>, cur: Seq<char>, acc: Seq<Seq<char>>) -> Seq<
    Seq<char>,
>
    decreases rest.len(),
{
    if rest.len() == 0 {
        acc.push(cur)
    } else if rest[0] == '\n' {
        spec_split_rec(rest.skip(1), Seq::empty(), acc.push(cur))
    } else {
        spec_split_rec(rest.skip(1), cur.push(rest[0]), acc)
    }
}

/// The lines of `s`, split on newlines.
pub open spec fn spec_lines(s: Seq<char>) -> Seq<Seq<char>> {
    spec_split_rec(s, Seq::empty(), Seq::empty())
}

/// The shared secrets kept from the key file's text: exactly its lines of
/// the required length, in order.
pub open spec fn spec_kept_keys(s: Seq<char>) -> Seq<Seq<char>> {
    spec_lines(s).filter(|l: Seq<char>| l.len() == KEY_LENGTH)
}

/// Appending one element to a sequence keeps it under a filter exactly when
/// it satisfies the predicate.
proof fn lemma_filter_push(s: Seq<Seq<char>>, x: Seq<char>, p: spec_fn(Seq<char>) -> bool)
    ensures
        s.push(x).filter(p) == if p(x) {
            s.filter(p).push(x)
        } else {
            s.filter(p)
        },
{
    reveal(Seq::filter);
    assert(s.push(x).drop_last() =~= s);
    assert(s.push(x).last() == x);
}

/// The secret set read from the key file's text: each line of exactly the
/// required length is kept as one shared secret, in file order; every other
/// line is discarded.
pub fn filter_keys(data: &str) -> (r: Vec<String>)
    ensures
        r@.map_values(|k: String| k@) == spec_kept_keys(data@),
{
    let keep = Ghost(|l: Seq<char>| l.len() == KEY_LENGTH);
    let n = data.unicode_len();
    let mut out: Vec<String> = Vec::new();
    let mut lines: Ghost<Seq<Seq<char>>> = Ghost(Seq::empty());
    let mut start: usize = 0;
    let mut i: usize = 0;
    proof {
        assert(data@.skip(0) =~= data@);
        assert(data@.subrange(0, 0) =~= Seq::<char>::empty());
    }
    while i < n
        invariant
            n == data@.len(),
            start <= i <= n,
            spec_split_rec(data@.skip(i as int), data@.subrange(start as int, i as int), lines@)
                == spec_lines(data@),
            out@.map_values(|k: String| k@) == lines@.filter(keep@),
            keep@ == (|l: Seq<char>| l.len() == KEY_LENGTH),
        decreases n - i,
    {
        let c = data.get_char(i);
        proof {
            assert(data@.skip(i as int)[0] == data@[i as int]);
            assert(data@.skip(i as int).skip(1) =~= data@.skip(i as int + 1));
        }
        if c == '\n' {
            let ghost line = data@.subrange(start as int, i as int);
            if i - start == KEY_LENGTH {
                let key = data.substring_char(start, i);
                let owned = String::from_str(key);
                out.push(owned);
                proof {
                    lemma_filter_push(lines@, line, keep@);
                    assert(out@.map_values(|k: String| k@) =~= lines@.push(line).filter(keep@));
                }
            } else {
                proof {
                    lemma_filter_push(lines@, line, keep@);
                }
            }
            proof {
                lines@ = lines@.push(line);
                assert(data@.subrange(i as int + 1, i as int + 1) =~= Seq::<char>::empty());
            }
            start = i + 1;
        } else {
            proof {
                assert(data@.subrange(start as int, i as int).push(data@[i as int])
                    =~= data@.subrange(start as int, i as int + 1));
            }
        }
        i += 1;
    }
    let ghost line = data@.subrange(start as int, n as int);
    proof {
        assert(data@.skip(n as int) =~= Seq::<char>::empty());
        assert(spec_lines(data@) == lines@.push(line));
        lemma_filter_push(lines@, line, keep@);
    }
    if n - start == KEY_LENGTH {
        let key = data.substring_char(start, n);
        let owned = String::from_str(key);
        out.push(owned);
        proof {
            assert(out@.map_values(|k: String| k@) =~= lines@.push(line).filter(keep@));
        }
    }
    out
}

} // verus!
