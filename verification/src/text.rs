//! Character-level helpers over the text that configurations and records hold.
use vstd::prelude::*;
use vstd::utf8::{decode_utf8, valid_utf8};

verus! {

/// `s` begins with `p`.
pub open spec fn starts_with(s: Seq<char>, p: Seq<char>) -> bool {
    p.len() <= s.len() && s.take(p.len() as int) == p
}

/// `p` occurs somewhere in `s`.
pub open spec fn contains(s: Seq<char>, p: Seq<char>) -> bool {
    exists|i: int| 0 <= i <= s.len() - p.len() && #[trigger] s.subrange(i, i + p.len()) == p
}

/// `i` is the position of the first `c` in `s`.
pub open spec fn is_first_index<A>(s: Seq<A>, c: A, i: int) -> bool {
    &&& 0 <= i < s.len()
    &&& s[i] == c
    &&& forall|k: int| 0 <= k < i ==> s[k] != c
}

/// The position of the first `c` in `s`, if `c` occurs in `s`.
pub open spec fn first_index<A>(s: Seq<A>, c: A) -> Option<int> {
    if exists|i: int| is_first_index(s, c, i) {
        Some(choose|i: int| is_first_index(s, c, i))
    } else {
        None
    }
}

/// The field that follows the first `sep` in `s`, up to the next `sep` or the end:
/// the second piece of `s` split at `sep`.
pub open spec fn second_field(s: Seq<char>, sep: char) -> Option<Seq<char>> {
    match first_index(s, sep) {
        None => None,
        Some(i) => {
            let rest = s.skip(i + 1);
            match first_index(rest, sep) {
                None => Some(rest),
                Some(j) => Some(rest.take(j)),
            }
        },
    }
}

/// `s` with every leading repetition of `p` removed.
pub open spec fn trim_start_matches(s: Seq<char>, p: Seq<char>) -> Seq<char>
    decreases s.len(),
{
    if p.len() > 0 && starts_with(s, p) {
        trim_start_matches(s.skip(p.len() as int), p)
    } else {
        s
    }
}

/// `l` without one trailing carriage return.
pub open spec fn strip_cr(l: Seq<char>) -> Seq<char> {
    if l.len() > 0 && l.last() == '\r' {
        l.drop_last()
    } else {
        l
    }
}

/// The lines of `s`: pieces ended by `\n` or `\r\n`, the final line ending optional.
pub open spec fn lines(s: Seq<char>) -> Seq<Seq<char>>
    decreases s.len(),
{
    if s.len() == 0 {
        seq![]
    } else {
        match first_index(s, '\n') {
            None => seq![s],
            Some(i) => {
                proof {
                    lemma_first_index_some(s, '\n');
                }
                seq![strip_cr(s.take(i))] + lines(s.skip(i + 1))
            },
        }
    }
}

/// What `first_index` returns is the first occurrence.
pub proof fn lemma_first_index_some<A>(s: Seq<A>, c: A)
    ensures
        first_index(s, c) matches Some(i) ==> is_first_index(s, c, i),
{
    if exists|i: int| is_first_index(s, c, i) {
        let k = choose|k: int| is_first_index(s, c, k);
        assert(is_first_index(s, c, k));
    }
}

/// `bytes` decoded as UTF-8, when they are valid UTF-8.
///
/// Trusted: calls `std::str::from_utf8`, whose documentation says that it succeeds exactly
/// on valid UTF-8; the contract states that, and that the text is the decoded scalars.
#[verifier::external_body]
pub(crate) fn utf8_decode(bytes: &[u8]) -> (r: Option<String>)
    ensures
        r is Some <==> valid_utf8(bytes@),
        r matches Some(s) ==> s@ == decode_utf8(bytes@),
{
    match std::str::from_utf8(bytes) {
        Ok(s) => Some(s.to_string()),
        Err(_) => None,
    }
}

/// A position is the first position of a character: two first positions coincide.
pub proof fn lemma_first_index_unique<A>(s: Seq<A>, c: A, i: int, j: int)
    requires
        is_first_index(s, c, i),
        is_first_index(s, c, j),
    ensures
        i == j,
{
}

/// `first_index` names the first occurrence when there is one.
pub proof fn lemma_first_index_is<A>(s: Seq<A>, c: A, i: int)
    requires
        is_first_index(s, c, i),
    ensures
        first_index(s, c) == Some(i),
{
    let k = choose|k: int| is_first_index(s, c, k);
    assert(is_first_index(s, c, k));
    lemma_first_index_unique(s, c, i, k);
}

/// `first_index` is `None` when the character does not occur.
pub proof fn lemma_first_index_none<A>(s: Seq<A>, c: A)
    requires
        forall|k: int| 0 <= k < s.len() ==> s[k] != c,
    ensures
        first_index(s, c) is None,
{
}

/// Trimming leaves a text that no longer begins with the pattern.
pub proof fn lemma_trim_start_matches_done(s: Seq<char>, p: Seq<char>)
    requires
        p.len() > 0,
    ensures
        !starts_with(trim_start_matches(s, p), p),
    decreases s.len(),
{
    if starts_with(s, p) {
        lemma_trim_start_matches_done(s.skip(p.len() as int), p);
    }
}

/// The characters of `s`, in order.
pub fn chars_of(s: &str) -> (r: Vec<char>)
    ensures
        r@ == s@,
{
    broadcast use vstd::string::group_string_axioms;

    let mut r: Vec<char> = Vec::new();
    for c in it: s.chars()
        invariant
            it.seq() == s@,
            r@ == it.seq().take(it.index() as int),
    {
        r.push(c);
    }
    r
}

/// The first position at or after `start` that holds `c`.
pub fn find_char_from(s: &Vec<char>, start: usize, c: char) -> (r: Option<usize>)
    requires
        start <= s.len(),
    ensures
        r matches Some(i) ==> start <= i < s.len() && s@[i as int] == c && forall|k: int|
            start <= k < i ==> s@[k] != c,
        r is None ==> forall|k: int| start <= k < s.len() ==> s@[k] != c,
{
    let mut i = start;
    while i < s.len()
        invariant
            start <= i <= s.len(),
            forall|k: int| start <= k < i ==> s@[k] != c,
        decreases s.len() - i,
    {
        if s[i] == c {
            return Some(i);
        }
        i += 1;
    }
    None
}

/// Whether `s[at..]` begins with `p`.
pub fn matches_at(s: &Vec<char>, at: usize, p: &Vec<char>) -> (r: bool)
    requires
        at <= s.len(),
    ensures
        r == (at + p.len() <= s.len() && s@.subrange(at as int, at + p.len()) == p@),
{
    if p.len() > s.len() - at {
        return false;
    }
    let mut k: usize = 0;
    while k < p.len()
        invariant
            at + p.len() <= s.len(),
            k <= p.len(),
            forall|m: int| 0 <= m < k ==> s@[at + m] == p@[m],
        decreases p.len() - k,
    {
        if s[at + k] != p[k] {
            assert(s@.subrange(at as int, at + p.len())[k as int] != p@[k as int]);
            return false;
        }
        k += 1;
    }
    assert(s@.subrange(at as int, at + p.len()) =~= p@);
    true
}

/// Whether `s` begins with `p`.
pub fn seq_starts_with(s: &Vec<char>, p: &Vec<char>) -> (r: bool)
    ensures
        r == starts_with(s@, p@),
{
    let r = matches_at(s, 0, p);
    assert(s@.subrange(0, p.len() as int) =~= s@.take(p.len() as int));
    r
}

/// Whether `p` occurs in `s`.
pub fn seq_contains(s: &Vec<char>, p: &Vec<char>) -> (r: bool)
    ensures
        r == contains(s@, p@),
{
    if p.len() > s.len() {
        return false;
    }
    let last = s.len() - p.len();
    let mut i: usize = 0;
    loop
        invariant
            last == s.len() - p.len(),
            i <= last,
            forall|k: int| 0 <= k < i ==> #[trigger] s@.subrange(k, k + p.len()) != p@,
        ensures
            forall|k: int| 0 <= k <= last ==> #[trigger] s@.subrange(k, k + p.len()) != p@,
        decreases last - i,
    {
        if matches_at(s, i, p) {
            return true;
        }
        if i == last {
            break;
        }
        i += 1;
    }
    false
}

/// Whether `p` occurs in `s`.
pub fn str_contains(s: &str, p: &str) -> (r: bool)
    ensures
        r == contains(s@, p@),
{
    let sc = chars_of(s);
    let pc = chars_of(p);
    seq_contains(&sc, &pc)
}

/// Whether `a` and `b` hold the same text.
pub fn str_eq(a: &str, b: &str) -> (r: bool)
    ensures
        r == (a@ == b@),
{
    let ac = chars_of(a);
    let bc = chars_of(b);
    if ac.len() != bc.len() {
        return false;
    }
    let r = seq_starts_with(&ac, &bc);
    assert(ac@.take(bc@.len() as int) =~= ac@);
    r
}

/// Whether `s` begins with `p`.
pub fn str_starts_with(s: &str, p: &str) -> (r: bool)
    ensures
        r == starts_with(s@, p@),
{
    let sc = chars_of(s);
    let pc = chars_of(p);
    seq_starts_with(&sc, &pc)
}

/// The field that follows the first `sep` in `s`, up to the next `sep` or the end.
pub fn str_second_field(s: &str, sep: char) -> (r: Option<String>)
    ensures
        r matches Some(f) ==> second_field(s@, sep) == Some(f@),
        r is None ==> second_field(s@, sep) is None,
{
    let cs = chars_of(s);
    match find_char_from(&cs, 0, sep) {
        None => {
            proof {
                lemma_first_index_none(s@, sep);
            }
            None
        },
        Some(i) => {
            proof {
                lemma_first_index_is(s@, sep, i as int);
            }
            let ghost rest = s@.skip(i + 1);
            let end = match find_char_from(&cs, i + 1, sep) {
                None => {
                    proof {
                        assert forall|k: int| 0 <= k < rest.len() implies rest[k] != sep by {
                            assert(rest[k] == s@[i + 1 + k]);
                        }
                        lemma_first_index_none(rest, sep);
                    }
                    cs.len()
                },
                Some(j) => {
                    proof {
                        assert(rest[j - i - 1] == s@[j as int]);
                        assert forall|k: int| 0 <= k < j - i - 1 implies rest[k] != sep by {
                            assert(rest[k] == s@[i + 1 + k]);
                        }
                        lemma_first_index_is(rest, sep, j - i - 1);
                    }
                    j
                },
            };
            let f = s.substring_char(i + 1, end);
            proof {
                if end == cs.len() {
                    assert(f@ =~= rest);
                } else {
                    assert(f@ =~= rest.take(end - i - 1));
                }
            }
            Some(f.to_owned())
        },
    }
}

/// The lines of `s`, as the standard library's `str::lines` splits them.
pub fn str_lines(s: &str) -> (r: Vec<String>)
    ensures
        r@.map_values(|l: String| l@) == lines(s@),
{
    let cs = chars_of(s);
    let mut r: Vec<String> = Vec::new();
    let mut start: usize = 0;
    let mut j: usize = 0;
    assert(s@.skip(0) =~= s@);
    while j < cs.len()
        invariant
            cs@ == s@,
            start <= j <= cs.len(),
            forall|k: int| start <= k < j ==> cs@[k] != '\n',
            lines(s@) == r@.map_values(|l: String| l@) + lines(s@.skip(start as int)),
        decreases cs.len() - j,
    {
        if cs[j] == '\n' {
            let ghost rest = s@.skip(start as int);
            proof {
                assert(rest[j - start] == cs@[j as int]);
                assert forall|k: int| 0 <= k < j - start implies rest[k] != '\n' by {
                    assert(rest[k] == s@[start + k]);
                }
                lemma_first_index_is(rest, '\n', j - start);
                assert(rest.skip(j - start + 1) =~= s@.skip(j + 1));
                assert(rest.len() > 0);
            }
            let end = if j > start && cs[j - 1] == '\r' {
                j - 1
            } else {
                j
            };
            let line = s.substring_char(start, end).to_owned();
            proof {
                assert(line@ =~= strip_cr(rest.take(j - start)));
            }
            let ghost old_r = r@;
            r.push(line);
            proof {
                assert(r@.map_values(|l: String| l@) =~= old_r.map_values(|l: String| l@).push(line@));
                assert(lines(rest) == seq![strip_cr(rest.take(j - start))] + lines(s@.skip(j + 1)));
            }
            start = j + 1;
        }
        j += 1;
    }
    let ghost rest = s@.skip(start as int);
    proof {
        assert forall|k: int| 0 <= k < rest.len() implies rest[k] != '\n' by {
            assert(rest[k] == s@[start + k]);
        }
        lemma_first_index_none(rest, '\n');
    }
    if start < cs.len() {
        let line = s.substring_char(start, cs.len()).to_owned();
        proof {
            assert(line@ =~= rest);
        }
        let ghost old_r = r@;
        r.push(line);
        proof {
            assert(r@.map_values(|l: String| l@) =~= old_r.map_values(|l: String| l@).push(line@));
            assert(lines(rest) == seq![rest]);
        }
    } else {
        assert(rest.len() == 0);
        assert(r@.map_values(|l: String| l@) + lines(rest) =~= r@.map_values(|l: String| l@));
    }
    r
}

/// `s` with every leading repetition of `p` removed.
pub fn str_trim_start_matches(s: &str, p: &str) -> (r: String)
    ensures
        r@ == trim_start_matches(s@, p@),
{
    let cs = chars_of(s);
    let ps = chars_of(p);
    let mut i: usize = 0;
    if ps.len() > 0 {
        assert(s@.skip(0) =~= s@);
        while matches_at(&cs, i, &ps)
            invariant
                ps@.len() > 0,
                i <= cs.len(),
                cs@ == s@,
                ps@ == p@,
                trim_start_matches(s@, p@) == trim_start_matches(s@.skip(i as int), p@),
            decreases cs.len() - i,
        {
            proof {
                let t = s@.skip(i as int);
                assert(t.take(p@.len() as int) =~= s@.subrange(i as int, i + p@.len()));
                assert(t.skip(p@.len() as int) =~= s@.skip(i + p@.len()));
            }
            i = i + ps.len();
        }
        proof {
            let t = s@.skip(i as int);
            if starts_with(t, p@) {
                assert(t.take(p@.len() as int) =~= s@.subrange(i as int, i + p@.len()));
            }
        }
    } else {
        assert(s@.skip(0) =~= s@);
    }
    proof {
        assert(s@.skip(i as int) =~= s@.subrange(i as int, cs@.len() as int));
    }
    s.substring_char(i, cs.len()).to_owned()
}

} // verus!
