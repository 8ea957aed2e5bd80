use vstd::prelude::*;

verus! {

/// ASCII case folding of one code point, as a number.
pub open spec fn fold_code(x: u32) -> u32 {
    if 65 <= x <= 90 {
        (x + 32) as u32
    } else {
        x
    }
}

/// Two characters are equal once ASCII letters are lowered.
pub open spec fn same_folded(a: char, b: char) -> bool {
    fold_code(a as u32) == fold_code(b as u32)
}

/// `term` occurs in `text` at position `k`, ignoring ASCII case.
pub open spec fn occurs_folded_at(text: Seq<char>, term: Seq<char>, k: int) -> bool {
    &&& 0 <= k
    &&& k + term.len() <= text.len()
    &&& forall|j: int| 0 <= j < term.len() ==> same_folded(#[trigger] text[k + j], term[j])
}

/// `term` is a substring of `text`, ignoring ASCII case.
pub open spec fn contains_folded(text: Seq<char>, term: Seq<char>) -> bool {
    exists|k: int| occurs_folded_at(text, term, k)
}

fn fold(c: char) -> (r: u32)
    ensures
        r == fold_code(c as u32),
{
    let x = c as u32;
    if 65 <= x && x <= 90 {
        x + 32
    } else {
        x
    }
}

/// The characters of `s`, in order.
pub fn chars_of(s: &str) -> (r: Vec<char>)
    ensures
        r@ == s@,
{
    let n = s.unicode_len();
    let mut out: Vec<char> = Vec::new();
    let mut i: usize = 0;
    while i < n
        invariant
            n == s@.len(),
            i <= n,
            out@ == s@.subrange(0, i as int),
        decreases n - i,
    {
        out.push(s.get_char(i));
        i += 1;
    }
    out
}

/// Case-insensitive (ASCII) substring test.
pub fn contains_ignoring_case(text: &Vec<char>, term: &Vec<char>) -> (r: bool)
    ensures
        r == contains_folded(text@, term@),
{
    if term.len() > text.len() {
        assert forall|k: int| !occurs_folded_at(text@, term@, k) by {}
        return false;
    }
    let last = text.len() - term.len();
    let mut k: usize = 0;
    loop
        invariant
            k <= last,
            last == text@.len() - term@.len(),
            term@.len() <= text@.len(),
            text@.len() <= usize::MAX,
            forall|q: int| 0 <= q < k ==> !occurs_folded_at(text@, term@, q),
        decreases last - k,
    {
        let mut j: usize = 0;
        let mut ok = true;
        while j < term.len()
            invariant
                k <= last,
                last == text@.len() - term@.len(),
                term@.len() <= text@.len(),
                text@.len() <= usize::MAX,
                j <= term@.len(),
                ok ==> forall|p: int| 0 <= p < j ==> same_folded(text@[k + p], term@[p]),
                !ok ==> !occurs_folded_at(text@, term@, k as int),
            decreases term@.len() - j,
        {
            let at = k + j;
            if ok && fold(text[at]) != fold(term[j]) {
                ok = false;
            }
            j += 1;
        }
        if ok {
            assert(occurs_folded_at(text@, term@, k as int));
            return true;
        }
        if k == last {
            assert forall|q: int| !occurs_folded_at(text@, term@, q) by {
                if 0 <= q && q < k {
                }
            }
            return false;
        }
        k += 1;
    }
}

} // verus!

verus! {

/// Relies on `String`'s `FromIterator<&char>`: the string holds the given characters, in order.
#[verifier::external_body]
pub(crate) fn string_of(chars: &Vec<char>) -> (r: String)
    ensures
        r@ == chars@,
{
    String::from_iter(chars)
}

} // verus!
