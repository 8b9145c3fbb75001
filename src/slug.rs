use vstd::prelude::*;

verus! {

/// The text with every space replaced by a hyphen.
pub open spec fn hyphenated(s: Seq<char>) -> Seq<char> {
    s.map_values(|c: char| if c == ' ' { '-' } else { c })
}

/// Replaces every space of `s` by a hyphen.
pub fn hyphenate(s: &str) -> (r: String)
    ensures
        r@ == hyphenated(s@),
{
    let n = s.unicode_len();
    let mut out = String::new();
    let mut i: usize = 0;
    while i < n
        invariant
            n == s@.len(),
            i <= n,
            out@ == hyphenated(s@.subrange(0, i as int)),
        decreases n - i,
    {
        let c = s.get_char(i);
        if c == ' ' {
            push_char(&mut out, '-');
        } else {
            push_char(&mut out, c);
        }
        proof {
            assert(s@.subrange(0, i + 1) == s@.subrange(0, i as int).push(c));
            assert(hyphenated(s@.subrange(0, i + 1)) =~= hyphenated(s@.subrange(0, i as int)).push(
                if c == ' ' { '-' } else { c },
            ));
        }
        i = i + 1;
    }
    proof {
        assert(s@.subrange(0, n as int) == s@);
        assert(hyphenated(s@.subrange(0, 0)) =~= Seq::<char>::empty());
    }
    out
}

/// Relies on `String::push`: appends one character.
#[verifier::external_body]
pub(crate) fn push_char(s: &mut String, c: char)
    ensures
        final(s)@ == old(s)@.push(c),
{
    s.push(c)
}

/// Replacing spaces by hyphens leaves no space, and doing it again changes
/// nothing.
pub proof fn lemma_hyphenate_idempotent(s: Seq<char>)
    ensures
        hyphenated(hyphenated(s)) == hyphenated(s),
        forall|i: int| 0 <= i < hyphenated(s).len() ==> #[trigger] hyphenated(s)[i] != ' ',
{
    assert(hyphenated(hyphenated(s)) =~= hyphenated(s));
}

} // verus!
