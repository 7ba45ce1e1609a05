//! Character-level building blocks shared by every renderer: decimal
//! numerals, quote escaping and separator-joined lists.
use vstd::prelude::*;
use vstd::string::StrSliceExecFns;
use vstd::string::StringExecFns;

verus! {

/// Relies on `String::push`: appends exactly one character.
#[verifier::external_body]
pub(crate) fn push_char(out: &mut String, c: char)
    ensures
        final(out)@ == old(out)@.push(c),
{
    out.push(c)
}

/// Concatenation regroups to the left, the shape in which text is
/// appended piece by piece.
pub broadcast proof fn lemma_concat_regroup(a: Seq<char>, b: Seq<char>, c: Seq<char>)
    ensures
        #[trigger] (a + (b + c)) == (a + b) + c,
{
    assert(a + (b + c) =~= (a + b) + c);
}

/// The characters of the decimal numeral for `n`, most significant first,
/// without sign or leading zeros.
pub open spec fn decimal(n: nat) -> Seq<char>
    decreases n,
{
    if n < 10 {
        seq!["0123456789"@[n as int]]
    } else {
        decimal(n / 10).push("0123456789"@[(n % 10) as int])
    }
}

/// Appends the decimal numeral of `n`.
pub fn write_decimal(n: u64, out: &mut String)
    ensures
        final(out)@ == old(out)@ + decimal(n as nat),
    decreases n,
{
    proof {
        reveal_strlit("0123456789");
    }
    if n >= 10 {
        write_decimal(n / 10, out);
    }
    let c = "0123456789".get_char((n % 10) as usize);
    push_char(out, c);
    proof {
        if n >= 10 {
            assert((n / 10) as nat == (n as nat) / 10);
        }
    }
}

/// `s` with every single quote doubled, as SQL string literals require.
pub open spec fn escape_single_quotes(s: Seq<char>) -> Seq<char>
    decreases s.len(),
{
    if s.len() == 0 {
        Seq::empty()
    } else {
        escape_single_quotes(s.drop_last()) + if s.last() == '\'' {
            seq!['\'', '\'']
        } else {
            seq![s.last()]
        }
    }
}

/// Appends `s` with every single quote doubled.
pub fn write_escaped(s: &str, out: &mut String)
    ensures
        final(out)@ == old(out)@ + escape_single_quotes(s@),
{
    let ghost start = out@;
    let n = s.unicode_len();
    let mut i: usize = 0;
    while i < n
        invariant
            n == s@.len(),
            i <= n,
            out@ == start + escape_single_quotes(s@.subrange(0, i as int)),
        decreases n - i,
    {
        let c = s.get_char(i);
        if c == '\'' {
            push_char(out, '\'');
            push_char(out, '\'');
        } else {
            push_char(out, c);
        }
        assert(s@.subrange(0, i + 1).drop_last() =~= s@.subrange(0, i as int));
        assert(s@.subrange(0, i + 1).last() == c);
        i += 1;
    }
    assert(s@.subrange(0, n as int) =~= s@);
}

/// The pieces of `parts` joined by `sep`, with no separator before the
/// first piece or after the last.
pub open spec fn join(parts: Seq<Seq<char>>, sep: Seq<char>) -> Seq<char>
    decreases parts.len(),
{
    if parts.len() == 0 {
        Seq::empty()
    } else if parts.len() == 1 {
        parts[0]
    } else {
        join(parts.drop_last(), sep) + sep + parts.last()
    }
}

} // verus!
