//! Text helpers shared by the validation engine and the filter engine.
use vstd::prelude::*;
use vstd::string::*;

verus! {

/// The reasons of a failed validation joined with `;`, in their order.
pub open spec fn join_reasons(parts: Seq<Seq<char>>) -> Seq<char>
    decreases parts.len(),
{
    if parts.len() == 0 {
        Seq::empty()
    } else if parts.len() == 1 {
        parts[0]
    } else {
        join_reasons(parts.drop_last()) + ";"@ + parts.last()
    }
}

/// Returns an error holding every problem of the list joined with `;`, or
/// success when the list is empty.
pub fn check(problems: Vec<String>) -> (r: Result<(), String>)
    ensures
        problems@.len() == 0 ==> r is Ok,
        problems@.len() > 0 ==> (r matches Err(e) && e@ == join_reasons(problems.deep_view())),
{
    if problems.len() == 0 {
        return Ok(());
    }
    let mut joined = problems[0].clone();
    let mut i: usize = 1;
    while i < problems.len()
        invariant
            1 <= i <= problems@.len(),
            joined@ == join_reasons(problems.deep_view().take(i as int)),
        decreases problems@.len() - i,
    {
        proof {
            let d = problems.deep_view();
            assert(d.take(i as int + 1).drop_last() =~= d.take(i as int));
        }
        joined.append(";");
        joined.append(problems[i].as_str());
        i = i + 1;
    }
    proof {
        assert(problems.deep_view().take(i as int) =~= problems.deep_view());
    }
    Err(joined)
}

/// The decimal digit `d`, for `d < 10`.
pub open spec fn digit_char(d: nat) -> char {
    "0123456789"@[d as int]
}

/// The decimal notation of `n`, without leading zeros.
pub open spec fn decimal(n: nat) -> Seq<char>
    decreases n,
{
    if n < 10 {
        seq![digit_char(n)]
    } else {
        decimal(n / 10).push(digit_char(n % 10))
    }
}

/// Writes `n` in decimal notation.
pub fn decimal_text(n: u64) -> (r: String)
    ensures
        r@ == decimal(n as nat),
    decreases n,
{
    let digits = "0123456789";
    proof {
        reveal_strlit("0123456789");
    }
    let d = (n % 10) as usize;
    let last = digits.substring_char(d, d + 1);
    let mut s = if n < 10 {
        String::new()
    } else {
        decimal_text(n / 10)
    };
    let ghost before = s@;
    s.append(last);
    assert(last@ =~= seq![digit_char(d as nat)]);
    assert(s@ =~= before.push(digit_char(d as nat)));
    s
}

/// The number of characters of `s`.
pub fn char_count(s: &String) -> (r: usize)
    ensures
        r == s@.len(),
{
    s.as_str().unicode_len()
}

/// The pieces of `s` between commas, in order: one more piece than there are
/// commas, so an empty text has one empty piece.
pub open spec fn split_commas(s: Seq<char>) -> Seq<Seq<char>>
    decreases s.len(),
{
    if s.len() == 0 {
        seq![Seq::empty()]
    } else {
        let p = split_commas(s.drop_last());
        if s.last() == ',' {
            p.push(Seq::empty())
        } else {
            p.update(p.len() - 1, p.last().push(s.last()))
        }
    }
}

/// There is always at least one piece.
pub proof fn lemma_split_commas_nonempty(s: Seq<char>)
    ensures
        split_commas(s).len() >= 1,
    decreases s.len(),
{
    if s.len() > 0 {
        lemma_split_commas_nonempty(s.drop_last());
    }
}

/// Splits `s` at each comma.
pub fn split_at_commas(s: &str) -> (r: Vec<String>)
    ensures
        r.deep_view() == split_commas(s@),
{
    let n = s.unicode_len();
    let mut pieces: Vec<String> = Vec::new();
    let mut start: usize = 0;
    let mut i: usize = 0;
    assert(s@.subrange(0, 0) =~= Seq::<char>::empty());
    assert(pieces.deep_view().push(s@.subrange(0, 0)) =~= seq![Seq::<char>::empty()]);
    while i < n
        invariant
            n == s@.len(),
            start <= i <= n,
            pieces.deep_view().push(s@.subrange(start as int, i as int)) == split_commas(
                s@.subrange(0, i as int),
            ),
        decreases n - i,
    {
        let c = s.get_char(i);
        let ghost prefix = s@.subrange(0, i as int + 1);
        assert(prefix.drop_last() =~= s@.subrange(0, i as int));
        let ghost old_split = split_commas(s@.subrange(0, i as int));
        proof {
            lemma_split_commas_nonempty(s@.subrange(0, i as int));
            assert(prefix.last() == c);
            assert(split_commas(prefix) == if c == ',' {
                old_split.push(Seq::empty())
            } else {
                old_split.update(old_split.len() - 1, old_split.last().push(c))
            });
        }
        if c == ',' {
            let piece = s.substring_char(start, i).to_string();
            let ghost before = pieces.deep_view();
            pieces.push(piece);
            assert(pieces.deep_view() =~= before.push(s@.subrange(start as int, i as int)));
            start = i + 1;
            assert(s@.subrange(start as int, i as int + 1) =~= Seq::<char>::empty());
            assert(pieces.deep_view().push(s@.subrange(start as int, i as int + 1))
                =~= split_commas(prefix));
        } else {
            assert(s@.subrange(start as int, i as int).push(c) =~= s@.subrange(
                start as int,
                i as int + 1,
            ));
            assert(pieces.deep_view().push(s@.subrange(start as int, i as int + 1))
                =~= split_commas(prefix));
        }
        i = i + 1;
    }
    let last = s.substring_char(start, n).to_string();
    pieces.push(last);
    assert(s@.subrange(0, n as int) =~= s@);
    pieces
}

} // verus!
