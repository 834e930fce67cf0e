//! Plain-text building blocks of the persisted playlist file: decimal
//! numbers and newline-separated lines, with round-trip proofs.
use vstd::prelude::*;

verus! {

/// Is `c` a decimal digit?
pub open spec fn is_digit(c: char) -> bool {
    c == '0' || c == '1' || c == '2' || c == '3' || c == '4' || c == '5' || c == '6' || c == '7'
        || c == '8' || c == '9'
}

/// The digit character of a value below ten.
pub open spec fn digit_char(d: int) -> char {
    if d == 0 {
        '0'
    } else if d == 1 {
        '1'
    } else if d == 2 {
        '2'
    } else if d == 3 {
        '3'
    } else if d == 4 {
        '4'
    } else if d == 5 {
        '5'
    } else if d == 6 {
        '6'
    } else if d == 7 {
        '7'
    } else if d == 8 {
        '8'
    } else {
        '9'
    }
}

/// The value of a digit character.
pub open spec fn digit_of(c: char) -> int {
    if c == '0' {
        0
    } else if c == '1' {
        1
    } else if c == '2' {
        2
    } else if c == '3' {
        3
    } else if c == '4' {
        4
    } else if c == '5' {
        5
    } else if c == '6' {
        6
    } else if c == '7' {
        7
    } else if c == '8' {
        8
    } else {
        9
    }
}

/// The decimal representation of `n`, most significant digit first, with no
/// leading zeros (a single `'0'` for zero).
pub open spec fn dec_rep(n: nat) -> Seq<char>
    decreases n,
{
    if n < 10 {
        seq![digit_char(n as int)]
    } else {
        dec_rep(n / 10) + seq![digit_char((n % 10) as int)]
    }
}

/// Every character of `s` is a decimal digit.
pub open spec fn all_digits(s: Seq<char>) -> bool {
    forall|i: int| 0 <= i < s.len() ==> is_digit(#[trigger] s[i])
}

/// The value of a digit string, read most significant digit first.
pub open spec fn dec_val(s: Seq<char>) -> nat
    decreases s.len(),
{
    if s.len() == 0 {
        0
    } else {
        dec_val(s.drop_last()) * 10 + digit_of(s.last()) as nat
    }
}

proof fn lemma_digit_roundtrip(d: int)
    requires
        0 <= d < 10,
    ensures
        is_digit(digit_char(d)),
        digit_of(digit_char(d)) == d,
{
}

/// A decimal representation is a non-empty digit string.
pub proof fn lemma_dec_rep_digits(n: nat)
    ensures
        dec_rep(n).len() >= 1,
        all_digits(dec_rep(n)),
    decreases n,
{
    if n < 10 {
        lemma_digit_roundtrip(n as int);
    } else {
        lemma_dec_rep_digits(n / 10);
        lemma_digit_roundtrip((n % 10) as int);
        assert forall|i: int| 0 <= i < dec_rep(n).len() implies is_digit(#[trigger] dec_rep(n)[i]) by {
            if i < dec_rep(n / 10).len() {
                assert(dec_rep(n)[i] == dec_rep(n / 10)[i]);
            } else {
                assert(dec_rep(n)[i] == digit_char((n % 10) as int));
            }
        }
    }
}

/// Reading back the decimal representation of `n` yields `n`.
pub proof fn lemma_dec_roundtrip(n: nat)
    ensures
        dec_val(dec_rep(n)) == n,
    decreases n,
{
    if n < 10 {
        lemma_digit_roundtrip(n as int);
        let s = dec_rep(n);
        assert(s.len() == 1);
        assert(s.drop_last() =~= Seq::<char>::empty());
        assert(dec_val(s.drop_last()) == 0);
        assert(s.last() == digit_char(n as int));
        assert(dec_val(s) == digit_of(digit_char(n as int)));
    } else {
        lemma_dec_roundtrip(n / 10);
        lemma_digit_roundtrip((n % 10) as int);
        let s = dec_rep(n);
        assert(s.len() >= 1);
        assert(s.drop_last() =~= dec_rep(n / 10));
        assert(s.last() == digit_char((n % 10) as int));
        assert(dec_val(s) == dec_val(dec_rep(n / 10)) * 10 + digit_of(digit_char((n % 10) as int)));
        assert(dec_val(s) == (n / 10) * 10 + n % 10);
        assert(n / 10 * 10 + n % 10 == n) by (nonlinear_arith);
    }
}

fn digit_str(d: usize) -> (r: &'static str)
    requires
        d < 10,
    ensures
        r@ =~= seq![digit_char(d as int)],
{
    proof {
        reveal_strlit("0");
        reveal_strlit("1");
        reveal_strlit("2");
        reveal_strlit("3");
        reveal_strlit("4");
        reveal_strlit("5");
        reveal_strlit("6");
        reveal_strlit("7");
        reveal_strlit("8");
        reveal_strlit("9");
    }
    match d {
        0 => "0",
        1 => "1",
        2 => "2",
        3 => "3",
        4 => "4",
        5 => "5",
        6 => "6",
        7 => "7",
        8 => "8",
        _ => "9",
    }
}

/// Formats `n` in decimal.
pub fn fmt_usize(n: usize) -> (r: String)
    ensures
        r@ == dec_rep(n as nat),
    decreases n,
{
    if n < 10 {
        let s = digit_str(n);
        s.to_owned()
    } else {
        let mut s = fmt_usize(n / 10);
        s.append(digit_str(n % 10));
        proof {
            assert(s@ =~= dec_rep(n as nat));
        }
        s
    }
}

fn char_digit(c: char) -> (r: Option<usize>)
    ensures
        r is Some <==> is_digit(c),
        r is Some ==> r->0 == digit_of(c) && r->0 < 10,
{
    match c {
        '0' => Some(0),
        '1' => Some(1),
        '2' => Some(2),
        '3' => Some(3),
        '4' => Some(4),
        '5' => Some(5),
        '6' => Some(6),
        '7' => Some(7),
        '8' => Some(8),
        '9' => Some(9),
        _ => None,
    }
}

/// Prefix values of a digit string never shrink as the prefix grows.
proof fn lemma_dec_val_prefix_mono(s: Seq<char>, i: int, j: int)
    requires
        0 <= i <= j <= s.len(),
    ensures
        dec_val(s.take(i)) <= dec_val(s.take(j)),
    decreases j - i,
{
    if i < j {
        lemma_dec_val_prefix_mono(s, i, j - 1);
        assert(s.take(j).drop_last() =~= s.take(j - 1));
        assert(dec_val(s.take(j - 1)) * 10 >= dec_val(s.take(j - 1))) by (nonlinear_arith);
    }
}

/// Parses a decimal digit string. Returns its value exactly when the string
/// is non-empty, all digits, and the value fits in `usize`.
pub fn parse_usize(s: &str) -> (r: Option<usize>)
    ensures
        r is Some <==> (s@.len() > 0 && all_digits(s@) && dec_val(s@) <= usize::MAX),
        r is Some ==> r->0 == dec_val(s@),
{
    let n = s.unicode_len();
    if n == 0 {
        return None;
    }
    let mut acc: usize = 0;
    let mut i: usize = 0;
    while i < n
        invariant
            0 <= i <= n,
            n == s@.len(),
            all_digits(s@.take(i as int)),
            acc == dec_val(s@.take(i as int)),
        decreases n - i,
    {
        let c = s.get_char(i);
        let d = match char_digit(c) {
            Some(d) => d,
            None => {
                assert(!is_digit(s@[i as int]));
                return None;
            },
        };
        if acc > (usize::MAX - d) / 10 {
            proof {
                assert(s@.take(i + 1).drop_last() =~= s@.take(i as int));
                assert(acc >= (usize::MAX - d) / 10 + 1);
                assert(acc * 10 >= ((usize::MAX - d) / 10 + 1) * 10) by (nonlinear_arith)
                    requires
                        acc >= (usize::MAX - d) / 10 + 1,
                ;
                assert(((usize::MAX - d) / 10 + 1) * 10 > usize::MAX - d) by (nonlinear_arith)
                    requires
                        d <= usize::MAX,
                ;
                assert(dec_val(s@.take(i + 1)) > usize::MAX);
                lemma_dec_val_prefix_mono(s@, i + 1, s@.len() as int);
                assert(s@.take(s@.len() as int) =~= s@);
            }
            return None;
        }
        proof {
            assert(acc <= (usize::MAX - d) / 10);
            assert(acc * 10 <= ((usize::MAX - d) / 10) * 10) by (nonlinear_arith)
                requires
                    acc <= (usize::MAX - d) / 10,
            ;
            assert(((usize::MAX - d) / 10) * 10 <= usize::MAX - d) by (nonlinear_arith);
            assert(s@.take(i + 1).drop_last() =~= s@.take(i as int));
            assert(s@.take(i + 1).last() == s@[i as int]);
        }
        acc = acc * 10 + d;
        i = i + 1;
    }
    proof {
        assert(s@.take(n as int) =~= s@);
    }
    Some(acc)
}

/// The lines of `ls` joined, each line followed by a newline.
pub open spec fn join_lines(ls: Seq<Seq<char>>) -> Seq<char>
    decreases ls.len(),
{
    if ls.len() == 0 {
        Seq::empty()
    } else {
        ls.first() + seq!['\n'] + join_lines(ls.drop_first())
    }
}

/// The index of the first newline in `s`, assuming one is present.
pub open spec fn first_nl(s: Seq<char>) -> int
    decreases s.len(),
{
    if s.len() == 0 {
        0
    } else if s.first() == '\n' {
        0
    } else {
        1 + first_nl(s.drop_first())
    }
}

/// `s` split at newlines: each newline ends a line, and a final segment
/// without a trailing newline is a line of its own.
pub open spec fn split_lines(s: Seq<char>) -> Seq<Seq<char>>
    decreases s.len(),
    via split_lines_decreases
{
    if s.len() == 0 {
        Seq::empty()
    } else if !s.contains('\n') {
        seq![s]
    } else {
        seq![s.take(first_nl(s))] + split_lines(s.skip(first_nl(s) + 1))
    }
}

#[via_fn]
proof fn split_lines_decreases(s: Seq<char>) {
    if s.len() > 0 && s.contains('\n') {
        lemma_first_nl(s);
    }
}

proof fn lemma_first_nl(s: Seq<char>)
    requires
        s.contains('\n'),
    ensures
        0 <= first_nl(s) < s.len(),
        s[first_nl(s)] == '\n',
        forall|i: int| 0 <= i < first_nl(s) ==> s[i] != '\n',
    decreases s.len(),
{
    if s.len() > 0 && s.first() != '\n' {
        assert(s.drop_first().contains('\n')) by {
            let w = choose|w: int| 0 <= w < s.len() && s[w] == '\n';
            assert(s.drop_first()[w - 1] == '\n');
        }
        lemma_first_nl(s.drop_first());
        assert forall|i: int| 0 <= i < first_nl(s) implies s[i] != '\n' by {
            if i > 0 {
                assert(s.drop_first()[i - 1] != '\n');
            }
        }
    }
}

/// Splitting joined lines recovers them, provided no line holds a newline.
pub proof fn lemma_split_join(ls: Seq<Seq<char>>)
    requires
        forall|k: int| 0 <= k < ls.len() ==> !(#[trigger] ls[k]).contains('\n'),
    ensures
        split_lines(join_lines(ls)) == ls,
    decreases ls.len(),
{
    if ls.len() > 0 {
        let s = join_lines(ls);
        let head = ls.first();
        let rest = join_lines(ls.drop_first());
        assert(s =~= head + seq!['\n'] + rest);
        assert(s[head.len() as int] == '\n');
        assert(s.contains('\n'));
        assert(!head.contains('\n'));
        assert forall|i: int| 0 <= i < head.len() implies s[i] != '\n' by {
            assert(s[i] == head[i]);
            if s[i] == '\n' {
                assert(head.contains('\n'));
            }
        }
        lemma_first_nl(s);
        assert(first_nl(s) == head.len()) by {
            if first_nl(s) < head.len() {
                assert(s[first_nl(s)] == '\n');
            }
        }
        assert(s.take(first_nl(s)) =~= head);
        assert(s.skip(first_nl(s) + 1) =~= rest);
        lemma_split_join(ls.drop_first());
        assert(split_lines(s) =~= ls);
    } else {
        assert(split_lines(join_lines(ls)) =~= ls);
    }
}

/// Splits `s` into lines, as `split_lines` of its characters.
pub fn split_str_lines(s: &str) -> (r: Vec<String>)
    ensures
        r.deep_view() == split_lines(s@),
{
    let n = s.unicode_len();
    let mut out: Vec<String> = Vec::new();
    let mut start: usize = 0;
    let mut i: usize = 0;
    proof {
        assert(s@.skip(0) =~= s@);
        assert(out.deep_view() + split_lines(s@) =~= split_lines(s@));
    }
    while i < n
        invariant
            0 <= start <= i <= n,
            n == s@.len(),
            forall|k: int| start <= k < i ==> s@[k] != '\n',
            out.deep_view() + split_lines(s@.skip(start as int)) == split_lines(s@),
        decreases n - i,
    {
        let c = s.get_char(i);
        if c == '\n' {
            let line = s.substring_char(start, i);
            let ghost tail = s@.skip(start as int);
            let ghost old_dv = out.deep_view();
            proof {
                assert(tail[i - start] == s@[i as int]);
                assert(tail.contains('\n')) by {
                    assert(tail[i - start] == '\n');
                }
                lemma_first_nl(tail);
                assert(first_nl(tail) == i - start) by {
                    if first_nl(tail) < i - start {
                        assert(tail[first_nl(tail)] == s@[start + first_nl(tail)]);
                        assert(s@[start + first_nl(tail)] != '\n');
                    }
                    if first_nl(tail) > i - start {
                        assert(tail[i - start] != '\n');
                    }
                }
                assert(tail.take(first_nl(tail)) =~= s@.subrange(start as int, i as int));
                assert(tail.skip(first_nl(tail) + 1) =~= s@.skip(i + 1));
                assert(split_lines(tail) == seq![s@.subrange(start as int, i as int)] + split_lines(
                    s@.skip(i + 1),
                ));
            }
            out.push(line.to_owned());
            proof {
                assert(out.deep_view() =~= old_dv.push(line@));
                assert(old_dv.push(line@) + split_lines(s@.skip(i + 1)) =~= old_dv + split_lines(
                    tail,
                ));
                assert(out.deep_view() + split_lines(s@.skip(i + 1)) =~= split_lines(s@));
            }
            start = i + 1;
        }
        i = i + 1;
    }
    if start < n {
        let line = s.substring_char(start, n);
        let ghost tail = s@.skip(start as int);
        let ghost old_dv = out.deep_view();
        proof {
            assert(!tail.contains('\n')) by {
                if tail.contains('\n') {
                    let w = choose|w: int| 0 <= w < tail.len() && tail[w] == '\n';
                    assert(tail[w] == s@[start + w]);
                    assert(s@[start + w] != '\n');
                }
            }
            assert(tail.len() > 0);
            assert(tail =~= s@.subrange(start as int, n as int));
            assert(split_lines(tail) == seq![tail]);
        }
        out.push(line.to_owned());
        proof {
            assert(out.deep_view() =~= old_dv.push(line@));
            assert(old_dv.push(line@) =~= old_dv + seq![tail]);
            assert(out.deep_view() =~= split_lines(s@));
        }
    } else {
        proof {
            assert(s@.skip(start as int) =~= Seq::<char>::empty());
            assert(split_lines(s@.skip(start as int)) == Seq::<Seq<char>>::empty());
            assert(out.deep_view() =~= out.deep_view() + Seq::<Seq<char>>::empty());
        }
    }
    out
}

} // verus!
