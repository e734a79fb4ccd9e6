//! Verified text utilities: whitespace tokenization, concatenation of
//! string sequences, character-exact string equality, and decimal rendering
//! of unsigned integers.

use vstd::prelude::*;

verus! {

/// The Unicode `White_Space` code points, the same set that
/// `str::split_whitespace` splits on.
pub open spec fn spec_is_space(c: char) -> bool {
    let v = c as u32;
    ||| (0x9 <= v && v <= 0xD)
    ||| v == 0x20
    ||| v == 0x85
    ||| v == 0xA0
    ||| v == 0x1680
    ||| (0x2000 <= v && v <= 0x200A)
    ||| v == 0x2028
    ||| v == 0x2029
    ||| v == 0x202F
    ||| v == 0x205F
    ||| v == 0x3000
}

/// Decides `spec_is_space`.
pub fn is_space(c: char) -> (r: bool)
    ensures
        r == spec_is_space(c),
{
    let v = c as u32;
    (0x9 <= v && v <= 0xD) || v == 0x20 || v == 0x85 || v == 0xA0 || v == 0x1680
        || (0x2000 <= v && v <= 0x200A) || v == 0x2028 || v == 0x2029 || v == 0x202F
        || v == 0x205F || v == 0x3000
}

/// The position of the first whitespace character at or after `i`,
/// or the end of the text if there is none.
pub open spec fn token_end(s: Seq<char>, i: int) -> int
    recommends
        0 <= i <= s.len(),
    decreases s.len() - i,
{
    if i < 0 || i >= s.len() || spec_is_space(s[i]) {
        i
    } else {
        token_end(s, i + 1)
    }
}

proof fn lemma_token_end(s: Seq<char>, i: int)
    requires
        0 <= i <= s.len(),
    ensures
        i <= token_end(s, i) <= s.len(),
        forall|k: int| i <= k < token_end(s, i) ==> !spec_is_space(s[k]),
        token_end(s, i) < s.len() ==> spec_is_space(s[token_end(s, i)]),
    decreases s.len() - i,
{
    if i < s.len() && !spec_is_space(s[i]) {
        lemma_token_end(s, i + 1);
    }
}

/// If nothing in `[i, j)` is whitespace and `j` is the end of the text or a
/// whitespace position, then `j` is exactly where the token starting at `i` ends.
proof fn lemma_token_end_is(s: Seq<char>, i: int, j: int)
    requires
        0 <= i <= j <= s.len(),
        forall|k: int| i <= k < j ==> !spec_is_space(s[k]),
        j < s.len() ==> spec_is_space(s[j]),
    ensures
        token_end(s, i) == j,
    decreases j - i,
{
    if i < j {
        lemma_token_end_is(s, i + 1, j);
    }
}

/// The whitespace-separated tokens of `s` from position `i` on.
pub open spec fn split_ws_from(s: Seq<char>, i: int) -> Seq<Seq<char>>
    decreases s.len() - i,
        when 0 <= i <= s.len()
        via split_ws_from_decreases
{
    if i >= s.len() {
        Seq::empty()
    } else if spec_is_space(s[i]) {
        split_ws_from(s, i + 1)
    } else {
        seq![s.subrange(i, token_end(s, i))] + split_ws_from(s, token_end(s, i))
    }
}

#[via_fn]
proof fn split_ws_from_decreases(s: Seq<char>, i: int) {
    if 0 <= i < s.len() && !spec_is_space(s[i]) {
        lemma_token_end(s, i);
        assert(token_end(s, i + 1) >= i + 1) by {
            lemma_token_end(s, i + 1);
        }
    }
}

/// The whitespace-separated tokens of `s`: what `str::split_whitespace`
/// yields, as a sequence of character sequences.
pub open spec fn split_ws(s: Seq<char>) -> Seq<Seq<char>> {
    split_ws_from(s, 0)
}

/// Splitting yields nothing exactly when every character is whitespace.
pub proof fn lemma_split_ws_empty(s: Seq<char>, i: int)
    requires
        0 <= i <= s.len(),
    ensures
        split_ws_from(s, i).len() == 0 <==> (forall|k: int| i <= k < s.len() ==> spec_is_space(
            s[k],
        )),
    decreases s.len() - i,
{
    if i < s.len() {
        if spec_is_space(s[i]) {
            lemma_split_ws_empty(s, i + 1);
        } else {
            lemma_token_end(s, i);
        }
    }
}

/// Scan forward from `start` (a non-whitespace position) to the end of the
/// token that begins there.
fn scan_token_end(s: &str, start: usize) -> (j: usize)
    requires
        start < s@.len(),
        !spec_is_space(s@[start as int]),
    ensures
        j == token_end(s@, start as int),
        start < j <= s@.len(),
{
    let n = s.unicode_len();
    let mut j = start;
    while j < n
        invariant
            n == s@.len(),
            start < s@.len(),
            !spec_is_space(s@[start as int]),
            start <= j <= n,
            forall|k: int| start <= k < j ==> !spec_is_space(s@[k]),
        decreases n - j,
    {
        if is_space(s.get_char(j)) {
            proof {
                lemma_token_end_is(s@, start as int, j as int);
            }
            return j;
        }
        j += 1;
    }
    proof {
        lemma_token_end_is(s@, start as int, n as int);
    }
    j
}

/// Split `s` into its whitespace-separated tokens.
pub fn tokenize(s: &str) -> (toks: Vec<String>)
    ensures
        toks@.map_values(|t: String| t@) == split_ws(s@),
{
    let n = s.unicode_len();
    let mut toks: Vec<String> = Vec::new();
    let mut i: usize = 0;
    while i < n
        invariant
            n == s@.len(),
            0 <= i <= n,
            toks@.map_values(|t: String| t@) + split_ws_from(s@, i as int) == split_ws(s@),
        decreases n - i,
    {
        let c = s.get_char(i);
        if is_space(c) {
            i += 1;
        } else {
            let j = scan_token_end(s, i);
            let tok = s.substring_char(i, j).to_owned();
            proof {
                let ghost before = toks@.map_values(|t: String| t@);
                assert(before.push(tok@) + split_ws_from(s@, j as int) =~= before + split_ws_from(
                    s@,
                    i as int,
                ));
                assert(toks@.push(tok).map_values(|t: String| t@) =~= before.push(tok@));
            }
            toks.push(tok);
            i = j;
        }
    }
    proof {
        assert(toks@.map_values(|t: String| t@) + split_ws_from(s@, n as int) =~= toks@.map_values(
            |t: String| t@,
        ));
    }
    toks
}

/// Character-exact equality of two string slices.
pub fn str_eq(a: &str, b: &str) -> (r: bool)
    ensures
        r == (a@ == b@),
{
    let na = a.unicode_len();
    let nb = b.unicode_len();
    if na != nb {
        return false;
    }
    let mut i: usize = 0;
    while i < na
        invariant
            na == a@.len(),
            nb == b@.len(),
            na == nb,
            0 <= i <= na,
            forall|k: int| 0 <= k < i ==> a@[k] == b@[k],
        decreases na - i,
    {
        if a.get_char(i) != b.get_char(i) {
            return false;
        }
        i += 1;
    }
    proof {
        assert(a@ =~= b@);
    }
    true
}

/// The concatenation, in order and with no separator, of a sequence of
/// character sequences.
pub open spec fn concat_views(ss: Seq<Seq<char>>) -> Seq<char>
    decreases ss.len(),
{
    if ss.len() == 0 {
        Seq::empty()
    } else {
        ss[0] + concat_views(ss.skip(1))
    }
}

proof fn lemma_concat_views_push(ss: Seq<Seq<char>>, x: Seq<char>)
    ensures
        concat_views(ss.push(x)) == concat_views(ss) + x,
    decreases ss.len(),
{
    if ss.len() == 0 {
        assert(ss.push(x)[0] == x);
        assert(ss.push(x).skip(1) =~= Seq::<Seq<char>>::empty());
        assert(concat_views(Seq::<Seq<char>>::empty()) == Seq::<char>::empty());
        assert(concat_views(ss.push(x)) =~= concat_views(ss) + x);
    } else {
        lemma_concat_views_push(ss.skip(1), x);
        assert(ss.push(x)[0] == ss[0]);
        assert(ss.push(x).skip(1) =~= ss.skip(1).push(x));
        assert(concat_views(ss.push(x)) == ss.push(x)[0] + concat_views(ss.push(x).skip(1)));
        assert(concat_views(ss) == ss[0] + concat_views(ss.skip(1)));
        assert(ss[0] + (concat_views(ss.skip(1)) + x) =~= (ss[0] + concat_views(ss.skip(1))) + x);
        assert(concat_views(ss.push(x)) == concat_views(ss) + x);
    }
}

/// Join the strings of `parts`, in order, with no separator.
pub fn concat_all(parts: &Vec<String>) -> (r: String)
    ensures
        r@ == concat_views(parts@.map_values(|t: String| t@)),
{
    let ghost views = parts@.map_values(|t: String| t@);
    let mut r = String::new();
    let mut i: usize = 0;
    while i < parts.len()
        invariant
            views == parts@.map_values(|t: String| t@),
            0 <= i <= parts.len(),
            r@ == concat_views(views.take(i as int)),
        decreases parts.len() - i,
    {
        r.append(parts[i].as_str());
        proof {
            assert(views.take(i + 1) =~= views.take(i as int).push(views[i as int]));
            lemma_concat_views_push(views.take(i as int), views[i as int]);
        }
        i += 1;
    }
    proof {
        assert(views.take(parts@.len() as int) =~= views);
    }
    r
}

/// The character for a decimal digit.
pub open spec fn spec_digit_char(d: nat) -> char
    recommends
        d < 10,
{
    if d == 0 {
        '0'
    } else if d == 1 {
        '1'
    } else if d == 2 {
        '2'
    } else if d == 3 {
        '3'
    } else if d == 4 {
        '4'
    } else if d == 5 {
        '5'
    } else if d == 6 {
        '6'
    } else if d == 7 {
        '7'
    } else if d == 8 {
        '8'
    } else {
        '9'
    }
}

/// The decimal rendering of `n`, without leading zeros (a single `'0'`
/// for zero itself).
pub open spec fn spec_dec(n: nat) -> Seq<char>
    decreases n,
{
    if n < 10 {
        seq![spec_digit_char(n)]
    } else {
        proof {
            assert(n / 10 < n) by (nonlinear_arith)
                requires
                    n >= 10,
            ;
        }
        spec_dec(n / 10) + seq![spec_digit_char(n % 10)]
    }
}

/// The one-character string for a decimal digit.
fn digit_str(d: u64) -> (r: &'static str)
    requires
        d < 10,
    ensures
        r@ == seq![spec_digit_char(d as nat)],
{
    proof {
        reveal_strlit("0");
        reveal_strlit("1");
        reveal_strlit("2");
        reveal_strlit("3");
        reveal_strlit("4");
        reveal_strlit("5");
        reveal_strlit("6");
        reveal_strlit("7");
        reveal_strlit("8");
        reveal_strlit("9");
    }
    let r = match d {
        0 => "0",
        1 => "1",
        2 => "2",
        3 => "3",
        4 => "4",
        5 => "5",
        6 => "6",
        7 => "7",
        8 => "8",
        _ => "9",
    };
    proof {
        assert(r@ =~= seq![spec_digit_char(d as nat)]);
    }
    r
}

/// The value of a decimal digit character.
pub open spec fn spec_digit_val(c: char) -> nat {
    if c == '0' {
        0
    } else if c == '1' {
        1
    } else if c == '2' {
        2
    } else if c == '3' {
        3
    } else if c == '4' {
        4
    } else if c == '5' {
        5
    } else if c == '6' {
        6
    } else if c == '7' {
        7
    } else if c == '8' {
        8
    } else {
        9
    }
}

/// The numeric value of a sequence of decimal digit characters.
pub open spec fn spec_dec_val(s: Seq<char>) -> nat
    decreases s.len(),
{
    if s.len() == 0 {
        0
    } else {
        spec_dec_val(s.drop_last()) * 10 + spec_digit_val(s.last())
    }
}

/// Reading the decimal rendering of `n` back yields `n`.
pub proof fn lemma_dec_val(n: nat)
    ensures
        spec_dec_val(spec_dec(n)) == n,
    decreases n,
{
    if n < 10 {
        assert(spec_dec(n).drop_last() =~= Seq::<char>::empty());
        assert(spec_dec_val(Seq::<char>::empty()) == 0);
        assert(spec_digit_val(spec_digit_char(n)) == n);
    } else {
        assert(n / 10 < n) by (nonlinear_arith)
            requires
                n >= 10,
        ;
        lemma_dec_val(n / 10);
        assert(spec_dec(n).drop_last() =~= spec_dec(n / 10));
        assert(spec_dec(n).last() == spec_digit_char(n % 10));
        assert(spec_digit_val(spec_digit_char(n % 10)) == n % 10);
        assert((n / 10) * 10 + n % 10 == n);
    }
}

/// Distinct numbers have distinct decimal renderings.
pub proof fn lemma_dec_injective(a: nat, b: nat)
    requires
        spec_dec(a) == spec_dec(b),
    ensures
        a == b,
{
    lemma_dec_val(a);
    lemma_dec_val(b);
}

/// Render `n` in decimal.
pub fn u64_to_dec(n: u64) -> (r: String)
    ensures
        r@ == spec_dec(n as nat),
    decreases n,
{
    if n < 10 {
        digit_str(n).to_owned()
    } else {
        proof {
            assert(n / 10 < n) by (nonlinear_arith)
                requires
                    n >= 10,
            ;
        }
        let mut r = u64_to_dec(n / 10);
        r.append(digit_str(n % 10));
        r
    }
}

} // verus!
