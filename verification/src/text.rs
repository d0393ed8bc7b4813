//! Small verified building blocks for working with strings: equality,
//! prefix tests and concatenation, stated over the `Seq<char>` views.

use vstd::prelude::*;
use vstd::string::StrSliceExecFns;
use vstd::string::StringExecFns;

verus! {

/// String equality by contents.
pub fn str_eq(a: &str, b: &str) -> (r: bool)
    ensures
        r == (a@ == b@),
{
    let owned_a: String = a.to_owned();
    let owned_b: String = b.to_owned();
    owned_a == owned_b
}

/// Whether `p` is a prefix of `s`.
pub open spec fn is_prefix_of(p: Seq<char>, s: Seq<char>) -> bool {
    p.len() <= s.len() && s.subrange(0, p.len() as int) == p
}

/// Prefix test on strings.
pub fn str_starts_with(s: &str, prefix: &str) -> (r: bool)
    ensures
        r == is_prefix_of(prefix@, s@),
{
    let n: usize = s.unicode_len();
    let p: usize = prefix.unicode_len();
    if p > n {
        false
    } else {
        let head: &str = s.substring_char(0, p);
        str_eq(head, prefix)
    }
}

/// Concatenation of two strings.
pub fn concat2(a: &str, b: &str) -> (r: String)
    ensures
        r@ == a@ + b@,
{
    a.to_owned().concat(b)
}

/// Concatenation of three strings.
pub fn concat3(a: &str, b: &str, c: &str) -> (r: String)
    ensures
        r@ == a@ + b@ + c@,
{
    a.to_owned().concat(b).concat(c)
}

/// Relies on `String::push`: appends exactly the one character.
#[verifier::external_body]
fn push_char(s: &mut String, c: char)
    ensures
        final(s)@ == old(s)@.push(c),
{
    s.push(c);
}

/// The view of a string with every newline character removed.
pub open spec fn remove_newlines_spec(s: Seq<char>) -> Seq<char> {
    s.filter(|c: char| c != '\n')
}

/// Collapses newlines out of a string, keeping every other character in
/// order.
pub fn remove_newlines(s: &str) -> (r: String)
    ensures
        r@ == remove_newlines_spec(s@),
{
    let n: usize = s.unicode_len();
    let mut out = String::new();
    let mut i: usize = 0;
    while i < n
        invariant
            n == s@.len(),
            i <= n,
            out@ == remove_newlines_spec(s@.take(i as int)),
        decreases n - i,
    {
        let c = s.get_char(i);
        proof {
            reveal(Seq::filter);
            assert(s@.take(i + 1 as int).drop_last() =~= s@.take(i as int));
            assert(s@.take(i + 1 as int).last() == s@[i as int]);
        }
        if c != '\n' {
            push_char(&mut out, c);
        }
        i = i + 1;
    }
    proof {
        assert(s@.take(n as int) =~= s@);
    }
    out
}

/// The decimal digit character for `d`, a value below ten.
pub open spec fn dec_digit(d: int) -> char {
    if d == 0 {
        '0'
    } else if d == 1 {
        '1'
    } else if d == 2 {
        '2'
    } else if d == 3 {
        '3'
    } else if d == 4 {
        '4'
    } else if d == 5 {
        '5'
    } else if d == 6 {
        '6'
    } else if d == 7 {
        '7'
    } else if d == 8 {
        '8'
    } else {
        '9'
    }
}

/// The decimal notation of a non-negative number, most significant digit
/// first, without leading zeroes (zero itself reads `"0"`).
pub open spec fn dec_spec(n: int) -> Seq<char>
    decreases n,
{
    if n < 10 {
        seq![dec_digit(n)]
    } else {
        dec_spec(n / 10).push(dec_digit(n % 10))
    }
}

/// The decimal digit character for `d`, a value below ten.
fn dec_digit_char(d: u64) -> (c: char)
    requires
        d < 10,
    ensures
        c == dec_digit(d as int),
{
    match d {
        0 => '0',
        1 => '1',
        2 => '2',
        3 => '3',
        4 => '4',
        5 => '5',
        6 => '6',
        7 => '7',
        8 => '8',
        _ => '9',
    }
}

/// Writes a number in decimal.
pub fn u64_to_dec(n: u64) -> (r: String)
    ensures
        r@ == dec_spec(n as int),
{
    let mut digits: Vec<char> = Vec::new();
    let mut m: u64 = n;
    proof {
        assert(digits@.reverse() =~= Seq::<char>::empty());
        assert(dec_spec(m as int) + digits@.reverse() =~= dec_spec(n as int));
    }
    while m >= 10
        invariant
            dec_spec(m as int) + digits@.reverse() == dec_spec(n as int),
        decreases m,
    {
        let ghost pre = digits@;
        let d: u64 = m % 10;
        digits.push(dec_digit_char(d));
        m = m / 10;
        proof {
            assert(digits@.reverse() =~= seq![dec_digit(d as int)] + pre.reverse());
            assert(dec_spec(m as int) + digits@.reverse()
                =~= (dec_spec(m as int).push(dec_digit(d as int))) + pre.reverse());
        }
    }
    let ghost pre = digits@;
    digits.push(dec_digit_char(m));
    proof {
        assert(digits@.reverse() =~= seq![dec_digit(m as int)] + pre.reverse());
        assert(dec_spec(m as int) =~= seq![dec_digit(m as int)]);
        assert(digits@.reverse() =~= dec_spec(n as int));
    }
    let count = digits.len();
    let mut out = String::new();
    let mut j: usize = 0;
    while j < count
        invariant
            count == digits@.len(),
            j <= count,
            out@ == digits@.reverse().take(j as int),
        decreases count - j,
    {
        push_char(&mut out, digits[count - 1 - j]);
        proof {
            assert(digits@.reverse()[j as int] == digits@[count - 1 - j]);
            assert(digits@.reverse().take(j + 1 as int)
                =~= digits@.reverse().take(j as int).push(digits@.reverse()[j as int]));
        }
        j = j + 1;
    }
    proof {
        assert(digits@.reverse().take(count as int) =~= digits@.reverse());
    }
    out
}

/// The code of `c` with an ASCII capital letter folded to its small form;
/// every other character keeps its own code.
pub open spec fn lower_code(c: char) -> int {
    if 65 <= c as u32 <= 90 {
        c as u32 + 32
    } else {
        c as u32 as int
    }
}

/// Equality up to ASCII letter case.
pub open spec fn eq_ignore_ascii_case_spec(a: Seq<char>, b: Seq<char>) -> bool {
    a.len() == b.len() && (forall|i: int| 0 <= i < a.len() ==> lower_code(a[i]) == lower_code(b[i]))
}

/// Compares two strings ignoring ASCII letter case.
pub fn str_eq_ignore_ascii_case(a: &str, b: &str) -> (r: bool)
    ensures
        r == eq_ignore_ascii_case_spec(a@, b@),
{
    let n: usize = a.unicode_len();
    let m: usize = b.unicode_len();
    if n != m {
        return false;
    }
    let mut i: usize = 0;
    while i < n
        invariant
            n == a@.len(),
            n == b@.len(),
            i <= n,
            forall|j: int| 0 <= j < i ==> lower_code(a@[j]) == lower_code(b@[j]),
        decreases n - i,
    {
        let ca: u32 = a.get_char(i) as u32;
        let cb: u32 = b.get_char(i) as u32;
        let la: u32 = if 65 <= ca && ca <= 90 {
            ca + 32
        } else {
            ca
        };
        let lb: u32 = if 65 <= cb && cb <= 90 {
            cb + 32
        } else {
            cb
        };
        if la != lb {
            return false;
        }
        i = i + 1;
    }
    true
}

/// The characters treated as word separators.
pub open spec fn is_space(c: char) -> bool {
    c == ' ' || c == '\t' || c == '\n' || c == '\r'
}

/// Executable separator test.
pub fn is_space_char(c: char) -> (r: bool)
    ensures
        r == is_space(c),
{
    c == ' ' || c == '\t' || c == '\n' || c == '\r'
}

/// Length of the maximal non-space prefix of `s`.
pub open spec fn word_len(s: Seq<char>) -> nat
    decreases s.len(),
{
    if s.len() == 0 || is_space(s[0]) {
        0
    } else {
        1 + word_len(s.skip(1))
    }
}

/// The words of `s`: its maximal runs of non-space characters, in order.
pub open spec fn split_words_spec(s: Seq<char>) -> Seq<Seq<char>>
    decreases s.len(),
    via split_words_spec_decreases
{
    if s.len() == 0 {
        Seq::empty()
    } else if is_space(s[0]) {
        split_words_spec(s.skip(1))
    } else {
        seq![s.take(word_len(s) as int)] + split_words_spec(s.skip(word_len(s) as int))
    }
}

#[via_fn]
proof fn split_words_spec_decreases(s: Seq<char>) {
    if s.len() > 0 && !is_space(s[0]) {
        assert(word_len(s) == 1 + word_len(s.skip(1)));
        lemma_word_len_le(s);
    }
}

/// A word never outruns the string it starts.
pub proof fn lemma_word_len_le(s: Seq<char>)
    ensures
        word_len(s) <= s.len(),
    decreases s.len(),
{
    if s.len() > 0 && !is_space(s[0]) {
        lemma_word_len_le(s.skip(1));
    }
}

/// The word starting at a non-space character runs exactly to the next
/// separator (or the end of the string).
proof fn lemma_word_len_exact(s: Seq<char>, k: int)
    requires
        0 <= k <= s.len(),
        forall|m: int| 0 <= m < k ==> !is_space(s[m]),
        k == s.len() || is_space(s[k]),
    ensures
        word_len(s) == k,
    decreases k,
{
    if k == 0 {
    } else {
        lemma_word_len_exact(s.skip(1), k - 1);
    }
}

/// Splits a string into its whitespace-separated words.
pub fn split_words(s: &str) -> (words: Vec<String>)
    ensures
        words@.map_values(|w: String| w@) == split_words_spec(s@),
{
    let ghost all: Seq<Seq<char>> = split_words_spec(s@);
    let n: usize = s.unicode_len();
    let mut words: Vec<String> = Vec::new();
    let mut i: usize = 0;
    proof {
        assert(s@.skip(0) =~= s@);
        assert(words@.map_values(|w: String| w@) =~= Seq::<Seq<char>>::empty());
        assert(Seq::<Seq<char>>::empty() + split_words_spec(s@) =~= split_words_spec(s@));
    }
    while i < n
        invariant
            n == s@.len(),
            i <= n,
            words@.map_values(|w: String| w@) + split_words_spec(s@.skip(i as int)) == all,
            all == split_words_spec(s@),
        decreases n - i,
    {
        let c = s.get_char(i);
        if is_space_char(c) {
            proof {
                assert(s@.skip(i as int).skip(1) =~= s@.skip(i + 1 as int));
            }
            i = i + 1;
        } else {
            let mut j: usize = i + 1;
            while j < n && !is_space_char(s.get_char(j))
                invariant
                    n == s@.len(),
                    i < j <= n,
                    forall|m: int| i <= m < j ==> !is_space(s@[m]),
                decreases n - j,
            {
                j = j + 1;
            }
            let w: &str = s.substring_char(i, j);
            proof {
                let t = s@.skip(i as int);
                lemma_word_len_exact(t, j - i);
                assert(t.take((j - i) as int) =~= s@.subrange(i as int, j as int));
                assert(t.skip((j - i) as int) =~= s@.skip(j as int));
                assert(split_words_spec(t) == seq![w@] + split_words_spec(s@.skip(j as int)));
            }
            let owned: String = w.to_owned();
            words.push(owned);
            proof {
                assert(words@.map_values(|w: String| w@)
                    =~= words@.drop_last().map_values(|w: String| w@).push(w@));
                assert(words@.drop_last().map_values(|w: String| w@).push(w@)
                    + split_words_spec(s@.skip(j as int))
                    =~= words@.drop_last().map_values(|w: String| w@)
                    + (seq![w@] + split_words_spec(s@.skip(j as int))));
            }
            i = j;
        }
    }
    proof {
        assert(s@.skip(n as int) =~= Seq::<char>::empty());
        assert(words@.map_values(|w: String| w@) + split_words_spec(s@.skip(n as int))
            =~= words@.map_values(|w: String| w@));
    }
    words
}

/// The words joined with a single `sep` between neighbours.
pub open spec fn join_words(ws: Seq<Seq<char>>, sep: char) -> Seq<char>
    decreases ws.len(),
{
    if ws.len() == 0 {
        Seq::empty()
    } else if ws.len() == 1 {
        ws[0]
    } else {
        ws[0] + seq![sep] + join_words(ws.skip(1), sep)
    }
}

/// Joining one more word appends a separator and the word.
proof fn lemma_join_push(ws: Seq<Seq<char>>, sep: char, w: Seq<char>)
    requires
        ws.len() >= 1,
    ensures
        join_words(ws.push(w), sep) == join_words(ws, sep) + seq![sep] + w,
    decreases ws.len(),
{
    if ws.len() == 1 {
        assert(ws.push(w).skip(1) =~= seq![w]);
        assert(join_words(seq![w], sep) == w);
        assert(ws.push(w)[0] == ws[0]);
        assert(join_words(ws.push(w), sep) == ws[0] + seq![sep] + w);
    } else {
        lemma_join_push(ws.skip(1), sep, w);
        assert(ws.push(w).skip(1) =~= ws.skip(1).push(w));
        assert(ws[0] + seq![sep] + (join_words(ws.skip(1), sep) + seq![sep] + w)
            =~= (ws[0] + seq![sep] + join_words(ws.skip(1), sep)) + seq![sep] + w);
    }
}

/// Joins `words`, from index `from` on, with single spaces.
pub fn join_words_from(words: &Vec<String>, from: usize) -> (r: String)
    requires
        from <= words@.len(),
    ensures
        r@ == join_words(words@.map_values(|w: String| w@).skip(from as int), ' '),
{
    let ghost ws = words@.map_values(|w: String| w@);
    let n = words.len();
    let mut out = String::new();
    if from == n {
        proof {
            assert(ws.skip(from as int) =~= Seq::<Seq<char>>::empty());
        }
        return out;
    }
    out.append(words[from].as_str());
    let mut m: usize = from + 1;
    proof {
        assert(ws.subrange(from as int, from + 1 as int) =~= seq![ws[from as int]]);
        assert(join_words(seq![ws[from as int]], ' ') == ws[from as int]);
        assert(out@ == join_words(ws.subrange(from as int, m as int), ' '));
    }
    while m < n
        invariant
            n == words.len(),
            ws == words@.map_values(|w: String| w@),
            from < m <= n,
            out@ == join_words(ws.subrange(from as int, m as int), ' '),
        decreases n - m,
    {
        push_char(&mut out, ' ');
        out.append(words[m].as_str());
        proof {
            lemma_join_push(ws.subrange(from as int, m as int), ' ', ws[m as int]);
            assert(ws.subrange(from as int, m + 1 as int)
                =~= ws.subrange(from as int, m as int).push(ws[m as int]));
        }
        m = m + 1;
    }
    proof {
        assert(ws.subrange(from as int, n as int) =~= ws.skip(from as int));
    }
    out
}

/// The words laid out `k` to a line, single-spaced, lines separated by one
/// newline. With `k == 0` (never requested) everything stays on one line.
pub open spec fn wrap_words_spec(ws: Seq<Seq<char>>, k: nat) -> Seq<char>
    decreases ws.len(),
{
    if k == 0 || ws.len() <= k {
        join_words(ws, ' ')
    } else {
        join_words(ws.take(k as int), ' ') + seq!['\n'] + wrap_words_spec(ws.skip(k as int), k)
    }
}

/// Re-wraps a piece of text at a fixed number of words per line: the text is
/// split into whitespace-separated words, which are laid out `per_line` to a
/// line. Purely cosmetic — the words themselves are kept verbatim and in
/// order.
pub fn rewrap_words(s: &str, per_line: usize) -> (r: String)
    requires
        per_line >= 1,
    ensures
        r@ == wrap_words_spec(split_words_spec(s@), per_line as nat),
{
    let words = split_words(s);
    let ghost ws = words@.map_values(|w: String| w@);
    let n = words.len();
    let k = per_line;
    let mut out = String::new();
    let mut i: usize = 0;
    proof {
        assert(ws.skip(0) =~= ws);
        assert(Seq::<char>::empty() + wrap_words_spec(ws, k as nat) =~= wrap_words_spec(ws, k as nat));
    }
    while i < n
        invariant
            n == words.len(),
            ws == words@.map_values(|w: String| w@),
            k == per_line,
            k >= 1,
            i <= n,
            out@ + wrap_words_spec(ws.skip(i as int), k as nat) == wrap_words_spec(ws, k as nat),
        decreases n - i,
    {
        let chunk_end: usize = if n - i > k {
            i + k
        } else {
            n
        };
        let ghost base = out@;
        out.append(words[i].as_str());
        let mut m: usize = i + 1;
        proof {
            assert(ws.subrange(i as int, i + 1 as int) =~= seq![ws[i as int]]);
            assert(join_words(seq![ws[i as int]], ' ') == ws[i as int]);
            assert(out@ == base + join_words(ws.subrange(i as int, m as int), ' '));
        }
        while m < chunk_end
            invariant
                n == words.len(),
                ws == words@.map_values(|w: String| w@),
                i < m <= chunk_end <= n,
                out@ == base + join_words(ws.subrange(i as int, m as int), ' '),
            decreases chunk_end - m,
        {
            push_char(&mut out, ' ');
            out.append(words[m].as_str());
            proof {
                lemma_join_push(ws.subrange(i as int, m as int), ' ', ws[m as int]);
                assert(ws.subrange(i as int, m + 1 as int)
                    =~= ws.subrange(i as int, m as int).push(ws[m as int]));
                assert(base + (join_words(ws.subrange(i as int, m as int), ' ') + seq![' '] + ws[m as int])
                    =~= (base + join_words(ws.subrange(i as int, m as int), ' ')) + seq![' '] + ws[m as int]);
            }
            m = m + 1;
        }
        if chunk_end < n {
            push_char(&mut out, '\n');
        }
        proof {
            let rest = ws.skip(i as int);
            if rest.len() > k as nat {
                assert(chunk_end == i + k);
                assert(rest.take(k as int) =~= ws.subrange(i as int, chunk_end as int));
                assert(rest.skip(k as int) =~= ws.skip(chunk_end as int));
                assert(wrap_words_spec(rest, k as nat)
                    == join_words(ws.subrange(i as int, chunk_end as int), ' ') + seq!['\n']
                        + wrap_words_spec(ws.skip(chunk_end as int), k as nat));
                assert(out@ == (base + join_words(ws.subrange(i as int, chunk_end as int), ' ')).push('\n'));
                assert(out@ + wrap_words_spec(ws.skip(chunk_end as int), k as nat)
                    =~= base + wrap_words_spec(rest, k as nat));
            } else {
                assert(chunk_end == n);
                assert(rest.take(rest.len() as int) =~= rest);
                assert(rest =~= ws.subrange(i as int, n as int));
                assert(wrap_words_spec(rest, k as nat) == join_words(rest, ' '));
                assert(ws.skip(n as int) =~= Seq::<Seq<char>>::empty());
                assert(out@ + wrap_words_spec(ws.skip(n as int), k as nat) =~= out@);
                assert(out@ =~= base + wrap_words_spec(rest, k as nat));
            }
        }
        i = chunk_end;
    }
    proof {
        assert(ws.skip(n as int) =~= Seq::<Seq<char>>::empty());
        assert(out@ + wrap_words_spec(ws.skip(i as int), k as nat) =~= out@);
    }
    out
}

} // verus!
