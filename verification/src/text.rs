//! Text operations that the prompts and the scoring are built on: replacing
//! placeholders in prompt templates and counting the words of a response.
use vstd::prelude::*;
use vstd::string::*;

verus! {

/// `s` with every non-overlapping occurrence of `pat`, found from the left,
/// replaced by `rep`. An empty pattern matches before every character and at
/// the end of `s`. This is what `str::replace` documents.
pub open spec fn replace_all(s: Seq<char>, pat: Seq<char>, rep: Seq<char>) -> Seq<char>
    decreases s.len(),
{
    if s.len() == 0 {
        if pat.len() == 0 {
            rep
        } else {
            Seq::empty()
        }
    } else if pat.len() == 0 {
        rep + seq![s[0]] + replace_all(s.drop_first(), pat, rep)
    } else if pat.len() <= s.len() && s.subrange(0, pat.len() as int) == pat {
        rep + replace_all(s.skip(pat.len() as int), pat, rep)
    } else {
        seq![s[0]] + replace_all(s.drop_first(), pat, rep)
    }
}

/// The pairs of a list of (placeholder, value) strings, taken by their views.
pub open spec fn pairs_view(words: Seq<(String, String)>) -> Seq<(Seq<char>, Seq<char>)> {
    words.map_values(|p: (String, String)| (p.0@, p.1@))
}

/// `s` after replacing the placeholder of each pair by its value, one pair
/// after the other, each replacement working on the result of the one before.
pub open spec fn replace_each(s: Seq<char>, words: Seq<(Seq<char>, Seq<char>)>) -> Seq<char>
    decreases words.len(),
{
    if words.len() == 0 {
        s
    } else {
        replace_all(replace_each(s, words.drop_last()), words.last().0, words.last().1)
    }
}

/// What `char::is_whitespace` documents: the characters with the Unicode
/// `White_Space` property.
pub open spec fn is_whitespace(c: char) -> bool {
    let x = c as u32;
    ||| 0x9 <= x <= 0xD
    ||| x == 0x20
    ||| x == 0x85
    ||| x == 0xA0
    ||| x == 0x1680
    ||| 0x2000 <= x <= 0x200A
    ||| x == 0x2028
    ||| x == 0x2029
    ||| x == 0x202F
    ||| x == 0x205F
    ||| x == 0x3000
}

/// The number of words of `s`, a word being a maximal run of characters that
/// are not whitespace: the number of such characters that begin `s` or follow
/// a whitespace character.
pub open spec fn word_count(s: Seq<char>) -> nat
    decreases s.len(),
{
    if s.len() == 0 {
        0
    } else {
        let starts_word = !is_whitespace(s.last()) && (s.len() == 1 || is_whitespace(
            s[s.len() - 2],
        ));
        word_count(s.drop_last()) + if starts_word {
            1nat
        } else {
            0nat
        }
    }
}

/// `s` after replacing the placeholder of the last pair only; `s` itself when
/// there is no pair.
pub open spec fn replace_last(s: Seq<char>, words: Seq<(Seq<char>, Seq<char>)>) -> Seq<char> {
    if words.len() == 0 {
        s
    } else {
        replace_all(s, words.last().0, words.last().1)
    }
}

/// The character of a decimal digit.
pub open spec fn digit_char(d: nat) -> char {
    (48 + d) as char
}

/// The decimal digits of `n`, most significant first, with no leading zero.
pub open spec fn decimal_digits(n: nat) -> Seq<char>
    decreases n,
{
    if n < 10 {
        seq![digit_char(n)]
    } else {
        decimal_digits(n / 10) + seq![digit_char(n % 10)]
    }
}

/// The decimal text of `n`, with a leading `-` when it is negative, as the
/// `Display` of an integer writes it.
pub open spec fn decimal(n: int) -> Seq<char> {
    if n < 0 {
        seq!['-'] + decimal_digits((-n) as nat)
    } else {
        decimal_digits(n as nat)
    }
}

/// The characters of `s`, one per element.
pub fn chars_of(s: &str) -> (v: Vec<char>)
    ensures
        v@ == s@,
{
    let n = s.unicode_len();
    let mut v: Vec<char> = Vec::new();
    let mut i: usize = 0;
    while i < n
        invariant
            n == s@.len(),
            i <= n,
            v@ == s@.take(i as int),
        decreases n - i,
    {
        let c = s.get_char(i);
        v.push(c);
        assert(s@.take(i + 1) =~= s@.take(i as int).push(c));
        i = i + 1;
    }
    assert(s@.take(n as int) =~= s@);
    v
}

/// Whether `pat` occurs in `s` at position `i`.
fn occurs_at(s: &Vec<char>, i: usize, pat: &Vec<char>) -> (b: bool)
    requires
        i + pat@.len() <= s@.len(),
    ensures
        b == (s@.subrange(i as int, i + pat@.len()) == pat@),
{
    let m = pat.len();
    let sl = s.len();
    let mut k: usize = 0;
    while k < m
        invariant
            m == pat@.len(),
            sl == s@.len(),
            i + m <= s@.len(),
            k <= m,
            forall|j: int| 0 <= j < k ==> s@[i + j] == pat@[j],
        decreases m - k,
    {
        if s[i + k] != pat[k] {
            assert(s@.subrange(i as int, i + m)[k as int] != pat@[k as int]);
            return false;
        }
        k = k + 1;
    }
    assert(s@.subrange(i as int, i + m) =~= pat@);
    true
}

/// Facts about `replace_all` on the suffix of `s` that starts at `i`.
proof fn lemma_replace_suffix_step(s: Seq<char>, i: int, pat: Seq<char>, rep: Seq<char>)
    requires
        0 <= i < s.len(),
    ensures
        pat.len() == 0 ==> replace_all(s.skip(i), pat, rep) == rep + seq![s[i]] + replace_all(
            s.skip(i + 1),
            pat,
            rep,
        ),
        pat.len() > 0 && i + pat.len() <= s.len() && s.subrange(i, i + pat.len()) == pat
            ==> replace_all(s.skip(i), pat, rep) == rep + replace_all(
            s.skip(i + pat.len()),
            pat,
            rep,
        ),
        pat.len() > 0 && !(i + pat.len() <= s.len() && s.subrange(i, i + pat.len()) == pat)
            ==> replace_all(s.skip(i), pat, rep) == seq![s[i]] + replace_all(
            s.skip(i + 1),
            pat,
            rep,
        ),
{
    let t = s.skip(i);
    assert(t.drop_first() =~= s.skip(i + 1));
    assert(t[0] == s[i]);
    if pat.len() > 0 && pat.len() <= t.len() {
        assert(t.subrange(0, pat.len() as int) =~= s.subrange(i, i + pat.len()));
        assert(t.skip(pat.len() as int) =~= s.skip(i + pat.len()));
    }
}

/// `s` with every occurrence of `pat` replaced by `rep`, as `str::replace` does.
pub fn replace_str(s: &str, pat: &str, rep: &str) -> (res: String)
    ensures
        res@ == replace_all(s@, pat@, rep@),
{
    let sv = chars_of(s);
    let pv = chars_of(pat);
    let n = sv.len();
    let m = pv.len();
    let mut res = String::new();
    assert(s@.skip(0) =~= s@);
    assert(s@.subrange(0, 0) =~= Seq::<char>::empty());
    assert(res@ + s@.subrange(0, 0) =~= Seq::<char>::empty());
    if m == 0 {
        let mut i: usize = 0;
        while i < n
            invariant
                n == s@.len(),
                sv@ == s@,
                pat@.len() == 0,
                i <= n,
                res@ + replace_all(s@.skip(i as int), pat@, rep@) == replace_all(s@, pat@, rep@),
            decreases n - i,
        {
            proof {
                lemma_replace_suffix_step(s@, i as int, pat@, rep@);
            }
            let one = s.substring_char(i, i + 1);
            assert(one@ =~= seq![s@[i as int]]);
            res.append(rep);
            res.append(one);
            assert(res@ + replace_all(s@.skip(i + 1), pat@, rep@) =~= replace_all(
                s@,
                pat@,
                rep@,
            ));
            i = i + 1;
        }
        assert(s@.skip(n as int) =~= Seq::<char>::empty());
        res.append(rep);
        assert(res@ =~= replace_all(s@, pat@, rep@));
        res
    } else {
        let mut i: usize = 0;
        let mut seg: usize = 0;
        while i < n
            invariant
                n == s@.len(),
                m == pat@.len(),
                m > 0,
                sv@ == s@,
                pv@ == pat@,
                seg <= i <= n,
                res@ + s@.subrange(seg as int, i as int) + replace_all(s@.skip(i as int), pat@, rep@)
                    == replace_all(s@, pat@, rep@),
            decreases n - i,
        {
            proof {
                lemma_replace_suffix_step(s@, i as int, pat@, rep@);
            }
            if m <= n - i && occurs_at(&sv, i, &pv) {
                let before = s.substring_char(seg, i);
                res.append(before);
                res.append(rep);
                assert(res@ + s@.subrange((i + m) as int, (i + m) as int) + replace_all(
                    s@.skip((i + m) as int),
                    pat@,
                    rep@,
                ) =~= replace_all(s@, pat@, rep@));
                i = i + m;
                seg = i;
            } else {
                assert(s@.subrange(seg as int, i + 1) =~= s@.subrange(seg as int, i as int)
                    + seq![s@[i as int]]);
                assert(res@ + s@.subrange(seg as int, i + 1) + replace_all(
                    s@.skip(i + 1),
                    pat@,
                    rep@,
                ) =~= replace_all(s@, pat@, rep@));
                i = i + 1;
            }
        }
        assert(s@.skip(n as int) =~= Seq::<char>::empty());
        let rest = s.substring_char(seg, n);
        res.append(rest);
        assert(res@ =~= replace_all(s@, pat@, rep@));
        res
    }
}

/// `s` after replacing, pair by pair, each placeholder by its value.
pub fn replace_pairs(s: &str, words: &Vec<(String, String)>) -> (res: String)
    ensures
        res@ == replace_each(s@, pairs_view(words@)),
{
    let mut c = String::from_str(s);
    let mut i: usize = 0;
    while i < words.len()
        invariant
            i <= words@.len(),
            c@ == replace_each(s@, pairs_view(words@).take(i as int)),
        decreases words@.len() - i,
    {
        let next = replace_str(c.as_str(), words[i].0.as_str(), words[i].1.as_str());
        proof {
            let pv = pairs_view(words@);
            assert(pv.take(i + 1).drop_last() =~= pv.take(i as int));
            assert(pv.take(i + 1).last() == (words@[i as int].0@, words@[i as int].1@));
        }
        c = next;
        i = i + 1;
    }
    assert(pairs_view(words@).take(words@.len() as int) =~= pairs_view(words@));
    c
}

/// Whether `c` is a whitespace character, as `char::is_whitespace` tells.
pub fn char_is_whitespace(c: char) -> (b: bool)
    ensures
        b == is_whitespace(c),
{
    let x = c as u32;
    (0x9 <= x && x <= 0xD) || x == 0x20 || x == 0x85 || x == 0xA0 || x == 0x1680 || (0x2000 <= x
        && x <= 0x200A) || x == 0x2028 || x == 0x2029 || x == 0x202F || x == 0x205F || x == 0x3000
}

/// The number of whitespace-separated words of `s`, as
/// `s.split_whitespace().count()` gives it.
pub fn count_words(s: &str) -> (count: usize)
    ensures
        count == word_count(s@),
{
    let v = chars_of(s);
    let n = v.len();
    let mut count: usize = 0;
    let mut i: usize = 0;
    while i < n
        invariant
            n == s@.len(),
            v@ == s@,
            i <= n,
            count == word_count(s@.take(i as int)),
            count <= i,
        decreases n - i,
    {
        let ws = char_is_whitespace(v[i]);
        let starts = !ws && (i == 0 || char_is_whitespace(v[i - 1]));
        proof {
            let t = s@.take(i + 1);
            assert(t.drop_last() =~= s@.take(i as int));
            assert(t.last() == s@[i as int]);
            if i > 0 {
                assert(t[t.len() - 2] == s@[i - 1]);
            }
        }
        if starts {
            count = count + 1;
        }
        i = i + 1;
    }
    assert(s@.take(n as int) =~= s@);
    count
}

/// Whether the two strings hold the same characters.
pub fn str_eq(a: &str, b: &str) -> (eq: bool)
    ensures
        eq == (a@ == b@),
{
    let av = chars_of(a);
    let bv = chars_of(b);
    if av.len() != bv.len() {
        return false;
    }
    let n = av.len();
    let mut i: usize = 0;
    while i < n
        invariant
            n == av@.len(),
            n == bv@.len(),
            av@ == a@,
            bv@ == b@,
            i <= n,
            forall|j: int| 0 <= j < i ==> av@[j] == bv@[j],
        decreases n - i,
    {
        if av[i] != bv[i] {
            return false;
        }
        i = i + 1;
    }
    assert(av@ =~= bv@);
    true
}

/// `s` after replacing the placeholder of the last pair only.
pub fn replace_last_pair(s: &str, words: &Vec<(String, String)>) -> (res: String)
    ensures
        res@ == replace_last(s@, pairs_view(words@)),
{
    let mut c = String::from_str(s);
    let mut i: usize = 0;
    while i < words.len()
        invariant
            i <= words@.len(),
            c@ == replace_last(s@, pairs_view(words@).take(i as int)),
        decreases words@.len() - i,
    {
        c = replace_str(s, words[i].0.as_str(), words[i].1.as_str());
        proof {
            let pv = pairs_view(words@);
            assert(pv.take(i + 1).last() == (words@[i as int].0@, words@[i as int].1@));
        }
        i = i + 1;
    }
    assert(pairs_view(words@).take(words@.len() as int) =~= pairs_view(words@));
    c
}

/// The one-character text of a decimal digit.
fn digit_str(d: u64) -> (s: &'static str)
    requires
        d < 10,
    ensures
        s@ == seq![digit_char(d as nat)],
{
    proof {
        reveal_strlit("0");
        reveal_strlit("1");
        reveal_strlit("2");
        reveal_strlit("3");
        reveal_strlit("4");
        reveal_strlit("5");
        reveal_strlit("6");
        reveal_strlit("7");
        reveal_strlit("8");
        reveal_strlit("9");
    }
    let s = if d == 0 {
        "0"
    } else if d == 1 {
        "1"
    } else if d == 2 {
        "2"
    } else if d == 3 {
        "3"
    } else if d == 4 {
        "4"
    } else if d == 5 {
        "5"
    } else if d == 6 {
        "6"
    } else if d == 7 {
        "7"
    } else if d == 8 {
        "8"
    } else {
        "9"
    };
    assert(s@ =~= seq![digit_char(d as nat)]);
    s
}

/// The decimal digits of `m`.
fn digits_of(m: u64) -> (s: String)
    ensures
        s@ == decimal_digits(m as nat),
    decreases m,
{
    if m < 10 {
        let mut s = String::new();
        s.append(digit_str(m));
        assert(s@ =~= decimal_digits(m as nat));
        s
    } else {
        let mut s = digits_of(m / 10);
        s.append(digit_str(m % 10));
        assert(s@ =~= decimal_digits(m as nat));
        s
    }
}

/// The decimal text of `n`, as `n.to_string()` gives it.
pub fn i64_to_text(n: i64) -> (s: String)
    ensures
        s@ == decimal(n as int),
{
    if n < 0 {
        let mag: u64 = if n == i64::MIN {
            9223372036854775808u64
        } else {
            (-n) as u64
        };
        let mut s = String::new();
        proof {
            reveal_strlit("-");
        }
        s.append("-");
        let d = digits_of(mag);
        s.append(d.as_str());
        assert(s@ =~= decimal(n as int));
        s
    } else {
        digits_of(n as u64)
    }
}

} // verus!
