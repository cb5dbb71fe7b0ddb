//! Text helpers the registry logic is built on: decimal numerals,
//! whitespace splitting for script command lines, and path strings.

use vstd::prelude::*;

verus! {

/// The character for a single decimal digit value.
pub open spec fn decimal_digit(d: nat) -> char {
    if d == 0 {
        '0'
    } else if d == 1 {
        '1'
    } else if d == 2 {
        '2'
    } else if d == 3 {
        '3'
    } else if d == 4 {
        '4'
    } else if d == 5 {
        '5'
    } else if d == 6 {
        '6'
    } else if d == 7 {
        '7'
    } else if d == 8 {
        '8'
    } else {
        '9'
    }
}

/// The decimal numeral of `n`, most significant digit first, with no
/// leading zeros (`0` itself is the single digit `'0'`).
pub open spec fn decimal_seq(n: nat) -> Seq<char>
    decreases n,
{
    if n < 10 {
        seq![decimal_digit(n)]
    } else {
        decimal_seq(n / 10).push(decimal_digit(n % 10))
    }
}

/// The decimal numeral of an integer, with a leading minus sign when negative.
pub open spec fn int_decimal(n: int) -> Seq<char> {
    if n < 0 {
        seq!['-'] + decimal_seq((-n) as nat)
    } else {
        decimal_seq(n as nat)
    }
}

/// A one-character string for a digit value.
fn digit_str(d: u64) -> (r: &'static str)
    requires
        d < 10,
    ensures
        r@ == seq![decimal_digit(d as nat)],
{
    proof {
        reveal_strlit("0");
        reveal_strlit("1");
        reveal_strlit("2");
        reveal_strlit("3");
        reveal_strlit("4");
        reveal_strlit("5");
        reveal_strlit("6");
        reveal_strlit("7");
        reveal_strlit("8");
        reveal_strlit("9");
    }
    let r = if d == 0 {
        "0"
    } else if d == 1 {
        "1"
    } else if d == 2 {
        "2"
    } else if d == 3 {
        "3"
    } else if d == 4 {
        "4"
    } else if d == 5 {
        "5"
    } else if d == 6 {
        "6"
    } else if d == 7 {
        "7"
    } else if d == 8 {
        "8"
    } else {
        "9"
    };
    proof {
        assert(r@ =~= seq![decimal_digit(d as nat)]);
    }
    r
}

/// Renders `n` as its decimal numeral.
pub fn u64_to_string(n: u64) -> (r: String)
    ensures
        r@ == decimal_seq(n as nat),
    decreases n,
{
    let d = n % 10;
    let s = digit_str(d);
    if n < 10 {
        let r = s.to_owned();
        proof {
            assert(r@ =~= decimal_seq(n as nat));
        }
        r
    } else {
        assert(n / 10 < n) by (nonlinear_arith)
            requires
                n >= 10,
        ;
        let prefix = u64_to_string(n / 10);
        let r = prefix.concat(s);
        proof {
            assert(r@ =~= decimal_seq(n as nat));
        }
        r
    }
}

/// Renders `n` as its decimal numeral, signed.
pub fn i32_to_string(n: i32) -> (r: String)
    ensures
        r@ == int_decimal(n as int),
{
    if n >= 0 {
        u64_to_string(n as u64)
    } else {
        let m: u64 = (-(n as i64)) as u64;
        let digits = u64_to_string(m);
        let r = String::from_str("-").concat(digits.as_str());
        proof {
            reveal_strlit("-");
            assert(r@ =~= int_decimal(n as int));
        }
        r
    }
}

/// The words of `s` split on the space character: splitting the empty
/// sequence yields one empty word, every space ends the word before it,
/// and adjacent spaces produce empty words.
pub open spec fn split_on_space(s: Seq<char>) -> Seq<Seq<char>>
    decreases s.len(),
{
    if s.len() == 0 {
        seq![Seq::<char>::empty()]
    } else {
        let rest = split_on_space(s.drop_last());
        if s.last() == ' ' {
            rest.push(Seq::<char>::empty())
        } else {
            rest.update(rest.len() - 1, rest.last().push(s.last()))
        }
    }
}

/// Splitting always yields at least one word.
pub proof fn lemma_split_nonempty(s: Seq<char>)
    ensures
        split_on_space(s).len() >= 1,
    decreases s.len(),
{
    if s.len() > 0 {
        lemma_split_nonempty(s.drop_last());
    }
}

/// Splits `s` on single spaces, as `split_on_space` describes.
pub fn split_words(s: &str) -> (r: Vec<String>)
    ensures
        r.deep_view() == split_on_space(s@),
{
    let len = s.unicode_len();
    let mut words: Vec<String> = Vec::new();
    let mut start: usize = 0;
    let mut i: usize = 0;
    proof {
        assert(s@.take(0) =~= Seq::<char>::empty());
        assert(s@.subrange(0, 0) =~= Seq::<char>::empty());
        assert(words.deep_view() =~= Seq::<Seq<char>>::empty());
        assert(words.deep_view().push(s@.subrange(0, 0)) =~= split_on_space(s@.take(0)));
    }
    while i < len
        invariant
            start <= i <= len,
            len == s@.len(),
            words.deep_view().push(s@.subrange(start as int, i as int)) == split_on_space(
                s@.take(i as int),
            ),
        decreases len - i,
    {
        let ghost prev_words = words.deep_view();
        let ghost prev_cur = s@.subrange(start as int, i as int);
        let c = s.get_char(i);
        proof {
            assert(s@.take(i + 1 as int).drop_last() =~= s@.take(i as int));
            assert(s@.take(i + 1 as int).last() == s@[i as int]);
            lemma_split_nonempty(s@.take(i as int));
        }
        if c == ' ' {
            let w = s.substring_char(start, i).to_owned();
            words.push(w);
            start = i + 1;
            proof {
                assert(words.deep_view() =~= prev_words.push(prev_cur));
                assert(s@.subrange(start as int, i + 1 as int) =~= Seq::<char>::empty());
                assert(split_on_space(s@.take(i + 1 as int)) == split_on_space(
                    s@.take(i as int),
                ).push(Seq::<char>::empty()));
                assert(words.deep_view().push(s@.subrange(start as int, i + 1 as int))
                    =~= split_on_space(s@.take(i + 1 as int)));
            }
        } else {
            proof {
                let whole = split_on_space(s@.take(i + 1 as int));
                assert(whole == split_on_space(s@.take(i as int)).update(
                    split_on_space(s@.take(i as int)).len() - 1,
                    split_on_space(s@.take(i as int)).last().push(s@[i as int]),
                ));
                assert(s@.subrange(start as int, i + 1 as int) =~= prev_cur.push(s@[i as int]));
                assert(words.deep_view().push(s@.subrange(start as int, i + 1 as int)) =~= whole);
            }
        }
        i += 1;
    }
    let w = s.substring_char(start, len).to_owned();
    let ghost prev_words = words.deep_view();
    words.push(w);
    proof {
        assert(s@.take(len as int) =~= s@);
        assert(words.deep_view() =~= prev_words.push(s@.subrange(start as int, len as int)));
        assert(words.deep_view() =~= split_on_space(s@));
    }
    words
}

/// Joins a directory and an entry name with a single separator.
pub fn path_join(dir: &str, name: &str) -> (r: String)
    ensures
        r@ == dir@ + seq!['/'] + name@,
{
    let mut s = dir.to_owned();
    s.append("/");
    s.append(name);
    proof {
        reveal_strlit("/");
        assert("/"@ =~= seq!['/']);
        assert(s@ =~= dir@ + seq!['/'] + name@);
    }
    s
}

/// The part of a path after its last separator: the whole path when it
/// holds no separator, and empty when it ends in one.
pub open spec fn base_name(s: Seq<char>) -> Seq<char>
    decreases s.len(),
{
    if s.len() == 0 {
        s
    } else if s.last() == '/' {
        Seq::empty()
    } else {
        base_name(s.drop_last()).push(s.last())
    }
}

/// When no separator stands at or after position `p`, and `p` is either
/// the start or just past a separator, the base name is the suffix from `p`.
pub proof fn lemma_base_name_suffix(s: Seq<char>, p: int)
    requires
        0 <= p <= s.len(),
        p > 0 ==> s[p - 1] == '/',
        forall|j: int| p <= j < s.len() ==> s[j] != '/',
    ensures
        base_name(s) == s.subrange(p, s.len() as int),
    decreases s.len(),
{
    if s.len() == p {
        if p == 0 {
            assert(base_name(s) =~= s.subrange(p, s.len() as int));
        } else {
            assert(s.last() == '/');
            assert(base_name(s) =~= s.subrange(p, s.len() as int));
        }
    } else {
        assert(s.last() != '/');
        lemma_base_name_suffix(s.drop_last(), p);
        assert(base_name(s) =~= s.subrange(p, s.len() as int));
    }
}

/// Joining a separator-free name onto a directory leaves that name as the
/// base name of the result.
pub proof fn lemma_base_name_join(dir: Seq<char>, name: Seq<char>)
    requires
        forall|j: int| 0 <= j < name.len() ==> name[j] != '/',
    ensures
        base_name(dir + seq!['/'] + name) == name,
{
    let s = dir + seq!['/'] + name;
    lemma_base_name_suffix(s, dir.len() as int + 1);
    assert(s.subrange(dir.len() as int + 1, s.len() as int) =~= name);
}

/// Extracts the base name of a path string.
pub fn file_name_of_path(path: &str) -> (r: String)
    ensures
        r@ == base_name(path@),
{
    let len = path.unicode_len();
    let mut start: usize = 0;
    let mut k: usize = 0;
    while k < len
        invariant
            start <= k <= len,
            len == path@.len(),
            start > 0 ==> path@[start - 1 as int] == '/',
            forall|j: int| start <= j < k ==> path@[j] != '/',
        decreases len - k,
    {
        if path.get_char(k) == '/' {
            start = k + 1;
        }
        k += 1;
    }
    let sub = path.substring_char(start, len);
    proof {
        lemma_base_name_suffix(path@, start as int);
    }
    sub.to_owned()
}

} // verus!
