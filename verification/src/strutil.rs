//! Small verified string helpers shared by the text-editing popups, plus
//! the contracts of the few `String` methods the standard library offers
//! and vstd does not describe.

use vstd::prelude::*;

verus! {

/// Relies on `String::push`: appends exactly the given character.
pub assume_specification [ String::push ] (s: &mut String, ch: char)
    ensures
        final(s)@ == old(s)@.push(ch),
;

/// Relies on `String::pop`: removes and returns the last character, or
/// returns `None` on an empty string.
pub assume_specification [ String::pop ] (s: &mut String) -> (c: Option<char>)
    ensures
        old(s)@.len() == 0 ==> final(s)@ == old(s)@ && c is None,
        old(s)@.len() > 0 ==> final(s)@ == old(s)@.drop_last() && c == Some(old(s)@.last()),
;

/// Relies on `String::clear`: leaves the string empty.
pub assume_specification [ String::clear ] (s: &mut String)
    ensures
        final(s)@ == Seq::<char>::empty(),
;

pub open spec fn is_space(c: char) -> bool {
    c == ' ' || c == '\t' || c == '\n' || c == '\r'
}

pub fn is_space_char(c: char) -> (r: bool)
    ensures
        r == is_space(c),
{
    c == ' ' || c == '\t' || c == '\n' || c == '\r'
}

pub open spec fn spec_trim_start(s: Seq<char>) -> Seq<char>
    decreases s.len(),
{
    if s.len() == 0 {
        s
    } else if is_space(s[0]) {
        spec_trim_start(s.drop_first())
    } else {
        s
    }
}

pub open spec fn spec_trim_end(s: Seq<char>) -> Seq<char>
    decreases s.len(),
{
    if s.len() == 0 {
        s
    } else if is_space(s.last()) {
        spec_trim_end(s.drop_last())
    } else {
        s
    }
}

/// The string without leading and trailing whitespace.
pub open spec fn spec_trim(s: Seq<char>) -> Seq<char> {
    spec_trim_end(spec_trim_start(s))
}

proof fn lemma_trim_start_skip(s: Seq<char>, i: int)
    requires
        0 <= i < s.len(),
        is_space(s[i]),
    ensures
        spec_trim_start(s.skip(i)) == spec_trim_start(s.skip(i + 1)),
{
    assert(s.skip(i).len() > 0);
    assert(s.skip(i)[0] == s[i]);
    assert(s.skip(i).drop_first() =~= s.skip(i + 1));
}

proof fn lemma_trim_end_take(s: Seq<char>, j: int)
    requires
        0 <= j - 1 < s.len(),
        is_space(s[j - 1]),
    ensures
        spec_trim_end(s.take(j)) == spec_trim_end(s.take(j - 1)),
{
    assert(s.take(j).len() > 0);
    assert(s.take(j).last() == s[j - 1]);
    assert(s.take(j).drop_last() =~= s.take(j - 1));
}

/// The string without leading and trailing whitespace, as a fresh `String`.
pub fn trim_str(s: &str) -> (t: String)
    ensures
        t@ == spec_trim(s@),
{
    let len = s.unicode_len();
    let ghost view = s@;
    proof {
        assert(view.skip(0) =~= view);
    }
    let mut start: usize = 0;
    while start < len && is_space_char(s.get_char(start))
        invariant
            0 <= start <= len,
            len == view.len(),
            view == s@,
            spec_trim_start(view) == spec_trim_start(view.skip(start as int)),
        decreases len - start,
    {
        proof {
            lemma_trim_start_skip(view, start as int);
        }
        start = start + 1;
    }
    proof {
        if start == len {
            assert(view.skip(start as int) =~= Seq::<char>::empty());
        } else {
            assert(view.skip(start as int)[0] == view[start as int]);
        }
        assert(spec_trim_start(view) == view.skip(start as int));
    }
    let mut end: usize = len;
    proof {
        let tail = view.skip(start as int);
        assert(tail.take(len - start as int) =~= tail);
    }
    while end > start && is_space_char(s.get_char(end - 1))
        invariant
            start <= end <= len,
            len == view.len(),
            view == s@,
            spec_trim_start(view) == view.skip(start as int),
            spec_trim_end(view.skip(start as int)) == spec_trim_end(
                view.skip(start as int).take(end - start as int),
            ),
        decreases end,
    {
        proof {
            let tail = view.skip(start as int);
            assert(tail.take(end - start as int)[end - 1 - start as int] == view[end as int - 1]);
            lemma_trim_end_take(tail, end - start as int);
        }
        end = end - 1;
    }
    proof {
        let tail = view.skip(start as int);
        if end == start {
            assert(tail.take(0) =~= Seq::<char>::empty());
        } else {
            assert(tail.take(end - start as int).last() == view[end as int - 1]);
        }
        assert(spec_trim_end(tail) == tail.take(end - start as int));
        assert(tail.take(end - start as int) =~= view.subrange(start as int, end as int));
    }
    let out = s.substring_char(start, end);
    out.to_owned()
}

/// The index of the last occurrence of `c`, if any.
pub open spec fn spec_rfind(s: Seq<char>, c: char) -> Option<int>
    decreases s.len(),
{
    if s.len() == 0 {
        None
    } else if s.last() == c {
        Some(s.len() - 1)
    } else {
        spec_rfind(s.drop_last(), c)
    }
}

/// The index of the last space in the string, if any.
pub fn rfind_space(s: &str) -> (r: Option<usize>)
    ensures
        match r {
            Some(i) => spec_rfind(s@, ' ') == Some(i as int),
            None => spec_rfind(s@, ' ') is None,
        },
{
    let len = s.unicode_len();
    let ghost view = s@;
    proof {
        assert(view.take(len as int) =~= view);
    }
    let mut i: usize = len;
    while i > 0
        invariant
            0 <= i <= len,
            len == view.len(),
            view == s@,
            spec_rfind(view, ' ') == spec_rfind(view.take(i as int), ' '),
        decreases i,
    {
        if s.get_char(i - 1) == ' ' {
            proof {
                assert(view.take(i as int).last() == view[i - 1]);
            }
            return Some(i - 1);
        }
        proof {
            assert(view.take(i as int).last() == view[i - 1]);
            assert(view.take(i as int).drop_last() =~= view.take(i as int - 1));
        }
        i = i - 1;
    }
    proof {
        assert(view.take(0) =~= Seq::<char>::empty());
    }
    None
}

pub open spec fn spec_digit_char(d: nat) -> char {
    if d == 0 {
        '0'
    } else if d == 1 {
        '1'
    } else if d == 2 {
        '2'
    } else if d == 3 {
        '3'
    } else if d == 4 {
        '4'
    } else if d == 5 {
        '5'
    } else if d == 6 {
        '6'
    } else if d == 7 {
        '7'
    } else if d == 8 {
        '8'
    } else {
        '9'
    }
}

/// The decimal notation of `n`, most significant digit first, without
/// leading zeros (a single `'0'` for zero).
pub open spec fn spec_decimal(n: nat) -> Seq<char>
    decreases n,
{
    if n < 10 {
        seq![spec_digit_char(n)]
    } else {
        spec_decimal(n / 10).push(spec_digit_char(n % 10))
    }
}

fn digit_char(d: u64) -> (c: char)
    requires
        d < 10,
    ensures
        c == spec_digit_char(d as nat),
{
    match d {
        0 => '0',
        1 => '1',
        2 => '2',
        3 => '3',
        4 => '4',
        5 => '5',
        6 => '6',
        7 => '7',
        8 => '8',
        _ => '9',
    }
}

/// `n` written in decimal.
pub fn u64_to_decimal(n: u64) -> (s: String)
    ensures
        s@ == spec_decimal(n as nat),
    decreases n,
{
    let mut s = if n >= 10 {
        u64_to_decimal(n / 10)
    } else {
        String::new()
    };
    s.push(digit_char(n % 10));
    proof {
        if n < 10 {
            assert(s@ =~= seq![spec_digit_char(n as nat)]);
        } else {
            assert(n as nat / 10 == (n / 10) as nat);
            assert(n as nat % 10 == (n % 10) as nat);
        }
    }
    s
}

pub proof fn lemma_trim_start_len(s: Seq<char>)
    ensures
        spec_trim_start(s).len() <= s.len(),
    decreases s.len(),
{
    if s.len() > 0 && is_space(s[0]) {
        lemma_trim_start_len(s.drop_first());
    }
}

pub proof fn lemma_trim_end_len(s: Seq<char>)
    ensures
        spec_trim_end(s).len() <= s.len(),
    decreases s.len(),
{
    if s.len() > 0 && is_space(s.last()) {
        lemma_trim_end_len(s.drop_last());
    }
}

/// Trimming never lengthens a string.
pub proof fn lemma_trim_len(s: Seq<char>)
    ensures
        spec_trim(s).len() <= s.len(),
{
    lemma_trim_start_len(s);
    lemma_trim_end_len(spec_trim_start(s));
}

/// A found index lies inside the string.
pub proof fn lemma_rfind_in_range(s: Seq<char>, c: char)
    ensures
        spec_rfind(s, c) matches Some(i) ==> 0 <= i < s.len(),
    decreases s.len(),
{
    if s.len() > 0 && s.last() != c {
        lemma_rfind_in_range(s.drop_last(), c);
    }
}

} // verus!
