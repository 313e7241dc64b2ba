//! Small operations on text, stated over sequences of characters.

use vstd::prelude::*;

verus! {

/// `prefix` opens `s`.
pub open spec fn has_prefix(s: Seq<char>, prefix: Seq<char>) -> bool {
    prefix.len() <= s.len() && s.subrange(0, prefix.len() as int) == prefix
}

/// The characters of a string slice, in order.
pub fn chars_of(s: &str) -> (chars: Vec<char>)
    ensures
        chars@ == s@,
{
    let n = s.unicode_len();
    let mut chars: Vec<char> = Vec::new();
    let mut i: usize = 0;
    while i < n
        invariant
            n == s@.len(),
            i <= n,
            chars@ == s@.subrange(0, i as int),
        decreases n - i,
    {
        chars.push(s.get_char(i));
        i = i + 1;
        assert(chars@ =~= s@.subrange(0, i as int));
    }
    assert(s@.subrange(0, n as int) =~= s@);
    chars
}

/// Whether two string slices hold the same characters.
pub fn same_text(a: &str, b: &str) -> (same: bool)
    ensures
        same == (a@ == b@),
{
    a.to_owned() == b.to_owned()
}

/// Whether the characters of `s` from `start` on begin with `prefix`.
pub fn starts_at(s: &Vec<char>, start: usize, prefix: &Vec<char>) -> (found: bool)
    requires
        start <= s.len(),
    ensures
        found == has_prefix(s@.subrange(start as int, s.len() as int), prefix@),
{
    let rest: usize = s.len() - start;
    if prefix.len() > rest {
        return false;
    }
    let ghost tail = s@.subrange(start as int, s.len() as int);
    let mut i: usize = 0;
    while i < prefix.len()
        invariant
            start <= s.len(),
            prefix.len() <= s.len() - start,
            i <= prefix.len(),
            tail == s@.subrange(start as int, s.len() as int),
            forall|k: int| 0 <= k < i ==> tail[k] == prefix@[k],
        decreases prefix.len() - i,
    {
        if s[start + i] != prefix[i] {
            assert(tail.subrange(0, prefix.len() as int)[i as int] != prefix@[i as int]);
            return false;
        }
        i = i + 1;
    }
    assert(tail.subrange(0, prefix.len() as int) =~= prefix@);
    true
}

/// `s` without the `prefix` that opens it, or `None` where it does not
/// open with it.
pub open spec fn without_prefix(s: Seq<char>, prefix: Seq<char>) -> Option<Seq<char>> {
    if has_prefix(s, prefix) {
        Some(s.subrange(prefix.len() as int, s.len() as int))
    } else {
        None
    }
}

/// Takes `prefix` off the front of `s`.
pub fn strip_prefix<'a>(s: &'a str, prefix: &str) -> (rest: Option<&'a str>)
    ensures
        match rest {
            Some(r) => without_prefix(s@, prefix@) == Some(r@),
            None => without_prefix(s@, prefix@).is_none(),
        },
{
    let chars = chars_of(s);
    let wanted = chars_of(prefix);
    assert(s@.subrange(0, s@.len() as int) =~= s@);
    if starts_at(&chars, 0, &wanted) {
        Some(s.substring_char(wanted.len(), chars.len()))
    } else {
        None
    }
}

/// Where the segment that begins at `from` ends: at the first `sep` from
/// there on, or at the end of `s`.
pub open spec fn segment_end(s: Seq<char>, sep: char, from: int) -> int
    decreases s.len() - from,
{
    if from >= s.len() || s[from] == sep {
        from
    } else {
        segment_end(s, sep, from + 1)
    }
}

/// The first of the segments of `s` from `from` on, as `sep` parts them,
/// that opens with `name`, without that name.
pub open spec fn find_segment(s: Seq<char>, sep: char, name: Seq<char>, from: int) -> Option<
    Seq<char>,
>
    decreases s.len() - from,
{
    if from < 0 || from > s.len() {
        None
    } else {
        let end = segment_end(s, sep, from);
        match without_prefix(s.subrange(from, end), name) {
            Some(rest) => Some(rest),
            None => if from <= end < s.len() {
                find_segment(s, sep, name, end + 1)
            } else {
                None
            },
        }
    }
}

/// A segment ends within `s`, not before its start, and holds no
/// separator.
pub proof fn lemma_segment_end(s: Seq<char>, sep: char, from: int)
    requires
        0 <= from <= s.len(),
    ensures
        from <= segment_end(s, sep, from) <= s.len(),
        segment_end(s, sep, from) < s.len() ==> s[segment_end(s, sep, from)] == sep,
        forall|k: int| from <= k < segment_end(s, sep, from) ==> s[k] != sep,
    decreases s.len() - from,
{
    if from < s.len() && s[from] != sep {
        lemma_segment_end(s, sep, from + 1);
    }
}

/// Finds the first of the segments of `s`, parted by `sep`, that opens
/// with `name`, and hands back what follows the name in it.
pub fn find_named_segment<'a>(s: &'a str, sep: char, name: &str) -> (found: Option<&'a str>)
    ensures
        match found {
            Some(r) => find_segment(s@, sep, name@, 0) == Some(r@),
            None => find_segment(s@, sep, name@, 0).is_none(),
        },
{
    let chars = chars_of(s);
    let wanted = chars_of(name);
    let n = chars.len();
    let mut from: usize = 0;
    loop
        invariant
            chars@ == s@,
            wanted@ == name@,
            n == chars.len(),
            from <= n,
            find_segment(s@, sep, name@, 0) == find_segment(s@, sep, name@, from as int),
        decreases n - from,
    {
        let mut end: usize = from;
        while end < n && chars[end] != sep
            invariant
                chars@ == s@,
                n == chars.len(),
                from <= end <= n,
                segment_end(s@, sep, from as int) == segment_end(s@, sep, end as int),
            decreases n - end,
        {
            end = end + 1;
        }
        proof {
            lemma_segment_end(s@, sep, from as int);
        }
        let ghost segment = s@.subrange(from as int, end as int);
        let fits = wanted.len() <= end - from;
        let mut opens = fits;
        if fits {
            let mut i: usize = 0;
            while i < wanted.len() && opens
                invariant
                    chars@ == s@,
                    from <= end <= n,
                    n == chars.len(),
                    wanted.len() <= end - from,
                    i <= wanted.len(),
                    segment == s@.subrange(from as int, end as int),
                    opens ==> forall|k: int| 0 <= k < i ==> segment[k] == wanted@[k],
                    !opens ==> exists|k: int| 0 <= k < wanted.len() && segment[k] != wanted@[k],
                decreases wanted.len() - i + if opens { 1int } else { 0int },
            {
                if chars[from + i] != wanted[i] {
                    assert(segment[i as int] != wanted@[i as int]);
                    opens = false;
                } else {
                    i = i + 1;
                }
            }
        }
        if opens {
            assert(segment.subrange(0, wanted.len() as int) =~= wanted@);
            let start: usize = from + wanted.len();
            assert(s@.subrange(start as int, end as int) =~= segment.subrange(
                wanted.len() as int,
                segment.len() as int,
            ));
            return Some(s.substring_char(start, end));
        }
        proof {
            if fits {
                let k = choose|k: int| 0 <= k < wanted.len() && segment[k] != wanted@[k];
                assert(segment.subrange(0, wanted.len() as int)[k] == segment[k]);
            }
            assert(without_prefix(segment, name@).is_none());
        }
        if end >= n {
            return None;
        }
        from = end + 1;
    }
}

} // verus!
