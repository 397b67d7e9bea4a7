use vstd::prelude::*;

verus! {

/// `prefix` is an initial run of `s`.
pub open spec fn is_prefix_of(prefix: Seq<char>, s: Seq<char>) -> bool {
    prefix.len() <= s.len() && s.subrange(0, prefix.len() as int) == prefix
}

/// `suffix` is a final run of `s`.
pub open spec fn is_suffix_of(suffix: Seq<char>, s: Seq<char>) -> bool {
    suffix.len() <= s.len() && s.subrange(s.len() - suffix.len(), s.len() as int) == suffix
}

/// `s` with every leading path separator removed.
pub open spec fn strip_leading_slashes(s: Seq<char>) -> Seq<char>
    decreases s.len(),
{
    if s.len() > 0 && s[0] == '/' {
        strip_leading_slashes(s.skip(1))
    } else {
        s
    }
}

/// `s` with every trailing path separator removed.
pub open spec fn strip_trailing_slashes(s: Seq<char>) -> Seq<char>
    decreases s.len(),
{
    if s.len() > 0 && s[s.len() - 1] == '/' {
        strip_trailing_slashes(s.take(s.len() - 1))
    } else {
        s
    }
}

/// The largest index at most `i` holding a path separator, or -1 if none.
pub open spec fn last_slash_at(s: Seq<char>, i: int) -> int
    decreases i + 1,
{
    if i < 0 {
        -1
    } else if s[i] == '/' {
        i
    } else {
        last_slash_at(s, i - 1)
    }
}

/// The last path segment of `s`: trailing separators are ignored, and what
/// follows the last remaining separator is the segment. A value with no
/// segment at all (empty, or separators only) stands for itself.
pub open spec fn last_segment_of(s: Seq<char>) -> Seq<char> {
    let t = strip_trailing_slashes(s);
    if t.len() == 0 {
        s
    } else {
        t.skip(last_slash_at(t, t.len() - 1) + 1)
    }
}

/// The lines of `s`, split on newline characters; a final newline closes the
/// last line rather than opening an empty one.
pub open spec fn lines_of(s: Seq<char>) -> Seq<Seq<char>>
    decreases s.len(),
{
    if s.len() == 0 {
        Seq::empty()
    } else if s[0] == '\n' {
        seq![Seq::<char>::empty()] + lines_of(s.skip(1))
    } else {
        let rest = lines_of(s.skip(1));
        if rest.len() == 0 {
            seq![seq![s[0]]]
        } else {
            seq![seq![s[0]] + rest[0]] + rest.skip(1)
        }
    }
}

/// Whether `prefix` is an initial run of the characters of `s`.
pub fn str_is_prefix(prefix: &str, s: &str) -> (b: bool)
    ensures
        b == is_prefix_of(prefix@, s@),
{
    let plen = prefix.unicode_len();
    let slen = s.unicode_len();
    if plen > slen {
        return false;
    }
    let mut i: usize = 0;
    while i < plen
        invariant
            i <= plen,
            plen == prefix@.len(),
            slen == s@.len(),
            plen <= slen,
            forall|j: int| 0 <= j < i ==> prefix@[j] == s@[j],
        decreases plen - i,
    {
        if prefix.get_char(i) != s.get_char(i) {
            proof {
                assert(s@.subrange(0, plen as int)[i as int] == s@[i as int]);
            }
            return false;
        }
        i += 1;
    }
    proof {
        assert(s@.subrange(0, plen as int) =~= prefix@);
    }
    true
}

/// Removes every leading path separator of `s`.
pub fn trim_separators(s: &str) -> (r: String)
    ensures
        r@ == strip_leading_slashes(s@),
{
    let len = s.unicode_len();
    proof {
        assert(s@.skip(0) =~= s@);
    }
    let mut i: usize = 0;
    while i < len && s.get_char(i) == '/'
        invariant
            i <= len,
            len == s@.len(),
            strip_leading_slashes(s@) == strip_leading_slashes(s@.skip(i as int)),
        decreases len - i,
    {
        proof {
            assert(s@.skip(i as int)[0] == s@[i as int]);
            assert(s@.skip(i as int).skip(1) =~= s@.skip(i as int + 1));
        }
        i += 1;
    }
    proof {
        if i < len {
            assert(s@.skip(i as int)[0] == s@[i as int]);
        } else {
            assert(s@.skip(i as int) =~= Seq::<char>::empty());
        }
        assert(s@.subrange(i as int, len as int) =~= s@.skip(i as int));
    }
    s.substring_char(i, len).to_owned()
}

/// The last path segment of `s`, as `last_segment_of` describes it.
pub fn last_segment(s: &str) -> (r: String)
    ensures
        r@ == last_segment_of(s@),
{
    let len = s.unicode_len();
    proof {
        assert(s@.take(len as int) =~= s@);
    }
    let mut end: usize = len;
    while end > 0 && s.get_char(end - 1) == '/'
        invariant
            end <= len,
            len == s@.len(),
            strip_trailing_slashes(s@) == strip_trailing_slashes(s@.take(end as int)),
        decreases end,
    {
        proof {
            assert(s@.take(end as int)[end - 1] == s@[end - 1]);
            assert(s@.take(end as int).take(end as int - 1) =~= s@.take(end as int - 1));
        }
        end -= 1;
    }
    proof {
        if end == 0 {
            assert(s@.take(0) =~= Seq::<char>::empty());
        } else {
            assert(s@.take(end as int)[end - 1] == s@[end - 1]);
        }
    }
    if end == 0 {
        return s.to_owned();
    }
    let ghost t = s@.take(end as int);
    let mut start: usize = end;
    while start > 0 && s.get_char(start - 1) != '/'
        invariant
            start <= end,
            0 < end <= len,
            len == s@.len(),
            t == s@.take(end as int),
            last_slash_at(t, end - 1) == last_slash_at(t, start - 1),
        decreases start,
    {
        proof {
            assert(t[start - 1] == s@[start - 1]);
        }
        start -= 1;
    }
    proof {
        if start > 0 {
            assert(t[start - 1] == s@[start - 1]);
        }
        assert(last_slash_at(t, end - 1) == start - 1);
        assert(t.skip(start as int) =~= s@.subrange(start as int, end as int));
    }
    s.substring_char(start, end).to_owned()
}

/// Splits `s` into its lines, as `lines_of` describes them.
pub fn split_lines(s: &str) -> (r: Vec<String>)
    ensures
        r.deep_view() == lines_of(s@),
{
    let len = s.unicode_len();
    let mut r: Vec<String> = Vec::new();
    proof {
        assert(s@.skip(0) =~= s@);
        assert(s@.subrange(0, 0) =~= Seq::<char>::empty());
        assert(r.deep_view() =~= Seq::<Seq<char>>::empty());
        assert(r.deep_view() + lines_of(s@) =~= lines_of(s@));
    }
    let mut line_start: usize = 0;
    let mut i: usize = 0;
    while i < len
        invariant
            line_start <= i <= len,
            len == s@.len(),
            forall|j: int| line_start <= j < i ==> s@[j] != '\n',
            lines_of(s@) == r.deep_view() + lines_with_partial(
                s@.subrange(line_start as int, i as int),
                s@.skip(i as int),
            ),
        decreases len - i,
    {
        let ghost cur = s@.subrange(line_start as int, i as int);
        let ghost rem = s@.skip(i as int);
        if s.get_char(i) == '\n' {
            let line = s.substring_char(line_start, i).to_owned();
            let ghost old_r = r;
            r.push(line);
            proof {
                assert(rem[0] == s@[i as int]);
                assert(rem.skip(1) =~= s@.skip(i as int + 1));
                lemma_lines_with_partial_newline(cur, rem);
                assert(r.deep_view() =~= old_r.deep_view().push(cur));
                assert(old_r.deep_view().push(cur) =~= old_r.deep_view() + seq![cur]);
                assert(s@.subrange(i as int + 1, i as int + 1) =~= Seq::<char>::empty());
            }
            i += 1;
            line_start = i;
        } else {
            proof {
                assert(rem[0] == s@[i as int]);
                assert(rem.skip(1) =~= s@.skip(i as int + 1));
                lemma_lines_with_partial_extend(cur, rem);
                assert(cur.push(rem[0]) =~= s@.subrange(line_start as int, i as int + 1));
            }
            i += 1;
        }
    }
    proof {
        assert(s@.skip(len as int) =~= Seq::<char>::empty());
    }
    if line_start < len {
        let line = s.substring_char(line_start, len).to_owned();
        let ghost old_r = r;
        r.push(line);
        proof {
            assert(r.deep_view() =~= old_r.deep_view().push(s@.subrange(
                line_start as int,
                len as int,
            )));
            assert(old_r.deep_view().push(s@.subrange(line_start as int, len as int))
                =~= old_r.deep_view() + seq![s@.subrange(line_start as int, len as int)]);
        }
    } else {
        proof {
            assert(s@.subrange(line_start as int, len as int) =~= Seq::<char>::empty());
            assert(r.deep_view() + Seq::<Seq<char>>::empty() =~= r.deep_view());
        }
    }
    r
}

/// The lines of `cur + rem`, assuming `cur` holds no newline: the tail of a
/// scan that has consumed everything before `cur`.
pub open spec fn lines_with_partial(cur: Seq<char>, rem: Seq<char>) -> Seq<Seq<char>> {
    if cur.len() == 0 {
        lines_of(rem)
    } else if lines_of(rem).len() == 0 {
        seq![cur]
    } else {
        seq![cur + lines_of(rem)[0]] + lines_of(rem).skip(1)
    }
}

/// Consuming a newline at the head of `rem` closes the partial line `cur`.
proof fn lemma_lines_with_partial_newline(cur: Seq<char>, rem: Seq<char>)
    requires
        rem.len() > 0,
        rem[0] == '\n',
    ensures
        lines_with_partial(cur, rem) == seq![cur] + lines_with_partial(
            Seq::<char>::empty(),
            rem.skip(1),
        ),
{
    assert(lines_of(rem) == seq![Seq::<char>::empty()] + lines_of(rem.skip(1)));
    if cur.len() == 0 {
        assert(cur =~= Seq::<char>::empty());
        assert(lines_with_partial(cur, rem) =~~= seq![cur] + lines_of(rem.skip(1)));
    } else {
        assert(lines_of(rem)[0] == Seq::<char>::empty());
        assert(cur + Seq::<char>::empty() =~= cur);
        assert(lines_of(rem).skip(1) =~= lines_of(rem.skip(1)));
        assert(lines_with_partial(cur, rem) =~= seq![cur] + lines_of(rem.skip(1)));
    }
}

/// Consuming an ordinary character at the head of `rem` extends the partial
/// line `cur`.
proof fn lemma_lines_with_partial_extend(cur: Seq<char>, rem: Seq<char>)
    requires
        rem.len() > 0,
        rem[0] != '\n',
    ensures
        lines_with_partial(cur, rem) == lines_with_partial(cur.push(rem[0]), rem.skip(1)),
{
    let c = rem[0];
    let rest = lines_of(rem.skip(1));
    if rest.len() == 0 {
        assert(lines_of(rem) =~~= seq![seq![c]]);
        if cur.len() == 0 {
            assert(lines_with_partial(cur, rem) =~~= seq![cur.push(c)]);
        } else {
            assert(cur + seq![c] =~= cur.push(c));
            assert(lines_with_partial(cur, rem) =~~= seq![cur.push(c)]);
        }
        assert(lines_with_partial(cur.push(c), rem.skip(1)) =~~= seq![cur.push(c)]);
    } else {
        assert(lines_of(rem) == seq![seq![c] + rest[0]] + rest.skip(1));
        assert(lines_of(rem).len() > 0);
        if cur.len() == 0 {
            assert(cur.push(c) + rest[0] =~= seq![c] + rest[0]);
            assert(lines_with_partial(cur.push(c), rem.skip(1)) =~~= lines_of(rem));
            assert(lines_with_partial(cur, rem) =~~= lines_of(rem));
        } else {
            assert(lines_of(rem)[0] == seq![c] + rest[0]);
            assert(cur + (seq![c] + rest[0]) =~= (cur.push(c)) + rest[0]);
            assert(lines_of(rem).skip(1) =~= rest.skip(1));
            assert(lines_with_partial(cur, rem) =~~= seq![cur.push(c) + rest[0]]
                + rest.skip(1));
            assert(lines_with_partial(cur.push(c), rem.skip(1)) =~~= seq![cur.push(c) + rest[0]]
                + rest.skip(1));
        }
    }
}

/// Law: what the separator stripping returns is a final run of its input.
pub proof fn lemma_strip_leading_is_suffix(s: Seq<char>)
    ensures
        is_suffix_of(strip_leading_slashes(s), s),
        strip_leading_slashes(s).len() <= s.len(),
    decreases s.len(),
{
    if s.len() > 0 && s[0] == '/' {
        lemma_strip_leading_is_suffix(s.skip(1));
        let r = strip_leading_slashes(s);
        assert(strip_leading_slashes(s.skip(1)) == r);
        assert(s.skip(1).subrange(s.skip(1).len() - r.len(), s.skip(1).len() as int)
            =~= s.subrange(s.len() - r.len(), s.len() as int));
    } else {
        assert(s.subrange(s.len() - s.len(), s.len() as int) =~= s);
    }
}

} // verus!
