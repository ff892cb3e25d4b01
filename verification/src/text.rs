//! Character-level text handling: Unicode white space, trimming, and
//! comma-separated lists as typed on the command line.
use vstd::prelude::*;

verus! {

/// The Unicode `White_Space` property, the notion of white space that
/// `str::trim` and `char::is_whitespace` use.
pub open spec fn is_white_space(c: char) -> bool {
    let u: u32 = c as u32;
    ||| 9 <= u <= 13
    ||| u == 32
    ||| u == 0x85
    ||| u == 0xA0
    ||| u == 0x1680
    ||| 0x2000 <= u <= 0x200A
    ||| u == 0x2028
    ||| u == 0x2029
    ||| u == 0x202F
    ||| u == 0x205F
    ||| u == 0x3000
}

/// `s` without its leading white space.
pub open spec fn trim_start(s: Seq<char>) -> Seq<char>
    decreases s.len(),
{
    if s.len() > 0 && is_white_space(s[0]) {
        trim_start(s.drop_first())
    } else {
        s
    }
}

/// `s` without its trailing white space.
pub open spec fn trim_end(s: Seq<char>) -> Seq<char>
    decreases s.len(),
{
    if s.len() > 0 && is_white_space(s.last()) {
        trim_end(s.drop_last())
    } else {
        s
    }
}

/// `s` without leading and trailing white space (what `str::trim` gives).
pub open spec fn trim(s: Seq<char>) -> Seq<char> {
    trim_end(trim_start(s))
}

/// The pieces of `s` between commas, empty pieces included: a text with
/// `k` commas has `k + 1` pieces (what `str::split(',')` yields).
pub open spec fn split_at_commas(s: Seq<char>) -> Seq<Seq<char>>
    decreases s.len(),
{
    if s.len() == 0 {
        seq![Seq::<char>::empty()]
    } else {
        let pieces = split_at_commas(s.drop_last());
        if s.last() == ',' {
            pieces.push(Seq::<char>::empty())
        } else {
            pieces.update(pieces.len() - 1, pieces.last().push(s.last()))
        }
    }
}

/// The entries of a comma-separated list: each piece trimmed, empty
/// pieces dropped.
pub open spec fn comma_items(s: Seq<char>) -> Seq<Seq<char>> {
    split_at_commas(s).map_values(|p: Seq<char>| trim(p)).filter(|p: Seq<char>| p.len() > 0)
}

/// The character sequences of a list of strings.
pub open spec fn string_views(v: Seq<String>) -> Seq<Seq<char>> {
    v.map_values(|s: String| s@)
}

/// Appends one character to a string.
///
/// Trusted: calls `String::push`, which the standard library documents as
/// appending the character to the end of the string.
#[verifier::external_body]
pub(crate) fn push_char(s: &mut String, c: char)
    ensures
        final(s)@ == old(s)@.push(c),
{
    s.push(c);
}

/// The characters of `s`, in order.
pub fn chars_of(s: &str) -> (v: Vec<char>)
    ensures
        v@ == s@,
{
    broadcast use vstd::string::group_string_axioms;

    let mut v: Vec<char> = Vec::new();
    for c in it: s.chars()
        invariant
            v@ == it.seq().take(it.index() as int),
            it.seq() == s@,
    {
        v.push(c);
    }
    v
}

/// Tells whether `c` is white space.
pub fn white_space(c: char) -> (b: bool)
    ensures
        b == is_white_space(c),
{
    let u: u32 = c as u32;
    (9 <= u && u <= 13) || u == 32 || u == 0x85 || u == 0xA0 || u == 0x1680 || (0x2000 <= u && u
        <= 0x200A) || u == 0x2028 || u == 0x2029 || u == 0x202F || u == 0x205F || u == 0x3000
}

/// The string made of `v[from..to]`.
pub fn string_of_range(v: &Vec<char>, from: usize, to: usize) -> (r: String)
    requires
        from <= to <= v.len(),
    ensures
        r@ == v@.subrange(from as int, to as int),
{
    let mut r = String::new();
    let mut i: usize = from;
    while i < to
        invariant
            from <= i <= to <= v.len(),
            r@ == v@.subrange(from as int, i as int),
        decreases to - i,
    {
        push_char(&mut r, v[i]);
        assert(v@.subrange(from as int, i + 1) == v@.subrange(from as int, i as int).push(v@[i as int]));
        i = i + 1;
    }
    r
}

/// Bounds `[a, b)` of the trimmed part of `v[from..to]`.
fn trimmed_bounds(v: &Vec<char>, from: usize, to: usize) -> (r: (usize, usize))
    requires
        from <= to <= v.len(),
    ensures
        from <= r.0 <= r.1 <= to,
        v@.subrange(r.0 as int, r.1 as int) == trim(v@.subrange(from as int, to as int)),
{
    let ghost s = v@.subrange(from as int, to as int);
    let mut a: usize = from;
    while a < to && white_space(v[a])
        invariant
            from <= a <= to <= v.len(),
            trim_start(s) == trim_start(v@.subrange(a as int, to as int)),
        decreases to - a,
    {
        assert(v@.subrange(a as int, to as int).drop_first() == v@.subrange(a + 1, to as int));
        a = a + 1;
    }
    assert(trim_start(s) == v@.subrange(a as int, to as int));
    let mut b: usize = to;
    while b > a && white_space(v[b - 1])
        invariant
            from <= a <= b <= to <= v.len(),
            trim(s) == trim_end(v@.subrange(a as int, b as int)),
        decreases b - a,
    {
        assert(v@.subrange(a as int, b as int).drop_last() == v@.subrange(a as int, b - 1));
        b = b - 1;
    }
    assert(trim_end(v@.subrange(a as int, b as int)) == v@.subrange(a as int, b as int));
    (a, b)
}

/// `s` without leading and trailing white space.
pub fn trim_text(s: &str) -> (r: String)
    ensures
        r@ == trim(s@),
{
    let v = chars_of(s);
    assert(v@.subrange(0, v@.len() as int) == v@);
    let (a, b) = trimmed_bounds(&v, 0, v.len());
    string_of_range(&v, a, b)
}

/// Tells whether `s` holds nothing but white space.
pub fn is_blank(s: &str) -> (b: bool)
    ensures
        b == (trim(s@).len() == 0),
{
    let v = chars_of(s);
    assert(v@.subrange(0, v@.len() as int) == v@);
    let (a, b) = trimmed_bounds(&v, 0, v.len());
    a == b
}

proof fn lemma_split_nonempty(s: Seq<char>)
    ensures
        split_at_commas(s).len() >= 1,
    decreases s.len(),
{
    if s.len() > 0 {
        lemma_split_nonempty(s.drop_last());
    }
}

proof fn lemma_map_filter_push(a: Seq<Seq<char>>, x: Seq<char>)
    ensures
        a.push(x).map_values(|p: Seq<char>| trim(p)).filter(|p: Seq<char>| p.len() > 0) == if trim(
            x,
        ).len() > 0 {
            a.map_values(|p: Seq<char>| trim(p)).filter(|p: Seq<char>| p.len() > 0).push(trim(x))
        } else {
            a.map_values(|p: Seq<char>| trim(p)).filter(|p: Seq<char>| p.len() > 0)
        },
{
    let m = a.push(x).map_values(|p: Seq<char>| trim(p));
    assert(m.drop_last() == a.map_values(|p: Seq<char>| trim(p)));
    reveal(Seq::filter);
}

/// The entries of the comma-separated list `s`: the text between commas,
/// trimmed, with empty entries left out.
pub fn split_comma_list(s: &str) -> (r: Vec<String>)
    ensures
        string_views(r@) == comma_items(s@),
{
    let v = chars_of(s);
    let mut done: Vec<String> = Vec::new();
    let mut start: usize = 0;
    let mut i: usize = 0;
    proof {
        lemma_split_nonempty(v@.take(0));
    }
    while i < v.len()
        invariant
            start <= i <= v.len(),
            v@ == s@,
            split_at_commas(v@.take(i as int)).len() >= 1,
            split_at_commas(v@.take(i as int)).last() == v@.subrange(start as int, i as int),
            string_views(done@) == split_at_commas(v@.take(i as int)).drop_last().map_values(
                |p: Seq<char>| trim(p),
            ).filter(|p: Seq<char>| p.len() > 0),
        decreases v.len() - i,
    {
        let ghost pieces = split_at_commas(v@.take(i as int));
        assert(v@.take(i + 1).drop_last() == v@.take(i as int));
        assert(v@.take(i + 1).last() == v@[i as int]);
        if v[i] == ',' {
            let ghost before = done@;
            let (a, b) = trimmed_bounds(&v, start, i);
            if a < b {
                let item = string_of_range(&v, a, b);
                done.push(item);
            }
            proof {
                lemma_map_filter_push(pieces.drop_last(), pieces.last());
                assert(pieces.drop_last().push(pieces.last()) == pieces);
                assert(split_at_commas(v@.take(i + 1)).drop_last() == pieces);
                assert(string_views(done@) == if trim(pieces.last()).len() > 0 {
                    string_views(before).push(trim(pieces.last()))
                } else {
                    string_views(before)
                }) by {
                    if a < b {
                        assert(string_views(done@) == string_views(done@.drop_last()).push(
                            done@.last()@,
                        ));
                        assert(done@.drop_last() == before);
                    }
                }
            }
            i = i + 1;
            start = i;
            assert(v@.subrange(start as int, i as int) == Seq::<char>::empty());
        } else {
            proof {
                assert(split_at_commas(v@.take(i + 1)).drop_last() == pieces.drop_last());
                assert(v@.subrange(start as int, i + 1) == v@.subrange(start as int, i as int).push(
                    v@[i as int],
                ));
            }
            i = i + 1;
        }
    }
    let ghost pieces = split_at_commas(v@.take(i as int));
    assert(v@.take(i as int) == s@);
    let (a, b) = trimmed_bounds(&v, start, i);
    let ghost before = done@;
    if a < b {
        let item = string_of_range(&v, a, b);
        done.push(item);
    }
    proof {
        lemma_map_filter_push(pieces.drop_last(), pieces.last());
        assert(pieces.drop_last().push(pieces.last()) == pieces);
        if a < b {
            assert(string_views(done@) == string_views(before).push(done@.last()@));
        } else {
            assert(done@ == before);
        }
    }
    done
}

proof fn lemma_trim_start_shape(s: Seq<char>) -> (k: int)
    ensures
        0 <= k <= s.len(),
        trim_start(s) == s.subrange(k, s.len() as int),
        trim_start(s).len() > 0 ==> !is_white_space(trim_start(s)[0]),
        forall|i: int| 0 <= i < k ==> is_white_space(#[trigger] s[i]),
    decreases s.len(),
{
    if s.len() > 0 && is_white_space(s[0]) {
        let k1 = lemma_trim_start_shape(s.drop_first());
        assert(s.drop_first().subrange(k1, s.drop_first().len() as int) == s.subrange(
            k1 + 1,
            s.len() as int,
        ));
        assert forall|i: int| 0 <= i < k1 + 1 implies is_white_space(#[trigger] s[i]) by {
            if i > 0 {
                assert(s[i] == s.drop_first()[i - 1]);
            }
        }
        k1 + 1
    } else {
        assert(s.subrange(0, s.len() as int) == s);
        0
    }
}

proof fn lemma_trim_end_shape(s: Seq<char>) -> (k: int)
    ensures
        0 <= k <= s.len(),
        trim_end(s) == s.subrange(0, k),
        trim_end(s).len() > 0 ==> !is_white_space(trim_end(s).last()),
        forall|i: int| k <= i < s.len() ==> is_white_space(#[trigger] s[i]),
    decreases s.len(),
{
    if s.len() > 0 && is_white_space(s.last()) {
        let k1 = lemma_trim_end_shape(s.drop_last());
        assert(s.drop_last().subrange(0, k1) == s.subrange(0, k1));
        assert forall|i: int| k1 <= i < s.len() implies is_white_space(#[trigger] s[i]) by {
            if i < s.len() - 1 {
                assert(s[i] == s.drop_last()[i]);
            }
        }
        k1
    } else {
        assert(s.subrange(0, s.len() as int) == s);
        s.len() as int
    }
}

/// `trim(s)` is a piece `s[a..b]` of `s` that neither starts nor ends with
/// white space.
proof fn lemma_trim_shape(s: Seq<char>) -> (r: (int, int))
    ensures
        0 <= r.0 <= r.1 <= s.len(),
        trim(s) == s.subrange(r.0, r.1),
        trim(s).len() > 0 ==> !is_white_space(trim(s)[0]) && !is_white_space(trim(s).last()),
        forall|i: int| 0 <= i < r.0 ==> is_white_space(#[trigger] s[i]),
        forall|i: int| r.1 <= i < s.len() ==> is_white_space(#[trigger] s[i]),
{
    let a = lemma_trim_start_shape(s);
    let u = trim_start(s);
    let b = lemma_trim_end_shape(u);
    assert(u.subrange(0, b) == s.subrange(a, a + b));
    assert forall|i: int| a + b <= i < s.len() implies is_white_space(#[trigger] s[i]) by {
        assert(s[i] == u[i - a]);
    }
    if trim(s).len() > 0 {
        assert(trim(s)[0] == u[0]);
    }
    (a, a + b)
}

proof fn lemma_trim_idempotent(s: Seq<char>)
    ensures
        trim(trim(s)) == trim(s),
{
    let t = trim(s);
    lemma_trim_shape(s);
    if t.len() > 0 {
        assert(trim_start(t) == t);
        assert(trim_end(t) == t);
    } else {
        assert(trim_start(t) == t);
    }
}

proof fn lemma_pieces_have_no_comma(s: Seq<char>)
    ensures
        forall|j: int, m: int|
            0 <= j < split_at_commas(s).len() && 0 <= m < split_at_commas(s)[j].len()
                ==> split_at_commas(s)[j][m] != ',',
    decreases s.len(),
{
    if s.len() > 0 {
        lemma_pieces_have_no_comma(s.drop_last());
        lemma_split_nonempty(s.drop_last());
    }
}

/// Law: every entry of a comma-separated list is non-empty, has no white
/// space at either end (trimming it again changes nothing), and holds no
/// comma.
pub proof fn law_comma_items_are_clean(s: Seq<char>, i: int)
    requires
        0 <= i < comma_items(s).len(),
    ensures
        comma_items(s)[i].len() > 0,
        trim(comma_items(s)[i]) == comma_items(s)[i],
        !comma_items(s)[i].contains(','),
{
    let pieces = split_at_commas(s);
    let trimmed = pieces.map_values(|p: Seq<char>| trim(p));
    let item = comma_items(s)[i];
    trimmed.lemma_filter_pred(|p: Seq<char>| p.len() > 0, i);
    assert(trimmed.filter(|p: Seq<char>| p.len() > 0).contains(item));
    trimmed.lemma_filter_contains_rev(|p: Seq<char>| p.len() > 0, item);
    let j = choose|j: int| 0 <= j < trimmed.len() && trimmed[j] == item;
    assert(item == trim(pieces[j]));
    lemma_trim_idempotent(pieces[j]);
    let (a, b) = lemma_trim_shape(pieces[j]);
    lemma_pieces_have_no_comma(s);
    assert forall|m: int| 0 <= m < item.len() implies item[m] != ',' by {
        assert(item[m] == pieces[j][a + m]);
    }
}

/// Law: no ASCII digit or letter is white space, so trimming never takes a
/// digit or letter off an entry (`"growth 2025"` stays whole, and so does
/// an id such as `oidecision_1`).
pub proof fn law_ascii_alphanumerics_are_not_white_space(c: char)
    requires
        ('0' as u32) <= (c as u32) <= ('9' as u32) || ('a' as u32) <= (c as u32) <= ('z' as u32)
            || ('A' as u32) <= (c as u32) <= ('Z' as u32),
    ensures
        !is_white_space(c),
{
}

/// Law: trimming removes only white space, and only at the ends: `trim(s)`
/// is a contiguous piece `s[a..b]` of `s`, everything before `a` and after
/// `b` is white space, and a non-empty result starts and ends with a
/// character that is not white space.
pub proof fn law_trim_removes_only_white_space(s: Seq<char>)
    ensures
        exists|a: int, b: int|
            #![trigger s.subrange(a, b)]
            0 <= a <= b <= s.len() && trim(s) == s.subrange(a, b) && (forall|i: int|
                0 <= i < a ==> is_white_space(#[trigger] s[i])) && (forall|i: int|
                b <= i < s.len() ==> is_white_space(#[trigger] s[i])),
        trim(s).len() > 0 ==> !is_white_space(trim(s)[0]) && !is_white_space(trim(s).last()),
{
    let (a, b) = lemma_trim_shape(s);
    assert(trim(s) == s.subrange(a, b));
}

/// Law: an entry of a comma-separated list is a piece of the text between
/// two commas with only white space removed from its ends: the text holds
/// the entry verbatim.
pub proof fn law_comma_items_occur_verbatim(s: Seq<char>, i: int)
    requires
        0 <= i < comma_items(s).len(),
    ensures
        exists|a: int|
            #![trigger s.subrange(a, a + comma_items(s)[i].len())]
            0 <= a && a + comma_items(s)[i].len() <= s.len() && s.subrange(
                a,
                a + comma_items(s)[i].len(),
            ) == comma_items(s)[i],
{
    let pieces = split_at_commas(s);
    let trimmed = pieces.map_values(|p: Seq<char>| trim(p));
    let item = comma_items(s)[i];
    trimmed.lemma_filter_pred(|p: Seq<char>| p.len() > 0, i);
    assert(trimmed.filter(|p: Seq<char>| p.len() > 0).contains(item));
    trimmed.lemma_filter_contains_rev(|p: Seq<char>| p.len() > 0, item);
    let j = choose|j: int| 0 <= j < trimmed.len() && trimmed[j] == item;
    assert(item == trim(pieces[j]));
    let (x, y) = lemma_trim_shape(pieces[j]);
    let off = lemma_piece_offset(s, j);
    assert(s.subrange(off + x, off + x + item.len()) == item) by {
        assert forall|m: int| 0 <= m < item.len() implies s.subrange(off + x, off + x + item.len())[m]
            == item[m] by {
            assert(item[m] == pieces[j][x + m]);
        }
    }
}

/// The `j`th piece between commas stands verbatim in `s` at some offset.
proof fn lemma_piece_offset(s: Seq<char>, j: int) -> (off: int)
    requires
        0 <= j < split_at_commas(s).len(),
    ensures
        0 <= off,
        off + split_at_commas(s)[j].len() <= s.len(),
        s.subrange(off, off + split_at_commas(s)[j].len()) == split_at_commas(s)[j],
    decreases s.len(),
{
    lemma_last_piece_ends_text(s);
    if j == split_at_commas(s).len() - 1 {
        s.len() - split_at_commas(s).last().len()
    } else {
        let t = s.drop_last();
        lemma_split_nonempty(t);
        assert(split_at_commas(s)[j] == split_at_commas(t)[j]);
        let o = lemma_piece_offset(t, j);
        let len = split_at_commas(t)[j].len();
        assert(s.subrange(o, o + len) == t.subrange(o, o + len));
        o
    }
}

/// The last piece between commas runs to the end of the text.
proof fn lemma_last_piece_ends_text(s: Seq<char>)
    ensures
        split_at_commas(s).len() >= 1,
        split_at_commas(s).last().len() <= s.len(),
        s.subrange(s.len() - split_at_commas(s).last().len(), s.len() as int) == split_at_commas(
            s,
        ).last(),
    decreases s.len(),
{
    lemma_split_nonempty(s);
    if s.len() > 0 {
        let t = s.drop_last();
        lemma_last_piece_ends_text(t);
        lemma_split_nonempty(t);
        if s.last() == ',' {
            assert(s.subrange(s.len() as int, s.len() as int) =~= Seq::<char>::empty());
        } else {
            let l = split_at_commas(t).last();
            assert(s.subrange(s.len() - (l.len() + 1), s.len() as int) =~= l.push(s.last())) by {
                assert(t.subrange(t.len() - l.len(), t.len() as int) == l);
                assert forall|m: int| 0 <= m < l.len() implies s.subrange(
                    s.len() - (l.len() + 1),
                    s.len() as int,
                )[m] == l[m] by {
                    assert(l[m] == t.subrange(t.len() - l.len(), t.len() as int)[m]);
                }
            }
        }
    }
}

/// Law: among ASCII characters, exactly tab, line feed, vertical tab, form
/// feed, carriage return and space are white space; no printable ASCII
/// character (digits, letters, punctuation) is.
pub proof fn law_ascii_white_space(c: char)
    requires
        (c as u32) < 128,
    ensures
        is_white_space(c) <==> (9 <= (c as u32) <= 13 || (c as u32) == 32),
{
}

} // verus!
