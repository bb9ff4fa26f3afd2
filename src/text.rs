use vstd::prelude::*;

verus! {

/// What `str::to_lowercase` makes of a string.
pub uninterp spec fn lower_of(s: Seq<char>) -> Seq<char>;

/// Relies on `str::to_lowercase`: the result depends on the characters alone.
#[verifier::external_body]
pub(crate) fn lowercase(s: &str) -> (r: String)
    ensures
        r@ == lower_of(s@),
{
    s.to_lowercase()
}

/// What `str::trim` makes of a string.
pub uninterp spec fn trimmed(s: Seq<char>) -> Seq<char>;

/// Relies on `str::trim`: leading and trailing whitespace removed, which
/// depends on the characters alone.
#[verifier::external_body]
pub(crate) fn trim<'a>(s: &'a str) -> (r: &'a str)
    ensures
        r@ == trimmed(s@),
{
    s.trim()
}

/// Compares two strings character by character.
pub fn str_eq(a: &str, b: &str) -> (r: bool)
    ensures
        r == (a@ == b@),
{
    let n = a.unicode_len();
    if n != b.unicode_len() {
        return false;
    }
    let mut i: usize = 0;
    while i < n
        invariant
            n == a@.len(),
            n == b@.len(),
            i <= n,
            forall|j: int| 0 <= j < i ==> a@[j] == b@[j],
        decreases n - i,
    {
        if a.get_char(i) != b.get_char(i) {
            return false;
        }
        i += 1;
    }
    assert(a@ =~= b@);
    true
}


/// Views of a sequence of strings.
pub open spec fn views(v: Seq<String>) -> Seq<Seq<char>> {
    v.map_values(|t: String| t@)
}

/// `s` cut at every space, as `str::split(' ')` does: empty pieces are kept,
/// and the empty string gives one empty piece.
pub open spec fn split_spaces(s: Seq<char>) -> Seq<Seq<char>>
    decreases s.len(),
{
    if s.len() == 0 {
        seq![Seq::<char>::empty()]
    } else {
        let prev = split_spaces(s.drop_last());
        if s.last() == ' ' {
            prev.push(Seq::<char>::empty())
        } else {
            prev.update(prev.len() - 1, prev.last().push(s.last()))
        }
    }
}

/// The pieces `t[from..to]` joined with single spaces.
pub open spec fn join_spaces(t: Seq<Seq<char>>, from: int, to: int) -> Seq<char>
    decreases to - from,
{
    if to <= from {
        Seq::<char>::empty()
    } else if to == from + 1 {
        t[from]
    } else {
        join_spaces(t, from, to - 1) + seq![' '] + t[to - 1]
    }
}

/// Cuts `s` at every space.
pub fn split(s: &str) -> (r: Vec<String>)
    ensures
        views(r@) == split_spaces(s@),
{
    let n = s.unicode_len();
    let mut tokens: Vec<String> = Vec::new();
    let mut start: usize = 0;
    let mut i: usize = 0;
    proof {
        assert(views(tokens@) =~= Seq::<Seq<char>>::empty());
        assert(s@.subrange(0, 0) =~= Seq::<char>::empty());
        assert(views(tokens@).push(s@.subrange(0, 0)) =~= split_spaces(s@.subrange(0, 0)));
    }
    while i < n
        invariant
            n == s@.len(),
            start <= i <= n,
            views(tokens@).push(s@.subrange(start as int, i as int)) == split_spaces(
                s@.subrange(0, i as int),
            ),
        decreases n - i,
    {
        let c = s.get_char(i);
        proof {
            assert(s@.subrange(0, i + 1).drop_last() =~= s@.subrange(0, i as int));
            assert(s@.subrange(0, i + 1).last() == c);
        }
        if c == ' ' {
            let piece = String::from_str(s.substring_char(start, i));
            proof {
                assert(views(tokens@.push(piece)) =~= views(tokens@).push(piece@));
                assert(s@.subrange(i + 1, i + 1) =~= Seq::<char>::empty());
            }
            tokens.push(piece);
            start = i + 1;
        } else {
            proof {
                assert(s@.subrange(start as int, i + 1) =~= s@.subrange(start as int, i as int).push(c));
                let a = views(tokens@).push(s@.subrange(start as int, i as int));
                assert(a.update(a.len() - 1, a.last().push(c)) =~= views(tokens@).push(s@.subrange(start as int, i + 1)));
            }
        }
        i += 1;
    }
    let piece = String::from_str(s.substring_char(start, n));
    proof {
        assert(views(tokens@.push(piece)) =~= views(tokens@).push(piece@));
        assert(s@.subrange(0, n as int) =~= s@);
    }
    tokens.push(piece);
    tokens
}

/// Joins `t[from..to]` with single spaces.
pub fn join(t: &Vec<String>, from: usize, to: usize) -> (r: String)
    requires
        from <= to <= t@.len(),
    ensures
        r@ == join_spaces(views(t@), from as int, to as int),
{
    let mut r = String::new();
    if from == to {
        return r;
    }
    r = t[from].clone();
    let mut i: usize = from + 1;
    while i < to
        invariant
            from < i <= to <= t@.len(),
            r@ == join_spaces(views(t@), from as int, i as int),
        decreases to - i,
    {
        proof {
            reveal_strlit(" ");
        }
        r.append(" ");
        r.append(t[i].as_str());
        proof {
            assert(" "@ =~= seq![' ']);
        }
        i += 1;
    }
    r
}

} // verus!
