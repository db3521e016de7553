use vstd::prelude::*;

verus! {

/// The texts held by a sequence of strings.
pub open spec fn views(v: Seq<String>) -> Seq<Seq<char>> {
    v.map_values(|s: String| s@)
}

/// Whether `c` is alphabetic or numeric in Unicode's sense.
pub uninterp spec fn alphanumeric(c: char) -> bool;

/// Relies on `char::is_alphanumeric`: its answer depends on the character
/// alone, and the space character (general category Zs) is neither
/// alphabetic nor numeric.
#[verifier::external_body]
pub(crate) fn is_alphanumeric(c: char) -> (r: bool)
    ensures
        r == alphanumeric(c),
        c == ' ' ==> !r,
{
    c.is_alphanumeric()
}

/// What `str::trim` leaves of `s`.
pub uninterp spec fn trimmed(s: Seq<char>) -> Seq<char>;

/// Relies on `str::trim`: the result depends on the text alone.
#[verifier::external_body]
pub(crate) fn trim(s: &str) -> (r: String)
    ensures
        r@ == trimmed(s@),
{
    s.trim().to_string()
}

/// The parts, in order, with `sep` between each two of them.
pub open spec fn join_with(parts: Seq<Seq<char>>, sep: Seq<char>) -> Seq<char>
    decreases parts.len(),
{
    if parts.len() == 0 {
        Seq::empty()
    } else if parts.len() == 1 {
        parts[0]
    } else {
        join_with(parts.drop_last(), sep) + sep + parts.last()
    }
}

/// Joins `parts[start..]` with `sep` between each two of them.
pub(crate) fn join_from(parts: &Vec<String>, start: usize, sep: &str) -> (r: String)
    requires
        start <= parts@.len(),
    ensures
        r@ == join_with(views(parts@).subrange(start as int, parts@.len() as int), sep@),
{
    let ghost all = views(parts@);
    let mut text = String::new();
    let mut i: usize = start;
    assert(all.subrange(start as int, start as int) =~= Seq::<Seq<char>>::empty());
    while i < parts.len()
        invariant
            all == views(parts@),
            start <= i <= parts@.len(),
            text@ == join_with(all.subrange(start as int, i as int), sep@),
        decreases parts.len() - i,
    {
        let ghost next = all.subrange(start as int, i as int + 1);
        assert(next.drop_last() =~= all.subrange(start as int, i as int));
        assert(next.last() == parts@[i as int]@);
        if i > start {
            text.append(sep);
        }
        text.append(parts[i].as_str());
        assert(text@ =~= join_with(next, sep@));
        i += 1;
    }
    text
}

} // verus!
