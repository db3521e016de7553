use vstd::prelude::*;

use crate::error::Error;
use crate::text::{alphanumeric, is_alphanumeric, views};

verus! {

/// A name is valid when it is non-empty and every character is alphanumeric.
/// A space is never alphanumeric; saying so here lets proofs about records
/// rely on a valid name holding no space.
pub open spec fn valid_name(s: Seq<char>) -> bool {
    s.len() > 0 && forall|i: int|
        0 <= i < s.len() ==> alphanumeric(#[trigger] s[i]) && s[i] != ' '
}

/// The outcome of validating one name.
pub open spec fn name_check(s: Seq<char>) -> Result<(), Error> {
    if s.len() == 0 {
        Err(Error::NameMissing)
    } else if !valid_name(s) {
        Err(Error::NameInvalid)
    } else {
        Ok(())
    }
}

/// Validates a key name: empty is `NameMissing`, a character that is not
/// alphanumeric is `NameInvalid`.
pub fn check_name(name: &str) -> (r: Result<(), Error>)
    ensures
        r == name_check(name@),
        r is Ok <==> valid_name(name@),
{
    let n = name.unicode_len();
    if n == 0 {
        return Err(Error::NameMissing);
    }
    let mut i: usize = 0;
    while i < n
        invariant
            n == name@.len(),
            i <= n,
            forall|j: int| 0 <= j < i ==> alphanumeric(#[trigger] name@[j]) && name@[j] != ' ',
        decreases n - i,
    {
        if !is_alphanumeric(name.get_char(i)) {
            return Err(Error::NameInvalid);
        }
        i += 1;
    }
    Ok(())
}

/// The failure of the first invalid name in `lines`, if any.
pub open spec fn first_name_error(lines: Seq<Seq<char>>) -> Option<Error>
    decreases lines.len(),
{
    if lines.len() == 0 {
        None
    } else {
        match name_check(lines[0]) {
            Err(e) => Some(e),
            Ok(()) => first_name_error(lines.drop_first()),
        }
    }
}

/// The names of a piped batch: every line must be a valid name, and there
/// must be at least one.
pub open spec fn piped_names(lines: Seq<Seq<char>>) -> Result<Seq<Seq<char>>, Error> {
    match first_name_error(lines) {
        Some(e) => Err(e),
        None => if lines.len() == 0 {
            Err(Error::NameMissing)
        } else {
            Ok(lines)
        },
    }
}

/// Validates the lines of a piped batch, in order, as names; the batch must
/// not be empty.
pub fn collect_names(lines: Vec<String>) -> (r: Result<Vec<String>, Error>)
    ensures
        r is Ok ==> r->Ok_0 == lines,
        match r {
            Ok(v) => piped_names(views(lines@)) == Ok::<Seq<Seq<char>>, Error>(views(v@)),
            Err(e) => piped_names(views(lines@)) == Err::<Seq<Seq<char>>, Error>(e),
        },
{
    let ghost all = views(lines@);
    let mut i: usize = 0;
    assert(all.subrange(0, all.len() as int) =~= all);
    while i < lines.len()
        invariant
            all == views(lines@),
            i <= lines.len(),
            first_name_error(all) == first_name_error(all.subrange(i as int, all.len() as int)),
        decreases lines.len() - i,
    {
        let ghost rest = all.subrange(i as int, all.len() as int);
        assert(rest.drop_first() =~= all.subrange(i + 1, all.len() as int));
        assert(rest[0] == lines@[i as int]@);
        match check_name(lines[i].as_str()) {
            Err(e) => {
                return Err(e);
            },
            Ok(()) => {},
        }
        i += 1;
    }
    proof {
        assert(all.subrange(i as int, all.len() as int) =~= Seq::<Seq<char>>::empty());
    }
    if lines.len() == 0 {
        return Err(Error::NameMissing);
    }
    Ok(lines)
}

} // verus!
