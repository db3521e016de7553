use vstd::prelude::*;

use crate::error::Error;
use crate::name::valid_name;
use crate::text::{join_from, join_with, views};

verus! {

/// `i` is the position of the first space in `s`.
pub open spec fn first_space_at(s: Seq<char>, i: int) -> bool {
    0 <= i < s.len() && s[i] == ' ' && forall|j: int| 0 <= j < i ==> s[j] != ' '
}

/// A store line split at its first space into key and value; a line with no
/// space is not a record.
pub open spec fn split_record(s: Seq<char>) -> Option<(Seq<char>, Seq<char>)> {
    if exists|i: int| first_space_at(s, i) {
        let i = choose|i: int| first_space_at(s, i);
        Some((s.subrange(0, i), s.subrange(i + 1, s.len() as int)))
    } else {
        None
    }
}

/// The line is a record whose key is `key`.
pub open spec fn has_key(line: Seq<char>, key: Seq<char>) -> bool {
    match split_record(line) {
        Some((k, _)) => k == key,
        None => false,
    }
}

/// The line survives a `set` of `key`: it is a record of another key.
pub open spec fn kept(line: Seq<char>, key: Seq<char>) -> bool {
    split_record(line) is Some && !has_key(line, key)
}

/// Line `i` is the first record of `key`.
pub open spec fn first_with_key(lines: Seq<Seq<char>>, key: Seq<char>, i: int) -> bool {
    0 <= i < lines.len() && has_key(lines[i], key) && forall|j: int|
        0 <= j < i ==> !has_key(#[trigger] lines[j], key)
}

/// The value of the first record of `key`, if there is one.
pub open spec fn lookup(lines: Seq<Seq<char>>, key: Seq<char>) -> Option<Seq<char>> {
    if exists|i: int| first_with_key(lines, key, i) {
        let i = choose|i: int| first_with_key(lines, key, i);
        Some(split_record(lines[i])->Some_0.1)
    } else {
        None
    }
}

/// The line that records `value` under `key`.
pub open spec fn record(key: Seq<char>, value: Seq<char>) -> Seq<char> {
    key + seq![' '] + value
}

/// The lines after setting `key` to `value`: every other record in its
/// order, then the new record.
pub open spec fn updated(lines: Seq<Seq<char>>, key: Seq<char>, value: Seq<char>) -> Seq<
    Seq<char>,
> {
    lines.filter(|l: Seq<char>| kept(l, key)).push(record(key, value))
}

/// The values of `keys`, in order, if every one of them has a record.
pub open spec fn lookup_all(lines: Seq<Seq<char>>, keys: Seq<Seq<char>>) -> Result<
    Seq<Seq<char>>,
    Error,
> {
    if forall|i: int| 0 <= i < keys.len() ==> lookup(lines, #[trigger] keys[i]) is Some {
        Ok(Seq::new(keys.len(), |i: int| lookup(lines, keys[i])->Some_0))
    } else {
        Err(Error::NotFound)
    }
}

proof fn lemma_split_at(s: Seq<char>, i: int)
    requires
        first_space_at(s, i),
    ensures
        split_record(s) == Some((s.subrange(0, i), s.subrange(i + 1, s.len() as int))),
{
    let k = choose|k: int| first_space_at(s, k);
    assert(first_space_at(s, k));
    if k < i {
        assert(s[k] != ' ');
    } else if i < k {
        assert(s[i] != ' ');
    }
}

proof fn lemma_lookup_at(lines: Seq<Seq<char>>, key: Seq<char>, i: int)
    requires
        first_with_key(lines, key, i),
    ensures
        lookup(lines, key) == Some(split_record(lines[i])->Some_0.1),
{
    let k = choose|k: int| first_with_key(lines, key, k);
    assert(first_with_key(lines, key, k));
    if k < i {
        assert(!has_key(lines[k], key));
    } else if i < k {
        assert(!has_key(lines[i], key));
    }
}

proof fn lemma_record_splits(key: Seq<char>, value: Seq<char>)
    requires
        valid_name(key),
    ensures
        split_record(record(key, value)) == Some((key, value)),
        has_key(record(key, value), key),
{
    let r = record(key, value);
    assert forall|j: int| 0 <= j < key.len() implies r[j] != ' ' by {
        assert(r[j] == key[j]);
        assert(key[j] != ' ');
    }
    assert(first_space_at(r, key.len() as int));
    lemma_split_at(r, key.len() as int);
    assert(r.subrange(0, key.len() as int) =~= key);
    assert(r.subrange(key.len() as int + 1, r.len() as int) =~= value);
}

/// After a `set` of a valid key, the last line is the only record of that
/// key, and it holds the value that was set.
pub proof fn lemma_set_leaves_one_record(lines: Seq<Seq<char>>, key: Seq<char>, value: Seq<char>)
    requires
        valid_name(key),
    ensures
        forall|i: int|
            0 <= i < updated(lines, key, value).len() ==> (has_key(
                #[trigger] updated(lines, key, value)[i],
                key,
            ) <==> i == updated(lines, key, value).len() - 1),
        split_record(updated(lines, key, value).last()) == Some((key, value)),
{
    let f = |l: Seq<char>| kept(l, key);
    let u = updated(lines, key, value);
    lemma_record_splits(key, value);
    assert forall|i: int| 0 <= i < u.len() - 1 implies !has_key(#[trigger] u[i], key) by {
        assert(u[i] == lines.filter(f)[i]);
        lines.lemma_filter_pred(f, i);
    }
}

/// Setting a valid key and then reading it gives back exactly the value set.
pub proof fn lemma_round_trip(lines: Seq<Seq<char>>, key: Seq<char>, value: Seq<char>)
    requires
        valid_name(key),
    ensures
        lookup(updated(lines, key, value), key) == Some(value),
{
    let u = updated(lines, key, value);
    lemma_set_leaves_one_record(lines, key, value);
    assert forall|j: int| 0 <= j < u.len() - 1 implies !has_key(#[trigger] u[j], key) by {
        assert(has_key(u[j], key) <==> j == u.len() - 1);
    }
    assert(has_key(u[u.len() - 1], key) <==> u.len() - 1 == u.len() - 1);
    assert(first_with_key(u, key, u.len() - 1));
    lemma_lookup_at(u, key, u.len() - 1);
}

/// Of two writes to one valid key the later wins, and the store then holds
/// exactly one record of that key.
pub proof fn lemma_last_write_wins(
    lines: Seq<Seq<char>>,
    key: Seq<char>,
    first: Seq<char>,
    second: Seq<char>,
)
    requires
        valid_name(key),
    ensures
        lookup(updated(updated(lines, key, first), key, second), key) == Some(second),
        forall|i: int|
            0 <= i < updated(updated(lines, key, first), key, second).len() ==> (has_key(
                #[trigger] updated(updated(lines, key, first), key, second)[i],
                key,
            ) <==> i == updated(updated(lines, key, first), key, second).len() - 1),
{
    lemma_round_trip(updated(lines, key, first), key, second);
    lemma_set_leaves_one_record(updated(lines, key, first), key, second);
}

/// A key of which the store holds no record is not found.
pub proof fn lemma_unknown_key(lines: Seq<Seq<char>>, key: Seq<char>)
    requires
        forall|i: int| 0 <= i < lines.len() ==> !has_key(#[trigger] lines[i], key),
    ensures
        lookup(lines, key) is None,
{
}

/// Splits a store line at its first space into key and value.
fn split_line(line: &str) -> (r: Option<(String, String)>)
    ensures
        match r {
            Some((k, v)) => split_record(line@) == Some((k@, v@)),
            None => split_record(line@) is None,
        },
{
    let n = line.unicode_len();
    let mut i: usize = 0;
    while i < n
        invariant
            n == line@.len(),
            i <= n,
            forall|j: int| 0 <= j < i ==> line@[j] != ' ',
        decreases n - i,
    {
        if line.get_char(i) == ' ' {
            proof {
                lemma_split_at(line@, i as int);
            }
            let key = String::from_str(line.substring_char(0, i));
            let value = String::from_str(line.substring_char(i + 1, n));
            return Some((key, value));
        }
        i += 1;
    }
    None
}

/// The records of the store, one line each, in file order.
pub struct Store {
    lines: Vec<String>,
}

impl View for Store {
    type V = Seq<Seq<char>>;

    closed spec fn view(&self) -> Seq<Seq<char>> {
        views(self.lines@)
    }
}

impl Store {
    /// The empty store, as when no store file exists yet.
    pub fn new() -> (r: Store)
        ensures
            r@ == Seq::<Seq<char>>::empty(),
    {
        let r = Store { lines: Vec::new() };
        assert(r@ =~= Seq::<Seq<char>>::empty());
        r
    }

    /// The store whose file holds these lines.
    pub fn from_lines(lines: Vec<String>) -> (r: Store)
        ensures
            r@ == views(lines@),
    {
        Store { lines }
    }

    /// The lines of the store, in order.
    pub fn lines(&self) -> (r: &Vec<String>)
        ensures
            views(r@) == self@,
    {
        &self.lines
    }

    /// The value of the first record of `key`, or `NotFound`.
    pub fn get(&self, key: &str) -> (r: Result<String, Error>)
        ensures
            match lookup(self@, key@) {
                Some(v) => r is Ok && r->Ok_0@ == v,
                None => r == Err::<String, Error>(Error::NotFound),
            },
    {
        let wanted = String::from_str(key);
        let mut i: usize = 0;
        while i < self.lines.len()
            invariant
                wanted@ == key@,
                i <= self.lines@.len(),
                forall|j: int| 0 <= j < i ==> !has_key(#[trigger] self@[j], key@),
            decreases self.lines.len() - i,
        {
            assert(self@[i as int] == self.lines@[i as int]@);
            match split_line(self.lines[i].as_str()) {
                Some((k, v)) => {
                    if k == wanted {
                        proof {
                            assert(has_key(self@[i as int], key@));
                            assert(first_with_key(self@, key@, i as int));
                            lemma_lookup_at(self@, key@, i as int);
                            assert(lookup(self@, key@) == Some(v@));
                        }
                        return Ok(v);
                    }
                },
                None => {},
            }
            i += 1;
        }
        Err(Error::NotFound)
    }

    /// The values of `keys`, in order; `NotFound` if any of them has no record.
    pub fn get_all(&self, keys: &Vec<String>) -> (r: Result<Vec<String>, Error>)
        ensures
            match r {
                Ok(v) => lookup_all(self@, views(keys@)) == Ok::<Seq<Seq<char>>, Error>(views(v@)),
                Err(e) => lookup_all(self@, views(keys@)) == Err::<Seq<Seq<char>>, Error>(e),
            },
    {
        let ghost ks = views(keys@);
        let mut values: Vec<String> = Vec::new();
        let mut i: usize = 0;
        while i < keys.len()
            invariant
                ks == views(keys@),
                i <= keys@.len(),
                values@.len() == i,
                forall|j: int| 0 <= j < i ==> lookup(self@, #[trigger] ks[j]) is Some,
                forall|j: int| 0 <= j < i ==> #[trigger] values@[j]@ == lookup(self@, ks[j])->Some_0,
            decreases keys.len() - i,
        {
            match self.get(keys[i].as_str()) {
                Ok(v) => {
                    values.push(v);
                },
                Err(e) => {
                    assert(ks[i as int] == keys@[i as int]@);
                    assert(lookup(self@, ks[i as int]) is None);
                    return Err(e);
                },
            }
            i += 1;
        }
        assert(views(values@) =~= Seq::new(ks.len(), |j: int| lookup(self@, ks[j])->Some_0));
        Ok(values)
    }

    /// Records `value` under `key`: every record of `key` is dropped, as is
    /// every line that is not a record, and the new record comes last.
    pub fn set(&mut self, key: &str, value: &str)
        ensures
            final(self)@ == updated(old(self)@, key@, value@),
    {
        let ghost before = self@;
        let ghost f = |l: Seq<char>| kept(l, key@);
        let key = String::from_str(key);
        let mut kept_lines: Vec<String> = Vec::new();
        let mut i: usize = 0;
        assert(before.subrange(0, 0).filter(f) =~= Seq::<Seq<char>>::empty()) by {
            reveal(Seq::filter);
        }
        assert(views(kept_lines@) =~= Seq::<Seq<char>>::empty());
        while i < self.lines.len()
            invariant
                before == self@,
                i <= self.lines@.len(),
                f == (|l: Seq<char>| kept(l, key@)),
                views(kept_lines@) == before.subrange(0, i as int).filter(f),
            decreases self.lines.len() - i,
        {
            let ghost prefix = before.subrange(0, i as int + 1);
            assert(prefix.drop_last() =~= before.subrange(0, i as int));
            assert(prefix.last() == self.lines@[i as int]@);
            assert(prefix.filter(f) == if f(prefix.last()) {
                prefix.drop_last().filter(f).push(prefix.last())
            } else {
                prefix.drop_last().filter(f)
            }) by {
                reveal(Seq::filter);
            }
            match split_line(self.lines[i].as_str()) {
                Some((k, _)) => {
                    if !(k == key) {
                        let line = self.lines[i].clone();
                        kept_lines.push(line);
                        assert(views(kept_lines@) =~= prefix.filter(f));
                    }
                },
                None => {},
            }
            i += 1;
        }
        assert(before.subrange(0, before.len() as int) =~= before);
        proof {
            reveal_strlit(" ");
        }
        let mut line = key.clone();
        line.append(" ");
        line.append(value);
        assert(line@ =~= record(key@, value@));
        let ghost k0 = views(kept_lines@);
        kept_lines.push(line);
        assert(views(kept_lines@) =~= k0.push(record(key@, value@)));
        assert(k0 == before.filter(|l: Seq<char>| kept(l, key@)));
        self.lines = kept_lines;
    }

    /// The text of the store file: the lines separated by newlines.
    pub fn to_text(&self) -> (r: String)
        ensures
            r@ == join_with(self@, seq!['\n']),
    {
        proof {
            reveal_strlit("\n");
        }
        assert(self@.subrange(0, self@.len() as int) =~= self@);
        assert("\n"@ =~= seq!['\n']);
        join_from(&self.lines, 0, "\n")
    }
}

} // verus!
