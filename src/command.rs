use vstd::prelude::*;

use crate::error::Error;
use crate::name::{check_name, collect_names, name_check, piped_names};
use crate::store::{lookup_all, updated, Store};
use crate::text::{join_from, join_with, trim, trimmed, views};

verus! {

/// What an invocation does with the store.
#[derive(Clone, Copy, Debug, PartialEq, Eq, Structural)]
pub enum Command {
    /// Store a value under one name.
    Put,
    /// Read the values of one or more names.
    Get,
}

/// A resolved operation: read one or more keys, or write one value.
pub enum Operation {
    /// Print the values of these names, in order.
    Get(Vec<String>),
    /// Store the value (second) under the name (first).
    Put(String, String),
}

/// The texts an operation carries.
pub enum OperationView {
    Get(Seq<Seq<char>>),
    Put(Seq<char>, Seq<char>),
}

impl View for Operation {
    type V = OperationView;

    open spec fn view(&self) -> OperationView {
        match self {
            Operation::Get(names) => OperationView::Get(views(names@)),
            Operation::Put(name, value) => OperationView::Put(name@, value@),
        }
    }
}

/// The lines piped in, if input is not a terminal.
pub open spec fn piped_view(piped: Option<Vec<String>>) -> Option<Seq<Seq<char>>> {
    match piped {
        Some(lines) => Some(views(lines@)),
        None => None,
    }
}

/// How the command token reads: a known flag, a bare token (`None`), or an
/// unknown flag.
pub open spec fn flag_spec(arg: Seq<char>) -> Result<Option<Command>, Error> {
    if arg == "-s"@ || arg == "--set"@ {
        Ok(Some(Command::Put))
    } else if arg == "-g"@ || arg == "--get"@ {
        Ok(Some(Command::Get))
    } else if arg.len() > 0 && arg[0] == '-' {
        Err(Error::UnknownCommand)
    } else {
        Ok(None)
    }
}

/// The value given by the arguments from `start` on: joined by single
/// spaces and trimmed.
pub open spec fn value_from(args: Seq<Seq<char>>, start: int) -> Seq<char> {
    trimmed(join_with(args.subrange(start, args.len() as int), seq![' ']))
}

/// A set of `name` to the value given by the arguments from `start` on,
/// which must not be empty.
pub open spec fn set_with(name: Seq<char>, args: Seq<Seq<char>>, start: int) -> Result<
    OperationView,
    Error,
> {
    if value_from(args, start).len() == 0 {
        Err(Error::ValueMissing)
    } else {
        Ok(OperationView::Put(name, value_from(args, start)))
    }
}

/// Resolution when the names arrived on standard input: the first argument,
/// if any, is the command, and a bare token there means get.
pub open spec fn resolve_piped(args: Seq<Seq<char>>, names: Seq<Seq<char>>) -> Result<
    OperationView,
    Error,
> {
    let command = if args.len() == 0 {
        Ok(Command::Get)
    } else {
        match flag_spec(args[0]) {
            Err(e) => Err(e),
            Ok(Some(c)) => Ok(c),
            Ok(None) => Ok(Command::Get),
        }
    };
    match command {
        Err(e) => Err(e),
        Ok(Command::Get) => Ok(OperationView::Get(names)),
        Ok(Command::Put) => if names.len() != 1 {
            Err(Error::MultipleNames)
        } else {
            set_with(names[0], args, 1)
        },
    }
}

/// Resolution at a terminal: a bare first argument is a get of that
/// (trimmed) name; after a flag the next argument is the name, and for a set
/// the rest is the value.
pub open spec fn resolve_interactive(args: Seq<Seq<char>>) -> Result<OperationView, Error> {
    if args.len() == 0 {
        Err(Error::NameMissing)
    } else {
        match flag_spec(args[0]) {
            Err(e) => Err(e),
            Ok(None) => match name_check(trimmed(args[0])) {
                Err(e) => Err(e),
                Ok(()) => Ok(OperationView::Get(seq![trimmed(args[0])])),
            },
            Ok(Some(c)) => if args.len() < 2 {
                Err(Error::NameMissing)
            } else {
                match name_check(args[1]) {
                    Err(e) => Err(e),
                    Ok(()) => match c {
                        Command::Get => Ok(OperationView::Get(seq![args[1]])),
                        Command::Put => set_with(args[1], args, 2),
                    },
                }
            },
        }
    }
}

/// The operation that the arguments and the piped lines (`None` at a
/// terminal) ask for.
pub open spec fn resolve_spec(args: Seq<Seq<char>>, piped: Option<Seq<Seq<char>>>) -> Result<
    OperationView,
    Error,
> {
    match piped {
        Some(lines) => match piped_names(lines) {
            Err(e) => Err(e),
            Ok(names) => resolve_piped(args, names),
        },
        None => resolve_interactive(args),
    }
}

/// A piped batch of more than one valid name cannot be set: resolution
/// fails with `MultipleNames`, so no operation reaches the store.
pub proof fn lemma_piped_set_needs_one_name(args: Seq<Seq<char>>, lines: Seq<Seq<char>>)
    requires
        lines.len() >= 2,
        piped_names(lines) is Ok,
        args.len() >= 1,
        args[0] == "-s"@ || args[0] == "--set"@,
    ensures
        resolve_spec(args, Some(lines)) == Err::<OperationView, Error>(Error::MultipleNames),
{
}

fn same_text(a: &str, b: &str) -> (r: bool)
    ensures
        r == (a@ == b@),
{
    String::from_str(a) == String::from_str(b)
}

/// Reads the command token.
fn flag_of(arg: &str) -> (r: Result<Option<Command>, Error>)
    ensures
        r == flag_spec(arg@),
{
    if same_text(arg, "-s") || same_text(arg, "--set") {
        Ok(Some(Command::Put))
    } else if same_text(arg, "-g") || same_text(arg, "--get") {
        Ok(Some(Command::Get))
    } else if arg.unicode_len() > 0 && arg.get_char(0) == '-' {
        Err(Error::UnknownCommand)
    } else {
        Ok(None)
    }
}

fn set_from(name: String, args: &Vec<String>, start: usize) -> (r: Result<Operation, Error>)
    requires
        start <= args@.len(),
    ensures
        match r {
            Ok(op) => set_with(name@, views(args@), start as int) == Ok::<OperationView, Error>(op@),
            Err(e) => set_with(name@, views(args@), start as int) == Err::<OperationView, Error>(e),
        },
{
    proof {
        reveal_strlit(" ");
    }
    assert(" "@ =~= seq![' ']);
    let joined = join_from(args, start, " ");
    let value = trim(joined.as_str());
    if value.unicode_len() == 0 {
        Err(Error::ValueMissing)
    } else {
        Ok(Operation::Put(name, value))
    }
}

/// Decides the operation from the arguments (program name removed) and, when
/// input is piped, the lines read from it; `None` means input is a terminal.
pub fn resolve(args: &Vec<String>, piped: Option<Vec<String>>) -> (r: Result<Operation, Error>)
    ensures
        match r {
            Ok(op) => resolve_spec(views(args@), piped_view(piped)) == Ok::<OperationView, Error>(op@),
            Err(e) => resolve_spec(views(args@), piped_view(piped)) == Err::<OperationView, Error>(e),
        },
{
    let ghost a = views(args@);
    match piped {
        Some(lines) => {
            let names = match collect_names(lines) {
                Ok(names) => names,
                Err(e) => {
                    return Err(e);
                },
            };
            let command = if args.len() == 0 {
                Command::Get
            } else {
                match flag_of(args[0].as_str()) {
                    Err(e) => {
                        return Err(e);
                    },
                    Ok(Some(c)) => c,
                    Ok(None) => Command::Get,
                }
            };
            match command {
                Command::Get => Ok(Operation::Get(names)),
                Command::Put => {
                    if names.len() != 1 {
                        return Err(Error::MultipleNames);
                    }
                    let name = names[0].clone();
                    set_from(name, args, 1)
                },
            }
        },
        None => {
            if args.len() == 0 {
                return Err(Error::NameMissing);
            }
            match flag_of(args[0].as_str()) {
                Err(e) => Err(e),
                Ok(None) => {
                    let name = trim(args[0].as_str());
                    match check_name(name.as_str()) {
                        Err(e) => Err(e),
                        Ok(()) => {
                            let names = vec![name];
                            assert(views(names@) =~= seq![trimmed(a[0])]);
                            Ok(Operation::Get(names))
                        },
                    }
                },
                Ok(Some(c)) => {
                    if args.len() < 2 {
                        return Err(Error::NameMissing);
                    }
                    let name = args[1].clone();
                    match check_name(name.as_str()) {
                        Err(e) => Err(e),
                        Ok(()) => match c {
                            Command::Get => {
                                let names = vec![name];
                                assert(views(names@) =~= seq![a[1]]);
                                Ok(Operation::Get(names))
                            },
                            Command::Put => set_from(name, args, 2),
                        },
                    }
                },
            }
        },
    }
}

/// Carries out a resolved operation on the store: a get leaves the store as
/// it is and returns the values in the order of the names; a set updates the
/// store and returns nothing to print.
pub fn execute(store: &mut Store, op: &Operation) -> (r: Result<Vec<String>, Error>)
    ensures
        match op@ {
            OperationView::Get(names) => {
                &&& final(store)@ == old(store)@
                &&& match r {
                    Ok(v) => lookup_all(old(store)@, names) == Ok::<Seq<Seq<char>>, Error>(
                        views(v@),
                    ),
                    Err(e) => lookup_all(old(store)@, names) == Err::<Seq<Seq<char>>, Error>(e),
                }
            },
            OperationView::Put(name, value) => {
                &&& final(store)@ == updated(old(store)@, name, value)
                &&& r is Ok
                &&& r->Ok_0@.len() == 0
            },
        },
{
    match op {
        Operation::Get(names) => store.get_all(names),
        Operation::Put(name, value) => {
            store.set(name.as_str(), value.as_str());
            Ok(Vec::new())
        },
    }
}

} // verus!
