use vstd::prelude::*;

verus! {

/// The broad classes of failure.
#[derive(Clone, Copy, Debug, PartialEq, Eq, Structural)]
pub enum ErrorKind {
    /// The data directory cannot be determined.
    Config,
    /// Opening, reading, writing or replacing the store failed.
    Storage,
    /// A name is empty or not alphanumeric, or the batch of names is malformed.
    Validation,
    /// The key has no record in the store.
    NotFound,
    /// An unknown command flag.
    Usage,
}

/// Every way an invocation can fail.
#[derive(Clone, Copy, Debug, PartialEq, Eq, Structural)]
pub enum Error {
    /// No name was given, or a name is empty.
    NameMissing,
    /// A name holds a character that is not alphanumeric.
    NameInvalid,
    /// A set was asked for with more than one piped name.
    MultipleNames,
    /// A set was asked for with nothing to store.
    ValueMissing,
    /// A command token starts with `-` but is none of the known flags.
    UnknownCommand,
    /// The key has no record in the store.
    NotFound,
    /// Neither `XDG_DATA_HOME` nor `HOME` is usable.
    HomeMissing,
    /// The data directory could not be created.
    CreateDirFailed,
    /// The store file could not be opened.
    OpenFailed,
    /// A line of the store file could not be read.
    ReadFailed,
    /// The temporary store file could not be written.
    WriteFailed,
    /// The temporary store file could not be renamed over the store.
    RenameFailed,
}

/// The class of each failure.
pub open spec fn kind_of(e: Error) -> ErrorKind {
    match e {
        Error::NameMissing | Error::NameInvalid | Error::MultipleNames
        | Error::ValueMissing => ErrorKind::Validation,
        Error::UnknownCommand => ErrorKind::Usage,
        Error::NotFound => ErrorKind::NotFound,
        Error::HomeMissing => ErrorKind::Config,
        Error::CreateDirFailed | Error::OpenFailed | Error::ReadFailed
        | Error::WriteFailed | Error::RenameFailed => ErrorKind::Storage,
    }
}

/// The text shown for each failure.
pub open spec fn message_of(e: Error) -> Seq<char> {
    match e {
        Error::NameMissing => "name missing!"@,
        Error::NameInvalid => "name invalid!"@,
        Error::MultipleNames => "multiple names!"@,
        Error::ValueMissing => "value missing!"@,
        Error::UnknownCommand => "unknown command!"@,
        Error::NotFound => "value missing!"@,
        Error::HomeMissing => "$HOME missing!"@,
        Error::CreateDirFailed => "failed to create data path!"@,
        Error::OpenFailed => "failed to open file!"@,
        Error::ReadFailed => "failed to read file!"@,
        Error::WriteFailed => "failed to write data file!"@,
        Error::RenameFailed => "failed to update data file!"@,
    }
}

impl Error {
    /// The class this failure belongs to.
    pub fn kind(&self) -> (r: ErrorKind)
        ensures
            r == kind_of(*self),
    {
        match self {
            Error::NameMissing | Error::NameInvalid | Error::MultipleNames
            | Error::ValueMissing => ErrorKind::Validation,
            Error::UnknownCommand => ErrorKind::Usage,
            Error::NotFound => ErrorKind::NotFound,
            Error::HomeMissing => ErrorKind::Config,
            Error::CreateDirFailed | Error::OpenFailed | Error::ReadFailed
            | Error::WriteFailed | Error::RenameFailed => ErrorKind::Storage,
        }
    }

    /// The text shown to the user for this failure.
    pub fn message(&self) -> (r: String)
        ensures
            r@ == message_of(*self),
    {
        let s = match self {
            Error::NameMissing => "name missing!",
            Error::NameInvalid => "name invalid!",
            Error::MultipleNames => "multiple names!",
            Error::ValueMissing => "value missing!",
            Error::UnknownCommand => "unknown command!",
            Error::NotFound => "value missing!",
            Error::HomeMissing => "$HOME missing!",
            Error::CreateDirFailed => "failed to create data path!",
            Error::OpenFailed => "failed to open file!",
            Error::ReadFailed => "failed to read file!",
            Error::WriteFailed => "failed to write data file!",
            Error::RenameFailed => "failed to update data file!",
        };
        String::from_str(s)
    }
}

} // verus!
