use vstd::prelude::*;

use crate::error::{message_of, Error};

verus! {

/// The directory that holds the store: `$XDG_DATA_HOME/wysiwyg` when that
/// variable is set and non-empty, else `$HOME/.local/share/wysiwyg` when
/// `HOME` is set and non-empty.
pub open spec fn data_dir_spec(xdg_data_home: Option<Seq<char>>, home: Option<Seq<char>>) -> Result<
    Seq<char>,
    Error,
> {
    if xdg_data_home is Some && xdg_data_home->Some_0.len() > 0 {
        Ok(xdg_data_home->Some_0 + "/wysiwyg"@)
    } else if home is Some && home->Some_0.len() > 0 {
        Ok(home->Some_0 + "/.local/share/wysiwyg"@)
    } else {
        Err(Error::HomeMissing)
    }
}

/// The text of an optional string.
pub open spec fn opt_view(s: Option<String>) -> Option<Seq<char>> {
    match s {
        Some(t) => Some(t@),
        None => None,
    }
}

/// Chooses the data directory from the values of `XDG_DATA_HOME` and `HOME`.
pub fn data_dir(xdg_data_home: Option<String>, home: Option<String>) -> (r: Result<String, Error>)
    ensures
        match r {
            Ok(d) => data_dir_spec(opt_view(xdg_data_home), opt_view(home)) == Ok::<
                Seq<char>,
                Error,
            >(d@),
            Err(e) => data_dir_spec(opt_view(xdg_data_home), opt_view(home)) == Err::<
                Seq<char>,
                Error,
            >(e),
        },
{
    if let Some(base) = xdg_data_home {
        if base.as_str().unicode_len() > 0 {
            return Ok(base.concat("/wysiwyg"));
        }
    }
    if let Some(base) = home {
        if base.as_str().unicode_len() > 0 {
            return Ok(base.concat("/.local/share/wysiwyg"));
        }
    }
    Err(Error::HomeMissing)
}

/// What a failed invocation writes to the error stream, and its exit code.
pub struct Failure {
    /// The line for the error stream.
    pub text: String,
    /// The process exit code.
    pub exit_code: i32,
}

/// Reports a failure: the message itself only when `show_message` is set,
/// else `?`; exit code 1 only when `nonzero_exit` is set, else 0.
pub fn failure_report(error: Error, show_message: bool, nonzero_exit: bool) -> (r: Failure)
    ensures
        r.text@ == (if show_message {
            message_of(error)
        } else {
            "?"@
        }),
        r.exit_code == (if nonzero_exit {
            1i32
        } else {
            0i32
        }),
{
    let text = if show_message {
        error.message()
    } else {
        String::from_str("?")
    };
    let exit_code: i32 = if nonzero_exit {
        1
    } else {
        0
    };
    Failure { text, exit_code }
}

} // verus!
