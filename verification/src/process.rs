//! The stand-in daemon of the tests, and the host that runs a daemon.

use vstd::prelude::*;

use crate::text::{numeral, parse_u64, same_text, texts};

pub mod laws;

verus! {

/// Why the arguments of the stand-in daemon are refused.
#[derive(Debug)]
pub enum ArgError {
    /// The option has no value.
    MissingValue,
    /// The value is not a number.
    BadValue(String),
}

/// The value of an [`ArgError`].
#[verifier::ext_equal]
pub enum ArgErrorView {
    MissingValue,
    BadValue(Seq<char>),
}

impl View for ArgError {
    type V = ArgErrorView;

    open spec fn view(&self) -> ArgErrorView {
        match self {
            ArgError::MissingValue => ArgErrorView::MissingValue,
            ArgError::BadValue(v) => ArgErrorView::BadValue(v@),
        }
    }
}

/// The time after which the stand-in daemon ends, as the arguments from position
/// `at` on tell it; `known` is what those before have told. The last option counts,
/// and other arguments are passed over.
pub open spec fn exit_after(args: Seq<Seq<char>>, at: int, known: Option<u64>) -> Result<Option<u64>, ArgErrorView>
    decreases args.len() - at,
{
    if at < 0 || at >= args.len() {
        Ok(known)
    } else if args[at] != "--exit-after-ms"@ {
        exit_after(args, at + 1, known)
    } else if at + 1 >= args.len() {
        Err(ArgErrorView::MissingValue)
    } else {
        match numeral(args[at + 1]) {
            Some(ms) => exit_after(args, at + 2, Some(ms)),
            None => Err(ArgErrorView::BadValue(args[at + 1])),
        }
    }
}

/// The time after which the stand-in daemon ends; without one it does not end by
/// itself.
pub fn parse_exit_after(args: &Vec<String>) -> (r: Result<Option<u64>, ArgError>)
    ensures
        match r {
            Ok(ms) => exit_after(texts(args@), 0, None) == Ok::<Option<u64>, ArgErrorView>(ms),
            Err(e) => exit_after(texts(args@), 0, None) == Err::<Option<u64>, ArgErrorView>(e@),
        },
{
    let ghost views = texts(args@);
    let mut known: Option<u64> = None;
    let mut i: usize = 0;
    while i < args.len()
        invariant
            i <= args.len(),
            views == texts(args@),
            exit_after(views, 0, None) == exit_after(views, i as int, known),
        decreases args.len() - i,
    {
        assert(views[i as int] == args@[i as int]@);
        if same_text(args[i].as_str(), "--exit-after-ms") {
            if i + 1 >= args.len() {
                return Err(ArgError::MissingValue);
            }
            assert(views[i + 1] == args@[i + 1]@);
            match parse_u64(args[i + 1].as_str()) {
                Some(ms) => {
                    known = Some(ms);
                },
                None => return Err(ArgError::BadValue(args[i + 1].clone())),
            }
            i += 2;
        } else {
            i += 1;
        }
    }
    Ok(known)
}

/// What a poll of a daemon that is to end leads to.
#[derive(Clone, Copy, Debug, PartialEq, Eq, Structural)]
pub enum ExitPoll {
    Exited,
    TimedOut,
    Again,
}

/// What a poll of a daemon that is to end leads to: an end counts also at the
/// deadline.
pub fn exit_poll(exited: bool, late: bool) -> (r: ExitPoll)
    ensures
        r == (if exited {
            ExitPoll::Exited
        } else if late {
            ExitPoll::TimedOut
        } else {
            ExitPoll::Again
        }),
{
    if exited {
        ExitPoll::Exited
    } else if late {
        ExitPoll::TimedOut
    } else {
        ExitPoll::Again
    }
}

} // verus!
