//! What the arguments of the stand-in daemon say.

use vstd::prelude::*;

use crate::process::{exit_after, ArgErrorView};
use crate::text::numeral;

verus! {

/// The option sets the time after which the daemon ends, whatever arguments stand before it and
/// were set before; an argument that is not the option changes nothing.
pub proof fn the_option_sets_the_time(
    args: Seq<Seq<char>>,
    at: int,
    known: Option<u64>,
    milliseconds: u64,
)
    requires
        0 <= at < args.len(),
    ensures
        args[at] != "--exit-after-ms"@ ==> exit_after(args, at, known) == exit_after(args, at + 1, known),
        args[at] == "--exit-after-ms"@ && at + 1 < args.len() && numeral(args[at + 1]) == Some(
            milliseconds,
        ) ==> exit_after(args, at, known) == exit_after(args, at + 2, Some(milliseconds)),
        args[at] == "--exit-after-ms"@ && at + 2 == args.len() && numeral(args[at + 1]) == Some(
            milliseconds,
        ) ==> exit_after(args, at, known) == Ok::<Option<u64>, ArgErrorView>(Some(milliseconds)),
        args[at] == "--exit-after-ms"@ && at + 1 < args.len() && numeral(args[at + 1]) is None
            ==> exit_after(args, at, known) == Err::<Option<u64>, ArgErrorView>(
            ArgErrorView::BadValue(args[at + 1]),
        ),
        args[at] == "--exit-after-ms"@ && at + 1 == args.len() ==> exit_after(args, at, known) == Err::<
            Option<u64>,
            ArgErrorView,
        >(ArgErrorView::MissingValue),
        exit_after(args, args.len() as int, known) == Ok::<Option<u64>, ArgErrorView>(known),
{
}

/// Without the option no time is set.
pub proof fn no_option_sets_no_time(args: Seq<Seq<char>>, at: int)
    requires
        0 <= at <= args.len(),
        forall|i: int| at <= i < args.len() ==> #[trigger] args[i] != "--exit-after-ms"@,
    ensures
        exit_after(args, at, None) == Ok::<Option<u64>, ArgErrorView>(None),
    decreases args.len() - at,
{
    if at < args.len() {
        no_option_sets_no_time(args, at + 1);
    }
}

} // verus!
