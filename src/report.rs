//! The lines in which an error is reported together with its chain of causes.
use vstd::prelude::*;
use vstd::string::StringExecFns;

verus! {

/// Put before the error itself when causes follow it.
pub const HEAD_PREFIX: &'static str = "           ";

/// Put before each cause.
pub const CAUSE_PREFIX: &'static str = "caused by: ";

/// The report of an error whose chain of messages, the error's own first and
/// then each cause in turn, is `messages`: a lone message stands alone; with
/// causes, the first line is padded to line up with the `caused by: ` lines.
pub open spec fn report_lines(messages: Seq<Seq<char>>) -> Seq<Seq<char>> {
    if messages.len() <= 1 {
        messages
    } else {
        Seq::new(
            messages.len(),
            |i: int|
                if i == 0 {
                    HEAD_PREFIX@ + messages[0]
                } else {
                    CAUSE_PREFIX@ + messages[i]
                },
        )
    }
}

/// Builds the lines that report an error with its causes, from the chain of
/// their messages.
pub fn error_report_lines(messages: &Vec<String>) -> (r: Vec<String>)
    ensures
        r@.len() == messages@.len(),
        forall|i: int|
            0 <= i < r@.len() ==> #[trigger] r@[i]@ == report_lines(
                messages@.map_values(|m: String| m@),
            )[i],
{
    let ghost views = messages@.map_values(|m: String| m@);
    let mut lines: Vec<String> = Vec::new();
    let n = messages.len();
    let mut i: usize = 0;
    while i < n
        invariant
            n == messages@.len(),
            views == messages@.map_values(|m: String| m@),
            i <= n,
            lines@.len() == i,
            forall|j: int| 0 <= j < i ==> #[trigger] lines@[j]@ == report_lines(views)[j],
        decreases n - i,
    {
        let line = if n <= 1 {
            messages[i].clone()
        } else if i == 0 {
            <String as StringExecFns>::from_str(HEAD_PREFIX).concat(messages[i].as_str())
        } else {
            <String as StringExecFns>::from_str(CAUSE_PREFIX).concat(messages[i].as_str())
        };
        lines.push(line);
        i = i + 1;
    }
    lines
}

} // verus!
