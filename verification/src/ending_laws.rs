//! What holds of the end of a session, of its texts and of its panes.

use vstd::prelude::*;
use vstd::string::*;

use crate::instructions::AppInstruction;
use crate::lifecycle::{ClosingStep, ClosingStepView};

verus! {

/// A number is written in decimal digits only, the first of them not zero unless the
/// number is zero itself.
pub proof fn law_decimal_is_written_plainly(value: nat)
    ensures
        crate::decimal::decimal(value).len() > 0,
        forall|i: int|
            0 <= i < crate::decimal::decimal(value).len() ==> '0' <= #[trigger] crate::decimal::decimal(
                value,
            )[i] <= '9',
        crate::decimal::decimal(value)[0] == '0' <==> value == 0,
    decreases value,
{
    if value >= 10 {
        law_decimal_is_written_plainly(value / 10);
    }
}

/// What is left on the terminal when a session fails: the cursor is sent to the first
/// column of the line whose number is that of the lines of the terminal, and below it
/// stands the backtrace, unchanged.
pub proof fn law_failure_shows_the_backtrace(rows: nat, backtrace: Seq<char>)
    ensures
        ({
            let text = crate::lifecycle::failure(rows, backtrace);
            let end = text.len() - backtrace.len() - 4;
            &&& end > 2
            &&& text[0] == '\u{1b}'
            &&& text[1] == '['
            &&& forall|i: int| 2 <= i < end ==> '0' <= #[trigger] text[i] <= '9'
            &&& crate::decimal::decimal_value(text.subrange(2, end)) == rows
            &&& text[2] == '0' <==> rows == 0
            &&& text[end] == ';'
            &&& text[end + 1] == '1'
            &&& text[end + 2] == 'H'
            &&& text[end + 3] == '\n'
            &&& text.skip(end + 4) == backtrace
        }),
{
    reveal_strlit("\u{1b}[");
    reveal_strlit(";1H");
    reveal_strlit("\n");
    let digits = crate::decimal::decimal(rows);
    let text = crate::lifecycle::failure(rows, backtrace);
    let end = text.len() - backtrace.len() - 4;
    law_decimal_is_written_plainly(rows);
    crate::decimal::lemma_decimal_reads_back(rows);
    assert(end == 2 + digits.len());
    assert(text.subrange(2, end) =~= digits);
    assert forall|i: int| 2 <= i < end implies '0' <= #[trigger] text[i] <= '9' by {
        assert(text[i] == digits[i - 2]);
    }
    assert(text[2] == digits[0]);
    assert(text.skip(end + 4) =~= backtrace);
}

/// What is left when a session ends as it should stands in the same place: the style
/// is reset, the cursor shown, and the session says goodbye.
pub proof fn law_goodbye_stands_where_a_backtrace_would(rows: nat)
    ensures
        crate::lifecycle::goodbye(rows) == crate::lifecycle::failure(
            rows,
            "\u{1b}[m"@ + "\u{1b}[?25h"@ + "Bye from Mosaic!"@,
        ),
{
    reveal_strlit("\n\u{1b}[m\u{1b}[?25hBye from Mosaic!");
    reveal_strlit("\n");
    reveal_strlit("\u{1b}[m");
    reveal_strlit("\u{1b}[?25h");
    reveal_strlit("Bye from Mosaic!");
    assert(crate::lifecycle::goodbye(rows) =~= crate::lifecycle::failure(
        rows,
        "\u{1b}[m"@ + "\u{1b}[?25h"@ + "Bye from Mosaic!"@,
    ));
}

/// One text is written at the end of a session: goodbye where it ends as it should,
/// and the backtrace where it fails.
pub proof fn law_one_text_is_written(instruction: AppInstruction, rows: nat)
    ensures
        ({
            let steps = crate::lifecycle::closing(instruction, rows);
            exists|at: int|
                {
                    &&& 0 <= at < steps.len()
                    &&& #[trigger] steps[at] == ClosingStepView::Write(
                        match instruction {
                            AppInstruction::Exit => crate::lifecycle::goodbye(rows),
                            AppInstruction::Error(backtrace) => crate::lifecycle::failure(
                                rows,
                                backtrace@,
                            ),
                        },
                    )
                    &&& forall|other: int|
                        0 <= other < steps.len() && other != at ==> steps[other] !is Write
                }
        }),
{
    let steps = crate::lifecycle::closing(instruction, rows);
    match instruction {
        AppInstruction::Exit => {
            assert(steps[4] == ClosingStepView::Write(crate::lifecycle::goodbye(rows)));
        },
        AppInstruction::Error(backtrace) => {
            assert(steps[3] == ClosingStepView::Write(
                crate::lifecycle::failure(rows, backtrace@),
            ));
        },
    }
}

/// A session that ends as it should first waits for its threads, and insists that
/// none of them panicked; what it wrote is flushed last. One that fails waits for them
/// when the backtrace is written, and does not insist.
pub proof fn law_threads_are_waited_for_in_time(instruction: AppInstruction, rows: nat)
    ensures
        ({
            let steps = crate::lifecycle::closing(instruction, rows);
            &&& forall|at: int|
                0 <= at < steps.len() && #[trigger] steps[at] is JoinThreads
                    ==> steps[at]->insist == (instruction is Exit)
            &&& instruction is Exit ==> forall|at: int, other: int|
                0 <= at < steps.len() && 0 <= other < steps.len() && #[trigger] steps[at]
                    is JoinThreads && (#[trigger] steps[other] is UnsetRawMode || steps[other]
                    is Write) ==> at < other
            &&& instruction is Error ==> forall|at: int, other: int|
                0 <= at < steps.len() && 0 <= other < steps.len() && #[trigger] steps[at]
                    is JoinThreads && (#[trigger] steps[other] is UnsetRawMode || steps[other]
                    is Write) ==> other < at
            &&& forall|at: int|
                0 <= at < steps.len() && #[trigger] steps[at] is Flush ==> at == steps.len() - 1
            &&& steps.last() is Flush <==> instruction is Exit
        }),
{
}

/// There are six things to do, each of another kind.
pub proof fn law_nothing_is_done_twice(instruction: AppInstruction, rows: nat)
    ensures
        ({
            let steps = crate::lifecycle::closing(instruction, rows);
            &&& steps.len() == 6
            &&& forall|one: int, other: int|
                0 <= one < other < steps.len() ==> #[trigger] steps[one] != #[trigger] steps[other]
        }),
{
}

/// In contracts a step is what it is, with all of its text.
pub proof fn law_step_is_seen_whole(step: ClosingStep)
    ensures
        step@ is TellScreenToQuit <==> step is TellScreenToQuit,
        step@ is TellTerminalsToQuit <==> step is TellTerminalsToQuit,
        step@ is UnsetRawMode <==> step is UnsetRawMode,
        step@ is Flush <==> step is Flush,
        step@ is ExitWithFailure <==> step is ExitWithFailure,
        step@ is JoinThreads <==> step is JoinThreads,
        step matches ClosingStep::JoinThreads { insist } ==> step@->insist == insist,
        step@ is Write <==> step is Write,
        step matches ClosingStep::Write(text) ==> step@->Write_0 == text@,
{
}

/// No pane disappears unnoticed: what was there and the new pane are what stays and,
/// in front of it, what is to be closed.
pub proof fn law_no_pane_disappears(panes: Seq<i32>, limit: Option<usize>, id: i32)
    ensures
        ({
            let to_close = if crate::panes::is_full(panes, limit) {
                seq![panes[0]]
            } else {
                Seq::empty()
            };
            to_close + crate::panes::opened(panes, limit, id) == panes.push(id)
        }),
{
    let to_close = if crate::panes::is_full(panes, limit) {
        seq![panes[0]]
    } else {
        Seq::empty()
    };
    assert(to_close + crate::panes::opened(panes, limit, id) =~= panes.push(id));
}

/// A pane is closed for another only where there are as many as there may be.
pub proof fn law_panes_are_closed_only_at_the_limit(panes: Seq<i32>, limit: Option<usize>)
    ensures
        limit is None ==> !crate::panes::is_full(panes, limit),
        limit matches Some(max) ==> (crate::panes::is_full(panes, limit) <==> panes.len() >= max
            && panes.len() >= 1),
{
}

} // verus!
