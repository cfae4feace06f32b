//! Running the commands of hooks, one turn at a time: the library says which
//! command to start, the caller starts it and reports how it ended, and the
//! library says what comes next.

use crate::error::{
    HookExecutionError, HookExecutionErrorView, HooksmithError, HooksmithErrorView,
};
use crate::messages::{
    command_failed_details, command_failed_details_text, spawn_failed_details,
    spawn_failed_details_text,
};
use crate::plan::{only_says, Action, ActionView};
use crate::utils::{
    add_step, message_with_suggestion_line, print_error, Error, Line, LineView,
};
use vstd::prelude::*;

verus! {

/// One entry of the script of a run.
#[derive(Debug, PartialEq, Eq)]
pub enum RunItem {
    /// Print a line.
    Say(Line),
    /// Start a command of a hook and wait for it to end.
    Spawn { hook: String, command: String },
    /// Give up with an error.
    Fail(HooksmithError),
}

/// The mathematical value of a [`RunItem`].
pub enum RunItemView {
    Say(LineView),
    Spawn { hook: Seq<char>, command: Seq<char> },
    Fail(HooksmithErrorView),
}

/// How a command ended.
#[derive(Debug, Clone, PartialEq, Eq)]
pub enum CommandOutcome {
    /// The command ran and ended, with its status code if it has one. It has
    /// none when a signal ended it.
    Exited(Option<i32>),
    /// The shell could not be started; holds the reason.
    NotStarted(String),
}

/// The mathematical value of a [`CommandOutcome`].
pub enum CommandOutcomeView {
    Exited(Option<i32>),
    NotStarted(Seq<char>),
}

/// A run that waits for the command it has asked for to end.
#[derive(Debug, PartialEq, Eq)]
pub struct Pending {
    items: Vec<RunItem>,
    at: usize,
}

/// The mathematical value of a [`Pending`]: the script, and the position of
/// the command that is awaited.
pub struct PendingView {
    pub items: Seq<RunItemView>,
    pub at: int,
}

/// What the caller does next.
#[derive(Debug, PartialEq, Eq)]
pub enum Next {
    /// Start the command in a shell, then resume the run with how it ended.
    Spawn { command: String, pending: Pending },
    /// Let the user pick among the choices, then go on with what was picked.
    Ask { question: String, choices: Vec<String> },
    /// Let the user say yes or no, then go on with the answer. Without an
    /// answer it is no.
    Confirm { question: String },
    /// The run is over, with this result.
    Finished(Result<(), HooksmithError>),
}

/// The mathematical value of a [`Next`].
pub enum NextView {
    Spawn { command: Seq<char>, pending: PendingView },
    Ask { question: Seq<char>, choices: Seq<Seq<char>> },
    Confirm { question: Seq<char> },
    Finished(Result<(), HooksmithErrorView>),
}

/// One turn of a run: lines to print, then what to do next.
#[derive(Debug, PartialEq, Eq)]
pub struct Turn {
    pub steps: Vec<Action>,
    pub next: Next,
}

/// The mathematical value of a [`Turn`].
pub struct TurnView {
    pub steps: Seq<ActionView>,
    pub next: NextView,
}

impl View for RunItem {
    type V = RunItemView;

    open spec fn view(&self) -> RunItemView {
        match self {
            RunItem::Say(line) => RunItemView::Say(line@),
            RunItem::Spawn { hook, command } => RunItemView::Spawn {
                hook: hook@,
                command: command@,
            },
            RunItem::Fail(error) => RunItemView::Fail(error@),
        }
    }
}

impl DeepView for RunItem {
    type V = RunItemView;

    open spec fn deep_view(&self) -> RunItemView {
        self@
    }
}

impl View for CommandOutcome {
    type V = CommandOutcomeView;

    open spec fn view(&self) -> CommandOutcomeView {
        match self {
            CommandOutcome::Exited(code) => CommandOutcomeView::Exited(*code),
            CommandOutcome::NotStarted(reason) => CommandOutcomeView::NotStarted(reason@),
        }
    }
}

impl DeepView for CommandOutcome {
    type V = CommandOutcomeView;

    open spec fn deep_view(&self) -> CommandOutcomeView {
        self@
    }
}

impl View for Pending {
    type V = PendingView;

    closed spec fn view(&self) -> PendingView {
        PendingView { items: self.items.deep_view(), at: self.at as int }
    }
}

impl View for Next {
    type V = NextView;

    open spec fn view(&self) -> NextView {
        match self {
            Next::Spawn { command, pending } => NextView::Spawn {
                command: command@,
                pending: pending@,
            },
            Next::Ask { question, choices } => NextView::Ask {
                question: question@,
                choices: choices.deep_view(),
            },
            Next::Confirm { question } => NextView::Confirm { question: question@ },
            Next::Finished(result) => NextView::Finished(crate::error::result_view(*result)),
        }
    }
}

impl View for Turn {
    type V = TurnView;

    open spec fn view(&self) -> TurnView {
        TurnView { steps: self.steps.deep_view(), next: self.next@ }
    }
}

/// Whether a command ended well: it ran and its status code is zero.
pub open spec fn succeeded(outcome: CommandOutcomeView) -> bool {
    outcome == CommandOutcomeView::Exited(Some(0i32))
}

/// The status code that stands for a command that ended badly: its own, or
/// one where it has none.
pub open spec fn failure_code(code: Option<i32>) -> i32 {
    match code {
        Some(code) => code,
        None => 1,
    }
}

/// The error that a command that did not end well leaves behind.
pub open spec fn failure_of(outcome: CommandOutcomeView) -> HooksmithErrorView {
    match outcome {
        CommandOutcomeView::Exited(code) => HooksmithErrorView::HookExecution(
            HookExecutionErrorView::CommandFailed(failure_code(code)),
        ),
        CommandOutcomeView::NotStarted(reason) => HooksmithErrorView::HookExecution(
            HookExecutionErrorView::Command(reason),
        ),
    }
}

/// What is said of a command of a hook that did not end well.
pub open spec fn failure_line(hook: Seq<char>, outcome: CommandOutcomeView) -> LineView {
    match outcome {
        CommandOutcomeView::Exited(code) => message_with_suggestion_line::<Error>(
            "Command failed"@,
            command_failed_details_text(hook, failure_code(code) as int),
            "Please check your command and try again."@,
        ),
        CommandOutcomeView::NotStarted(reason) => message_with_suggestion_line::<Error>(
            "Failed to execute command"@,
            spawn_failed_details_text(reason),
            "Please ensure the command exists and is executable."@,
        ),
    }
}

/// The turn that begins at a position of a script: the lines up to the next
/// command or failure are printed; then the command is asked for, or the run
/// is over, with the failure or, at the end of the script, with success.
pub open spec fn turn_from(items: Seq<RunItemView>, from: int) -> TurnView
    decreases items.len() - from,
{
    if from < 0 || from >= items.len() {
        TurnView { steps: Seq::empty(), next: NextView::Finished(Ok(())) }
    } else {
        match items[from] {
            RunItemView::Say(line) => {
                let rest = turn_from(items, from + 1);
                TurnView { steps: seq![ActionView::Say(line)] + rest.steps, next: rest.next }
            },
            RunItemView::Spawn { hook, command } => TurnView {
                steps: Seq::empty(),
                next: NextView::Spawn { command, pending: PendingView { items, at: from } },
            },
            RunItemView::Fail(error) => TurnView {
                steps: Seq::empty(),
                next: NextView::Finished(Err(error)),
            },
        }
    }
}

/// The turn after a command has ended. Where it ended well the run goes on
/// behind it. Where it did not, that is said on the error stream and the run
/// is over with the error: nothing that follows in the script is started.
pub open spec fn resumed(pending: PendingView, outcome: CommandOutcomeView) -> TurnView {
    if succeeded(outcome) {
        turn_from(pending.items, pending.at + 1)
    } else {
        TurnView {
            steps: seq![
                ActionView::Say(failure_line(pending.items[pending.at]->hook, outcome)),
            ],
            next: NextView::Finished(Err(failure_of(outcome))),
        }
    }
}

/// A turn only prints: none of its steps changes anything on disk.
pub proof fn lemma_turn_only_says(items: Seq<RunItemView>, from: int)
    ensures
        only_says(turn_from(items, from).steps),
    decreases items.len() - from,
{
    if 0 <= from < items.len() {
        if items[from] is Say {
            lemma_turn_only_says(items, from + 1);
        }
    }
}

/// The commands that a script starts if each of them ends well, in order:
/// those up to the first failure of the script.
pub open spec fn planned(items: Seq<RunItemView>) -> Seq<Seq<char>>
    decreases items.len(),
{
    if items.len() == 0 {
        Seq::empty()
    } else {
        match items[0] {
            RunItemView::Say(line) => planned(items.drop_first()),
            RunItemView::Spawn { hook, command } => seq![command] + planned(items.drop_first()),
            RunItemView::Fail(error) => Seq::empty(),
        }
    }
}

/// How a script ends if each of its commands ends well: with its first
/// failure, or with success if it has none.
pub open spec fn verdict(items: Seq<RunItemView>) -> Result<(), HooksmithErrorView>
    decreases items.len(),
{
    if items.len() == 0 {
        Ok(())
    } else {
        match items[0] {
            RunItemView::Fail(error) => Err(error),
            _ => verdict(items.drop_first()),
        }
    }
}

/// What a run has come to: the commands that were started, in order, and
/// the result, once the run is over.
pub struct RunTrace {
    pub started: Seq<Seq<char>>,
    pub result: Option<Result<(), HooksmithErrorView>>,
}

/// How a run goes from a turn on, when the commands that it starts end as
/// the given outcomes say, the first outcome being that of the first
/// command. Where the outcomes run out the run is not over.
pub open spec fn run_trace(turn: TurnView, outcomes: Seq<CommandOutcomeView>) -> RunTrace
    decreases outcomes.len(),
{
    match turn.next {
        NextView::Spawn { command, pending } => if outcomes.len() == 0 {
            RunTrace { started: seq![command], result: None }
        } else {
            let rest = run_trace(resumed(pending, outcomes[0]), outcomes.drop_first());
            RunTrace { started: seq![command] + rest.started, result: rest.result }
        },
        NextView::Finished(result) => RunTrace { started: Seq::empty(), result: Some(result) },
        _ => RunTrace { started: Seq::empty(), result: None },
    }
}

/// A turn asks for the first command that the rest of the script plans, or,
/// where it plans none, ends the run as the rest of the script ends.
pub proof fn lemma_turn_follows_script(items: Seq<RunItemView>, from: int)
    requires
        0 <= from <= items.len(),
    ensures
        planned(items.skip(from)).len() == 0 ==> turn_from(items, from).next == NextView::Finished(
            verdict(items.skip(from)),
        ),
        planned(items.skip(from)).len() > 0 ==> (turn_from(items, from).next matches NextView::Spawn {
            command,
            pending,
        } && {
            &&& command == planned(items.skip(from))[0]
            &&& pending.items == items
            &&& from <= pending.at < items.len()
            &&& items[pending.at] is Spawn
            &&& planned(items.skip(pending.at + 1)) == planned(items.skip(from)).drop_first()
            &&& verdict(items.skip(pending.at + 1)) == verdict(items.skip(from))
        }),
    decreases items.len() - from,
{
    let rest = items.skip(from);
    if from < items.len() {
        assert(rest[0] == items[from]);
        assert(rest.drop_first() =~= items.skip(from + 1));
        match items[from] {
            RunItemView::Say(line) => {
                lemma_turn_follows_script(items, from + 1);
            },
            RunItemView::Spawn { hook, command } => {
                assert((seq![command] + planned(items.skip(from + 1))).drop_first() =~= planned(
                    items.skip(from + 1),
                ));
            },
            RunItemView::Fail(error) => {},
        }
    }
}

/// A run whose commands all end well starts every command that its script
/// plans, in order, and ends as the script ends.
pub proof fn lemma_run_to_the_end(
    items: Seq<RunItemView>,
    from: int,
    outcomes: Seq<CommandOutcomeView>,
)
    requires
        0 <= from <= items.len(),
        forall|j: int| 0 <= j < outcomes.len() ==> succeeded(#[trigger] outcomes[j]),
        outcomes.len() >= planned(items.skip(from)).len(),
    ensures
        run_trace(turn_from(items, from), outcomes) == (RunTrace {
            started: planned(items.skip(from)),
            result: Some(verdict(items.skip(from))),
        }),
    decreases outcomes.len(),
{
    lemma_turn_follows_script(items, from);
    let turn = turn_from(items, from);
    let all = planned(items.skip(from));
    let trace = run_trace(turn, outcomes);
    if all.len() > 0 {
        let pending = turn.next->Spawn_pending;
        let command = turn.next->Spawn_command;
        let later = outcomes.drop_first();
        assert forall|j: int| 0 <= j < later.len() implies succeeded(#[trigger] later[j]) by {
            assert(later[j] == outcomes[j + 1]);
        }
        assert(succeeded(outcomes[0]));
        assert(resumed(pending, outcomes[0]) == turn_from(items, pending.at + 1));
        lemma_run_to_the_end(items, pending.at + 1, later);
        let rest = run_trace(turn_from(items, pending.at + 1), later);
        assert(rest.started == all.drop_first());
        assert(trace.started == seq![command] + rest.started);
        assert(seq![command] + all.drop_first() =~= all);
        assert(trace.result == rest.result);
    } else {
        assert(trace.started =~= all);
    }
}

/// A run halts at the first command that does not end well: it has started
/// the commands that its script plans up to that one, starts none after
/// it, and ends with the error of that command.
pub proof fn lemma_run_halts_at_first_failure(
    items: Seq<RunItemView>,
    from: int,
    outcomes: Seq<CommandOutcomeView>,
    k: int,
)
    requires
        0 <= from <= items.len(),
        0 <= k < outcomes.len(),
        k < planned(items.skip(from)).len(),
        forall|j: int| 0 <= j < k ==> succeeded(#[trigger] outcomes[j]),
        !succeeded(outcomes[k]),
    ensures
        run_trace(turn_from(items, from), outcomes) == (RunTrace {
            started: planned(items.skip(from)).take(k + 1),
            result: Some(Err(failure_of(outcomes[k]))),
        }),
    decreases k,
{
    lemma_turn_follows_script(items, from);
    let turn = turn_from(items, from);
    let pending = turn.next->Spawn_pending;
    let command = turn.next->Spawn_command;
    let all = planned(items.skip(from));
    if k == 0 {
        assert(run_trace(resumed(pending, outcomes[0]), outcomes.drop_first()).started
            =~= Seq::<Seq<char>>::empty());
        assert(seq![command] + Seq::<Seq<char>>::empty() =~= all.take(1));
    } else {
        assert(succeeded(outcomes[0]));
        assert forall|j: int| 0 <= j < k - 1 implies succeeded(
            #[trigger] outcomes.drop_first()[j],
        ) by {
            assert(outcomes.drop_first()[j] == outcomes[j + 1]);
        }
        assert(outcomes.drop_first()[k - 1] == outcomes[k]);
        lemma_run_halts_at_first_failure(items, pending.at + 1, outcomes.drop_first(), k - 1);
        assert(seq![command] + all.drop_first().take(k) =~= all.take(k + 1));
    }
}

/// Whether a script holds no failure.
pub open spec fn never_fails(items: Seq<RunItemView>) -> bool {
    forall|i: int| 0 <= i < items.len() ==> !((#[trigger] items[i]) is Fail)
}

/// Where a script that holds no failure is followed by another, the
/// commands of both are planned, and the whole ends as the second ends.
pub proof fn lemma_script_concat(first: Seq<RunItemView>, then: Seq<RunItemView>)
    requires
        never_fails(first),
    ensures
        planned(first + then) == planned(first) + planned(then),
        verdict(first + then) == verdict(then),
    decreases first.len(),
{
    if first.len() == 0 {
        assert(first + then =~= then);
        assert(planned(first) + planned(then) =~= planned(then));
    } else {
        let whole = first + then;
        assert(whole[0] == first[0]);
        assert(whole.drop_first() =~= first.drop_first() + then);
        assert(!(first[0] is Fail));
        assert forall|i: int| 0 <= i < first.drop_first().len() implies !((
        #[trigger] first.drop_first()[i]) is Fail) by {
            assert(first.drop_first()[i] == first[i + 1]);
        }
        lemma_script_concat(first.drop_first(), then);
        match first[0] {
            RunItemView::Spawn { hook, command } => {
                assert(seq![command] + (planned(first.drop_first()) + planned(then)) =~= (
                seq![command] + planned(first.drop_first())) + planned(then));
            },
            _ => {},
        }
    }
}

fn copy_line(line: &Line) -> (copy: Line)
    ensures
        copy@ == line@,
{
    Line { to_stderr: line.to_stderr, text: line.text.clone() }
}

/// Begins the turn at a position of a script.
pub fn advance(items: Vec<RunItem>, from: usize) -> (turn: Turn)
    ensures
        turn@ == turn_from(items.deep_view(), from as int),
{
    let mut steps: Vec<Action> = Vec::new();
    let mut at: usize = from;
    assert(steps.deep_view() =~= Seq::<ActionView>::empty());
    while at < items.len()
        invariant
            from <= at,
            steps.deep_view() + turn_from(items.deep_view(), at as int).steps == turn_from(
                items.deep_view(),
                from as int,
            ).steps,
            turn_from(items.deep_view(), at as int).next == turn_from(
                items.deep_view(),
                from as int,
            ).next,
        decreases items.len() - at,
    {
        let ghost script = items.deep_view();
        assert(script[at as int] == items[at as int]@);
        match &items[at] {
            RunItem::Say(line) => {
                let ghost before = steps.deep_view();
                add_step(&mut steps, Action::Say(copy_line(line)));
                assert(before.push(ActionView::Say(line@)) + turn_from(script, at + 1).steps
                    =~= before + turn_from(script, at as int).steps);
                at += 1;
            },
            RunItem::Spawn { hook, command } => {
                let command = command.clone();
                assert(steps.deep_view() =~= turn_from(script, from as int).steps);
                let pending = Pending { items, at };
                return Turn { steps, next: Next::Spawn { command, pending } };
            },
            RunItem::Fail(error) => {
                let result = Err(error.duplicate());
                assert(steps.deep_view() =~= turn_from(script, from as int).steps);
                return Turn { steps, next: Next::Finished(result) };
            },
        }
    }
    assert(steps.deep_view() =~= turn_from(items.deep_view(), from as int).steps);
    Turn { steps, next: Next::Finished(Ok(())) }
}

impl Pending {
    #[verifier::type_invariant]
    spec fn awaits(self) -> bool {
        &&& self.at < self.items.len()
        &&& self.items[self.at as int] is Spawn
    }

    /// Goes on with the run after the awaited command has ended.
    pub fn resume(self, outcome: CommandOutcome) -> (turn: Turn)
        ensures
            turn@ == resumed(self@, outcome@),
    {
        proof {
            use_type_invariant(&self);
            assert(self@.items[self@.at] == self.items[self.at as int]@);
        }
        let Pending { items, at } = self;
        match outcome {
            CommandOutcome::Exited(Some(0)) => advance(items, at + 1),
            CommandOutcome::Exited(code) => {
                let code = match code {
                    Some(code) => code,
                    None => 1,
                };
                let mut steps: Vec<Action> = Vec::new();
                assert(steps.deep_view() =~= Seq::<ActionView>::empty());
                match &items[at] {
                    RunItem::Spawn { hook, command } => {
                        let details = command_failed_details(hook.as_str(), code);
                        print_error(
                            &mut steps,
                            "Command failed",
                            details.as_str(),
                            "Please check your command and try again.",
                        );
                    },
                    _ => {},
                }
                assert(steps.deep_view() =~= resumed(self@, outcome@).steps);
                Turn {
                    steps,
                    next: Next::Finished(
                        Err(HooksmithError::HookExecution(HookExecutionError::CommandFailed(code))),
                    ),
                }
            },
            CommandOutcome::NotStarted(reason) => {
                let mut steps: Vec<Action> = Vec::new();
                assert(steps.deep_view() =~= Seq::<ActionView>::empty());
                let details = spawn_failed_details(reason.as_str());
                print_error(
                    &mut steps,
                    "Failed to execute command",
                    details.as_str(),
                    "Please ensure the command exists and is executable.",
                );
                assert(steps.deep_view() =~= resumed(self@, outcome@).steps);
                Turn {
                    steps,
                    next: Next::Finished(
                        Err(HooksmithError::HookExecution(HookExecutionError::Command(reason))),
                    ),
                }
            },
        }
    }
}

} // verus!
