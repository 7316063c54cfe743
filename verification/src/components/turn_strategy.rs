//! The strategies that come with the game. The code of an AI is run by an
//! interpreter that stands outside: here is what the interpreter is handed,
//! and what is made of what it hands back.

use crate::entity::game_actions::Action;
use crate::exceptions::{RtsException, RtsExceptionView};
use crate::hooks::{calculate_hash, text_hash};
use crate::text::{decimal, to_decimal};
use vstd::prelude::*;
use vstd::string::StringExecFns;

verus! {

/// Where the actions of a player come from.
pub enum TurnStrategy {
    /// Python code with a function `ai`, which returns a list of
    /// dictionaries, each with the type of an action under the key `type`.
    AI(String),
    /// A strategy that never asks for anything.
    Dummy,
}

/// What the interpreter is handed to run the code of an AI: the code, and the
/// names under which it is compiled. Only `TurnStrategy::prepare` makes one.
pub struct AiCall {
    code: String,
    file_name: String,
    module_name: String,
}

/// A call of the interpreter as plain values.
pub struct AiCallView {
    pub code: Seq<char>,
    pub file_name: Seq<char>,
    pub module_name: Seq<char>,
}

impl View for AiCall {
    type V = AiCallView;

    closed spec fn view(&self) -> AiCallView {
        AiCallView { code: self.code@, file_name: self.file_name@, module_name: self.module_name@ }
    }
}

/// What the interpreter hands back.
pub enum AiOutcome {
    /// The code did not compile. Holds the reason.
    NotCompiled(String),
    /// The call of `ai` raised, or what it returned had another shape than a
    /// list of dictionaries with a string under `type`. Holds the report.
    Raised(String),
    /// `ai` returned. Holds the type of every action it asked for, in order.
    Answered(Vec<String>),
}

/// What the interpreter hands back, as plain values.
pub enum AiOutcomeView {
    NotCompiled(Seq<char>),
    Raised(Seq<char>),
    Answered(Seq<Seq<char>>),
}

impl View for AiOutcome {
    type V = AiOutcomeView;

    open spec fn view(&self) -> AiOutcomeView {
        match self {
            AiOutcome::NotCompiled(reason) => AiOutcomeView::NotCompiled(reason@),
            AiOutcome::Raised(report) => AiOutcomeView::Raised(report@),
            AiOutcome::Answered(types) => AiOutcomeView::Answered(type_names(types@)),
        }
    }
}

/// Where a request for actions stands before any interpreter is asked.
pub enum Request {
    /// The strategy needs no interpreter: these are the actions it asks for.
    Settled(Vec<Action>),
    /// The interpreter is to make this call, and `AiCall::conclude` is to be
    /// told what came of it.
    Pending(AiCall),
}

/// The name of the module that code is compiled to: its hash in decimal
/// notation.
pub open spec fn module_name_of(code: Seq<char>) -> Seq<char> {
    decimal(text_hash(code) as int)
}

/// The name of the file that code is compiled under: the name of its module
/// with the ending of a Python file.
pub open spec fn file_name_of(code: Seq<char>) -> Seq<char> {
    module_name_of(code) + ".py"@
}

/// The call that runs the given code.
pub open spec fn call_of(code: Seq<char>) -> AiCallView {
    AiCallView { code, file_name: file_name_of(code), module_name: module_name_of(code) }
}

/// The actions of an answer, or its error, as plain values.
pub open spec fn actions_view(answer: Result<Vec<Action>, RtsException>) -> Result<
    Seq<Action>,
    RtsExceptionView,
> {
    match answer {
        Ok(actions) => Ok(actions@),
        Err(e) => Err(e@),
    }
}

/// The action of a turn, or its error, as plain values.
pub open spec fn action_view(answer: Result<Action, RtsException>) -> Result<
    Action,
    RtsExceptionView,
> {
    match answer {
        Ok(action) => Ok(action),
        Err(e) => Err(e@),
    }
}

/// What a call comes to, given what the interpreter handed back.
///
/// Code that did not compile is reported under the name of its module and
/// with the reason. A call that raised is reported with what the interpreter
/// said. An answer is read from the names of its types, in order; one name
/// that stands for no action refuses the whole answer.
pub open spec fn concluded(call: AiCallView, outcome: AiOutcomeView) -> Result<
    Seq<Action>,
    RtsExceptionView,
> {
    match outcome {
        AiOutcomeView::NotCompiled(reason) => Err(
            RtsExceptionView::PythonCompileCodeException(
                compile_failure_message(call.module_name, reason),
            ),
        ),
        AiOutcomeView::Raised(report) => Err(RtsExceptionView::PythonException(report)),
        AiOutcomeView::Answered(types) => match actions_of(types) {
            Some(actions) => Ok(actions),
            None => Err(RtsExceptionView::PythonException("Unknown action type"@)),
        },
    }
}

/// The action of a turn among the actions of an answer: the first. An answer
/// without actions has failed, and an error stays the error it is.
pub open spec fn first_of(answer: Result<Seq<Action>, RtsExceptionView>) -> Result<
    Action,
    RtsExceptionView,
> {
    match answer {
        Ok(actions) => if actions.len() > 0 {
            Ok(actions[0])
        } else {
            Err(RtsExceptionView::GeneralException(no_action_message()))
        },
        Err(e) => Err(e),
    }
}

/// The actions that a list of type names stands for, if every name stands
/// for one.
pub open spec fn actions_of(types: Seq<Seq<char>>) -> Option<Seq<Action>>
    decreases types.len(),
{
    if types.len() == 0 {
        Some(Seq::empty())
    } else {
        match (actions_of(types.drop_last()), Action::of_type(types.last())) {
            (Some(actions), Some(action)) => Some(actions.push(action)),
            _ => None,
        }
    }
}

/// What is reported when code does not compile.
pub open spec fn compile_failure_message(hash: Seq<char>, reason: Seq<char>) -> Seq<char> {
    "Couldn't compile "@ + hash + ": "@ + reason
}

/// What is reported when a strategy has no action to ask for.
pub open spec fn no_action_message() -> Seq<char> {
    "The strategy asked for no action"@
}

/// The type names of a list of strings.
pub open spec fn type_names(types: Seq<String>) -> Seq<Seq<char>> {
    Seq::new(types.len(), |i: int| types[i]@)
}

/// Reads the actions that an AI asked for from the names of their types, in
/// order. One name that stands for no action refuses the whole list.
pub fn read_actions(types: &Vec<String>) -> (result: Result<Vec<Action>, RtsException>)
    ensures
        match actions_of(type_names(types@)) {
            Some(actions) => result matches Ok(read) && read@ == actions,
            None => result matches Err(e) && e@ == RtsExceptionView::PythonException(
                "Unknown action type"@,
            ),
        },
{
    let mut actions: Vec<Action> = Vec::new();
    let mut i: usize = 0;
    while i < types.len()
        invariant
            i <= types@.len(),
            actions_of(type_names(types@).take(i as int)) == Some(actions@),
        decreases types.len() - i,
    {
        proof {
            let names = type_names(types@);
            assert(names.take(i + 1).drop_last() =~= names.take(i as int));
            assert(names.take(i + 1).last() == types@[i as int]@);
        }
        match Action::extract(types[i].as_str()) {
            Ok(action) => {
                actions.push(action);
            },
            Err(e) => {
                proof {
                    lemma_unknown_type_refuses(type_names(types@), i as int);
                }
                return Err(e);
            },
        }
        i += 1;
    }
    proof {
        assert(type_names(types@).take(i as int) =~= type_names(types@));
    }
    Ok(actions)
}

/// A list of type names with one that stands for no action stands for no
/// list of actions.
pub proof fn lemma_unknown_type_refuses(types: Seq<Seq<char>>, at: int)
    requires
        0 <= at < types.len(),
        Action::of_type(types[at]) is None,
    ensures
        actions_of(types) is None,
    decreases types.len(),
{
    if at < types.len() - 1 {
        lemma_unknown_type_refuses(types.drop_last(), at);
    }
}

/// The error for code that does not compile: it names the code by its hash
/// and gives the reason.
pub fn compile_failure(hash: &str, reason: &str) -> (error: RtsException)
    ensures
        error@ == RtsExceptionView::PythonCompileCodeException(
            compile_failure_message(hash@, reason@),
        ),
{
    let mut message = String::from_str("Couldn't compile ");
    message.append(hash);
    message.append(": ");
    message.append(reason);
    RtsException::PythonCompileCodeException(message)
}

/// The action of a turn among those that a strategy asked for: the first.
/// A strategy that asked for none has failed.
pub fn first_action(actions: &Vec<Action>) -> (result: Result<Action, RtsException>)
    ensures
        actions@.len() > 0 ==> result == Ok::<Action, RtsException>(actions@[0]),
        actions@.len() == 0 ==> (result matches Err(e) && e@ == RtsExceptionView::GeneralException(
            no_action_message(),
        )),
{
    if actions.len() > 0 {
        Ok(actions[0])
    } else {
        Err(RtsException::GeneralException(String::from_str("The strategy asked for no action")))
    }
}

/// The action of a turn, given every action that a strategy asked for or the
/// error that it failed with: the first action, or that error. A strategy
/// that asked for no action has failed.
pub fn action_of_turn(answer: Result<Vec<Action>, RtsException>) -> (result: Result<
    Action,
    RtsException,
>)
    ensures
        action_view(result) == first_of(actions_view(answer)),
{
    match answer {
        Ok(actions) => first_action(&actions),
        Err(e) => Err(e),
    }
}

impl TurnStrategy {
    /// Begins a request for the actions of a turn. `Dummy` asks for none,
    /// and that is settled at once. The code of an `AI` is to be run: the
    /// call says under which names, both made of the hash of the code.
    pub fn prepare(&self) -> (request: Request)
        ensures
            match self {
                TurnStrategy::AI(code) => request matches Request::Pending(call) && call@
                    == call_of(code@),
                TurnStrategy::Dummy => request matches Request::Settled(actions) && actions@
                    == Seq::<Action>::empty(),
            },
    {
        match &self {
            TurnStrategy::AI(code) => {
                let module_name = to_decimal(calculate_hash(code.as_str()) as i128);
                let mut file_name = module_name.clone();
                file_name.append(".py");
                Request::Pending(AiCall { code: code.clone(), file_name, module_name })
            },
            TurnStrategy::Dummy => Request::Settled(Vec::new()),
        }
    }
}

impl AiCall {
    /// The code to run.
    pub fn get_code(&self) -> (code: &str)
        ensures
            code@ == self@.code,
    {
        self.code.as_str()
    }

    /// The name of the file to compile the code under.
    pub fn get_file_name(&self) -> (file_name: &str)
        ensures
            file_name@ == self@.file_name,
    {
        self.file_name.as_str()
    }

    /// The name of the module to compile the code to.
    pub fn get_module_name(&self) -> (module_name: &str)
        ensures
            module_name@ == self@.module_name,
    {
        self.module_name.as_str()
    }

    /// Every action that the AI asks for, in its order, given what the
    /// interpreter handed back for this call.
    pub fn conclude(&self, outcome: AiOutcome) -> (answer: Result<Vec<Action>, RtsException>)
        ensures
            actions_view(answer) == concluded(self@, outcome@),
    {
        match outcome {
            AiOutcome::NotCompiled(reason) => Err(
                compile_failure(self.module_name.as_str(), reason.as_str()),
            ),
            AiOutcome::Raised(report) => Err(RtsException::PythonException(report)),
            AiOutcome::Answered(types) => read_actions(&types),
        }
    }
}

} // verus!
