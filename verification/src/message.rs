//! The notices that the machine shows to its user.

use vstd::prelude::*;
use vstd::string::StringExecFns;
use crate::engine::{Outcome, Violation};
use crate::text::{decimal, push_decimal};

verus! {

/// A notice for the user.
#[derive(Clone, Copy, Debug, PartialEq, Eq, Structural)]
pub enum Message {
    /// How to get help.
    Help,
    /// The tape was cleared.
    TapeCleared,
    /// The tape and the program were cleared.
    AllCleared,
    /// The pacing delay is now this many milliseconds.
    NewSpeed(u64),
    /// The run was stopped by the user.
    Terminated,
    /// The run stopped at a mark on a marked cell.
    DoubleMark,
    /// The run stopped at the erasure of a mark that is not there.
    EraseUnmarked,
    /// The run reached the end of the program.
    Stopped,
}

/// The notice that tells how a run ended.
pub open spec fn diagnostic(outcome: Outcome) -> Message {
    match outcome {
        Outcome::Done => Message::Stopped,
        Outcome::Violation(Violation::DoubleMark) => Message::DoubleMark,
        Outcome::Violation(Violation::EraseUnmarked) => Message::EraseUnmarked,
        Outcome::Cancelled => Message::Terminated,
    }
}

impl Outcome {
    /// The notice that tells how the run ended.
    pub fn diagnostic(&self) -> (m: Message)
        ensures
            m == diagnostic(*self),
    {
        match self {
            Outcome::Done => Message::Stopped,
            Outcome::Violation(Violation::DoubleMark) => Message::DoubleMark,
            Outcome::Violation(Violation::EraseUnmarked) => Message::EraseUnmarked,
            Outcome::Cancelled => Message::Terminated,
        }
    }
}

/// The words of a notice.
pub open spec fn message_text(m: Message) -> Seq<char> {
    match m {
        Message::Help => "/help - справка"@,
        Message::TapeCleared => "Лента очищена!"@,
        Message::AllCleared => "Лента и буфер команд очищены!"@,
        Message::NewSpeed(n) => "Новая скорость: "@ + decimal(n as nat) + "мс"@,
        Message::Terminated => "Программа завершена нажатием ENTER!"@,
        Message::DoubleMark => "Запись в помеченное поле! Программа завершена..."@,
        Message::EraseUnmarked => "Стирание несуществующей метки! Программа завершена..."@,
        Message::Stopped => "Замечена команда стоп! Завершаю программу..."@,
    }
}

impl Message {
    /// The words of the notice.
    pub fn text(&self) -> (r: String)
        ensures
            r@ == message_text(*self),
    {
        match self {
            Message::Help => "/help - справка".to_owned(),
            Message::TapeCleared => "Лента очищена!".to_owned(),
            Message::AllCleared => "Лента и буфер команд очищены!".to_owned(),
            Message::NewSpeed(n) => {
                let mut r = "Новая скорость: ".to_owned();
                push_decimal(&mut r, *n);
                r.append("мс");
                r
            },
            Message::Terminated => "Программа завершена нажатием ENTER!".to_owned(),
            Message::DoubleMark => "Запись в помеченное поле! Программа завершена...".to_owned(),
            Message::EraseUnmarked => "Стирание несуществующей метки! Программа завершена...".to_owned(),
            Message::Stopped => "Замечена команда стоп! Завершаю программу...".to_owned(),
        }
    }
}

} // verus!
