//! What can go wrong while a program is written and compiled.

use vstd::prelude::*;
use vstd::string::StringExecFns;
use crate::text::{decimal, push_decimal};

verus! {

/// An error of the compiler or of the interactive session. Line numbers
/// count from 1.
#[derive(Clone, Debug, PartialEq, Eq)]
pub enum Error {
    /// The session was given a `/` command that it does not know.
    UndefinedUserCommand,
    /// The session was asked to edit a line that the program does not have.
    InvalidUserLine,
    /// The line with this number has a known keyword and wrong arguments.
    InvalidFormat(usize),
    /// The line with this number and this text starts with no known keyword.
    UndefinedCommand(usize, String),
    /// The line with this number refers to a line that the program does not
    /// have.
    InvalidLine(usize),
    /// A `/` command was given in place of the new text of a line.
    CommandInEditMode,
    /// The program to run has no lines.
    EmptyBufer,
    /// The text given for the pacing delay is no positive number.
    WrongSpeed,
}

/// The mathematical value of an [`Error`]: the same variants, with the text
/// of a line as a sequence of characters.
pub enum ErrorView {
    UndefinedUserCommand,
    InvalidUserLine,
    InvalidFormat(nat),
    UndefinedCommand(nat, Seq<char>),
    InvalidLine(nat),
    CommandInEditMode,
    EmptyBufer,
    WrongSpeed,
}

impl View for Error {
    type V = ErrorView;

    open spec fn view(&self) -> ErrorView {
        match *self {
            Error::UndefinedUserCommand => ErrorView::UndefinedUserCommand,
            Error::InvalidUserLine => ErrorView::InvalidUserLine,
            Error::InvalidFormat(n) => ErrorView::InvalidFormat(n as nat),
            Error::UndefinedCommand(n, text) => ErrorView::UndefinedCommand(n as nat, text@),
            Error::InvalidLine(n) => ErrorView::InvalidLine(n as nat),
            Error::CommandInEditMode => ErrorView::CommandInEditMode,
            Error::EmptyBufer => ErrorView::EmptyBufer,
            Error::WrongSpeed => ErrorView::WrongSpeed,
        }
    }
}

/// The words that report an error.
pub open spec fn error_text(e: ErrorView) -> Seq<char> {
    match e {
        ErrorView::UndefinedUserCommand => "Несуществующая команда!"@,
        ErrorView::InvalidUserLine => "Несуществующая строка!"@,
        ErrorView::InvalidFormat(n) => decimal(n) + ": Неверный формат команды!"@,
        ErrorView::UndefinedCommand(n, line) => decimal(n) + ": Команда '"@ + line
            + "' не найдена!"@,
        ErrorView::InvalidLine(n) => decimal(n) + ": Переход на несуществующую строку!"@,
        ErrorView::CommandInEditMode => "Команды в режиме редактирования недостпупны!"@,
        ErrorView::EmptyBufer => "Буфер команд пуст!"@,
        ErrorView::WrongSpeed => "Неправильный формат скорости!"@,
    }
}

impl Error {
    /// The words that report the error.
    pub fn text(&self) -> (r: String)
        ensures
            r@ == error_text(self@),
    {
        match self {
            Error::UndefinedUserCommand => "Несуществующая команда!".to_owned(),
            Error::InvalidUserLine => "Несуществующая строка!".to_owned(),
            Error::InvalidFormat(n) => {
                let mut r = String::new();
                push_decimal(&mut r, *n as u64);
                r.append(": Неверный формат команды!");
                r
            },
            Error::UndefinedCommand(n, line) => {
                let mut r = String::new();
                push_decimal(&mut r, *n as u64);
                r.append(": Команда '");
                r.append(line.as_str());
                r.append("' не найдена!");
                r
            },
            Error::InvalidLine(n) => {
                let mut r = String::new();
                push_decimal(&mut r, *n as u64);
                r.append(": Переход на несуществующую строку!");
                r
            },
            Error::CommandInEditMode => "Команды в режиме редактирования недостпупны!".to_owned(),
            Error::EmptyBufer => "Буфер команд пуст!".to_owned(),
            Error::WrongSpeed => "Неправильный формат скорости!".to_owned(),
        }
    }
}

} // verus!
