//! The menu: which operation a line typed at the menu stands for.

use vstd::prelude::*;

verus! {

/// What the operator chose at the menu.
#[derive(Debug, Clone, Copy, PartialEq, Eq)]
pub enum MenuChoice {
    /// `1`: create an environment.
    Create,
    /// `2`: enter an environment.
    Enter,
    /// `3`: list the environments.
    List,
    /// `4`: delete an environment.
    Delete,
    /// `5`: leave the program.
    Quit,
    /// Anything else: show the menu again, without a word.
    Redraw,
}

/// The choice that a line stands for.
pub open spec fn choice_of(line: Seq<char>) -> MenuChoice {
    if line.len() != 1 {
        MenuChoice::Redraw
    } else if line[0] == '1' {
        MenuChoice::Create
    } else if line[0] == '2' {
        MenuChoice::Enter
    } else if line[0] == '3' {
        MenuChoice::List
    } else if line[0] == '4' {
        MenuChoice::Delete
    } else if line[0] == '5' {
        MenuChoice::Quit
    } else {
        MenuChoice::Redraw
    }
}

/// Reads the operator's choice from the line typed at the menu.
pub fn parse_choice(line: &str) -> (choice: MenuChoice)
    ensures
        choice == choice_of(line@),
{
    if line.unicode_len() != 1 {
        return MenuChoice::Redraw;
    }
    let c = line.get_char(0);
    if c == '1' {
        MenuChoice::Create
    } else if c == '2' {
        MenuChoice::Enter
    } else if c == '3' {
        MenuChoice::List
    } else if c == '4' {
        MenuChoice::Delete
    } else if c == '5' {
        MenuChoice::Quit
    } else {
        MenuChoice::Redraw
    }
}

} // verus!
