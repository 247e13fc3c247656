//! The menu: seven fixed one-character tokens, each naming one operation.

use vstd::prelude::*;
use crate::text::str_eq;

verus! {

/// One of the seven operations the menu offers.
#[derive(Clone, Copy, PartialEq, Eq, Structural, Debug)]
pub enum MenuOption {
    CreateUser,
    Login,
    ChangePassword,
    DeleteUser,
    Logout,
    ListUsers,
    Exit,
}

/// Which operation one menu token selects; `None` for any other line, which
/// the menu silently rejects.
pub open spec fn spec_menu_option(s: Seq<char>) -> Option<MenuOption> {
    if s == "1"@ {
        Some(MenuOption::Login)
    } else if s == "2"@ {
        Some(MenuOption::CreateUser)
    } else if s == "3"@ {
        Some(MenuOption::ChangePassword)
    } else if s == "4"@ {
        Some(MenuOption::DeleteUser)
    } else if s == "5"@ {
        Some(MenuOption::Logout)
    } else if s == "6"@ {
        Some(MenuOption::ListUsers)
    } else if s == "7"@ {
        Some(MenuOption::Exit)
    } else {
        None
    }
}

/// Parses one menu token. The caller hands the line in already trimmed.
pub fn get_menu_option(choice: &str) -> (r: Option<MenuOption>)
    ensures
        r == spec_menu_option(choice@),
{
    proof {
        reveal_strlit("1");
        reveal_strlit("2");
        reveal_strlit("3");
        reveal_strlit("4");
        reveal_strlit("5");
        reveal_strlit("6");
        reveal_strlit("7");
    }
    if str_eq(choice, "1") {
        Some(MenuOption::Login)
    } else if str_eq(choice, "2") {
        Some(MenuOption::CreateUser)
    } else if str_eq(choice, "3") {
        Some(MenuOption::ChangePassword)
    } else if str_eq(choice, "4") {
        Some(MenuOption::DeleteUser)
    } else if str_eq(choice, "5") {
        Some(MenuOption::Logout)
    } else if str_eq(choice, "6") {
        Some(MenuOption::ListUsers)
    } else if str_eq(choice, "7") {
        Some(MenuOption::Exit)
    } else {
        None
    }
}

} // verus!
