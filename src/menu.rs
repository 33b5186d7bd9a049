//! What each menu entry typed at the store's prompts asks for.
use vstd::prelude::*;

use crate::text::text_eq;

verus! {

/// A choice on the welcome screen.
#[derive(Debug, Clone, Copy, PartialEq, Eq, Structural)]
pub enum WelcomeCommand {
    LogIn,
    SignUp,
    Exit,
    Unknown,
}

/// A choice on a client's menu.
#[derive(Debug, Clone, Copy, PartialEq, Eq, Structural)]
pub enum ClientCommand {
    ViewProducts,
    Buy,
    ChangePassword,
    LogOut,
    Unknown,
}

/// A choice on a manager's or an administrator's menu.
#[derive(Debug, Clone, Copy, PartialEq, Eq, Structural)]
pub enum ManagerCommand {
    ViewProducts,
    AddProduct,
    EditProduct,
    DeleteProduct,
    RecordPurchase,
    ViewReports,
    ChangePassword,
    LogOut,
    Unknown,
}

pub open spec fn welcome_command_of(s: Seq<char>) -> WelcomeCommand {
    if s == "1"@ {
        WelcomeCommand::LogIn
    } else if s == "2"@ {
        WelcomeCommand::SignUp
    } else if s == "0"@ {
        WelcomeCommand::Exit
    } else {
        WelcomeCommand::Unknown
    }
}

pub open spec fn client_command_of(s: Seq<char>) -> ClientCommand {
    if s == "1"@ {
        ClientCommand::ViewProducts
    } else if s == "2"@ {
        ClientCommand::Buy
    } else if s == "3"@ {
        ClientCommand::ChangePassword
    } else if s == "0"@ {
        ClientCommand::LogOut
    } else {
        ClientCommand::Unknown
    }
}

/// Administrators see reports as entry 6 and change their password with 7;
/// managers have no reports and change their password with 6.
pub open spec fn manager_command_of(s: Seq<char>, with_reports: bool) -> ManagerCommand {
    if s == "1"@ {
        ManagerCommand::ViewProducts
    } else if s == "2"@ {
        ManagerCommand::AddProduct
    } else if s == "3"@ {
        ManagerCommand::EditProduct
    } else if s == "4"@ {
        ManagerCommand::DeleteProduct
    } else if s == "5"@ {
        ManagerCommand::RecordPurchase
    } else if s == "6"@ {
        if with_reports {
            ManagerCommand::ViewReports
        } else {
            ManagerCommand::ChangePassword
        }
    } else if s == "7"@ && with_reports {
        ManagerCommand::ChangePassword
    } else if s == "0"@ {
        ManagerCommand::LogOut
    } else {
        ManagerCommand::Unknown
    }
}

pub fn welcome_command(choice: &str) -> (r: WelcomeCommand)
    ensures
        r == welcome_command_of(choice@),
{
    if text_eq(choice, "1") {
        WelcomeCommand::LogIn
    } else if text_eq(choice, "2") {
        WelcomeCommand::SignUp
    } else if text_eq(choice, "0") {
        WelcomeCommand::Exit
    } else {
        WelcomeCommand::Unknown
    }
}

pub fn client_command(choice: &str) -> (r: ClientCommand)
    ensures
        r == client_command_of(choice@),
{
    if text_eq(choice, "1") {
        ClientCommand::ViewProducts
    } else if text_eq(choice, "2") {
        ClientCommand::Buy
    } else if text_eq(choice, "3") {
        ClientCommand::ChangePassword
    } else if text_eq(choice, "0") {
        ClientCommand::LogOut
    } else {
        ClientCommand::Unknown
    }
}

pub fn manager_command(choice: &str, with_reports: bool) -> (r: ManagerCommand)
    ensures
        r == manager_command_of(choice@, with_reports),
{
    if text_eq(choice, "1") {
        ManagerCommand::ViewProducts
    } else if text_eq(choice, "2") {
        ManagerCommand::AddProduct
    } else if text_eq(choice, "3") {
        ManagerCommand::EditProduct
    } else if text_eq(choice, "4") {
        ManagerCommand::DeleteProduct
    } else if text_eq(choice, "5") {
        ManagerCommand::RecordPurchase
    } else if text_eq(choice, "6") {
        if with_reports {
            ManagerCommand::ViewReports
        } else {
            ManagerCommand::ChangePassword
        }
    } else if with_reports && text_eq(choice, "7") {
        ManagerCommand::ChangePassword
    } else if text_eq(choice, "0") {
        ManagerCommand::LogOut
    } else {
        ManagerCommand::Unknown
    }
}

} // verus!
