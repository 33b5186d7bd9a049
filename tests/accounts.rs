use store_inventory_management_system::menu::{
    client_command, manager_command, welcome_command, ClientCommand, ManagerCommand,
    WelcomeCommand,
};
use store_inventory_management_system::security::{
    find_login, parse_role, parse_user_line, role_to_str, set_password, split_fields,
    user_record, username_taken,
};
use store_inventory_management_system::{Role, User};

fn user(name: &str, password: &str, role: Role) -> User {
    User { username: name.to_string(), password: password.to_string(), role }
}

#[test]
fn roles_read_and_written_by_name() {
    assert_eq!(parse_role("Admin"), Role::Admin);
    assert_eq!(parse_role("Manager"), Role::Manager);
    assert_eq!(parse_role("Client"), Role::Client);
    assert_eq!(parse_role("admin"), Role::Client);
    assert_eq!(parse_role(""), Role::Client);
    for r in [Role::Admin, Role::Manager, Role::Client] {
        assert_eq!(parse_role(role_to_str(&r)), r);
    }
    assert_eq!(role_to_str(&Role::Manager), "Manager");
}

#[test]
fn account_line_format() {
    let u = user("admin", "secret", Role::Admin);
    assert_eq!(user_record(&u), "admin,secret,Admin\n");
}

#[test]
fn account_lookup() {
    let users = vec![user("ann", "pw1", Role::Client), user("bob", "pw2", Role::Manager)];
    assert!(username_taken(&users, "bob"));
    assert!(!username_taken(&users, "carl"));
    assert_eq!(find_login(&users, "bob", "pw2"), Some(1));
    assert_eq!(find_login(&users, "bob", "pw1"), None);
    assert_eq!(find_login(&users, "zed", "pw1"), None);
}

#[test]
fn password_change_touches_only_that_account() {
    let mut users = vec![user("ann", "pw1", Role::Client), user("bob", "pw2", Role::Manager)];
    set_password(&mut users, "ann", "new");
    assert_eq!(users[0].password, "new");
    assert_eq!(users[1].password, "pw2");
    assert_eq!(users[0].role, Role::Client);
}

#[test]
fn menu_choices() {
    assert_eq!(welcome_command("1"), WelcomeCommand::LogIn);
    assert_eq!(welcome_command("2"), WelcomeCommand::SignUp);
    assert_eq!(welcome_command("0"), WelcomeCommand::Exit);
    assert_eq!(welcome_command("9"), WelcomeCommand::Unknown);
    assert_eq!(client_command("2"), ClientCommand::Buy);
    assert_eq!(client_command("4"), ClientCommand::Unknown);
    assert_eq!(manager_command("6", true), ManagerCommand::ViewReports);
    assert_eq!(manager_command("6", false), ManagerCommand::ChangePassword);
    assert_eq!(manager_command("7", true), ManagerCommand::ChangePassword);
    assert_eq!(manager_command("7", false), ManagerCommand::Unknown);
    assert_eq!(manager_command("5", false), ManagerCommand::RecordPurchase);
    assert_eq!(manager_command("0", true), ManagerCommand::LogOut);
}

#[test]
fn account_lines_are_read_back() {
    let u = parse_user_line("bob,pw2,Manager").unwrap();
    assert_eq!(u.username, "bob");
    assert_eq!(u.password, "pw2");
    assert_eq!(u.role, Role::Manager);
    let v = parse_user_line("eve,x,Boss").unwrap();
    assert_eq!(v.role, Role::Client);
    assert!(parse_user_line("bob,pw2").is_none());
    assert!(parse_user_line("a,b,Admin,extra").is_none());
    assert!(parse_user_line("").is_none());
    let w = user("dan", "p", Role::Admin);
    let line = user_record(&w);
    let back = parse_user_line(line.trim_end()).unwrap();
    assert_eq!(back.username, "dan");
    assert_eq!(back.password, "p");
    assert_eq!(back.role, Role::Admin);
}

#[test]
fn fields_split_on_every_comma() {
    assert_eq!(split_fields("a,b,c"), vec!["a", "b", "c"]);
    assert_eq!(split_fields(""), vec![""]);
    assert_eq!(split_fields(",x,"), vec!["", "x", ""]);
    assert_eq!(split_fields("no commas"), vec!["no commas"]);
}
