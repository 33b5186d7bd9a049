//! Store accounts: roles, and the rules on the account list that sign-up,
//! log-in and password changes follow. Reading and writing the account file
//! is left to the caller.
use vstd::prelude::*;

use crate::text::text_eq;

verus! {

/// What an account may do in the store.
#[derive(Debug, Clone, Copy, PartialEq, Eq, Structural)]
pub enum Role {
    Client,
    Manager,
    Admin,
}

/// A store account.
#[derive(Debug, Clone)]
pub struct User {
    pub username: String,
    pub password: String,
    pub role: Role,
}

/// The role a stored role name stands for; anything unknown is a client.
pub open spec fn role_named(s: Seq<char>) -> Role {
    if s == "Admin"@ {
        Role::Admin
    } else if s == "Manager"@ {
        Role::Manager
    } else {
        Role::Client
    }
}

/// The name under which a role is stored.
pub open spec fn role_name(r: Role) -> Seq<char> {
    match r {
        Role::Admin => "Admin"@,
        Role::Manager => "Manager"@,
        Role::Client => "Client"@,
    }
}

/// Reads a stored role name; anything unknown is a client.
pub fn parse_role(s: &str) -> (r: Role)
    ensures
        r == role_named(s@),
{
    if text_eq(s, "Admin") {
        Role::Admin
    } else if text_eq(s, "Manager") {
        Role::Manager
    } else {
        Role::Client
    }
}

/// The name under which a role is stored.
pub fn role_to_str(r: &Role) -> (s: &'static str)
    ensures
        s@ == role_name(*r),
{
    match r {
        Role::Admin => "Admin",
        Role::Manager => "Manager",
        Role::Client => "Client",
    }
}

/// A role survives being stored by name and read back.
pub proof fn lemma_role_name_round_trip(r: Role)
    ensures
        role_named(role_name(r)) == r,
{
    reveal_strlit("Admin");
    reveal_strlit("Manager");
    reveal_strlit("Client");
    assert("Admin"@.len() == 5);
    assert("Client"@.len() == 6);
    assert("Manager"@.len() == 7);
}

/// An account's fields joined by commas.
pub open spec fn user_fields_text(u: User) -> Seq<char> {
    u.username@ + ","@ + u.password@ + ","@ + role_name(u.role)
}

/// The line that stores an account: its fields joined by commas, then a
/// line break.
pub open spec fn user_record_text(u: User) -> Seq<char> {
    user_fields_text(u) + "\n"@
}

/// The line that stores an account: `username,password,Role` and a newline.
pub fn user_record(u: &User) -> (r: String)
    ensures
        r@ == user_record_text(*u),
{
    let mut out = u.username.clone();
    out.append(",");
    out.append(u.password.as_str());
    out.append(",");
    out.append(role_to_str(&u.role));
    out.append("\n");
    out
}

/// The comma-separated fields of a line, in order; a line without commas is
/// one field.
pub open spec fn split_commas(s: Seq<char>) -> Seq<Seq<char>>
    decreases s.len(),
{
    if s.len() == 0 {
        seq![Seq::empty()]
    } else {
        let r = split_commas(s.drop_last());
        if s.last() == ',' {
            r.push(Seq::empty())
        } else {
            r.update(r.len() - 1, r.last().push(s.last()))
        }
    }
}

/// Every line has at least one field.
pub proof fn lemma_split_commas_not_empty(s: Seq<char>)
    ensures
        split_commas(s).len() >= 1,
    decreases s.len(),
{
    if s.len() > 0 {
        lemma_split_commas_not_empty(s.drop_last());
    }
}

/// The comma-separated fields of a line.
pub fn split_fields(line: &str) -> (r: Vec<String>)
    ensures
        r@.map_values(|f: String| f@) == split_commas(line@),
{
    let n = line.unicode_len();
    let mut fields: Vec<String> = Vec::new();
    let mut start: usize = 0;
    let mut i: usize = 0;
    assert(line@.take(0) =~= Seq::<char>::empty());
    assert(fields@.map_values(|f: String| f@).push(line@.subrange(0, 0)) =~= seq![Seq::<char>::empty()]);
    while i < n
        invariant
            n == line@.len(),
            0 <= start <= i <= n,
            fields@.map_values(|f: String| f@).push(line@.subrange(start as int, i as int))
                == split_commas(line@.take(i as int)),
        decreases n - i,
    {
        let ghost before = fields@.map_values(|f: String| f@);
        let c = line.get_char(i);
        proof {
            lemma_split_commas_not_empty(line@.take(i as int));
            assert(line@.take(i + 1).drop_last() =~= line@.take(i as int));
            assert(line@.take(i + 1).last() == c);
        }
        if c == ',' {
            fields.push(String::from_str(line.substring_char(start, i)));
            assert(fields@.map_values(|f: String| f@) =~= before.push(line@.subrange(start as int, i as int)));
            start = i + 1;
            assert(line@.subrange(start as int, i + 1) =~= Seq::<char>::empty());
            assert(fields@.map_values(|f: String| f@).push(line@.subrange(start as int, i + 1))
                =~= split_commas(line@.take(i + 1)));
        } else {
            assert(line@.subrange(start as int, i as int).push(c) =~= line@.subrange(start as int, i + 1));
            assert(fields@.map_values(|f: String| f@).push(line@.subrange(start as int, i + 1))
                =~= split_commas(line@.take(i + 1)));
        }
        i += 1;
    }
    let ghost before = fields@.map_values(|f: String| f@);
    fields.push(String::from_str(line.substring_char(start, n)));
    assert(line@.take(n as int) =~= line@);
    assert(fields@.map_values(|f: String| f@) =~= before.push(line@.subrange(start as int, n as int)));
    fields
}

/// The account a stored line describes, when it has exactly three fields.
pub open spec fn user_from_line(s: Seq<char>) -> Option<(Seq<char>, Seq<char>, Role)> {
    let f = split_commas(s);
    if f.len() == 3 {
        Some((f[0], f[1], role_named(f[2])))
    } else {
        None
    }
}

pub open spec fn has_no_comma(s: Seq<char>) -> bool {
    forall|i: int| 0 <= i < s.len() ==> s[i] != ','
}

/// A text without commas is a single field.
proof fn lemma_split_no_comma(s: Seq<char>)
    requires
        has_no_comma(s),
    ensures
        split_commas(s) == seq![s],
    decreases s.len(),
{
    if s.len() > 0 {
        lemma_split_no_comma(s.drop_last());
        assert(s.drop_last().push(s.last()) =~= s);
        assert(split_commas(s) =~= seq![s]);
    } else {
        assert(s =~= Seq::<char>::empty());
    }
}

/// A comma followed by a text without commas adds that text as one more field.
proof fn lemma_split_append_field(p: Seq<char>, s: Seq<char>)
    requires
        has_no_comma(s),
    ensures
        split_commas(p + seq![','] + s) == split_commas(p).push(s),
    decreases s.len(),
{
    if s.len() == 0 {
        assert(p + seq![','] + s =~= p.push(','));
        assert((p + seq![','] + s).drop_last() =~= p);
        assert((p + seq![','] + s).last() == ',');
        assert(s =~= Seq::<char>::empty());
    } else {
        lemma_split_append_field(p, s.drop_last());
        assert((p + seq![','] + s).drop_last() =~= p + seq![','] + s.drop_last());
        lemma_split_commas_not_empty(p);
        assert(s.drop_last().push(s.last()) =~= s);
        assert(split_commas(p + seq![','] + s) =~= split_commas(p).push(s));
    }
}

/// An account stored as a line reads back as the same account, provided its
/// username and password hold no comma.
pub proof fn lemma_user_line_round_trip(u: User)
    requires
        has_no_comma(u.username@),
        has_no_comma(u.password@),
    ensures
        user_from_line(user_fields_text(u)) == Some((u.username@, u.password@, u.role)),
{
    reveal_strlit(",");
    reveal_strlit("Admin");
    reveal_strlit("Manager");
    reveal_strlit("Client");
    let role = role_name(u.role);
    assert(has_no_comma(role));
    assert(","@ =~= seq![',']);
    lemma_split_no_comma(u.username@);
    lemma_split_append_field(u.username@, u.password@);
    lemma_split_append_field(u.username@ + seq![','] + u.password@, role);
    assert(user_fields_text(u) =~= u.username@ + seq![','] + u.password@ + seq![','] + role);
    lemma_role_name_round_trip(u.role);
}

/// Reads a stored account line, `username,password,Role` without its line
/// ending; a line without exactly three fields gives nothing.
pub fn parse_user_line(line: &str) -> (r: Option<User>)
    ensures
        match user_from_line(line@) {
            Some((name, password, role)) => r matches Some(u) && u.username@ == name
                && u.password@ == password && u.role == role,
            None => r is None,
        },
{
    let mut fields = split_fields(line);
    if fields.len() != 3 {
        return None;
    }
    proof {
        assert(fields@.map_values(|f: String| f@)[2] == fields@[2]@);
        assert(fields@.map_values(|f: String| f@)[1] == fields@[1]@);
        assert(fields@.map_values(|f: String| f@)[0] == fields@[0]@);
    }
    let role = parse_role(fields[2].as_str());
    fields.truncate(2);
    let password = fields.pop().unwrap();
    let username = fields.pop().unwrap();
    Some(User { username, password, role })
}

/// Whether some account already has this username.
pub fn username_taken(users: &Vec<User>, username: &str) -> (r: bool)
    ensures
        r == exists|i: int| 0 <= i < users@.len() && users@[i].username@ == username@,
{
    let n = users.len();
    let mut i: usize = 0;
    while i < n
        invariant
            n == users@.len(),
            0 <= i <= n,
            forall|j: int| 0 <= j < i ==> users@[j].username@ != username@,
        decreases n - i,
    {
        if text_eq(users[i].username.as_str(), username) {
            return true;
        }
        i += 1;
    }
    false
}

/// The index of the first account whose username and password both match.
pub fn find_login(users: &Vec<User>, username: &str, password: &str) -> (r: Option<usize>)
    ensures
        match r {
            Some(i) => i < users@.len() && users@[i as int].username@ == username@
                && users@[i as int].password@ == password@ && forall|j: int|
                0 <= j < i ==> !(users@[j].username@ == username@ && users@[j].password@
                    == password@),
            None => forall|j: int|
                0 <= j < users@.len() ==> !(users@[j].username@ == username@
                    && users@[j].password@ == password@),
        },
{
    let n = users.len();
    let mut i: usize = 0;
    while i < n
        invariant
            n == users@.len(),
            0 <= i <= n,
            forall|j: int|
                0 <= j < i ==> !(users@[j].username@ == username@ && users@[j].password@
                    == password@),
        decreases n - i,
    {
        if text_eq(users[i].username.as_str(), username) && text_eq(
            users[i].password.as_str(),
            password,
        ) {
            return Some(i);
        }
        i += 1;
    }
    None
}

/// Gives every account named `username` the password `new_password`; the
/// other accounts, and the order, stay as they were.
pub fn set_password(users: &mut Vec<User>, username: &str, new_password: &str)
    ensures
        final(users)@.len() == old(users)@.len(),
        forall|i: int|
            0 <= i < old(users)@.len() ==> #[trigger] final(users)@[i] == if old(users)@[i].username@
                == username@ {
                User { password: final(users)@[i].password, ..old(users)@[i] }
            } else {
                old(users)@[i]
            },
        forall|i: int|
            0 <= i < old(users)@.len() && old(users)@[i].username@ == username@
                ==> #[trigger] final(users)@[i].password@ == new_password@,
{
    let n = users.len();
    let mut i: usize = 0;
    while i < n
        invariant
            n == users@.len(),
            n == old(users)@.len(),
            0 <= i <= n,
            forall|j: int|
                0 <= j < n ==> #[trigger] users@[j] == if j < i && old(users)@[j].username@
                    == username@ {
                    User { password: users@[j].password, ..old(users)@[j] }
                } else {
                    old(users)@[j]
                },
            forall|j: int|
                0 <= j < i && old(users)@[j].username@ == username@
                    ==> #[trigger] users@[j].password@ == new_password@,
        decreases n - i,
    {
        if text_eq(users[i].username.as_str(), username) {
            users[i].password = String::from_str(new_password);
        }
        i += 1;
    }
}

} // verus!
