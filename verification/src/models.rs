//! The records that authentication and authorization read: users, roles and
//! the links between them, each with its mathematical view.

use vstd::prelude::*;
use crate::text::chars_of;

verus! {

/// A stored user. `password` holds an encoded hash, never the plaintext;
/// `created_at` counts microseconds since the Unix epoch.
#[derive(Clone, Debug, PartialEq, Eq)]
pub struct User {
    pub id: i32,
    pub username: String,
    pub password: String,
    pub email: String,
    pub created_at: i64,
}

/// What a [`User`] is to the contracts.
pub ghost struct UserView {
    pub id: i32,
    pub username: Seq<char>,
    pub password: Seq<char>,
    pub email: Seq<char>,
    pub created_at: i64,
}

impl View for User {
    type V = UserView;

    open spec fn view(&self) -> UserView {
        UserView {
            id: self.id,
            username: self.username@,
            password: self.password@,
            email: self.email@,
            created_at: self.created_at,
        }
    }
}

/// A user that is about to be stored: the password field already holds the
/// encoded hash.
#[derive(Clone, Debug, PartialEq, Eq)]
pub struct NewUser {
    pub username: String,
    pub password: String,
    pub email: String,
}

/// What a [`NewUser`] is to the contracts.
pub ghost struct NewUserView {
    pub username: Seq<char>,
    pub password: Seq<char>,
    pub email: Seq<char>,
}

impl View for NewUser {
    type V = NewUserView;

    open spec fn view(&self) -> NewUserView {
        NewUserView { username: self.username@, password: self.password@, email: self.email@ }
    }
}

/// A stored role. `code` is the text form of a [`RoleCode`].
#[derive(Clone, Debug, PartialEq, Eq)]
pub struct Role {
    pub id: i32,
    pub code: String,
    pub name: String,
    pub created_at: i64,
}

/// What a [`Role`] is to the contracts.
pub ghost struct RoleView {
    pub id: i32,
    pub code: Seq<char>,
    pub name: Seq<char>,
    pub created_at: i64,
}

impl View for Role {
    type V = RoleView;

    open spec fn view(&self) -> RoleView {
        RoleView { id: self.id, code: self.code@, name: self.name@, created_at: self.created_at }
    }
}

/// A role that is about to be stored.
#[derive(Clone, Debug, PartialEq, Eq)]
pub struct NewRole {
    pub code: String,
    pub name: String,
}

/// The link between one user and one role.
#[derive(Clone, Copy, Debug, PartialEq, Eq, Structural)]
pub struct UserRole {
    pub id: i32,
    pub user_id: i32,
    pub role_id: i32,
}

/// A link that is about to be stored.
#[derive(Clone, Copy, Debug, PartialEq, Eq, Structural)]
pub struct NewUserRole {
    pub user_id: i32,
    pub role_id: i32,
}

/// The closed set of role codes.
#[derive(Clone, Copy, Debug, PartialEq, Eq, Structural)]
pub enum RoleCode {
    Admin,
    User,
}

/// The text `admin`.
pub open spec fn admin_text() -> Seq<char> {
    seq!['a', 'd', 'm', 'i', 'n']
}

/// The text `user`.
pub open spec fn user_text() -> Seq<char> {
    seq!['u', 's', 'e', 'r']
}

/// The bytes of `admin`.
pub open spec fn admin_bytes() -> Seq<u8> {
    seq![97u8, 100u8, 109u8, 105u8, 110u8]
}

/// The bytes of `user`.
pub open spec fn user_bytes() -> Seq<u8> {
    seq![117u8, 115u8, 101u8, 114u8]
}

/// The role code that a text stands for: an exact, case-sensitive match of one
/// of the two known codes, and nothing for any other text.
pub open spec fn role_code_of(text: Seq<char>) -> Option<RoleCode> {
    if text == admin_text() {
        Some(RoleCode::Admin)
    } else if text == user_text() {
        Some(RoleCode::User)
    } else {
        None
    }
}

/// The role code that a byte string stands for.
pub open spec fn role_code_of_bytes(bytes: Seq<u8>) -> Option<RoleCode> {
    if bytes == admin_bytes() {
        Some(RoleCode::Admin)
    } else if bytes == user_bytes() {
        Some(RoleCode::User)
    } else {
        None
    }
}

impl RoleCode {
    /// The text that this code is stored as.
    pub open spec fn text(self) -> Seq<char> {
        match self {
            RoleCode::Admin => admin_text(),
            RoleCode::User => user_text(),
        }
    }

    /// The bytes that this code is stored as.
    pub open spec fn bytes(self) -> Seq<u8> {
        match self {
            RoleCode::Admin => admin_bytes(),
            RoleCode::User => user_bytes(),
        }
    }

    /// Reads a role code from its text form.
    pub fn from_str(s: &str) -> (r: Result<RoleCode, ()>)
        ensures
            r.ok() == role_code_of(s@),
    {
        let c = chars_of(s);
        if c.len() == 5 && c[0] == 'a' && c[1] == 'd' && c[2] == 'm' && c[3] == 'i' && c[4] == 'n' {
            proof {
                assert(s@ =~= admin_text());
            }
            Ok(RoleCode::Admin)
        } else if c.len() == 4 && c[0] == 'u' && c[1] == 's' && c[2] == 'e' && c[3] == 'r' {
            proof {
                assert(s@ =~= user_text());
            }
            Ok(RoleCode::User)
        } else {
            Err(())
        }
    }

    /// Writes this code in its text form.
    pub fn to_string(&self) -> (s: String)
        ensures
            s@ == self.text(),
    {
        match self {
            RoleCode::Admin => {
                proof {
                    reveal_strlit("admin");
                    assert("admin"@ =~= admin_text());
                }
                String::from_str("admin")
            },
            RoleCode::User => {
                proof {
                    reveal_strlit("user");
                    assert("user"@ =~= user_text());
                }
                String::from_str("user")
            },
        }
    }

    /// Reads a role code from the bytes of a text column.
    pub fn from_bytes(bytes: &[u8]) -> (r: Option<RoleCode>)
        ensures
            r == role_code_of_bytes(bytes@),
    {
        if bytes.len() == 5 && bytes[0] == 97 && bytes[1] == 100 && bytes[2] == 109 && bytes[3]
            == 105 && bytes[4] == 110 {
            proof {
                assert(bytes@ =~= admin_bytes());
            }
            Some(RoleCode::Admin)
        } else if bytes.len() == 4 && bytes[0] == 117 && bytes[1] == 115 && bytes[2] == 101
            && bytes[3] == 114 {
            proof {
                assert(bytes@ =~= user_bytes());
            }
            Some(RoleCode::User)
        } else {
            None
        }
    }

    /// Writes this code as the bytes of a text column.
    pub fn to_bytes(&self) -> (b: Vec<u8>)
        ensures
            b@ == self.bytes(),
    {
        match self {
            RoleCode::Admin => {
                let b: Vec<u8> = vec![97u8, 100u8, 109u8, 105u8, 110u8];
                proof {
                    assert(b@ =~= admin_bytes());
                }
                b
            },
            RoleCode::User => {
                let b: Vec<u8> = vec![117u8, 115u8, 101u8, 114u8];
                proof {
                    assert(b@ =~= user_bytes());
                }
                b
            },
        }
    }
}

/// Reading back what was written gives the code that was written, in text and
/// in bytes, and the two known texts are the only ones that are read as a code.
pub proof fn lemma_role_code_round_trip(code: RoleCode, text: Seq<char>, bytes: Seq<u8>)
    ensures
        role_code_of(code.text()) == Some(code),
        role_code_of_bytes(code.bytes()) == Some(code),
        role_code_of(text) == Some(code) <==> text == code.text(),
        role_code_of_bytes(bytes) == Some(code) <==> bytes == code.bytes(),
{
    assert(admin_text().len() == 5 && user_text().len() == 4);
    assert(admin_bytes().len() == 5 && user_bytes().len() == 4);
}

/// The role ids that a user's links name, in the order of the links.
pub open spec fn linked_role_ids(links: Seq<UserRole>) -> Seq<i32> {
    links.map_values(|l: UserRole| l.role_id)
}

/// The ids of the roles that the given links point at.
pub fn role_ids(links: &Vec<UserRole>) -> (ids: Vec<i32>)
    ensures
        ids@ == linked_role_ids(links@),
{
    let mut ids: Vec<i32> = Vec::new();
    let mut i: usize = 0;
    while i < links.len()
        invariant
            i <= links.len(),
            ids@ == linked_role_ids(links@.subrange(0, i as int)),
        decreases links.len() - i,
    {
        ids.push(links[i].role_id);
        proof {
            assert(linked_role_ids(links@.subrange(0, i as int)).push(links@[i as int].role_id)
                =~= linked_role_ids(links@.subrange(0, i + 1)));
        }
        i = i + 1;
    }
    proof {
        assert(links@.subrange(0, links.len() as int) =~= links@);
    }
    ids
}

} // verus!
