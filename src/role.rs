//! Roles a session can hold once it has logged in.
use crate::text::{decimal_chars, decimal_text};
use vstd::prelude::*;
use vstd::string::StringExecFns;

verus! {

/// The closed set of roles.
#[derive(Clone, Copy, Debug, PartialEq, Eq, Structural)]
pub enum Role {
    Player { account_id: u64, character_id: u64 },
    CheatPlayer { account_id: u64, character_id: u64 },
    Admin,
}

/// The text form of a role, as logs show it.
pub open spec fn role_text(r: Role) -> Seq<char> {
    match r {
        Role::Player { account_id, character_id } => "Role(Player) account_id="@ + decimal_chars(
            account_id as nat,
        ) + ", character_id="@ + decimal_chars(character_id as nat),
        Role::CheatPlayer { account_id, character_id } => "Role(CheatPlayer) account_id="@
            + decimal_chars(account_id as nat) + ", character_id="@ + decimal_chars(
            character_id as nat,
        ),
        Role::Admin => "Role(Admin)"@,
    }
}

impl Role {
    /// The role's text form: its kind and, for players, both ids.
    pub fn describe(&self) -> (r: String)
        ensures
            r@ == role_text(*self),
    {
        match self {
            Role::Player { account_id, character_id } => {
                let mut s = String::from_str("Role(Player) account_id=");
                s.append(decimal_text(*account_id).as_str());
                s.append(", character_id=");
                s.append(decimal_text(*character_id).as_str());
                s
            },
            Role::CheatPlayer { account_id, character_id } => {
                let mut s = String::from_str("Role(CheatPlayer) account_id=");
                s.append(decimal_text(*account_id).as_str());
                s.append(", character_id=");
                s.append(decimal_text(*character_id).as_str());
                s
            },
            Role::Admin => String::from_str("Role(Admin)"),
        }
    }
}

/// An ordinary player. It counts as authenticated once it has an account.
#[derive(Clone, Copy, Debug, PartialEq, Eq, Structural)]
pub struct PlayerRole {
    pub account_id: u64,
    pub character_id: u64,
}

impl PlayerRole {
    /// A player with no account yet.
    pub fn new() -> (r: PlayerRole)
        ensures
            r == (PlayerRole { account_id: 0, character_id: 0 }),
    {
        PlayerRole { account_id: 0, character_id: 0 }
    }

    pub fn is_authenticated(&self) -> (r: bool)
        ensures
            r == (self.account_id != 0),
    {
        self.account_id != 0
    }
}

/// A player with cheats allowed; always authenticated.
#[derive(Clone, Copy, Debug, PartialEq, Eq, Structural)]
pub struct CheatPlayerRole {
    pub account_id: u64,
    pub character_id: u64,
}

impl CheatPlayerRole {
    pub fn new() -> (r: CheatPlayerRole)
        ensures
            r == (CheatPlayerRole { account_id: 0, character_id: 0 }),
    {
        CheatPlayerRole { account_id: 0, character_id: 0 }
    }

    pub fn is_authenticated(&self) -> (r: bool)
        ensures
            r,
    {
        true
    }
}

/// An administrator; always authenticated.
#[derive(Clone, Copy, Debug, PartialEq, Eq, Structural)]
pub struct AdminRole {}

impl AdminRole {
    pub fn is_authenticated(&self) -> (r: bool)
        ensures
            r,
    {
        true
    }
}

} // verus!
