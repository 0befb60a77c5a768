//! Definitions for IPMI app commands.

pub mod user;

pub use user::{
    GetUserAccess, GetUserName, PasswordSize, SetUserAccess, SetUserName, SetUserPassword,
    SetUserPasswordError, UserAccess, UserId, UserIdEnableStatus, UserPrivilege,
};
