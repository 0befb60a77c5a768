use vstd::prelude::*;

use super::{pad_with_zeros, UserId};
use crate::connection::{CompletionErrorCode, IpmiCommand, Message, NetFn};

verus! {

/// The command number of Set User Password.
pub const SET_USER_PASSWORD_CMD: u8 = 0x47;

/// The stored size of a user password.
///
/// Reference: IPMI 2.0 Specification, Table 22-35 (byte 1, bit 7).
#[derive(Clone, Copy, Debug, PartialEq, Eq, Structural)]
pub enum PasswordSize {
    /// A 16-byte password/key (IPMI v1.5 backwards compatible).
    Bytes16,
    /// A 20-byte password/key (IPMI v2.0 / RMCP+).
    Bytes20,
}

/// The length, in bytes, of a password of the given size.
pub open spec fn password_len(size: PasswordSize) -> nat {
    match size {
        PasswordSize::Bytes16 => 16,
        PasswordSize::Bytes20 => 20,
    }
}

impl PasswordSize {
    /// The length, in bytes, of a password of this size.
    pub fn byte_len(&self) -> (r: usize)
        ensures
            r == password_len(*self),
    {
        match self {
            PasswordSize::Bytes16 => 16,
            PasswordSize::Bytes20 => 20,
        }
    }
}

/// The operation performed by the Set User Password command.
///
/// Reference: IPMI 2.0 Specification, Table 22-35 (byte 2, bits [1:0]).
#[derive(Clone, Copy, Debug, PartialEq, Eq, Structural)]
enum Operation {
    DisableUser,
    EnableUser,
    SetPassword,
    TestPassword,
}

/// The operation code for disabling a user.
pub const OPERATION_DISABLE_USER: u8 = 0b00;

/// The operation code for enabling a user.
pub const OPERATION_ENABLE_USER: u8 = 0b01;

/// The operation code for setting a password.
pub const OPERATION_SET_PASSWORD: u8 = 0b10;

/// The operation code for testing a password.
pub const OPERATION_TEST_PASSWORD: u8 = 0b11;

spec fn operation_code(operation: Operation) -> u8 {
    match operation {
        Operation::DisableUser => OPERATION_DISABLE_USER,
        Operation::EnableUser => OPERATION_ENABLE_USER,
        Operation::SetPassword => OPERATION_SET_PASSWORD,
        Operation::TestPassword => OPERATION_TEST_PASSWORD,
    }
}

impl Operation {
    fn value(&self) -> (r: u8)
        ensures
            r == operation_code(*self),
    {
        match self {
            Operation::DisableUser => 0b00,
            Operation::EnableUser => 0b01,
            Operation::SetPassword => 0b10,
            Operation::TestPassword => 0b11,
        }
    }
}

/// An error returned by the Set User Password command.
#[derive(Clone, Copy, Debug, PartialEq, Eq, Structural)]
pub enum SetUserPasswordError {
    /// A `test password` operation failed: the password data does not match
    /// the stored value (completion code `0x80`).
    TestFailed,
    /// A `test password` operation failed: the wrong password size was used
    /// (completion code `0x81`).
    WrongPasswordSize,
}

/// The Set User Password command.
///
/// This command sets or changes user passwords, and enables or disables user
/// IDs. It can also be used to test a password against the stored value.
///
/// Reference: IPMI 2.0 Specification, Section 22.30, Table 22-35.
pub struct SetUserPassword {
    user_id: UserId,
    size: PasswordSize,
    operation: Operation,
    password: Vec<u8>,
}

impl SetUserPassword {
    /// The user the command applies to.
    pub closed spec fn spec_user_id(&self) -> UserId {
        self.user_id
    }

    /// The password size the command declares.
    pub closed spec fn spec_size(&self) -> PasswordSize {
        self.size
    }

    /// The 2-bit code of the operation the command performs.
    pub closed spec fn spec_operation_code(&self) -> u8 {
        operation_code(self.operation)
    }

    /// The password field: empty for enable/disable, otherwise the
    /// null-padded password.
    pub closed spec fn spec_password_field(&self) -> Seq<u8> {
        self.password@
    }

    /// Create a command that enables `user_id`.
    pub fn enable_user(user_id: UserId) -> (r: Self)
        ensures
            r.spec_user_id() == user_id,
            r.spec_size() == PasswordSize::Bytes16,
            r.spec_operation_code() == OPERATION_ENABLE_USER,
            r.spec_password_field() == Seq::<u8>::empty(),
    {
        Self {
            user_id,
            size: PasswordSize::Bytes16,
            operation: Operation::EnableUser,
            password: Vec::new(),
        }
    }

    /// Create a command that disables `user_id`.
    pub fn disable_user(user_id: UserId) -> (r: Self)
        ensures
            r.spec_user_id() == user_id,
            r.spec_size() == PasswordSize::Bytes16,
            r.spec_operation_code() == OPERATION_DISABLE_USER,
            r.spec_password_field() == Seq::<u8>::empty(),
    {
        Self {
            user_id,
            size: PasswordSize::Bytes16,
            operation: Operation::DisableUser,
            password: Vec::new(),
        }
    }

    /// Create a command that sets the password of `user_id`.
    ///
    /// `password` is the raw password octet string; it is null-padded to the
    /// length implied by `size`. Returns `None` if `password` is longer than
    /// that length.
    pub fn set_password(user_id: UserId, password: &[u8], size: PasswordSize) -> (r: Option<Self>)
        ensures
            r is Some <==> password@.len() <= password_len(size),
            r matches Some(command) ==> {
                &&& command.spec_user_id() == user_id
                &&& command.spec_size() == size
                &&& command.spec_operation_code() == OPERATION_SET_PASSWORD
                &&& command.spec_password_field() == super::zero_padded(
                    password@,
                    password_len(size),
                )
            },
    {
        Self::with_password(user_id, password, size, Operation::SetPassword)
    }

    /// Create a command that tests `password` against the stored password of
    /// `user_id`.
    ///
    /// `password` is null-padded to the length implied by `size`. Returns
    /// `None` if `password` is longer than that length.
    pub fn test_password(user_id: UserId, password: &[u8], size: PasswordSize) -> (r: Option<Self>)
        ensures
            r is Some <==> password@.len() <= password_len(size),
            r matches Some(command) ==> {
                &&& command.spec_user_id() == user_id
                &&& command.spec_size() == size
                &&& command.spec_operation_code() == OPERATION_TEST_PASSWORD
                &&& command.spec_password_field() == super::zero_padded(
                    password@,
                    password_len(size),
                )
            },
    {
        Self::with_password(user_id, password, size, Operation::TestPassword)
    }

    fn with_password(
        user_id: UserId,
        password: &[u8],
        size: PasswordSize,
        operation: Operation,
    ) -> (r: Option<Self>)
        ensures
            r is Some <==> password@.len() <= password_len(size),
            r matches Some(command) ==> {
                &&& command.user_id == user_id
                &&& command.size == size
                &&& command.operation == operation
                &&& command.password@ == super::zero_padded(password@, password_len(size))
            },
    {
        if password.len() > size.byte_len() {
            return None;
        }
        let padded = pad_with_zeros(password, size.byte_len());
        Some(Self { user_id, size, operation, password: padded })
    }
}

/// The first request byte: the password size flag (bit 7) and the user ID
/// (bits 5:0).
pub open spec fn password_request_byte(user_id: u8, size: PasswordSize) -> u8 {
    if size == PasswordSize::Bytes20 {
        user_id | 0x80
    } else {
        user_id
    }
}

impl From<SetUserPassword> for Message {
    /// The request is the size-and-user byte, the operation code and the
    /// password field.
    fn from(value: SetUserPassword) -> (m: Self)
        ensures
            m.netfn == NetFn::App,
            m.cmd == SET_USER_PASSWORD_CMD,
            m.data@ == seq![
                password_request_byte(value.spec_user_id()@, value.spec_size()),
                value.spec_operation_code(),
            ] + value.spec_password_field(),
    {
        let mut byte1 = value.user_id.value() & 0x3F;
        proof {
            let u = value.user_id@;
            assert(u <= 0x3F ==> u & 0x3F == u) by (bit_vector);
        }
        if value.size == PasswordSize::Bytes20 {
            byte1 = byte1 | 0x80;
        }
        let mut data = vec![byte1, value.operation.value()];
        let mut i: usize = 0;
        while i < value.password.len()
            invariant
                i <= value.password@.len(),
                data@ == seq![byte1, operation_code(value.operation)] + value.password@.take(
                    i as int,
                ),
            decreases value.password@.len() - i,
        {
            data.push(value.password[i]);
            i = i + 1;
            assert(data@ =~= seq![byte1, operation_code(value.operation)]
                + value.password@.take(i as int));
        }
        assert(value.password@.take(i as int) =~= value.password@);
        Message::new_request(NetFn::App, SET_USER_PASSWORD_CMD, data)
    }
}

impl vstd::std_specs::convert::FromSpecImpl<SetUserPassword> for Message {
    // The encoding is stated on `from` itself: a message holds a `Vec`,
    // which no spec function can build.
    open spec fn obeys_from_spec() -> bool {
        false
    }

    closed spec fn from_spec(value: SetUserPassword) -> Self {
        arbitrary()
    }
}

/// The error a completion code means for Set User Password: `0x80` is a
/// failed password test and `0x81` a wrong password size; every other code
/// has no meaning specific to this command.
pub open spec fn password_completion_error(completion_code: CompletionErrorCode) -> Option<
    SetUserPasswordError,
> {
    match completion_code {
        CompletionErrorCode::CommandSpecific(0x80) => Some(SetUserPasswordError::TestFailed),
        CompletionErrorCode::CommandSpecific(0x81) => Some(SetUserPasswordError::WrongPasswordSize),
        _ => None,
    }
}

impl IpmiCommand for SetUserPassword {
    type Output = ();

    type Error = SetUserPasswordError;

    fn handle_completion_code(completion_code: CompletionErrorCode, data: &[u8]) -> (r: Option<
        Self::Error,
    >)
        ensures
            r == password_completion_error(completion_code),
    {
        match completion_code {
            CompletionErrorCode::CommandSpecific(0x80) => Some(SetUserPasswordError::TestFailed),
            CompletionErrorCode::CommandSpecific(0x81) => {
                Some(SetUserPasswordError::WrongPasswordSize)
            },
            _ => None,
        }
    }

    fn parse_success_response(data: &[u8]) -> (r: Result<Self::Output, Self::Error>)
        ensures
            r == Ok::<(), SetUserPasswordError>(()),
    {
        Ok(())
    }
}

/// The first Set User Password request byte keeps the whole 6-bit user ID
/// in bits 5:0 and sets bit 7 (`0x80`) exactly when the password size is
/// 20 bytes.
pub proof fn lemma_password_request_byte_layout(user_id: u8, size: PasswordSize)
    requires
        user_id <= 0x3F,
    ensures
        password_request_byte(user_id, size) == user_id + (if size == PasswordSize::Bytes20 {
            128int
        } else {
            0int
        }),
        password_request_byte(user_id, size) % 64 == user_id,
        (password_request_byte(user_id, size) >= 128) == (size == PasswordSize::Bytes20),
{
    assert(user_id <= 0x3F ==> user_id | 0x80 == user_id + 0x80) by (bit_vector);
}

/// The operation codes of Table 22-35, byte 2 bits 1:0: disable user `00b`,
/// enable user `01b`, set password `10b`, test password `11b`.
pub proof fn lemma_operation_codes()
    ensures
        OPERATION_DISABLE_USER == 0,
        OPERATION_ENABLE_USER == 1,
        OPERATION_SET_PASSWORD == 2,
        OPERATION_TEST_PASSWORD == 3,
{
}

} // verus!
