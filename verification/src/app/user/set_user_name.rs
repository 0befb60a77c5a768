use vstd::prelude::*;
use vstd::string::*;

use super::{pad_with_zeros, UserId};
use crate::connection::{IpmiCommand, Message, NetFn, NotEnoughData};

verus! {

/// The maximum length, in bytes, of a user name.
pub const MAX_USER_NAME_LEN: usize = 16;

/// The command number of Set User Name.
pub const SET_USER_NAME_CMD: u8 = 0x45;

/// The Set User Name command.
///
/// This command assigns a user name to a given user ID. The name is stored as
/// a 16-byte ASCII string, null-terminated and null-padded. There is no
/// configurable name for User ID 1, which is permanently the null user.
///
/// Reference: IPMI 2.0 Specification, Section 22.28, Table 22-33.
pub struct SetUserName {
    user_id: UserId,
    name: Vec<u8>,
}

impl SetUserName {
    /// The user whose name is set.
    pub closed spec fn spec_user_id(&self) -> UserId {
        self.user_id
    }

    /// The 16-byte name field: the name, null-padded.
    pub closed spec fn spec_name_field(&self) -> Seq<u8> {
        self.name@
    }

    /// Create a new Set User Name command setting the name of `user_id` to
    /// `name`.
    ///
    /// Returns `None` if `name` is longer than [`MAX_USER_NAME_LEN`] bytes.
    pub fn new(user_id: UserId, name: &str) -> (r: Option<Self>)
        ensures
            r is Some <==> name.spec_bytes().len() <= MAX_USER_NAME_LEN,
            r matches Some(command) ==> {
                &&& command.spec_user_id() == user_id
                &&& command.spec_name_field() == super::zero_padded(
                    name.spec_bytes(),
                    MAX_USER_NAME_LEN as nat,
                )
            },
    {
        let bytes = name.as_bytes();
        if bytes.len() > MAX_USER_NAME_LEN {
            return None;
        }
        let name = pad_with_zeros(bytes, MAX_USER_NAME_LEN);
        Some(Self { user_id, name })
    }
}

impl From<SetUserName> for Message {
    /// The request is the user ID followed by the 16-byte name field.
    fn from(value: SetUserName) -> (m: Self)
        ensures
            m.netfn == NetFn::App,
            m.cmd == SET_USER_NAME_CMD,
            m.data@ == seq![value.spec_user_id()@] + value.spec_name_field(),
    {
        let mut data: Vec<u8> = Vec::with_capacity(1 + MAX_USER_NAME_LEN);
        let user_id = value.user_id.value() & 0x3F;
        proof {
            let u = value.user_id@;
            assert(u <= 0x3F ==> u & 0x3F == u) by (bit_vector);
        }
        data.push(user_id);
        let mut i: usize = 0;
        while i < value.name.len()
            invariant
                i <= value.name@.len(),
                data@ == seq![value.user_id@] + value.name@.take(i as int),
            decreases value.name@.len() - i,
        {
            data.push(value.name[i]);
            i = i + 1;
            assert(data@ =~= seq![value.user_id@] + value.name@.take(i as int));
        }
        assert(value.name@.take(i as int) =~= value.name@);
        Message::new_request(NetFn::App, SET_USER_NAME_CMD, data)
    }
}

impl vstd::std_specs::convert::FromSpecImpl<SetUserName> for Message {
    // The encoding is stated on `from` itself: a message holds a `Vec`,
    // which no spec function can build.
    open spec fn obeys_from_spec() -> bool {
        false
    }

    closed spec fn from_spec(value: SetUserName) -> Self {
        arbitrary()
    }
}

impl IpmiCommand for SetUserName {
    type Output = ();

    type Error = NotEnoughData;

    fn parse_success_response(data: &[u8]) -> (r: Result<Self::Output, Self::Error>)
        ensures
            r == Ok::<(), NotEnoughData>(()),
    {
        Ok(())
    }
}

} // verus!
