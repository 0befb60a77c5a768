use vstd::prelude::*;

use super::{UserId, UserPrivilege};
use crate::connection::{Channel, IpmiCommand, Message, NetFn, NotEnoughData};

verus! {

/// The Get User Access command.
///
/// This command retrieves the channel access information and enabled/disabled
/// state for a given user ID, as well as information about the number of
/// supported users on the channel.
///
/// Reference: IPMI 2.0 Specification, Section 22.27, Table 22-32.
pub struct GetUserAccess {
    channel: Channel,
    user_id: UserId,
}

impl GetUserAccess {
    /// The channel this command asks about.
    pub closed spec fn spec_channel(&self) -> Channel {
        self.channel
    }

    /// The user ID this command asks about.
    pub closed spec fn spec_user_id(&self) -> UserId {
        self.user_id
    }

    /// Create a new Get User Access command for `user_id` on `channel`.
    pub fn new(channel: Channel, user_id: UserId) -> (r: Self)
        ensures
            r.spec_channel() == channel,
            r.spec_user_id() == user_id,
    {
        Self { channel, user_id }
    }
}

/// The command number of Get User Access.
pub const GET_USER_ACCESS_CMD: u8 = 0x44;

impl From<GetUserAccess> for Message {
    /// The request is the channel number followed by the user ID.
    fn from(value: GetUserAccess) -> (m: Self)
        ensures
            m.netfn == NetFn::App,
            m.cmd == GET_USER_ACCESS_CMD,
            m.data@ == seq![value.spec_channel()@, value.spec_user_id()@],
    {
        let channel = value.channel.value() & 0x0F;
        let user_id = value.user_id.value() & 0x3F;
        proof {
            let c = value.channel@;
            let u = value.user_id@;
            assert(c <= 0x0F ==> c & 0x0F == c) by (bit_vector);
            assert(u <= 0x3F ==> u & 0x3F == u) by (bit_vector);
        }
        Message::new_request(NetFn::App, GET_USER_ACCESS_CMD, vec![channel, user_id])
    }
}

impl vstd::std_specs::convert::FromSpecImpl<GetUserAccess> for Message {
    // The encoding is stated on `from` itself: a message holds a `Vec`,
    // which no spec function can build.
    open spec fn obeys_from_spec() -> bool {
        false
    }

    closed spec fn from_spec(value: GetUserAccess) -> Self {
        arbitrary()
    }
}

impl IpmiCommand for GetUserAccess {
    type Output = UserAccess;

    type Error = NotEnoughData;

    fn parse_success_response(data: &[u8]) -> (r: Result<Self::Output, Self::Error>)
        ensures
            r == (match user_access_from_bytes(data@) {
                Some(access) => Ok(access),
                None => Err(NotEnoughData),
            }),
    {
        match UserAccess::parse(data) {
            Some(access) => Ok(access),
            None => Err(NotEnoughData),
        }
    }
}

/// The enable status of a user ID, as reported by the Get User Access command.
///
/// Reference: IPMI 2.0 Specification, Table 22-32 (byte 3, bits [7:6]).
#[derive(Clone, Copy, Debug, PartialEq, Eq, Structural)]
pub enum UserIdEnableStatus {
    /// Enable status unspecified (`00b`). Returned by pre-errata 3
    /// implementations for backwards compatibility.
    Unspecified,
    /// The user ID was enabled via the Set User Password command (`01b`).
    Enabled,
    /// The user ID was disabled via the Set User Password command (`10b`).
    Disabled,
    /// A reserved value (`11b`).
    Unknown,
}

/// The enable status that the low 2 bits of `value` encode.
pub open spec fn enable_status_from_bits(value: u8) -> UserIdEnableStatus {
    match value & 0b11 {
        0b00 => UserIdEnableStatus::Unspecified,
        0b01 => UserIdEnableStatus::Enabled,
        0b10 => UserIdEnableStatus::Disabled,
        _ => UserIdEnableStatus::Unknown,
    }
}

impl From<u8> for UserIdEnableStatus {
    fn from(value: u8) -> (r: Self) {
        match value & 0b11 {
            0b00 => Self::Unspecified,
            0b01 => Self::Enabled,
            0b10 => Self::Disabled,
            _ => Self::Unknown,
        }
    }
}

impl vstd::std_specs::convert::FromSpecImpl<u8> for UserIdEnableStatus {
    open spec fn obeys_from_spec() -> bool {
        true
    }

    open spec fn from_spec(value: u8) -> Self {
        enable_status_from_bits(value)
    }
}

/// User access information returned by the Get User Access command.
///
/// Reference: IPMI 2.0 Specification, Section 22.27, Table 22-32.
#[derive(Clone, Copy, Debug, PartialEq, Eq, Structural)]
pub struct UserAccess {
    /// Maximum number of user IDs supported on this channel (1-based, includes
    /// User 1).
    pub max_user_ids: u8,
    /// Count of currently enabled user IDs on this channel.
    pub enabled_user_count: u8,
    /// The enable status of the requested user ID.
    pub enable_status: UserIdEnableStatus,
    /// Count of user IDs with fixed names, including User 1.
    pub fixed_name_count: u8,
    /// `true` if user access is available only during a callback connection.
    pub callback_only: bool,
    /// `true` if the user is enabled for link authentication.
    pub link_auth_enabled: bool,
    /// `true` if the user is enabled for IPMI messaging.
    pub ipmi_messaging_enabled: bool,
    /// The privilege limit for the user on this channel.
    pub privilege_limit: UserPrivilege,
}

/// The user access that a Get User Access response carries: `None` when it
/// has fewer than 4 bytes, otherwise the fields of its first 4 bytes (any
/// further bytes are ignored).
pub open spec fn user_access_from_bytes(data: Seq<u8>) -> Option<UserAccess> {
    if data.len() < 4 {
        None
    } else {
        Some(
            UserAccess {
                max_user_ids: data[0] & 0x3F,
                enabled_user_count: data[1] & 0x3F,
                enable_status: enable_status_from_bits((data[1] >> 6) & 0b11),
                fixed_name_count: data[2] & 0x3F,
                callback_only: (data[3] & 0x40) == 0x40,
                link_auth_enabled: (data[3] & 0x20) == 0x20,
                ipmi_messaging_enabled: (data[3] & 0x10) == 0x10,
                privilege_limit: super::privilege_from_bits(data[3] & 0x0F),
            },
        )
    }
}

impl UserAccess {
    /// Parse a `UserAccess` from IPMI response data.
    ///
    /// Reference: IPMI 2.0 Specification, Table 22-32.
    pub fn parse(data: &[u8]) -> (r: Option<Self>)
        ensures
            r == user_access_from_bytes(data@),
    {
        if data.len() < 4 {
            return None;
        }
        let max_user_ids = data[0] & 0x3F;
        let enable_status = UserIdEnableStatus::from((data[1] >> 6) & 0b11);
        let enabled_user_count = data[1] & 0x3F;
        let fixed_name_count = data[2] & 0x3F;

        let callback_only = (data[3] & 0x40) == 0x40;
        let link_auth_enabled = (data[3] & 0x20) == 0x20;
        let ipmi_messaging_enabled = (data[3] & 0x10) == 0x10;
        let privilege_limit = UserPrivilege::from(data[3] & 0x0F);

        Some(
            Self {
                max_user_ids,
                enabled_user_count,
                enable_status,
                fixed_name_count,
                callback_only,
                link_auth_enabled,
                ipmi_messaging_enabled,
                privilege_limit,
            },
        )
    }
}

/// What a Get User Access response decodes to, as arithmetic on the IPMI
/// bit positions: nothing below 4 bytes; otherwise the maximum user count is
/// bits 5:0 of the first byte, the enabled user count bits 5:0 and the enable
/// status bits 7:6 of the second byte, the fixed-name count bits 5:0 of the
/// third byte, and from the fourth byte the callback-only flag is bit 6, link
/// authentication bit 5, IPMI messaging bit 4 and the privilege limit bits
/// 3:0.
pub proof fn lemma_user_access_layout(data: Seq<u8>)
    ensures
        data.len() < 4 ==> user_access_from_bytes(data) is None,
        data.len() >= 4 ==> {
            let access = user_access_from_bytes(data).unwrap();
            &&& access.max_user_ids == data[0] % 64
            &&& access.enabled_user_count == data[1] % 64
            &&& access.enable_status == (if data[1] / 64 == 0 {
                UserIdEnableStatus::Unspecified
            } else if data[1] / 64 == 1 {
                UserIdEnableStatus::Enabled
            } else if data[1] / 64 == 2 {
                UserIdEnableStatus::Disabled
            } else {
                UserIdEnableStatus::Unknown
            })
            &&& access.fixed_name_count == data[2] % 64
            &&& access.callback_only == ((data[3] / 64) % 2 == 1)
            &&& access.link_auth_enabled == ((data[3] / 32) % 2 == 1)
            &&& access.ipmi_messaging_enabled == ((data[3] / 16) % 2 == 1)
            &&& access.privilege_limit == super::privilege_from_bits(data[3] % 16)
        },
{
    if data.len() >= 4 {
        let b0 = data[0];
        let b1 = data[1];
        let b2 = data[2];
        let b3 = data[3];
        assert(b0 & 0x3F == b0 % 64 && b1 & 0x3F == b1 % 64 && b2 & 0x3F == b2 % 64)
            by (bit_vector);
        assert((b1 >> 6) & 0b11 == b1 / 64 && ((b1 >> 6) & 0b11) & 0b11 == b1 / 64)
            by (bit_vector);
        assert(((b3 & 0x40) == 0x40) == ((b3 / 64) % 2 == 1) && ((b3 & 0x20) == 0x20) == ((b3 / 32)
            % 2 == 1) && ((b3 & 0x10) == 0x10) == ((b3 / 16) % 2 == 1)) by (bit_vector);
        assert((b3 & 0x0F) & 0x0F == (b3 % 16) & 0x0F) by (bit_vector);
    }
}

} // verus!
