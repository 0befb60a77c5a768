use vstd::prelude::*;

use super::{UserId, UserPrivilege};
use crate::connection::{Channel, IpmiCommand, Message, NetFn, NotEnoughData};

verus! {

/// The Set User Access command.
///
/// This command configures the privilege limit and channel accessibility
/// associated with a given user ID. The `change_bits` flag in the request is
/// always set, so the link authentication, IPMI messaging and callback
/// settings provided here are always applied.
///
/// Reference: IPMI 2.0 Specification, Section 22.26, Table 22-31.
pub struct SetUserAccess {
    channel: Channel,
    user_id: UserId,
    callback_restricted: bool,
    link_auth_enabled: bool,
    ipmi_messaging_enabled: bool,
    privilege_limit: UserPrivilege,
    session_limit: Option<u8>,
}

/// The command number of Set User Access.
pub const SET_USER_ACCESS_CMD: u8 = 0x43;

/// The first request byte: the `change_bits` flag (bit 7), the callback
/// restriction (bit 6), link authentication (bit 5), IPMI messaging (bit 4)
/// and the channel number (bits 3:0).
pub open spec fn access_request_byte(
    channel: u8,
    callback_restricted: bool,
    link_auth_enabled: bool,
    ipmi_messaging_enabled: bool,
) -> u8 {
    0x80u8 | channel | (if callback_restricted {
        0x40u8
    } else {
        0u8
    }) | (if link_auth_enabled {
        0x20u8
    } else {
        0u8
    }) | (if ipmi_messaging_enabled {
        0x10u8
    } else {
        0u8
    })
}

impl SetUserAccess {
    /// The channel whose access is configured.
    pub closed spec fn spec_channel(&self) -> Channel {
        self.channel
    }

    /// The user whose access is configured.
    pub closed spec fn spec_user_id(&self) -> UserId {
        self.user_id
    }

    /// Whether the user is restricted to Callback level for non-callback
    /// connections.
    pub closed spec fn spec_callback_restricted(&self) -> bool {
        self.callback_restricted
    }

    /// Whether the user is enabled for link authentication.
    pub closed spec fn spec_link_auth_enabled(&self) -> bool {
        self.link_auth_enabled
    }

    /// Whether the user is enabled for IPMI messaging.
    pub closed spec fn spec_ipmi_messaging_enabled(&self) -> bool {
        self.ipmi_messaging_enabled
    }

    /// The privilege limit to set.
    pub closed spec fn spec_privilege_limit(&self) -> UserPrivilege {
        self.privilege_limit
    }

    /// The session limit to set, if any.
    pub closed spec fn spec_session_limit(&self) -> Option<u8> {
        self.session_limit
    }

    /// The request data this command encodes to.
    pub open spec fn spec_request_data(&self) -> Seq<u8> {
        seq![
            access_request_byte(
                self.spec_channel()@,
                self.spec_callback_restricted(),
                self.spec_link_auth_enabled(),
                self.spec_ipmi_messaging_enabled(),
            ),
            self.spec_user_id()@,
            super::privilege_bits(self.spec_privilege_limit()),
        ] + match self.spec_session_limit() {
            Some(limit) => seq![limit & 0x0F],
            None => Seq::empty(),
        }
    }

    /// Create a new Set User Access command for `user_id` on `channel`,
    /// restricting the user to at most `privilege_limit`.
    pub fn new(channel: Channel, user_id: UserId, privilege_limit: UserPrivilege) -> (r: Self)
        ensures
            r.spec_channel() == channel,
            r.spec_user_id() == user_id,
            !r.spec_callback_restricted(),
            !r.spec_link_auth_enabled(),
            !r.spec_ipmi_messaging_enabled(),
            r.spec_privilege_limit() == privilege_limit,
            r.spec_session_limit() is None,
    {
        Self {
            channel,
            user_id,
            callback_restricted: false,
            link_auth_enabled: false,
            ipmi_messaging_enabled: false,
            privilege_limit,
            session_limit: None,
        }
    }

    /// Restrict the user to Callback level for non-callback connections.
    pub fn callback_restricted(self, value: bool) -> (r: Self)
        ensures
            r.spec_callback_restricted() == value,
            r.spec_channel() == self.spec_channel(),
            r.spec_user_id() == self.spec_user_id(),
            r.spec_link_auth_enabled() == self.spec_link_auth_enabled(),
            r.spec_ipmi_messaging_enabled() == self.spec_ipmi_messaging_enabled(),
            r.spec_privilege_limit() == self.spec_privilege_limit(),
            r.spec_session_limit() == self.spec_session_limit(),
    {
        Self { callback_restricted: value, ..self }
    }

    /// Enable or disable the user for link authentication on this channel.
    pub fn link_auth_enabled(self, value: bool) -> (r: Self)
        ensures
            r.spec_link_auth_enabled() == value,
            r.spec_channel() == self.spec_channel(),
            r.spec_user_id() == self.spec_user_id(),
            r.spec_callback_restricted() == self.spec_callback_restricted(),
            r.spec_ipmi_messaging_enabled() == self.spec_ipmi_messaging_enabled(),
            r.spec_privilege_limit() == self.spec_privilege_limit(),
            r.spec_session_limit() == self.spec_session_limit(),
    {
        Self { link_auth_enabled: value, ..self }
    }

    /// Enable or disable the user for IPMI messaging on this channel.
    pub fn ipmi_messaging_enabled(self, value: bool) -> (r: Self)
        ensures
            r.spec_ipmi_messaging_enabled() == value,
            r.spec_channel() == self.spec_channel(),
            r.spec_user_id() == self.spec_user_id(),
            r.spec_callback_restricted() == self.spec_callback_restricted(),
            r.spec_link_auth_enabled() == self.spec_link_auth_enabled(),
            r.spec_privilege_limit() == self.spec_privilege_limit(),
            r.spec_session_limit() == self.spec_session_limit(),
    {
        Self { ipmi_messaging_enabled: value, ..self }
    }

    /// Set the optional user session limit (the maximum number of simultaneous
    /// sessions for this user). Only the low 4 bits are significant.
    pub fn session_limit(self, limit: u8) -> (r: Self)
        ensures
            r.spec_session_limit() == Some(limit),
            r.spec_channel() == self.spec_channel(),
            r.spec_user_id() == self.spec_user_id(),
            r.spec_callback_restricted() == self.spec_callback_restricted(),
            r.spec_link_auth_enabled() == self.spec_link_auth_enabled(),
            r.spec_ipmi_messaging_enabled() == self.spec_ipmi_messaging_enabled(),
            r.spec_privilege_limit() == self.spec_privilege_limit(),
    {
        Self { session_limit: Some(limit), ..self }
    }
}

impl From<SetUserAccess> for Message {
    /// The request is the flags-and-channel byte, the user ID, the privilege
    /// limit and, when one was given, the session limit.
    fn from(value: SetUserAccess) -> (m: Self)
        ensures
            m.netfn == NetFn::App,
            m.cmd == SET_USER_ACCESS_CMD,
            m.data@ == value.spec_request_data(),
    {
        let channel = value.channel.value();
        // Bit 7 enables changing the remaining bits in this byte.
        let mut byte1 = 0x80 | (channel & 0x0F);
        proof {
            assert(channel <= 0x0F ==> channel & 0x0F == channel) by (bit_vector);
        }
        byte1 = byte1 | if value.callback_restricted {
            0x40u8
        } else {
            0u8
        };
        byte1 = byte1 | if value.link_auth_enabled {
            0x20u8
        } else {
            0u8
        };
        byte1 = byte1 | if value.ipmi_messaging_enabled {
            0x10u8
        } else {
            0u8
        };

        let user_id = value.user_id.value() & 0x3F;
        let privilege = u8::from(value.privilege_limit) & 0x0F;
        proof {
            let u = value.user_id@;
            let p = super::privilege_bits(value.privilege_limit);
            super::lemma_privilege_bits_fit(value.privilege_limit);
            assert(u <= 0x3F ==> u & 0x3F == u) by (bit_vector);
            assert(p <= 0x0F ==> p & 0x0F == p) by (bit_vector);
        }

        let mut data = vec![byte1, user_id, privilege];
        if let Some(limit) = value.session_limit {
            data.push(limit & 0x0F);
        }
        Message::new_request(NetFn::App, SET_USER_ACCESS_CMD, data)
    }
}

impl vstd::std_specs::convert::FromSpecImpl<SetUserAccess> for Message {
    // The encoding is stated on `from` itself: a message holds a `Vec`,
    // which no spec function can build.
    open spec fn obeys_from_spec() -> bool {
        false
    }

    closed spec fn from_spec(value: SetUserAccess) -> Self {
        arbitrary()
    }
}

impl IpmiCommand for SetUserAccess {
    type Output = ();

    type Error = NotEnoughData;

    fn parse_success_response(data: &[u8]) -> (r: Result<Self::Output, Self::Error>)
        ensures
            r == Ok::<(), NotEnoughData>(()),
    {
        Ok(())
    }
}

/// A Get User Access response whose fourth byte carries the flag bits and
/// the privilege limit that a Set User Access request wrote decodes to those
/// same settings: the callback restriction, link authentication and IPMI
/// messaging flags sit in the same bit positions in both, and the privilege
/// limit comes back unchanged whenever it is one that decoding can produce.
pub proof fn lemma_access_settings_read_back(
    channel: u8,
    callback_restricted: bool,
    link_auth_enabled: bool,
    ipmi_messaging_enabled: bool,
    privilege_limit: UserPrivilege,
    byte0: u8,
    byte1: u8,
    byte2: u8,
)
    requires
        channel <= 0x0F,
    ensures
        ({
            let flags = access_request_byte(
                channel,
                callback_restricted,
                link_auth_enabled,
                ipmi_messaging_enabled,
            ) & 0x70;
            let access = super::get_user_access::user_access_from_bytes(
                seq![byte0, byte1, byte2, flags | super::privilege_bits(privilege_limit)],
            ).unwrap();
            &&& access.callback_only == callback_restricted
            &&& access.link_auth_enabled == link_auth_enabled
            &&& access.ipmi_messaging_enabled == ipmi_messaging_enabled
            &&& super::is_canonical_privilege(privilege_limit) ==> access.privilege_limit
                == privilege_limit
        }),
{
    let p = super::privilege_bits(privilege_limit);
    super::lemma_privilege_bits_fit(privilege_limit);
    let cb = callback_restricted;
    let la = link_auth_enabled;
    let im = ipmi_messaging_enabled;
    let b = access_request_byte(channel, cb, la, im);
    let d3 = (b & 0x70) | p;
    assert(b == 0x80u8 | channel | (if cb {
        0x40u8
    } else {
        0u8
    }) | (if la {
        0x20u8
    } else {
        0u8
    }) | (if im {
        0x10u8
    } else {
        0u8
    }));
    assert(channel <= 0x0F && p <= 0x0F && d3 == (b & 0x70) | p && b == 0x80u8 | channel | (if cb {
        0x40u8
    } else {
        0u8
    }) | (if la {
        0x20u8
    } else {
        0u8
    }) | (if im {
        0x10u8
    } else {
        0u8
    }) ==> ((d3 & 0x40) == 0x40) == cb && ((d3 & 0x20) == 0x20) == la && ((d3 & 0x10) == 0x10)
        == im && d3 & 0x0F == p) by (bit_vector);
    if super::is_canonical_privilege(privilege_limit) {
        super::lemma_privilege_encode_decode(privilege_limit);
    }
}

/// The first Set User Access request byte, as arithmetic on its bit
/// positions: bit 7 (`0x80`) is always set, bit 6 (`0x40`) exactly when the
/// callback restriction is requested, bit 5 (`0x20`) exactly when link
/// authentication is enabled, bit 4 (`0x10`) exactly when IPMI messaging is
/// enabled, and bits 3:0 hold the channel number.
pub proof fn lemma_access_request_byte_layout(
    channel: u8,
    callback_restricted: bool,
    link_auth_enabled: bool,
    ipmi_messaging_enabled: bool,
)
    requires
        channel <= 0x0F,
    ensures
        access_request_byte(channel, callback_restricted, link_auth_enabled, ipmi_messaging_enabled)
            == 128 + (if callback_restricted {
            64int
        } else {
            0int
        }) + (if link_auth_enabled {
            32int
        } else {
            0int
        }) + (if ipmi_messaging_enabled {
            16int
        } else {
            0int
        }) + channel,
{
    let cb = callback_restricted;
    let la = link_auth_enabled;
    let im = ipmi_messaging_enabled;
    let f6: u8 = if cb {
        0x40
    } else {
        0
    };
    let f5: u8 = if la {
        0x20
    } else {
        0
    };
    let f4: u8 = if im {
        0x10
    } else {
        0
    };
    assert(channel <= 0x0F && (f6 == 0 || f6 == 0x40) && (f5 == 0 || f5 == 0x20) && (f4 == 0
        || f4 == 0x10) ==> 0x80u8 | channel | f6 | f5 | f4 == 0x80 + f6 + f5 + f4 + channel)
        by (bit_vector);
}

/// The request data of a Set User Access command, byte by byte: the
/// flags-and-channel byte laid out as in `lemma_access_request_byte_layout`,
/// the user ID, the 4-bit privilege limit and, exactly when a session limit
/// was given, that limit modulo 16 as a fourth and last byte.
pub proof fn lemma_set_user_access_request_layout(command: SetUserAccess)
    requires
        command.spec_channel()@ <= 0x0F,
    ensures
        ({
            let data = command.spec_request_data();
            &&& data[0] == 128 + (if command.spec_callback_restricted() {
                64int
            } else {
                0int
            }) + (if command.spec_link_auth_enabled() {
                32int
            } else {
                0int
            }) + (if command.spec_ipmi_messaging_enabled() {
                16int
            } else {
                0int
            }) + command.spec_channel()@
            &&& data[1] == command.spec_user_id()@
            &&& data[2] == super::privilege_bits(command.spec_privilege_limit())
            &&& data[2] <= 0x0F
            &&& command.spec_session_limit() is None ==> data.len() == 3
            &&& command.spec_session_limit() matches Some(limit) ==> data.len() == 4 && data[3]
                == limit % 16
        }),
{
    lemma_access_request_byte_layout(
        command.spec_channel()@,
        command.spec_callback_restricted(),
        command.spec_link_auth_enabled(),
        command.spec_ipmi_messaging_enabled(),
    );
    super::lemma_privilege_bits_fit(command.spec_privilege_limit());
    if let Some(limit) = command.spec_session_limit() {
        assert(limit & 0x0F == limit % 16) by (bit_vector);
    }
}

} // verus!
