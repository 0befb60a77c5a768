use vstd::prelude::*;
use vstd::utf8::*;

use super::set_user_name::MAX_USER_NAME_LEN;
use super::UserId;
use crate::connection::{IpmiCommand, Message, NetFn, NotEnoughData};

verus! {

/// The command number of Get User Name.
pub const GET_USER_NAME_CMD: u8 = 0x46;

/// The Get User Name command.
///
/// This command retrieves the user name that was set for a given user ID using
/// the Set User Name command.
///
/// Reference: IPMI 2.0 Specification, Section 22.29, Table 22-34.
pub struct GetUserName {
    user_id: UserId,
}

impl GetUserName {
    /// The user whose name is asked for.
    pub closed spec fn spec_user_id(&self) -> UserId {
        self.user_id
    }

    /// Create a new Get User Name command for `user_id`.
    pub fn new(user_id: UserId) -> (r: Self)
        ensures
            r.spec_user_id() == user_id,
    {
        Self { user_id }
    }

    /// The bytes of the user name in a Get User Name response: the 16-byte
    /// name field up to its first null byte (or all of it when it has none).
    /// Fails when the response holds fewer than 16 bytes.
    pub fn name_bytes(data: &[u8]) -> (r: Result<&[u8], NotEnoughData>)
        ensures
            r is Err <==> data@.len() < MAX_USER_NAME_LEN,
            r matches Ok(bytes) ==> user_name_bytes(data@) == Some(bytes@),
    {
        if data.len() < MAX_USER_NAME_LEN {
            return Err(NotEnoughData);
        }
        let ghost field = data@.take(MAX_USER_NAME_LEN as int);
        let mut end: usize = 0;
        while end < MAX_USER_NAME_LEN && data[end] != 0
            invariant
                end <= MAX_USER_NAME_LEN <= data@.len(),
                field == data@.take(MAX_USER_NAME_LEN as int),
                forall|j: int| 0 <= j < end ==> field[j] != 0,
            decreases MAX_USER_NAME_LEN - end,
        {
            end = end + 1;
        }
        proof {
            lemma_null_position(field, end as int);
            assert(field.take(end as int) =~= data@.subrange(0, end as int));
        }
        let (name, _) = data.split_at(end);
        Ok(name)
    }
}

/// The index of the first null byte of `field`, or its length when it holds
/// none.
pub open spec fn null_position(field: Seq<u8>) -> int
    decreases field.len(),
{
    if field.len() == 0 {
        0
    } else if field[0] == 0 {
        0
    } else {
        1 + null_position(field.drop_first())
    }
}

/// The name bytes that a Get User Name response carries: `None` when it has
/// fewer than 16 bytes, otherwise its first 16 bytes up to the first null.
pub open spec fn user_name_bytes(data: Seq<u8>) -> Option<Seq<u8>> {
    if data.len() < MAX_USER_NAME_LEN {
        None
    } else {
        let field = data.take(MAX_USER_NAME_LEN as int);
        Some(field.take(null_position(field)))
    }
}

/// `i` is the null position of `field` when no byte before `i` is null and
/// `i` is the end of `field` or a null byte.
pub proof fn lemma_null_position(field: Seq<u8>, i: int)
    requires
        0 <= i <= field.len(),
        forall|j: int| 0 <= j < i ==> field[j] != 0,
        i == field.len() || field[i] == 0,
    ensures
        null_position(field) == i,
    decreases i,
{
    if i > 0 {
        let rest = field.drop_first();
        assert forall|j: int| 0 <= j < i - 1 implies rest[j] != 0 by {
            assert(rest[j] == field[j + 1]);
        }
        if i < field.len() {
            assert(rest[i - 1] == field[i]);
        }
        lemma_null_position(rest, i - 1);
    }
}

/// What `String::from_utf8_lossy` returns for the given bytes: their UTF-8
/// decoding, with each invalid sequence replaced by U+FFFD.
pub uninterp spec fn utf8_lossy_decode(bytes: Seq<u8>) -> Seq<char>;

/// Calls `String::from_utf8_lossy` and takes the owned string.
///
/// Trusted: the result is `utf8_lossy_decode` of the bytes, and for valid
/// UTF-8 it is their plain decoding (std documents that valid input is
/// returned unchanged). What replaces an invalid sequence is not stated.
#[verifier::external_body]
fn string_from_utf8_lossy(bytes: &[u8]) -> (s: String)
    ensures
        s@ == utf8_lossy_decode(bytes@),
        valid_utf8(bytes@) ==> s@ == decode_utf8(bytes@),
{
    String::from_utf8_lossy(bytes).into_owned()
}

impl From<GetUserName> for Message {
    /// The request is the user ID.
    fn from(value: GetUserName) -> (m: Self)
        ensures
            m.netfn == NetFn::App,
            m.cmd == GET_USER_NAME_CMD,
            m.data@ == seq![value.spec_user_id()@],
    {
        let user_id = value.user_id.value() & 0x3F;
        proof {
            let u = value.user_id@;
            assert(u <= 0x3F ==> u & 0x3F == u) by (bit_vector);
        }
        Message::new_request(NetFn::App, GET_USER_NAME_CMD, vec![user_id])
    }
}

impl vstd::std_specs::convert::FromSpecImpl<GetUserName> for Message {
    // The encoding is stated on `from` itself: a message holds a `Vec`,
    // which no spec function can build.
    open spec fn obeys_from_spec() -> bool {
        false
    }

    closed spec fn from_spec(value: GetUserName) -> Self {
        arbitrary()
    }
}

impl IpmiCommand for GetUserName {
    type Output = String;

    type Error = NotEnoughData;

    fn parse_success_response(data: &[u8]) -> (r: Result<Self::Output, Self::Error>)
        ensures
            r is Err <==> data@.len() < MAX_USER_NAME_LEN,
            r matches Ok(name) ==> {
                let bytes = user_name_bytes(data@).unwrap();
                &&& name@ == utf8_lossy_decode(bytes)
                &&& valid_utf8(bytes) ==> name@ == decode_utf8(bytes)
            },
    {
        match Self::name_bytes(data) {
            Ok(bytes) => Ok(string_from_utf8_lossy(bytes)),
            Err(e) => Err(e),
        }
    }
}

/// The UTF-8 encoding of a string without null characters holds no null
/// byte.
pub proof fn lemma_encode_utf8_no_null(chars: Seq<char>)
    requires
        forall|i: int| 0 <= i < chars.len() ==> chars[i] != '\0',
    ensures
        forall|i: int| 0 <= i < encode_utf8(chars).len() ==> encode_utf8(chars)[i] != 0,
    decreases chars.len(),
{
    if chars.len() > 0 {
        let rest = chars.drop_first();
        lemma_encode_utf8_no_null(rest);
        let c = chars[0];
        let s = c as u32;
        char_is_scalar(c);
        assert(s != 0) by {
            if s == 0 {
                char_u32_cast(c, s);
                char_u32_cast('\0', '\0' as u32);
                assert('\0' as u32 == 0);
            }
        }
        assert(s != 0 && s <= 0x7F ==> (s & 0x7F) as u8 != 0) by (bit_vector);
        assert(0xC0u8 | ((s >> 6) & 0x1F) as u8 != 0) by (bit_vector);
        assert(0xE0u8 | ((s >> 12) & 0x0F) as u8 != 0) by (bit_vector);
        assert(0xF0u8 | ((s >> 18) & 0x7) as u8 != 0) by (bit_vector);
        assert(0x80u8 | (s & 0x3F) as u8 != 0) by (bit_vector);
        assert(0x80u8 | ((s >> 6) & 0x3F) as u8 != 0) by (bit_vector);
        assert(0x80u8 | ((s >> 12) & 0x3F) as u8 != 0) by (bit_vector);
        let head = encode_scalar(s);
        assert(forall|i: int| 0 <= i < head.len() ==> head[i] != 0);
        assert(encode_utf8(chars) == head + encode_utf8(rest));
    }
}

/// A user name written by Set User Name is read back by Get User Name: when
/// the response's name field is the null-padded name field of the request,
/// the name bytes decoded are exactly the UTF-8 encoding of the name, and that
/// encoding is valid UTF-8 that decodes to the name. Holds for every name of
/// at most 16 bytes without a null character.
pub proof fn lemma_user_name_read_back(name: Seq<char>)
    requires
        encode_utf8(name).len() <= MAX_USER_NAME_LEN,
        forall|i: int| 0 <= i < name.len() ==> name[i] != '\0',
    ensures
        user_name_bytes(super::zero_padded(encode_utf8(name), MAX_USER_NAME_LEN as nat)) == Some(
            encode_utf8(name),
        ),
        valid_utf8(encode_utf8(name)),
        decode_utf8(encode_utf8(name)) == name,
{
    let bytes = encode_utf8(name);
    let data = super::zero_padded(bytes, MAX_USER_NAME_LEN as nat);
    lemma_encode_utf8_no_null(name);
    let field = data.take(MAX_USER_NAME_LEN as int);
    assert(field =~= data);
    assert forall|j: int| 0 <= j < bytes.len() implies field[j] != 0 by {
        assert(field[j] == bytes[j]);
    }
    lemma_null_position(field, bytes.len() as int);
    assert(field.take(bytes.len() as int) =~= bytes);
    encode_utf8_valid_utf8(name);
    encode_utf8_decode_utf8(name);
}

} // verus!
