//! Definitions for the IPMI user management commands.
//!
//! These commands operate on the management controller's user table: they
//! configure per-user channel access and privilege limits, user names, and
//! passwords.
//!
//! Reference: IPMI 2.0 Specification, Sections 22.26 - 22.30.

use vstd::prelude::*;
use vstd::string::*;

pub mod get_user_access;
pub use get_user_access::{GetUserAccess, UserAccess, UserIdEnableStatus, GET_USER_ACCESS_CMD};

pub mod set_user_access;
pub use set_user_access::{SetUserAccess, SET_USER_ACCESS_CMD};

pub mod get_user_name;
pub use get_user_name::{GetUserName, GET_USER_NAME_CMD};

pub mod set_user_name;
pub use set_user_name::{SetUserName, MAX_USER_NAME_LEN, SET_USER_NAME_CMD};

pub mod set_user_password;
pub use set_user_password::{
    PasswordSize, SetUserPassword, SetUserPasswordError, OPERATION_DISABLE_USER,
    OPERATION_ENABLE_USER, OPERATION_SET_PASSWORD, OPERATION_TEST_PASSWORD, SET_USER_PASSWORD_CMD,
};

verus! {

/// A user ID, used as the index into the management controller's user table.
///
/// Valid user IDs are in the range `1..=63`. User ID 1 is permanently
/// associated with the null user (`User 1`). The value `0` is reserved.
///
/// Reference: IPMI 2.0 Specification, Section 22.26.
#[derive(Clone, Copy, Debug, PartialEq, Eq, Structural)]
pub struct UserId(u8);

impl UserId {
    #[verifier::type_invariant]
    spec fn in_table_range(self) -> bool {
        1 <= self.0 <= 0x3F
    }

    /// Create a new `UserId`.
    ///
    /// Returns `None` if `value` is `0` (reserved) or greater than `0x3F`, as
    /// the User ID field is only 6 bits wide.
    pub fn new(value: u8) -> (r: Option<Self>)
        ensures
            r is Some <==> 1 <= value <= 0x3F,
            r matches Some(id) ==> id@ == value,
    {
        if value == 0 || value > 0x3F {
            None
        } else {
            Some(Self(value))
        }
    }

    /// Get the numeric value of this `UserId`.
    pub fn value(&self) -> (r: u8)
        ensures
            r == self@,
            1 <= r <= 0x3F,
    {
        proof {
            use_type_invariant(self);
        }
        self.0
    }

    /// The text `User <n>`, with `<n>` the value in decimal.
    pub fn to_string(&self) -> (s: String)
        ensures
            s@ == seq!['U', 's', 'e', 'r', ' '] + decimal_text(self@),
    {
        let mut s = "User ".to_owned();
        proof {
            reveal_strlit("User ");
        }
        let v = self.value();
        if v >= 100 {
            s.append(digit_text(v / 100));
        }
        if v >= 10 {
            s.append(digit_text((v / 10) % 10));
        }
        s.append(digit_text(v % 10));
        s
    }
}

impl View for UserId {
    type V = u8;

    closed spec fn view(&self) -> u8 {
        self.0
    }
}

/// A `UserId` is determined by its number: two user IDs with the same value
/// are the same user ID, so `UserId::new(id.value())` gives back `Some(id)`.
pub proof fn lemma_user_id_determined_by_value(a: UserId, b: UserId)
    requires
        a@ == b@,
    ensures
        a == b,
{
}

/// `bytes` followed by zero bytes up to a total length of `len` (when
/// `bytes` is no longer than `len`).
pub open spec fn zero_padded(bytes: Seq<u8>, len: nat) -> Seq<u8> {
    bytes + Seq::new((len - bytes.len()) as nat, |i: int| 0u8)
}

/// A zero-padded field has exactly the requested length, starts with the
/// bytes it was made from, and holds only zero bytes after them.
pub proof fn lemma_zero_padded(bytes: Seq<u8>, len: nat)
    requires
        bytes.len() <= len,
    ensures
        zero_padded(bytes, len).len() == len,
        zero_padded(bytes, len).take(bytes.len() as int) == bytes,
        forall|i: int| bytes.len() <= i < len ==> zero_padded(bytes, len)[i] == 0,
{
    assert(zero_padded(bytes, len).take(bytes.len() as int) =~= bytes);
}

/// Copy `bytes` into a new vector of length `len`, filling the rest with
/// zero bytes.
fn pad_with_zeros(bytes: &[u8], len: usize) -> (r: Vec<u8>)
    requires
        bytes@.len() <= len,
    ensures
        r@ == zero_padded(bytes@, len as nat),
{
    let mut r: Vec<u8> = Vec::with_capacity(len);
    let mut i: usize = 0;
    while i < bytes.len()
        invariant
            i <= bytes@.len(),
            r@ == bytes@.take(i as int),
        decreases bytes@.len() - i,
    {
        r.push(bytes[i]);
        i = i + 1;
        assert(r@ == bytes@.take(i as int));
    }
    while i < len
        invariant
            bytes@.len() <= i <= len,
            r@ == zero_padded(bytes@, (i as nat)),
        decreases len - i,
    {
        r.push(0u8);
        i = i + 1;
        assert(r@ =~= zero_padded(bytes@, (i as nat)));
    }
    r
}

/// The upper-case hexadecimal digit for `d` (`d < 16`).
pub open spec fn hex_digit(d: u8) -> char {
    match d {
        0 => '0',
        1 => '1',
        2 => '2',
        3 => '3',
        4 => '4',
        5 => '5',
        6 => '6',
        7 => '7',
        8 => '8',
        9 => '9',
        10 => 'A',
        11 => 'B',
        12 => 'C',
        13 => 'D',
        14 => 'E',
        _ => 'F',
    }
}

/// The decimal text of `v`, without leading zeros.
pub open spec fn decimal_text(v: u8) -> Seq<char> {
    if v >= 100 {
        seq![hex_digit(v / 100), hex_digit((v / 10) % 10), hex_digit(v % 10)]
    } else if v >= 10 {
        seq![hex_digit(v / 10), hex_digit(v % 10)]
    } else {
        seq![hex_digit(v)]
    }
}

/// The number a string of decimal digits stands for.
pub open spec fn decimal_value(text: Seq<char>) -> int
    decreases text.len(),
{
    if text.len() == 0 {
        0
    } else {
        decimal_value(text.drop_last()) * 10 + (text.last() as int - 0x30)
    }
}

/// Each hexadecimal digit is the character `'0' + d` for `d < 10` and
/// `'A' + (d - 10)` above.
pub proof fn lemma_hex_digit_code(d: u8)
    requires
        d < 16,
    ensures
        hex_digit(d) as int == (if d < 10 {
            0x30 + d
        } else {
            0x41 + d - 10
        }),
{
}

/// `decimal_text(v)` is the standard decimal numeral of `v`: every character
/// is a digit `'0'..='9'`, it has no leading zero, and the digits stand for
/// `v`.
pub proof fn lemma_decimal_text_numeral(v: u8)
    ensures
        forall|i: int|
            0 <= i < decimal_text(v).len() ==> 0x30 <= #[trigger] decimal_text(v)[i] as int
                <= 0x39,
        decimal_text(v).len() > 1 ==> decimal_text(v)[0] != '0',
        decimal_value(decimal_text(v)) == v,
{
    let t = decimal_text(v);
    lemma_hex_digit_code(v % 10);
    let ones = hex_digit(v % 10) as int - 0x30;
    if v >= 100 {
        lemma_hex_digit_code(v / 100);
        lemma_hex_digit_code((v / 10) % 10);
        let t1 = t.drop_last();
        let t2 = t1.drop_last();
        assert(t1 =~= seq![hex_digit(v / 100), hex_digit((v / 10) % 10)]);
        assert(t2 =~= seq![hex_digit(v / 100)]);
        assert(t2.drop_last() =~= Seq::<char>::empty());
        assert(decimal_value(Seq::<char>::empty()) == 0);
        assert(t2.last() == hex_digit(v / 100));
        assert(decimal_value(t2) == v / 100);
        assert(decimal_value(t1) == (v / 100) * 10 + (v / 10) % 10);
        assert(decimal_value(t) == ((v / 100) * 10 + (v / 10) % 10) * 10 + ones);
        assert(((v / 100) * 10 + (v / 10) % 10) * 10 + v % 10 == v);
    } else if v >= 10 {
        lemma_hex_digit_code(v / 10);
        let t1 = t.drop_last();
        assert(t1 =~= seq![hex_digit(v / 10)]);
        assert(t1.drop_last() =~= Seq::<char>::empty());
        assert(decimal_value(Seq::<char>::empty()) == 0);
        assert(t1.last() == hex_digit(v / 10));
        assert(decimal_value(t1) == v / 10);
        assert(decimal_value(t) == (v / 10) * 10 + ones);
    } else {
        assert(t.drop_last() =~= Seq::<char>::empty());
        assert(decimal_value(Seq::<char>::empty()) == 0);
        assert(decimal_value(t) == ones);
    }
}

/// The privilege decoded from a byte depends on its low 4 bits only:
/// `1..=5` are Callback, User, Operator, Administrator and OEM Proprietary,
/// `0xF` is No Access, and every other value is `Unknown` holding those
/// 4 bits.
pub proof fn lemma_privilege_from_low_nibble(value: u8)
    ensures
        privilege_from_bits(value) == (if value % 16 == 1 {
            UserPrivilege::Callback
        } else if value % 16 == 2 {
            UserPrivilege::User
        } else if value % 16 == 3 {
            UserPrivilege::Operator
        } else if value % 16 == 4 {
            UserPrivilege::Administrator
        } else if value % 16 == 5 {
            UserPrivilege::OemProprietary
        } else if value % 16 == 15 {
            UserPrivilege::NoAccess
        } else {
            UserPrivilege::Unknown(value % 16)
        }),
        privilege_bits(privilege_from_bits(value)) == value % 16,
{
    assert(value & 0x0F == value % 16) by (bit_vector);
    lemma_privilege_decode_encode(value);
}

/// The text of a single hexadecimal digit.
fn digit_text(d: u8) -> (s: &'static str)
    requires
        d < 16,
    ensures
        s@ == seq![hex_digit(d)],
{
    proof {
        reveal_strlit("0");
        reveal_strlit("1");
        reveal_strlit("2");
        reveal_strlit("3");
        reveal_strlit("4");
        reveal_strlit("5");
        reveal_strlit("6");
        reveal_strlit("7");
        reveal_strlit("8");
        reveal_strlit("9");
        reveal_strlit("A");
        reveal_strlit("B");
        reveal_strlit("C");
        reveal_strlit("D");
        reveal_strlit("E");
        reveal_strlit("F");
    }
    match d {
        0 => "0",
        1 => "1",
        2 => "2",
        3 => "3",
        4 => "4",
        5 => "5",
        6 => "6",
        7 => "7",
        8 => "8",
        9 => "9",
        10 => "A",
        11 => "B",
        12 => "C",
        13 => "D",
        14 => "E",
        _ => "F",
    }
}

/// The privilege limit that applies to a user on a given channel.
///
/// This determines the maximum privilege level the user is allowed to switch
/// to on the channel. Unlike the session privilege levels, it includes the
/// `NoAccess` value (`0xF`).
///
/// Reference: IPMI 2.0 Specification, Table 22-31 and Table 22-32.
#[derive(Clone, Copy, Debug, PartialEq, Eq, Structural)]
pub enum UserPrivilege {
    /// Callback level (`0x1`).
    Callback,
    /// User level (`0x2`).
    User,
    /// Operator level (`0x3`).
    Operator,
    /// Administrator level (`0x4`).
    Administrator,
    /// OEM Proprietary level (`0x5`).
    OemProprietary,
    /// No access (`0xF`).
    NoAccess,
    /// An unknown or reserved value.
    Unknown(u8),
}

/// The privilege that the low 4 bits of `value` encode.
pub open spec fn privilege_from_bits(value: u8) -> UserPrivilege {
    match value & 0x0F {
        0x1 => UserPrivilege::Callback,
        0x2 => UserPrivilege::User,
        0x3 => UserPrivilege::Operator,
        0x4 => UserPrivilege::Administrator,
        0x5 => UserPrivilege::OemProprietary,
        0xF => UserPrivilege::NoAccess,
        v => UserPrivilege::Unknown(v),
    }
}

/// The 4-bit encoding of a privilege.
pub open spec fn privilege_bits(value: UserPrivilege) -> u8 {
    match value {
        UserPrivilege::Callback => 0x1,
        UserPrivilege::User => 0x2,
        UserPrivilege::Operator => 0x3,
        UserPrivilege::Administrator => 0x4,
        UserPrivilege::OemProprietary => 0x5,
        UserPrivilege::NoAccess => 0xF,
        UserPrivilege::Unknown(v) => v & 0x0F,
    }
}

/// A privilege that decoding can produce: a named level, or an `Unknown`
/// holding a 4-bit value that names no level.
pub open spec fn is_canonical_privilege(value: UserPrivilege) -> bool {
    match value {
        UserPrivilege::Unknown(v) => v <= 0x0F && v != 0x1 && v != 0x2 && v != 0x3 && v != 0x4
            && v != 0x5 && v != 0xF,
        _ => true,
    }
}

impl From<u8> for UserPrivilege {
    fn from(value: u8) -> (r: Self) {
        match value & 0x0F {
            0x1 => Self::Callback,
            0x2 => Self::User,
            0x3 => Self::Operator,
            0x4 => Self::Administrator,
            0x5 => Self::OemProprietary,
            0xF => Self::NoAccess,
            v => Self::Unknown(v),
        }
    }
}

impl vstd::std_specs::convert::FromSpecImpl<u8> for UserPrivilege {
    open spec fn obeys_from_spec() -> bool {
        true
    }

    open spec fn from_spec(value: u8) -> Self {
        privilege_from_bits(value)
    }
}

impl From<UserPrivilege> for u8 {
    fn from(value: UserPrivilege) -> (r: Self) {
        match value {
            UserPrivilege::Callback => 0x1,
            UserPrivilege::User => 0x2,
            UserPrivilege::Operator => 0x3,
            UserPrivilege::Administrator => 0x4,
            UserPrivilege::OemProprietary => 0x5,
            UserPrivilege::NoAccess => 0xF,
            UserPrivilege::Unknown(v) => v & 0x0F,
        }
    }
}

impl vstd::std_specs::convert::FromSpecImpl<UserPrivilege> for u8 {
    open spec fn obeys_from_spec() -> bool {
        true
    }

    open spec fn from_spec(value: UserPrivilege) -> Self {
        privilege_bits(value)
    }
}

/// The display text of a privilege.
pub open spec fn privilege_text(value: UserPrivilege) -> Seq<char> {
    match value {
        UserPrivilege::Callback => seq!['C', 'a', 'l', 'l', 'b', 'a', 'c', 'k'],
        UserPrivilege::User => seq!['U', 's', 'e', 'r'],
        UserPrivilege::Operator => seq!['O', 'p', 'e', 'r', 'a', 't', 'o', 'r'],
        UserPrivilege::Administrator => seq![
            'A', 'd', 'm', 'i', 'n', 'i', 's', 't', 'r', 'a', 't', 'o', 'r',
        ],
        UserPrivilege::OemProprietary => seq![
            'O', 'E', 'M', ' ', 'P', 'r', 'o', 'p', 'r', 'i', 'e', 't', 'a', 'r', 'y',
        ],
        UserPrivilege::NoAccess => seq!['N', 'o', ' ', 'A', 'c', 'c', 'e', 's', 's'],
        UserPrivilege::Unknown(v) => seq![
            'U', 'n', 'k', 'n', 'o', 'w', 'n', ' ', '(', '0', 'x',
        ] + seq![hex_digit(v / 16), hex_digit(v % 16), ')'],
    }
}

impl UserPrivilege {
    /// The display text of this privilege, such as `Operator` or
    /// `Unknown (0x0A)`.
    pub fn to_string(&self) -> (s: String)
        ensures
            s@ == privilege_text(*self),
    {
        proof {
            reveal_strlit("Callback");
            reveal_strlit("User");
            reveal_strlit("Operator");
            reveal_strlit("Administrator");
            reveal_strlit("OEM Proprietary");
            reveal_strlit("No Access");
            reveal_strlit("Unknown (0x");
            reveal_strlit(")");
        }
        match self {
            UserPrivilege::Callback => "Callback".to_owned(),
            UserPrivilege::User => "User".to_owned(),
            UserPrivilege::Operator => "Operator".to_owned(),
            UserPrivilege::Administrator => "Administrator".to_owned(),
            UserPrivilege::OemProprietary => "OEM Proprietary".to_owned(),
            UserPrivilege::NoAccess => "No Access".to_owned(),
            UserPrivilege::Unknown(v) => {
                let mut s = "Unknown (0x".to_owned();
                s.append(digit_text(*v / 16));
                s.append(digit_text(*v % 16));
                s.append(")");
                s
            },
        }
    }
}

/// Encoding a decoded privilege gives back the low 4 bits of the byte it was
/// decoded from.
pub proof fn lemma_privilege_decode_encode(value: u8)
    ensures
        privilege_bits(privilege_from_bits(value)) == value & 0x0F,
        is_canonical_privilege(privilege_from_bits(value)),
{
    assert((value & 0x0F) & 0x0F == value & 0x0F && value & 0x0F <= 0x0F) by (bit_vector);
}

/// Decoding an encoded privilege gives back the privilege, for every
/// privilege that decoding can produce.
pub proof fn lemma_privilege_encode_decode(value: UserPrivilege)
    requires
        is_canonical_privilege(value),
    ensures
        privilege_from_bits(privilege_bits(value)) == value,
{
    if let UserPrivilege::Unknown(v) = value {
        assert(v <= 0x0F ==> v & 0x0F == v && (v & 0x0F) & 0x0F == v) by (bit_vector);
        assert(privilege_bits(value) == v);
    }
    assert(1u8 & 0x0F == 1 && 2u8 & 0x0F == 2 && 3u8 & 0x0F == 3 && 4u8 & 0x0F == 4 && 5u8 & 0x0F
        == 5 && 0xFu8 & 0x0F == 0xF) by (bit_vector);
}

/// Every encoded privilege fits in 4 bits.
pub proof fn lemma_privilege_bits_fit(value: UserPrivilege)
    ensures
        privilege_bits(value) <= 0x0F,
{
    if let UserPrivilege::Unknown(v) = value {
        assert(v & 0x0F <= 0x0F) by (bit_vector);
    }
}

} // verus!
