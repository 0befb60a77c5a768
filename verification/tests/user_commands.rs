use ipmi_rs_core::app::{
    GetUserAccess, GetUserName, PasswordSize, SetUserAccess, SetUserName, SetUserPassword,
    SetUserPasswordError, UserAccess, UserId, UserIdEnableStatus, UserPrivilege,
};
use ipmi_rs_core::connection::{Channel, CompletionErrorCode, IpmiCommand, Message, NetFn, NotEnoughData};

fn user(v: u8) -> UserId {
    UserId::new(v).unwrap()
}

fn channel(v: u8) -> Channel {
    Channel::new(v).unwrap()
}

#[test]
fn user_id_range() {
    assert!(UserId::new(0).is_none());
    assert_eq!(UserId::new(1).map(|u| u.value()), Some(1));
    assert_eq!(UserId::new(0x3F).map(|u| u.value()), Some(0x3F));
    assert!(UserId::new(0x40).is_none());
    assert!(UserId::new(0xFF).is_none());
}

#[test]
fn user_id_text() {
    assert_eq!(user(1).to_string(), "User 1");
    assert_eq!(user(2).to_string(), "User 2");
    assert_eq!(user(10).to_string(), "User 10");
    assert_eq!(user(63).to_string(), "User 63");
}

#[test]
fn channel_range() {
    assert_eq!(Channel::new(0).map(|c| c.value()), Some(0));
    assert_eq!(Channel::new(0xF).map(|c| c.value()), Some(0xF));
    assert!(Channel::new(0x10).is_none());
}

#[test]
fn privilege_decoding() {
    assert_eq!(UserPrivilege::from(0x01), UserPrivilege::Callback);
    assert_eq!(UserPrivilege::from(0x02), UserPrivilege::User);
    assert_eq!(UserPrivilege::from(0x03), UserPrivilege::Operator);
    assert_eq!(UserPrivilege::from(0x04), UserPrivilege::Administrator);
    assert_eq!(UserPrivilege::from(0x05), UserPrivilege::OemProprietary);
    assert_eq!(UserPrivilege::from(0x0F), UserPrivilege::NoAccess);
    assert_eq!(UserPrivilege::from(0x00), UserPrivilege::Unknown(0));
    assert_eq!(UserPrivilege::from(0x0A), UserPrivilege::Unknown(0x0A));
    assert_eq!(UserPrivilege::from(0xF3), UserPrivilege::Operator);
}

#[test]
fn privilege_encoding() {
    assert_eq!(u8::from(UserPrivilege::Callback), 0x1);
    assert_eq!(u8::from(UserPrivilege::Administrator), 0x4);
    assert_eq!(u8::from(UserPrivilege::NoAccess), 0xF);
    assert_eq!(u8::from(UserPrivilege::Unknown(0x3A)), 0x0A);
}

#[test]
fn privilege_decode_encode_law() {
    for b in 0..=255u8 {
        let p = UserPrivilege::from(b);
        assert_eq!(u8::from(p), b & 0x0F);
        assert_eq!(UserPrivilege::from(u8::from(p)), p);
    }
}

#[test]
fn privilege_text() {
    assert_eq!(UserPrivilege::Callback.to_string(), "Callback");
    assert_eq!(UserPrivilege::User.to_string(), "User");
    assert_eq!(UserPrivilege::Operator.to_string(), "Operator");
    assert_eq!(UserPrivilege::Administrator.to_string(), "Administrator");
    assert_eq!(UserPrivilege::OemProprietary.to_string(), "OEM Proprietary");
    assert_eq!(UserPrivilege::NoAccess.to_string(), "No Access");
    assert_eq!(UserPrivilege::Unknown(0x0A).to_string(), "Unknown (0x0A)");
    assert_eq!(UserPrivilege::Unknown(0).to_string(), "Unknown (0x00)");
    assert_eq!(UserPrivilege::Unknown(0xC7).to_string(), "Unknown (0xC7)");
}

#[test]
fn enable_status_decoding() {
    assert_eq!(UserIdEnableStatus::from(0b00), UserIdEnableStatus::Unspecified);
    assert_eq!(UserIdEnableStatus::from(0b01), UserIdEnableStatus::Enabled);
    assert_eq!(UserIdEnableStatus::from(0b10), UserIdEnableStatus::Disabled);
    assert_eq!(UserIdEnableStatus::from(0b11), UserIdEnableStatus::Unknown);
    assert_eq!(UserIdEnableStatus::from(0b110), UserIdEnableStatus::Disabled);
}

#[test]
fn user_access_too_short() {
    assert_eq!(UserAccess::parse(&[]), None);
    assert_eq!(UserAccess::parse(&[0x0A, 0x42, 0x05]), None);
    assert!(matches!(
        GetUserAccess::parse_success_response(&[0x0A, 0x42, 0x05]),
        Err(NotEnoughData)
    ));
}

#[test]
fn user_access_fields() {
    let access = UserAccess::parse(&[0xCA, 0x43, 0xC5, 0x74, 0xFF]).unwrap();
    assert_eq!(access.max_user_ids, 0x0A);
    assert_eq!(access.enable_status, UserIdEnableStatus::Enabled);
    assert_eq!(access.enabled_user_count, 0x03);
    assert_eq!(access.fixed_name_count, 0x05);
    assert!(access.callback_only);
    assert!(access.link_auth_enabled);
    assert!(access.ipmi_messaging_enabled);
    assert_eq!(access.privilege_limit, UserPrivilege::Administrator);

    let access = GetUserAccess::parse_success_response(&[0x3F, 0x81, 0x01, 0x0F]).unwrap();
    assert_eq!(access.max_user_ids, 0x3F);
    assert_eq!(access.enable_status, UserIdEnableStatus::Disabled);
    assert_eq!(access.enabled_user_count, 1);
    assert!(!access.callback_only);
    assert!(!access.link_auth_enabled);
    assert!(!access.ipmi_messaging_enabled);
    assert_eq!(access.privilege_limit, UserPrivilege::NoAccess);
}

#[test]
fn get_user_access_request() {
    let m = Message::from(GetUserAccess::new(channel(0xE), user(2)));
    assert_eq!(m.netfn, NetFn::App);
    assert_eq!(m.cmd, 0x44);
    assert_eq!(m.data, vec![0x0E, 0x02]);
}

#[test]
fn set_user_access_request_defaults() {
    let m = Message::from(SetUserAccess::new(channel(1), user(3), UserPrivilege::User));
    assert_eq!(m.netfn, NetFn::App);
    assert_eq!(m.cmd, 0x43);
    assert_eq!(m.data, vec![0x81, 0x03, 0x02]);
}

#[test]
fn set_user_access_request_flags() {
    let request = SetUserAccess::new(channel(0xE), user(2), UserPrivilege::Operator)
        .ipmi_messaging_enabled(true)
        .link_auth_enabled(true)
        .callback_restricted(true)
        .session_limit(0x13);
    let m = Message::from(request);
    assert_eq!(m.data, vec![0xFE, 0x02, 0x03, 0x03]);

    let request = SetUserAccess::new(channel(0), user(5), UserPrivilege::NoAccess)
        .link_auth_enabled(true)
        .link_auth_enabled(false)
        .ipmi_messaging_enabled(true);
    assert_eq!(Message::from(request).data, vec![0x90, 0x05, 0x0F]);

    let request = SetUserAccess::new(channel(0), user(5), UserPrivilege::Unknown(0x27));
    assert_eq!(Message::from(request).data, vec![0x80, 0x05, 0x07]);
}

#[test]
fn set_user_access_success_response() {
    assert!(SetUserAccess::parse_success_response(&[]).is_ok());
    assert!(SetUserAccess::handle_completion_code(CompletionErrorCode::CommandSpecific(0x80), &[])
        .is_none());
}

#[test]
fn access_settings_read_back() {
    let request = SetUserAccess::new(channel(0xE), user(2), UserPrivilege::Operator)
        .ipmi_messaging_enabled(true)
        .callback_restricted(true);
    let m = Message::from(request);
    let response = [0x0A, 0x42, 0x01, (m.data[0] & 0x70) | m.data[2]];
    let access = UserAccess::parse(&response).unwrap();
    assert!(access.callback_only);
    assert!(!access.link_auth_enabled);
    assert!(access.ipmi_messaging_enabled);
    assert_eq!(access.privilege_limit, UserPrivilege::Operator);
}

#[test]
fn get_user_name_request() {
    let m = Message::from(GetUserName::new(user(7)));
    assert_eq!(m.netfn, NetFn::App);
    assert_eq!(m.cmd, 0x46);
    assert_eq!(m.data, vec![0x07]);
}

#[test]
fn get_user_name_response() {
    let mut data = [0u8; 16];
    data[..5].copy_from_slice(b"admin");
    assert_eq!(GetUserName::parse_success_response(&data).unwrap(), "admin");

    let full = *b"abcdefghijklmnopXYZ";
    assert_eq!(GetUserName::parse_success_response(&full).unwrap(), "abcdefghijklmnop");

    assert_eq!(GetUserName::parse_success_response(&[0u8; 16]).unwrap(), "");

    let mut nul_inside = [0u8; 16];
    nul_inside[..5].copy_from_slice(b"ab\0cd");
    assert_eq!(GetUserName::parse_success_response(&nul_inside).unwrap(), "ab");

    assert!(matches!(GetUserName::parse_success_response(&[0x41; 15]), Err(NotEnoughData)));
}

#[test]
fn get_user_name_bytes() {
    let mut data = [0u8; 17];
    data[..3].copy_from_slice(b"bob");
    assert_eq!(GetUserName::name_bytes(&data).unwrap(), b"bob");
    assert!(GetUserName::name_bytes(&data[..15]).is_err());
}

#[test]
fn get_user_name_invalid_utf8() {
    let mut data = [0u8; 16];
    data[0] = b'a';
    data[1] = 0xFF;
    data[2] = b'b';
    assert_eq!(GetUserName::parse_success_response(&data).unwrap(), "a\u{FFFD}b");
}

#[test]
fn set_user_name_request() {
    let m = Message::from(SetUserName::new(user(2), "admin").unwrap());
    assert_eq!(m.netfn, NetFn::App);
    assert_eq!(m.cmd, 0x45);
    let mut expected = vec![0x02];
    expected.extend_from_slice(b"admin");
    expected.extend_from_slice(&[0u8; 11]);
    assert_eq!(m.data, expected);
}

#[test]
fn set_user_name_lengths() {
    assert!(SetUserName::new(user(2), "").is_some());
    assert!(SetUserName::new(user(2), "abcdefghijklmnop").is_some());
    assert!(SetUserName::new(user(2), "abcdefghijklmnopq").is_none());
    // Eight two-byte characters fill the field; nine do not fit.
    assert!(SetUserName::new(user(2), "éééééééé").is_some());
    assert!(SetUserName::new(user(2), "ééééééééé").is_none());

    let m = Message::from(SetUserName::new(user(3), "").unwrap());
    assert_eq!(m.data, vec![0x03; 1].into_iter().chain([0u8; 16]).collect::<Vec<u8>>());
}

#[test]
fn user_name_read_back() {
    for name in ["admin", "", "abcdefghijklmnop", "héllo wörld", "ü"] {
        let m = Message::from(SetUserName::new(user(4), name).unwrap());
        assert_eq!(m.data.len(), 17);
        let read = GetUserName::parse_success_response(&m.data[1..]).unwrap();
        assert_eq!(read, name);
    }
}

#[test]
fn password_sizes() {
    assert_eq!(PasswordSize::Bytes16.byte_len(), 16);
    assert_eq!(PasswordSize::Bytes20.byte_len(), 20);
}

#[test]
fn enable_disable_requests() {
    let m = Message::from(SetUserPassword::enable_user(user(2)));
    assert_eq!(m.netfn, NetFn::App);
    assert_eq!(m.cmd, 0x47);
    assert_eq!(m.data, vec![0x02, 0b01]);

    let m = Message::from(SetUserPassword::disable_user(user(0x3F)));
    assert_eq!(m.data, vec![0x3F, 0b00]);
}

#[test]
fn set_password_request() {
    let m = Message::from(
        SetUserPassword::set_password(user(2), b"hunter2", PasswordSize::Bytes16).unwrap(),
    );
    let mut expected = vec![0x02, 0b10];
    expected.extend_from_slice(b"hunter2");
    expected.extend_from_slice(&[0u8; 9]);
    assert_eq!(m.data, expected);

    let m = Message::from(
        SetUserPassword::set_password(user(2), b"hunter2", PasswordSize::Bytes20).unwrap(),
    );
    let mut expected = vec![0x82, 0b10];
    expected.extend_from_slice(b"hunter2");
    expected.extend_from_slice(&[0u8; 13]);
    assert_eq!(m.data, expected);
}

#[test]
fn test_password_request() {
    let m = Message::from(
        SetUserPassword::test_password(user(9), &[0xAA; 20], PasswordSize::Bytes20).unwrap(),
    );
    let mut expected = vec![0x89, 0b11];
    expected.extend_from_slice(&[0xAA; 20]);
    assert_eq!(m.data, expected);
}

#[test]
fn password_too_long() {
    assert!(SetUserPassword::set_password(user(2), &[1; 17], PasswordSize::Bytes16).is_none());
    assert!(SetUserPassword::set_password(user(2), &[1; 16], PasswordSize::Bytes16).is_some());
    assert!(SetUserPassword::test_password(user(2), &[1; 21], PasswordSize::Bytes20).is_none());
    assert!(SetUserPassword::test_password(user(2), &[1; 17], PasswordSize::Bytes20).is_some());
}

#[test]
fn password_completion_codes() {
    assert_eq!(
        SetUserPassword::handle_completion_code(CompletionErrorCode::CommandSpecific(0x80), &[]),
        Some(SetUserPasswordError::TestFailed)
    );
    assert_eq!(
        SetUserPassword::handle_completion_code(CompletionErrorCode::CommandSpecific(0x81), &[]),
        Some(SetUserPasswordError::WrongPasswordSize)
    );
    assert_eq!(
        SetUserPassword::handle_completion_code(CompletionErrorCode::CommandSpecific(0x82), &[]),
        None
    );
    assert_eq!(
        SetUserPassword::handle_completion_code(CompletionErrorCode::Other(0xC1), &[]),
        None
    );
    assert!(SetUserPassword::parse_success_response(&[0x01]).is_ok());
}

#[test]
fn other_commands_have_no_specific_codes() {
    assert!(GetUserName::handle_completion_code(CompletionErrorCode::CommandSpecific(0x81), &[])
        .is_none());
    assert!(SetUserName::handle_completion_code(CompletionErrorCode::Oem(0x01), &[]).is_none());
    assert!(SetUserName::parse_success_response(&[]).is_ok());
}

#[test]
fn ids_determined_by_value() {
    for v in 1..=0x3F {
        let u = user(v);
        assert_eq!(UserId::new(u.value()), Some(u));
    }
    for v in 0..=0xF {
        let c = channel(v);
        assert_eq!(Channel::new(c.value()), Some(c));
    }
}
