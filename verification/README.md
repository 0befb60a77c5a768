# ipmi_rs_core: IPMI user management commands

Request encoding and response decoding for the IPMI 2.0 user management
commands (Get/Set User Access, Get/Set User Name, Set User Password), verified
with Verus.

- `src/connection.rs`: channels, request messages, completion codes and the
  `IpmiCommand` trait.
- `src/app/user/`: `UserId`, `UserPrivilege` and one file per command. Each
  request's bytes and each response's decoding are stated exactly in the
  contracts, over spec functions such as `user_access_from_bytes`,
  `access_request_byte` and `user_name_bytes`.
- Proof functions state the laws that tie the commands together, such as
  `lemma_access_settings_read_back` and `lemma_user_name_read_back`.

`tests/` exercises every command on concrete bytes.
