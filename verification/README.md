# gpapi

The logic of a GlobalProtect VPN client, verified with Verus: the request
parameters sent to portals and gateways, the parsing of their XML replies,
the SAML authentication data and where it is found, the client-side check
report, the host identity the client presents, browser selection, and the
local protocol that carries an authentication callback.

- `src/` is the verified library. Public functions state their results in
  their contracts; where a result is the machine's, the name service's or a
  caller-supplied trait's, the contract states it relative to those answers.
  The laws that relate several functions are public proof functions
  (`lemma_*`) or clauses of the functions they concern. Calls into outside crates (XML, regex, base64, URL
  and form encoding, UUID, MD5, DNS, host facts) go through small trusted
  wrappers whose contracts say what those crates document.
- `app/` does the I/O around it: HTTP requests, files, processes, the Unix
  socket of the callback, the command line and the log.
- `tests/` runs the library on concrete values.

The embedded login window itself (the platform webview that Tauri, wry and
WebKitGTK provide) is not part of this crate. Its decisions are: the user
agent and how the request is loaded (`load_auth_request_with_user_agent`),
what a page or a response yields (`read_from_html`, `read_auth_data`), and
what the login loop does next (`next_login_action`). A platform supplies the
webview through the `PlatformWebviewExt` and `ResponseReader` traits.
