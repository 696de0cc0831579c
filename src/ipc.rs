//! The chat client's local IPC binding, as the presence worker sees it.

use vstd::prelude::*;

use discord_rich_presence::activity as wire;
use discord_rich_presence::error::Error as IpcError;
use discord_rich_presence::{DiscordIpc, DiscordIpcClient};

use crate::activity::ActivityType;
use crate::presence::Payload;

verus! {

/// The binding's client handle, opaque here.
#[verifier::external_type_specification]
#[verifier::external_body]
pub struct ExDiscordIpcClient(DiscordIpcClient);

/// The binding's error, opaque here.
#[verifier::external_type_specification]
#[verifier::external_body]
pub struct ExIpcError(IpcError);

/// Relies on `DiscordIpcClient::new`: a handle for `id`, not yet connected.
#[verifier::external_body]
pub(crate) fn new_client(id: &str) -> (r: DiscordIpcClient) {
    DiscordIpcClient::new(id)
}

/// Relies on `DiscordIpc::connect`: opens the socket and sends the handshake.
#[verifier::external_body]
pub(crate) fn ipc_connect(client: &mut DiscordIpcClient) -> (r: Result<(), IpcError>) {
    client.connect()
}

/// Relies on `DiscordIpc::close`: says goodbye and shuts the socket down.
#[verifier::external_body]
pub(crate) fn ipc_close(client: &mut DiscordIpcClient) -> (r: Result<(), IpcError>) {
    client.close()
}

/// Relies on `DiscordIpc::set_activity` and the builders of its `Activity`,
/// `Timestamps` and `Party`: sends `p` field for field.
#[verifier::external_body]
pub(crate) fn ipc_set_activity(client: &mut DiscordIpcClient, p: &Payload) -> (r: Result<(), IpcError>) {
    let kind = match p.activity_type {
        ActivityType::Playing => wire::ActivityType::Playing,
        ActivityType::Watching => wire::ActivityType::Watching,
        ActivityType::Competing => wire::ActivityType::Competing,
        ActivityType::Listening => wire::ActivityType::Listening,
    };
    let mut a = wire::Activity::new().activity_type(kind).timestamps(wire::Timestamps::new().start(p.start));
    if let Some(s) = &p.state { a = a.state(s.as_str()); }
    if let Some(d) = &p.details { a = a.details(d.as_str()); }
    if let Some((size, max)) = p.party { a = a.party(wire::Party::new().size([size, max])); }
    client.set_activity(a)
}

/// Relies on the `Display` impl of the binding's `Error`: its message.
#[verifier::external_body]
pub(crate) fn ipc_error_text(e: &IpcError) -> (r: String) {
    e.to_string()
}

} // verus!
