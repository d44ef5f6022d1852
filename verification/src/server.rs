//! The game-server client: endpoint configuration, command construction,
//! and the step-by-step decisions of each administrative operation.
//!
//! The UDP exchange itself is I/O and lives outside the library.  Each
//! operation is split at its suspension points: the library builds the
//! packet to transmit, the caller performs one send and one bounded wait,
//! and the library decides what the outcome means — including, for the
//! two-command mode-and-map change, whether the second command may be sent
//! at all and how a late failure is reported as a partial failure.

use vstd::prelude::*;
use vstd::string::StringExecFns;
use vstd::utf8::decode_utf8;
use vstd::utf8::valid_utf8;

use crate::codec::command_fits;
use crate::codec::decode;
use crate::codec::encode;
use crate::codec::lossy_text;
use crate::codec::packet_bytes;
use crate::codec::reply_payload;
use crate::codec::valid_reply;
use crate::error::OperationError;
use crate::error::StepError;
use crate::gametype::tag_of;
use crate::gametype::Gametype;

verus! {

/// One controllable game server instance: host, port and the shared
/// secret embedded in every command.  Constructed once from external
/// configuration and never mutated; the legacy protocol keeps no session,
/// so this is the only state an operation needs.
#[derive(Clone, Debug)]
pub struct CodServer {
    /// Host name or address of the game server.
    pub host: String,
    /// UDP port of the game server.
    pub port: u16,
    /// Shared secret embedded in plaintext in every command.
    pub rcon_password: String,
}

/// The authenticated command that carries a subcommand:
/// `rcon <secret> <subcommand>`.
pub open spec fn rcon_command_text(password: Seq<char>, subcommand: Seq<char>) -> Seq<char> {
    "rcon "@ + password + " "@ + subcommand
}

/// The packet a client with the given secret transmits for a subcommand.
pub open spec fn rcon_packet_bytes(password: Seq<char>, subcommand: Seq<char>) -> Seq<u8> {
    packet_bytes(rcon_command_text(password, subcommand))
}

/// The subcommand that selects a game mode.
pub open spec fn gametype_subcommand_text(gametype: Gametype) -> Seq<char> {
    "g_gametype "@ + tag_of(gametype)
}

/// The subcommand that loads a map.
pub open spec fn map_subcommand_text(map_name: Seq<char>) -> Seq<char> {
    "map "@ + map_name
}

/// The `g_gametype` subcommand for a game mode.
pub fn gametype_subcommand(gametype: &Gametype) -> (subcommand: String)
    ensures
        subcommand@ == gametype_subcommand_text(*gametype),
{
    let mut subcommand = String::from_str("g_gametype ");
    subcommand.append(gametype.to_tag());
    subcommand
}

/// The `map` subcommand for a map name.
pub fn map_subcommand(map_name: &str) -> (subcommand: String)
    ensures
        subcommand@ == map_subcommand_text(map_name@),
{
    let mut subcommand = String::from_str("map ");
    subcommand.append(map_name);
    subcommand
}

impl CodServer {
    /// A client for the game server at `host:port` with the given shared
    /// secret.
    pub fn new(host: &str, port: u16, rcon_password: &str) -> (server: CodServer)
        ensures
            server.host@ == host@,
            server.port == port,
            server.rcon_password@ == rcon_password@,
    {
        CodServer { host: host.to_owned(), port, rcon_password: rcon_password.to_owned() }
    }

    /// The authenticated command for a subcommand, embedding the shared
    /// secret.
    pub fn rcon_command(&self, subcommand: &str) -> (command: String)
        ensures
            command@ == rcon_command_text(self.rcon_password@, subcommand@),
    {
        let mut command = String::from_str("rcon ");
        command.append(self.rcon_password.as_str());
        command.append(" ");
        command.append(subcommand);
        proof {
            assert(command@ =~= rcon_command_text(self.rcon_password@, subcommand@));
        }
        command
    }

    /// The framed packet for a subcommand.  Fails when the authenticated
    /// command would not fit in one safe datagram.
    pub fn rcon_packet(&self, subcommand: &str) -> (packet: Result<Vec<u8>, StepError>)
        ensures
            packet is Ok <==> command_fits(rcon_command_text(self.rcon_password@, subcommand@)),
            packet matches Ok(bytes) ==> bytes@ == rcon_packet_bytes(
                self.rcon_password@,
                subcommand@,
            ),
            packet is Err ==> packet == Err::<Vec<u8>, StepError>(StepError::CommandTooLarge),
    {
        let command = self.rcon_command(subcommand);
        encode(command.as_str())
    }

    /// The one packet of the map-restart operation.
    pub fn map_restart_packet(&self) -> (packet: Result<Vec<u8>, OperationError>)
        ensures
            packet is Ok <==> command_fits(rcon_command_text(self.rcon_password@, "map_restart"@)),
            packet matches Ok(bytes) ==> bytes@ == rcon_packet_bytes(
                self.rcon_password@,
                "map_restart"@,
            ),
            packet is Err ==> packet == Err::<Vec<u8>, OperationError>(
                OperationError::Step(StepError::CommandTooLarge),
            ),
    {
        match self.rcon_packet("map_restart") {
            Ok(bytes) => Ok(bytes),
            Err(step) => Err(OperationError::Step(step)),
        }
    }

    /// The one packet of the fast-restart operation.
    pub fn fast_restart_packet(&self) -> (packet: Result<Vec<u8>, OperationError>)
        ensures
            packet is Ok <==> command_fits(
                rcon_command_text(self.rcon_password@, "fast_restart"@),
            ),
            packet matches Ok(bytes) ==> bytes@ == rcon_packet_bytes(
                self.rcon_password@,
                "fast_restart"@,
            ),
            packet is Err ==> packet == Err::<Vec<u8>, OperationError>(
                OperationError::Step(StepError::CommandTooLarge),
            ),
    {
        match self.rcon_packet("fast_restart") {
            Ok(bytes) => Ok(bytes),
            Err(step) => Err(OperationError::Step(step)),
        }
    }

    /// The first packet of the two-command mode-and-map change:
    /// `g_gametype <tag>`.
    pub fn gametype_map_first_packet(&self, gametype: &Gametype) -> (packet: Result<
        Vec<u8>,
        OperationError,
    >)
        ensures
            packet is Ok <==> command_fits(
                rcon_command_text(self.rcon_password@, gametype_subcommand_text(*gametype)),
            ),
            packet matches Ok(bytes) ==> bytes@ == rcon_packet_bytes(
                self.rcon_password@,
                gametype_subcommand_text(*gametype),
            ),
            packet is Err ==> packet == Err::<Vec<u8>, OperationError>(
                OperationError::Step(StepError::CommandTooLarge),
            ),
    {
        let subcommand = gametype_subcommand(gametype);
        match self.rcon_packet(subcommand.as_str()) {
            Ok(bytes) => Ok(bytes),
            Err(step) => Err(OperationError::Step(step)),
        }
    }

    /// Decides the mode-and-map change after its first exchange.  When the
    /// first command failed — no reply, or a malformed one — the operation
    /// ends with that failure and the second command must not be sent.
    /// Otherwise the first response is kept and the second packet,
    /// `map <name>`, is built; a second command that cannot be framed
    /// after the first already succeeded is itself a partial failure.
    pub fn gametype_map_continue(&self, map_name: &str, outcome: Result<Vec<u8>, StepError>) -> (next:
        Result<(String, Vec<u8>), OperationError>)
        ensures
            outcome matches Err(step) ==> next == Err::<(String, Vec<u8>), OperationError>(
                OperationError::Step(step),
            ),
            outcome matches Ok(raw) && !valid_reply(raw@) ==> next == Err::<
                (String, Vec<u8>),
                OperationError,
            >(OperationError::Step(StepError::ProtocolError)),
            outcome matches Ok(raw) ==> valid_reply(raw@) ==> !command_fits(
                rcon_command_text(self.rcon_password@, map_subcommand_text(map_name@)),
            ) ==> (next matches Err(error) && error matches OperationError::PartialFailure {
                completed,
                failed,
            } && completed@ == lossy_text(reply_payload(raw@)) && failed
                == StepError::CommandTooLarge),
            outcome matches Ok(raw) ==> valid_reply(raw@) ==> command_fits(
                rcon_command_text(self.rcon_password@, map_subcommand_text(map_name@)),
            ) ==> (next matches Ok(pair) && pair.0@ == lossy_text(reply_payload(raw@)) && pair.1@
                == rcon_packet_bytes(self.rcon_password@, map_subcommand_text(map_name@))),
    {
        let raw = match outcome {
            Ok(raw) => raw,
            Err(step) => {
                return Err(OperationError::Step(step));
            },
        };
        let first_response = match decode(raw.as_slice()) {
            Ok(text) => text,
            Err(step) => {
                return Err(OperationError::Step(step));
            },
        };
        let subcommand = map_subcommand(map_name);
        match self.rcon_packet(subcommand.as_str()) {
            Ok(second_packet) => Ok((first_response, second_packet)),
            Err(step) => Err(
                OperationError::PartialFailure { completed: first_response, failed: step },
            ),
        }
    }
}

/// Completes a single-command exchange from the transport's outcome: a
/// transport failure passes through unchanged, and a reply is validated
/// and unframed.
pub fn finish_exchange(outcome: Result<Vec<u8>, StepError>) -> (result: Result<
    String,
    OperationError,
>)
    ensures
        outcome matches Err(step) ==> result == Err::<String, OperationError>(
            OperationError::Step(step),
        ),
        outcome matches Ok(raw) ==> (result is Ok <==> valid_reply(raw@)),
        outcome matches Ok(raw) && !valid_reply(raw@) ==> result == Err::<String, OperationError>(
            OperationError::Step(StepError::ProtocolError),
        ),
        outcome matches Ok(raw) ==> result matches Ok(text) ==> text@ == lossy_text(
            reply_payload(raw@),
        ),
        outcome matches Ok(raw) ==> result matches Ok(text) ==> valid_utf8(reply_payload(raw@))
            ==> text@ == decode_utf8(reply_payload(raw@)),
{
    match outcome {
        Ok(raw) => match decode(raw.as_slice()) {
            Ok(text) => Ok(text),
            Err(step) => Err(OperationError::Step(step)),
        },
        Err(step) => Err(OperationError::Step(step)),
    }
}

/// Completes the mode-and-map change after its second exchange.  The
/// first command has already succeeded, so any failure here leaves the
/// game server in a mixed state — mode changed, map unchanged — and is
/// reported as a partial failure carrying the first command's response
/// and the second command's failure, never as a plain failure.
pub fn gametype_map_finish(first_response: String, outcome: Result<Vec<u8>, StepError>) -> (result:
    Result<String, OperationError>)
    ensures
        outcome matches Err(step) ==> (result matches Err(error) && error
            matches OperationError::PartialFailure { completed, failed } && completed@
            == first_response@ && failed == step),
        outcome matches Ok(raw) && !valid_reply(raw@) ==> (result matches Err(error) && error
            matches OperationError::PartialFailure { completed, failed } && completed@
            == first_response@ && failed == StepError::ProtocolError),
        outcome matches Ok(raw) ==> valid_reply(raw@) ==> (result matches Ok(text) && text@
            == lossy_text(reply_payload(raw@))),
        outcome matches Ok(raw) ==> valid_reply(raw@) ==> valid_utf8(reply_payload(raw@)) ==> (
        result matches Ok(text) && text@ == decode_utf8(reply_payload(raw@))),
{
    let raw = match outcome {
        Ok(raw) => raw,
        Err(step) => {
            return Err(
                OperationError::PartialFailure { completed: first_response, failed: step },
            );
        },
    };
    match decode(raw.as_slice()) {
        Ok(text) => Ok(text),
        Err(step) => Err(
            OperationError::PartialFailure { completed: first_response, failed: step },
        ),
    }
}

} // verus!
