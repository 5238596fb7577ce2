use vstd::prelude::*;

use crate::bytes::bytes_eq;
use crate::msgs::{MsgV, NetworkMessage};

verus! {

/// The command names the peer knows, used both in the frame header and as
/// mailbox keys. A reply is awaited under the command of the expected
/// message.
#[derive(Clone, Copy, Debug, PartialEq, Eq, Structural)]
pub enum Command {
    Version,
    Verack,
    Ping,
    Pong,
    Alert,
    Inv,
    GetData,
    NotFound,
    Tx,
    Block,
    MemPool,
    GetCFCheckpt,
    CFCheckpt,
    GetCFHeaders,
    CFHeaders,
    GetCFilters,
    CFilter,
}

/// The 12-byte zero-padded ASCII name of a command, as it stands in a frame
/// header.
pub open spec fn cmd_bytes12(c: Command) -> Seq<u8> {
    match c {
        Command::Version => seq![118u8, 101u8, 114u8, 115u8, 105u8, 111u8, 110u8, 0u8, 0u8, 0u8, 0u8, 0u8],
        Command::Verack => seq![118u8, 101u8, 114u8, 97u8, 99u8, 107u8, 0u8, 0u8, 0u8, 0u8, 0u8, 0u8],
        Command::Ping => seq![112u8, 105u8, 110u8, 103u8, 0u8, 0u8, 0u8, 0u8, 0u8, 0u8, 0u8, 0u8],
        Command::Pong => seq![112u8, 111u8, 110u8, 103u8, 0u8, 0u8, 0u8, 0u8, 0u8, 0u8, 0u8, 0u8],
        Command::Alert => seq![97u8, 108u8, 101u8, 114u8, 116u8, 0u8, 0u8, 0u8, 0u8, 0u8, 0u8, 0u8],
        Command::Inv => seq![105u8, 110u8, 118u8, 0u8, 0u8, 0u8, 0u8, 0u8, 0u8, 0u8, 0u8, 0u8],
        Command::GetData => seq![103u8, 101u8, 116u8, 100u8, 97u8, 116u8, 97u8, 0u8, 0u8, 0u8, 0u8, 0u8],
        Command::NotFound => seq![110u8, 111u8, 116u8, 102u8, 111u8, 117u8, 110u8, 100u8, 0u8, 0u8, 0u8, 0u8],
        Command::Tx => seq![116u8, 120u8, 0u8, 0u8, 0u8, 0u8, 0u8, 0u8, 0u8, 0u8, 0u8, 0u8],
        Command::Block => seq![98u8, 108u8, 111u8, 99u8, 107u8, 0u8, 0u8, 0u8, 0u8, 0u8, 0u8, 0u8],
        Command::MemPool => seq![109u8, 101u8, 109u8, 112u8, 111u8, 111u8, 108u8, 0u8, 0u8, 0u8, 0u8, 0u8],
        Command::GetCFCheckpt => seq![103u8, 101u8, 116u8, 99u8, 102u8, 99u8, 104u8, 101u8, 99u8, 107u8, 112u8, 116u8],
        Command::CFCheckpt => seq![99u8, 102u8, 99u8, 104u8, 101u8, 99u8, 107u8, 112u8, 116u8, 0u8, 0u8, 0u8],
        Command::GetCFHeaders => seq![103u8, 101u8, 116u8, 99u8, 102u8, 104u8, 101u8, 97u8, 100u8, 101u8, 114u8, 115u8],
        Command::CFHeaders => seq![99u8, 102u8, 104u8, 101u8, 97u8, 100u8, 101u8, 114u8, 115u8, 0u8, 0u8, 0u8],
        Command::GetCFilters => seq![103u8, 101u8, 116u8, 99u8, 102u8, 105u8, 108u8, 116u8, 101u8, 114u8, 115u8, 0u8],
        Command::CFilter => seq![99u8, 102u8, 105u8, 108u8, 116u8, 101u8, 114u8, 0u8, 0u8, 0u8, 0u8, 0u8],
    }
}

pub fn command_bytes(c: Command) -> (r: Vec<u8>)
    ensures
        r@ == cmd_bytes12(c),
        r@.len() == 12,
{
    let r: Vec<u8> = match c {
        Command::Version => vec![118, 101, 114, 115, 105, 111, 110, 0, 0, 0, 0, 0],
        Command::Verack => vec![118, 101, 114, 97, 99, 107, 0, 0, 0, 0, 0, 0],
        Command::Ping => vec![112, 105, 110, 103, 0, 0, 0, 0, 0, 0, 0, 0],
        Command::Pong => vec![112, 111, 110, 103, 0, 0, 0, 0, 0, 0, 0, 0],
        Command::Alert => vec![97, 108, 101, 114, 116, 0, 0, 0, 0, 0, 0, 0],
        Command::Inv => vec![105, 110, 118, 0, 0, 0, 0, 0, 0, 0, 0, 0],
        Command::GetData => vec![103, 101, 116, 100, 97, 116, 97, 0, 0, 0, 0, 0],
        Command::NotFound => vec![110, 111, 116, 102, 111, 117, 110, 100, 0, 0, 0, 0],
        Command::Tx => vec![116, 120, 0, 0, 0, 0, 0, 0, 0, 0, 0, 0],
        Command::Block => vec![98, 108, 111, 99, 107, 0, 0, 0, 0, 0, 0, 0],
        Command::MemPool => vec![109, 101, 109, 112, 111, 111, 108, 0, 0, 0, 0, 0],
        Command::GetCFCheckpt => vec![103, 101, 116, 99, 102, 99, 104, 101, 99, 107, 112, 116],
        Command::CFCheckpt => vec![99, 102, 99, 104, 101, 99, 107, 112, 116, 0, 0, 0],
        Command::GetCFHeaders => vec![103, 101, 116, 99, 102, 104, 101, 97, 100, 101, 114, 115],
        Command::CFHeaders => vec![99, 102, 104, 101, 97, 100, 101, 114, 115, 0, 0, 0],
        Command::GetCFilters => vec![103, 101, 116, 99, 102, 105, 108, 116, 101, 114, 115, 0],
        Command::CFilter => vec![99, 102, 105, 108, 116, 101, 114, 0, 0, 0, 0, 0],
    };
    proof {
        assert(r@ =~= cmd_bytes12(c));
    }
    r
}

/// Command dispatch: the known command a 12-byte header name denotes, if any.
pub open spec fn parse_command_spec(b: Seq<u8>) -> Option<Command> {
    if b == cmd_bytes12(Command::Version) {
        Some(Command::Version)
    } else if b == cmd_bytes12(Command::Verack) {
        Some(Command::Verack)
    } else if b == cmd_bytes12(Command::Ping) {
        Some(Command::Ping)
    } else if b == cmd_bytes12(Command::Pong) {
        Some(Command::Pong)
    } else if b == cmd_bytes12(Command::Alert) {
        Some(Command::Alert)
    } else if b == cmd_bytes12(Command::Inv) {
        Some(Command::Inv)
    } else if b == cmd_bytes12(Command::GetData) {
        Some(Command::GetData)
    } else if b == cmd_bytes12(Command::NotFound) {
        Some(Command::NotFound)
    } else if b == cmd_bytes12(Command::Tx) {
        Some(Command::Tx)
    } else if b == cmd_bytes12(Command::Block) {
        Some(Command::Block)
    } else if b == cmd_bytes12(Command::MemPool) {
        Some(Command::MemPool)
    } else if b == cmd_bytes12(Command::GetCFCheckpt) {
        Some(Command::GetCFCheckpt)
    } else if b == cmd_bytes12(Command::CFCheckpt) {
        Some(Command::CFCheckpt)
    } else if b == cmd_bytes12(Command::GetCFHeaders) {
        Some(Command::GetCFHeaders)
    } else if b == cmd_bytes12(Command::CFHeaders) {
        Some(Command::CFHeaders)
    } else if b == cmd_bytes12(Command::GetCFilters) {
        Some(Command::GetCFilters)
    } else if b == cmd_bytes12(Command::CFilter) {
        Some(Command::CFilter)
    } else {
        None
    }
}

pub fn parse_command(b: &Vec<u8>) -> (r: Option<Command>)
    requires
        b@.len() == 12,
    ensures
        r == parse_command_spec(b@),
{
    if bytes_eq(b, &command_bytes(Command::Version)) {
        Some(Command::Version)
    } else if bytes_eq(b, &command_bytes(Command::Verack)) {
        Some(Command::Verack)
    } else if bytes_eq(b, &command_bytes(Command::Ping)) {
        Some(Command::Ping)
    } else if bytes_eq(b, &command_bytes(Command::Pong)) {
        Some(Command::Pong)
    } else if bytes_eq(b, &command_bytes(Command::Alert)) {
        Some(Command::Alert)
    } else if bytes_eq(b, &command_bytes(Command::Inv)) {
        Some(Command::Inv)
    } else if bytes_eq(b, &command_bytes(Command::GetData)) {
        Some(Command::GetData)
    } else if bytes_eq(b, &command_bytes(Command::NotFound)) {
        Some(Command::NotFound)
    } else if bytes_eq(b, &command_bytes(Command::Tx)) {
        Some(Command::Tx)
    } else if bytes_eq(b, &command_bytes(Command::Block)) {
        Some(Command::Block)
    } else if bytes_eq(b, &command_bytes(Command::MemPool)) {
        Some(Command::MemPool)
    } else if bytes_eq(b, &command_bytes(Command::GetCFCheckpt)) {
        Some(Command::GetCFCheckpt)
    } else if bytes_eq(b, &command_bytes(Command::CFCheckpt)) {
        Some(Command::CFCheckpt)
    } else if bytes_eq(b, &command_bytes(Command::GetCFHeaders)) {
        Some(Command::GetCFHeaders)
    } else if bytes_eq(b, &command_bytes(Command::CFHeaders)) {
        Some(Command::CFHeaders)
    } else if bytes_eq(b, &command_bytes(Command::GetCFilters)) {
        Some(Command::GetCFilters)
    } else if bytes_eq(b, &command_bytes(Command::CFilter)) {
        Some(Command::CFilter)
    } else {
        None
    }
}

/// Every known command name parses back to itself.
pub proof fn lemma_command_round(c: Command)
    ensures
        parse_command_spec(cmd_bytes12(c)) == Some(c),
{
    match c {
        Command::Version => {
        },
        Command::Verack => {
            assert(cmd_bytes12(Command::Verack)[3] != cmd_bytes12(Command::Version)[3]);
            assert(cmd_bytes12(Command::Verack) != cmd_bytes12(Command::Version));
        },
        Command::Ping => {
            assert(cmd_bytes12(Command::Ping)[0] != cmd_bytes12(Command::Version)[0]);
            assert(cmd_bytes12(Command::Ping) != cmd_bytes12(Command::Version));
            assert(cmd_bytes12(Command::Ping)[0] != cmd_bytes12(Command::Verack)[0]);
            assert(cmd_bytes12(Command::Ping) != cmd_bytes12(Command::Verack));
        },
        Command::Pong => {
            assert(cmd_bytes12(Command::Pong)[0] != cmd_bytes12(Command::Version)[0]);
            assert(cmd_bytes12(Command::Pong) != cmd_bytes12(Command::Version));
            assert(cmd_bytes12(Command::Pong)[0] != cmd_bytes12(Command::Verack)[0]);
            assert(cmd_bytes12(Command::Pong) != cmd_bytes12(Command::Verack));
            assert(cmd_bytes12(Command::Pong)[1] != cmd_bytes12(Command::Ping)[1]);
            assert(cmd_bytes12(Command::Pong) != cmd_bytes12(Command::Ping));
        },
        Command::Alert => {
            assert(cmd_bytes12(Command::Alert)[0] != cmd_bytes12(Command::Version)[0]);
            assert(cmd_bytes12(Command::Alert) != cmd_bytes12(Command::Version));
            assert(cmd_bytes12(Command::Alert)[0] != cmd_bytes12(Command::Verack)[0]);
            assert(cmd_bytes12(Command::Alert) != cmd_bytes12(Command::Verack));
            assert(cmd_bytes12(Command::Alert)[0] != cmd_bytes12(Command::Ping)[0]);
            assert(cmd_bytes12(Command::Alert) != cmd_bytes12(Command::Ping));
            assert(cmd_bytes12(Command::Alert)[0] != cmd_bytes12(Command::Pong)[0]);
            assert(cmd_bytes12(Command::Alert) != cmd_bytes12(Command::Pong));
        },
        Command::Inv => {
            assert(cmd_bytes12(Command::Inv)[0] != cmd_bytes12(Command::Version)[0]);
            assert(cmd_bytes12(Command::Inv) != cmd_bytes12(Command::Version));
            assert(cmd_bytes12(Command::Inv)[0] != cmd_bytes12(Command::Verack)[0]);
            assert(cmd_bytes12(Command::Inv) != cmd_bytes12(Command::Verack));
            assert(cmd_bytes12(Command::Inv)[0] != cmd_bytes12(Command::Ping)[0]);
            assert(cmd_bytes12(Command::Inv) != cmd_bytes12(Command::Ping));
            assert(cmd_bytes12(Command::Inv)[0] != cmd_bytes12(Command::Pong)[0]);
            assert(cmd_bytes12(Command::Inv) != cmd_bytes12(Command::Pong));
            assert(cmd_bytes12(Command::Inv)[0] != cmd_bytes12(Command::Alert)[0]);
            assert(cmd_bytes12(Command::Inv) != cmd_bytes12(Command::Alert));
        },
        Command::GetData => {
            assert(cmd_bytes12(Command::GetData)[0] != cmd_bytes12(Command::Version)[0]);
            assert(cmd_bytes12(Command::GetData) != cmd_bytes12(Command::Version));
            assert(cmd_bytes12(Command::GetData)[0] != cmd_bytes12(Command::Verack)[0]);
            assert(cmd_bytes12(Command::GetData) != cmd_bytes12(Command::Verack));
            assert(cmd_bytes12(Command::GetData)[0] != cmd_bytes12(Command::Ping)[0]);
            assert(cmd_bytes12(Command::GetData) != cmd_bytes12(Command::Ping));
            assert(cmd_bytes12(Command::GetData)[0] != cmd_bytes12(Command::Pong)[0]);
            assert(cmd_bytes12(Command::GetData) != cmd_bytes12(Command::Pong));
            assert(cmd_bytes12(Command::GetData)[0] != cmd_bytes12(Command::Alert)[0]);
            assert(cmd_bytes12(Command::GetData) != cmd_bytes12(Command::Alert));
            assert(cmd_bytes12(Command::GetData)[0] != cmd_bytes12(Command::Inv)[0]);
            assert(cmd_bytes12(Command::GetData) != cmd_bytes12(Command::Inv));
        },
        Command::NotFound => {
            assert(cmd_bytes12(Command::NotFound)[0] != cmd_bytes12(Command::Version)[0]);
            assert(cmd_bytes12(Command::NotFound) != cmd_bytes12(Command::Version));
            assert(cmd_bytes12(Command::NotFound)[0] != cmd_bytes12(Command::Verack)[0]);
            assert(cmd_bytes12(Command::NotFound) != cmd_bytes12(Command::Verack));
            assert(cmd_bytes12(Command::NotFound)[0] != cmd_bytes12(Command::Ping)[0]);
            assert(cmd_bytes12(Command::NotFound) != cmd_bytes12(Command::Ping));
            assert(cmd_bytes12(Command::NotFound)[0] != cmd_bytes12(Command::Pong)[0]);
            assert(cmd_bytes12(Command::NotFound) != cmd_bytes12(Command::Pong));
            assert(cmd_bytes12(Command::NotFound)[0] != cmd_bytes12(Command::Alert)[0]);
            assert(cmd_bytes12(Command::NotFound) != cmd_bytes12(Command::Alert));
            assert(cmd_bytes12(Command::NotFound)[0] != cmd_bytes12(Command::Inv)[0]);
            assert(cmd_bytes12(Command::NotFound) != cmd_bytes12(Command::Inv));
            assert(cmd_bytes12(Command::NotFound)[0] != cmd_bytes12(Command::GetData)[0]);
            assert(cmd_bytes12(Command::NotFound) != cmd_bytes12(Command::GetData));
        },
        Command::Tx => {
            assert(cmd_bytes12(Command::Tx)[0] != cmd_bytes12(Command::Version)[0]);
            assert(cmd_bytes12(Command::Tx) != cmd_bytes12(Command::Version));
            assert(cmd_bytes12(Command::Tx)[0] != cmd_bytes12(Command::Verack)[0]);
            assert(cmd_bytes12(Command::Tx) != cmd_bytes12(Command::Verack));
            assert(cmd_bytes12(Command::Tx)[0] != cmd_bytes12(Command::Ping)[0]);
            assert(cmd_bytes12(Command::Tx) != cmd_bytes12(Command::Ping));
            assert(cmd_bytes12(Command::Tx)[0] != cmd_bytes12(Command::Pong)[0]);
            assert(cmd_bytes12(Command::Tx) != cmd_bytes12(Command::Pong));
            assert(cmd_bytes12(Command::Tx)[0] != cmd_bytes12(Command::Alert)[0]);
            assert(cmd_bytes12(Command::Tx) != cmd_bytes12(Command::Alert));
            assert(cmd_bytes12(Command::Tx)[0] != cmd_bytes12(Command::Inv)[0]);
            assert(cmd_bytes12(Command::Tx) != cmd_bytes12(Command::Inv));
            assert(cmd_bytes12(Command::Tx)[0] != cmd_bytes12(Command::GetData)[0]);
            assert(cmd_bytes12(Command::Tx) != cmd_bytes12(Command::GetData));
            assert(cmd_bytes12(Command::Tx)[0] != cmd_bytes12(Command::NotFound)[0]);
            assert(cmd_bytes12(Command::Tx) != cmd_bytes12(Command::NotFound));
        },
        Command::Block => {
            assert(cmd_bytes12(Command::Block)[0] != cmd_bytes12(Command::Version)[0]);
            assert(cmd_bytes12(Command::Block) != cmd_bytes12(Command::Version));
            assert(cmd_bytes12(Command::Block)[0] != cmd_bytes12(Command::Verack)[0]);
            assert(cmd_bytes12(Command::Block) != cmd_bytes12(Command::Verack));
            assert(cmd_bytes12(Command::Block)[0] != cmd_bytes12(Command::Ping)[0]);
            assert(cmd_bytes12(Command::Block) != cmd_bytes12(Command::Ping));
            assert(cmd_bytes12(Command::Block)[0] != cmd_bytes12(Command::Pong)[0]);
            assert(cmd_bytes12(Command::Block) != cmd_bytes12(Command::Pong));
            assert(cmd_bytes12(Command::Block)[0] != cmd_bytes12(Command::Alert)[0]);
            assert(cmd_bytes12(Command::Block) != cmd_bytes12(Command::Alert));
            assert(cmd_bytes12(Command::Block)[0] != cmd_bytes12(Command::Inv)[0]);
            assert(cmd_bytes12(Command::Block) != cmd_bytes12(Command::Inv));
            assert(cmd_bytes12(Command::Block)[0] != cmd_bytes12(Command::GetData)[0]);
            assert(cmd_bytes12(Command::Block) != cmd_bytes12(Command::GetData));
            assert(cmd_bytes12(Command::Block)[0] != cmd_bytes12(Command::NotFound)[0]);
            assert(cmd_bytes12(Command::Block) != cmd_bytes12(Command::NotFound));
            assert(cmd_bytes12(Command::Block)[0] != cmd_bytes12(Command::Tx)[0]);
            assert(cmd_bytes12(Command::Block) != cmd_bytes12(Command::Tx));
        },
        Command::MemPool => {
            assert(cmd_bytes12(Command::MemPool)[0] != cmd_bytes12(Command::Version)[0]);
            assert(cmd_bytes12(Command::MemPool) != cmd_bytes12(Command::Version));
            assert(cmd_bytes12(Command::MemPool)[0] != cmd_bytes12(Command::Verack)[0]);
            assert(cmd_bytes12(Command::MemPool) != cmd_bytes12(Command::Verack));
            assert(cmd_bytes12(Command::MemPool)[0] != cmd_bytes12(Command::Ping)[0]);
            assert(cmd_bytes12(Command::MemPool) != cmd_bytes12(Command::Ping));
            assert(cmd_bytes12(Command::MemPool)[0] != cmd_bytes12(Command::Pong)[0]);
            assert(cmd_bytes12(Command::MemPool) != cmd_bytes12(Command::Pong));
            assert(cmd_bytes12(Command::MemPool)[0] != cmd_bytes12(Command::Alert)[0]);
            assert(cmd_bytes12(Command::MemPool) != cmd_bytes12(Command::Alert));
            assert(cmd_bytes12(Command::MemPool)[0] != cmd_bytes12(Command::Inv)[0]);
            assert(cmd_bytes12(Command::MemPool) != cmd_bytes12(Command::Inv));
            assert(cmd_bytes12(Command::MemPool)[0] != cmd_bytes12(Command::GetData)[0]);
            assert(cmd_bytes12(Command::MemPool) != cmd_bytes12(Command::GetData));
            assert(cmd_bytes12(Command::MemPool)[0] != cmd_bytes12(Command::NotFound)[0]);
            assert(cmd_bytes12(Command::MemPool) != cmd_bytes12(Command::NotFound));
            assert(cmd_bytes12(Command::MemPool)[0] != cmd_bytes12(Command::Tx)[0]);
            assert(cmd_bytes12(Command::MemPool) != cmd_bytes12(Command::Tx));
            assert(cmd_bytes12(Command::MemPool)[0] != cmd_bytes12(Command::Block)[0]);
            assert(cmd_bytes12(Command::MemPool) != cmd_bytes12(Command::Block));
        },
        Command::GetCFCheckpt => {
            assert(cmd_bytes12(Command::GetCFCheckpt)[0] != cmd_bytes12(Command::Version)[0]);
            assert(cmd_bytes12(Command::GetCFCheckpt) != cmd_bytes12(Command::Version));
            assert(cmd_bytes12(Command::GetCFCheckpt)[0] != cmd_bytes12(Command::Verack)[0]);
            assert(cmd_bytes12(Command::GetCFCheckpt) != cmd_bytes12(Command::Verack));
            assert(cmd_bytes12(Command::GetCFCheckpt)[0] != cmd_bytes12(Command::Ping)[0]);
            assert(cmd_bytes12(Command::GetCFCheckpt) != cmd_bytes12(Command::Ping));
            assert(cmd_bytes12(Command::GetCFCheckpt)[0] != cmd_bytes12(Command::Pong)[0]);
            assert(cmd_bytes12(Command::GetCFCheckpt) != cmd_bytes12(Command::Pong));
            assert(cmd_bytes12(Command::GetCFCheckpt)[0] != cmd_bytes12(Command::Alert)[0]);
            assert(cmd_bytes12(Command::GetCFCheckpt) != cmd_bytes12(Command::Alert));
            assert(cmd_bytes12(Command::GetCFCheckpt)[0] != cmd_bytes12(Command::Inv)[0]);
            assert(cmd_bytes12(Command::GetCFCheckpt) != cmd_bytes12(Command::Inv));
            assert(cmd_bytes12(Command::GetCFCheckpt)[3] != cmd_bytes12(Command::GetData)[3]);
            assert(cmd_bytes12(Command::GetCFCheckpt) != cmd_bytes12(Command::GetData));
            assert(cmd_bytes12(Command::GetCFCheckpt)[0] != cmd_bytes12(Command::NotFound)[0]);
            assert(cmd_bytes12(Command::GetCFCheckpt) != cmd_bytes12(Command::NotFound));
            assert(cmd_bytes12(Command::GetCFCheckpt)[0] != cmd_bytes12(Command::Tx)[0]);
            assert(cmd_bytes12(Command::GetCFCheckpt) != cmd_bytes12(Command::Tx));
            assert(cmd_bytes12(Command::GetCFCheckpt)[0] != cmd_bytes12(Command::Block)[0]);
            assert(cmd_bytes12(Command::GetCFCheckpt) != cmd_bytes12(Command::Block));
            assert(cmd_bytes12(Command::GetCFCheckpt)[0] != cmd_bytes12(Command::MemPool)[0]);
            assert(cmd_bytes12(Command::GetCFCheckpt) != cmd_bytes12(Command::MemPool));
        },
        Command::CFCheckpt => {
            assert(cmd_bytes12(Command::CFCheckpt)[0] != cmd_bytes12(Command::Version)[0]);
            assert(cmd_bytes12(Command::CFCheckpt) != cmd_bytes12(Command::Version));
            assert(cmd_bytes12(Command::CFCheckpt)[0] != cmd_bytes12(Command::Verack)[0]);
            assert(cmd_bytes12(Command::CFCheckpt) != cmd_bytes12(Command::Verack));
            assert(cmd_bytes12(Command::CFCheckpt)[0] != cmd_bytes12(Command::Ping)[0]);
            assert(cmd_bytes12(Command::CFCheckpt) != cmd_bytes12(Command::Ping));
            assert(cmd_bytes12(Command::CFCheckpt)[0] != cmd_bytes12(Command::Pong)[0]);
            assert(cmd_bytes12(Command::CFCheckpt) != cmd_bytes12(Command::Pong));
            assert(cmd_bytes12(Command::CFCheckpt)[0] != cmd_bytes12(Command::Alert)[0]);
            assert(cmd_bytes12(Command::CFCheckpt) != cmd_bytes12(Command::Alert));
            assert(cmd_bytes12(Command::CFCheckpt)[0] != cmd_bytes12(Command::Inv)[0]);
            assert(cmd_bytes12(Command::CFCheckpt) != cmd_bytes12(Command::Inv));
            assert(cmd_bytes12(Command::CFCheckpt)[0] != cmd_bytes12(Command::GetData)[0]);
            assert(cmd_bytes12(Command::CFCheckpt) != cmd_bytes12(Command::GetData));
            assert(cmd_bytes12(Command::CFCheckpt)[0] != cmd_bytes12(Command::NotFound)[0]);
            assert(cmd_bytes12(Command::CFCheckpt) != cmd_bytes12(Command::NotFound));
            assert(cmd_bytes12(Command::CFCheckpt)[0] != cmd_bytes12(Command::Tx)[0]);
            assert(cmd_bytes12(Command::CFCheckpt) != cmd_bytes12(Command::Tx));
            assert(cmd_bytes12(Command::CFCheckpt)[0] != cmd_bytes12(Command::Block)[0]);
            assert(cmd_bytes12(Command::CFCheckpt) != cmd_bytes12(Command::Block));
            assert(cmd_bytes12(Command::CFCheckpt)[0] != cmd_bytes12(Command::MemPool)[0]);
            assert(cmd_bytes12(Command::CFCheckpt) != cmd_bytes12(Command::MemPool));
            assert(cmd_bytes12(Command::CFCheckpt)[0] != cmd_bytes12(Command::GetCFCheckpt)[0]);
            assert(cmd_bytes12(Command::CFCheckpt) != cmd_bytes12(Command::GetCFCheckpt));
        },
        Command::GetCFHeaders => {
            assert(cmd_bytes12(Command::GetCFHeaders)[0] != cmd_bytes12(Command::Version)[0]);
            assert(cmd_bytes12(Command::GetCFHeaders) != cmd_bytes12(Command::Version));
            assert(cmd_bytes12(Command::GetCFHeaders)[0] != cmd_bytes12(Command::Verack)[0]);
            assert(cmd_bytes12(Command::GetCFHeaders) != cmd_bytes12(Command::Verack));
            assert(cmd_bytes12(Command::GetCFHeaders)[0] != cmd_bytes12(Command::Ping)[0]);
            assert(cmd_bytes12(Command::GetCFHeaders) != cmd_bytes12(Command::Ping));
            assert(cmd_bytes12(Command::GetCFHeaders)[0] != cmd_bytes12(Command::Pong)[0]);
            assert(cmd_bytes12(Command::GetCFHeaders) != cmd_bytes12(Command::Pong));
            assert(cmd_bytes12(Command::GetCFHeaders)[0] != cmd_bytes12(Command::Alert)[0]);
            assert(cmd_bytes12(Command::GetCFHeaders) != cmd_bytes12(Command::Alert));
            assert(cmd_bytes12(Command::GetCFHeaders)[0] != cmd_bytes12(Command::Inv)[0]);
            assert(cmd_bytes12(Command::GetCFHeaders) != cmd_bytes12(Command::Inv));
            assert(cmd_bytes12(Command::GetCFHeaders)[3] != cmd_bytes12(Command::GetData)[3]);
            assert(cmd_bytes12(Command::GetCFHeaders) != cmd_bytes12(Command::GetData));
            assert(cmd_bytes12(Command::GetCFHeaders)[0] != cmd_bytes12(Command::NotFound)[0]);
            assert(cmd_bytes12(Command::GetCFHeaders) != cmd_bytes12(Command::NotFound));
            assert(cmd_bytes12(Command::GetCFHeaders)[0] != cmd_bytes12(Command::Tx)[0]);
            assert(cmd_bytes12(Command::GetCFHeaders) != cmd_bytes12(Command::Tx));
            assert(cmd_bytes12(Command::GetCFHeaders)[0] != cmd_bytes12(Command::Block)[0]);
            assert(cmd_bytes12(Command::GetCFHeaders) != cmd_bytes12(Command::Block));
            assert(cmd_bytes12(Command::GetCFHeaders)[0] != cmd_bytes12(Command::MemPool)[0]);
            assert(cmd_bytes12(Command::GetCFHeaders) != cmd_bytes12(Command::MemPool));
            assert(cmd_bytes12(Command::GetCFHeaders)[5] != cmd_bytes12(Command::GetCFCheckpt)[5]);
            assert(cmd_bytes12(Command::GetCFHeaders) != cmd_bytes12(Command::GetCFCheckpt));
            assert(cmd_bytes12(Command::GetCFHeaders)[0] != cmd_bytes12(Command::CFCheckpt)[0]);
            assert(cmd_bytes12(Command::GetCFHeaders) != cmd_bytes12(Command::CFCheckpt));
        },
        Command::CFHeaders => {
            assert(cmd_bytes12(Command::CFHeaders)[0] != cmd_bytes12(Command::Version)[0]);
            assert(cmd_bytes12(Command::CFHeaders) != cmd_bytes12(Command::Version));
            assert(cmd_bytes12(Command::CFHeaders)[0] != cmd_bytes12(Command::Verack)[0]);
            assert(cmd_bytes12(Command::CFHeaders) != cmd_bytes12(Command::Verack));
            assert(cmd_bytes12(Command::CFHeaders)[0] != cmd_bytes12(Command::Ping)[0]);
            assert(cmd_bytes12(Command::CFHeaders) != cmd_bytes12(Command::Ping));
            assert(cmd_bytes12(Command::CFHeaders)[0] != cmd_bytes12(Command::Pong)[0]);
            assert(cmd_bytes12(Command::CFHeaders) != cmd_bytes12(Command::Pong));
            assert(cmd_bytes12(Command::CFHeaders)[0] != cmd_bytes12(Command::Alert)[0]);
            assert(cmd_bytes12(Command::CFHeaders) != cmd_bytes12(Command::Alert));
            assert(cmd_bytes12(Command::CFHeaders)[0] != cmd_bytes12(Command::Inv)[0]);
            assert(cmd_bytes12(Command::CFHeaders) != cmd_bytes12(Command::Inv));
            assert(cmd_bytes12(Command::CFHeaders)[0] != cmd_bytes12(Command::GetData)[0]);
            assert(cmd_bytes12(Command::CFHeaders) != cmd_bytes12(Command::GetData));
            assert(cmd_bytes12(Command::CFHeaders)[0] != cmd_bytes12(Command::NotFound)[0]);
            assert(cmd_bytes12(Command::CFHeaders) != cmd_bytes12(Command::NotFound));
            assert(cmd_bytes12(Command::CFHeaders)[0] != cmd_bytes12(Command::Tx)[0]);
            assert(cmd_bytes12(Command::CFHeaders) != cmd_bytes12(Command::Tx));
            assert(cmd_bytes12(Command::CFHeaders)[0] != cmd_bytes12(Command::Block)[0]);
            assert(cmd_bytes12(Command::CFHeaders) != cmd_bytes12(Command::Block));
            assert(cmd_bytes12(Command::CFHeaders)[0] != cmd_bytes12(Command::MemPool)[0]);
            assert(cmd_bytes12(Command::CFHeaders) != cmd_bytes12(Command::MemPool));
            assert(cmd_bytes12(Command::CFHeaders)[0] != cmd_bytes12(Command::GetCFCheckpt)[0]);
            assert(cmd_bytes12(Command::CFHeaders) != cmd_bytes12(Command::GetCFCheckpt));
            assert(cmd_bytes12(Command::CFHeaders)[2] != cmd_bytes12(Command::CFCheckpt)[2]);
            assert(cmd_bytes12(Command::CFHeaders) != cmd_bytes12(Command::CFCheckpt));
            assert(cmd_bytes12(Command::CFHeaders)[0] != cmd_bytes12(Command::GetCFHeaders)[0]);
            assert(cmd_bytes12(Command::CFHeaders) != cmd_bytes12(Command::GetCFHeaders));
        },
        Command::GetCFilters => {
            assert(cmd_bytes12(Command::GetCFilters)[0] != cmd_bytes12(Command::Version)[0]);
            assert(cmd_bytes12(Command::GetCFilters) != cmd_bytes12(Command::Version));
            assert(cmd_bytes12(Command::GetCFilters)[0] != cmd_bytes12(Command::Verack)[0]);
            assert(cmd_bytes12(Command::GetCFilters) != cmd_bytes12(Command::Verack));
            assert(cmd_bytes12(Command::GetCFilters)[0] != cmd_bytes12(Command::Ping)[0]);
            assert(cmd_bytes12(Command::GetCFilters) != cmd_bytes12(Command::Ping));
            assert(cmd_bytes12(Command::GetCFilters)[0] != cmd_bytes12(Command::Pong)[0]);
            assert(cmd_bytes12(Command::GetCFilters) != cmd_bytes12(Command::Pong));
            assert(cmd_bytes12(Command::GetCFilters)[0] != cmd_bytes12(Command::Alert)[0]);
            assert(cmd_bytes12(Command::GetCFilters) != cmd_bytes12(Command::Alert));
            assert(cmd_bytes12(Command::GetCFilters)[0] != cmd_bytes12(Command::Inv)[0]);
            assert(cmd_bytes12(Command::GetCFilters) != cmd_bytes12(Command::Inv));
            assert(cmd_bytes12(Command::GetCFilters)[3] != cmd_bytes12(Command::GetData)[3]);
            assert(cmd_bytes12(Command::GetCFilters) != cmd_bytes12(Command::GetData));
            assert(cmd_bytes12(Command::GetCFilters)[0] != cmd_bytes12(Command::NotFound)[0]);
            assert(cmd_bytes12(Command::GetCFilters) != cmd_bytes12(Command::NotFound));
            assert(cmd_bytes12(Command::GetCFilters)[0] != cmd_bytes12(Command::Tx)[0]);
            assert(cmd_bytes12(Command::GetCFilters) != cmd_bytes12(Command::Tx));
            assert(cmd_bytes12(Command::GetCFilters)[0] != cmd_bytes12(Command::Block)[0]);
            assert(cmd_bytes12(Command::GetCFilters) != cmd_bytes12(Command::Block));
            assert(cmd_bytes12(Command::GetCFilters)[0] != cmd_bytes12(Command::MemPool)[0]);
            assert(cmd_bytes12(Command::GetCFilters) != cmd_bytes12(Command::MemPool));
            assert(cmd_bytes12(Command::GetCFilters)[5] != cmd_bytes12(Command::GetCFCheckpt)[5]);
            assert(cmd_bytes12(Command::GetCFilters) != cmd_bytes12(Command::GetCFCheckpt));
            assert(cmd_bytes12(Command::GetCFilters)[0] != cmd_bytes12(Command::CFCheckpt)[0]);
            assert(cmd_bytes12(Command::GetCFilters) != cmd_bytes12(Command::CFCheckpt));
            assert(cmd_bytes12(Command::GetCFilters)[5] != cmd_bytes12(Command::GetCFHeaders)[5]);
            assert(cmd_bytes12(Command::GetCFilters) != cmd_bytes12(Command::GetCFHeaders));
            assert(cmd_bytes12(Command::GetCFilters)[0] != cmd_bytes12(Command::CFHeaders)[0]);
            assert(cmd_bytes12(Command::GetCFilters) != cmd_bytes12(Command::CFHeaders));
        },
        Command::CFilter => {
            assert(cmd_bytes12(Command::CFilter)[0] != cmd_bytes12(Command::Version)[0]);
            assert(cmd_bytes12(Command::CFilter) != cmd_bytes12(Command::Version));
            assert(cmd_bytes12(Command::CFilter)[0] != cmd_bytes12(Command::Verack)[0]);
            assert(cmd_bytes12(Command::CFilter) != cmd_bytes12(Command::Verack));
            assert(cmd_bytes12(Command::CFilter)[0] != cmd_bytes12(Command::Ping)[0]);
            assert(cmd_bytes12(Command::CFilter) != cmd_bytes12(Command::Ping));
            assert(cmd_bytes12(Command::CFilter)[0] != cmd_bytes12(Command::Pong)[0]);
            assert(cmd_bytes12(Command::CFilter) != cmd_bytes12(Command::Pong));
            assert(cmd_bytes12(Command::CFilter)[0] != cmd_bytes12(Command::Alert)[0]);
            assert(cmd_bytes12(Command::CFilter) != cmd_bytes12(Command::Alert));
            assert(cmd_bytes12(Command::CFilter)[0] != cmd_bytes12(Command::Inv)[0]);
            assert(cmd_bytes12(Command::CFilter) != cmd_bytes12(Command::Inv));
            assert(cmd_bytes12(Command::CFilter)[0] != cmd_bytes12(Command::GetData)[0]);
            assert(cmd_bytes12(Command::CFilter) != cmd_bytes12(Command::GetData));
            assert(cmd_bytes12(Command::CFilter)[0] != cmd_bytes12(Command::NotFound)[0]);
            assert(cmd_bytes12(Command::CFilter) != cmd_bytes12(Command::NotFound));
            assert(cmd_bytes12(Command::CFilter)[0] != cmd_bytes12(Command::Tx)[0]);
            assert(cmd_bytes12(Command::CFilter) != cmd_bytes12(Command::Tx));
            assert(cmd_bytes12(Command::CFilter)[0] != cmd_bytes12(Command::Block)[0]);
            assert(cmd_bytes12(Command::CFilter) != cmd_bytes12(Command::Block));
            assert(cmd_bytes12(Command::CFilter)[0] != cmd_bytes12(Command::MemPool)[0]);
            assert(cmd_bytes12(Command::CFilter) != cmd_bytes12(Command::MemPool));
            assert(cmd_bytes12(Command::CFilter)[0] != cmd_bytes12(Command::GetCFCheckpt)[0]);
            assert(cmd_bytes12(Command::CFilter) != cmd_bytes12(Command::GetCFCheckpt));
            assert(cmd_bytes12(Command::CFilter)[2] != cmd_bytes12(Command::CFCheckpt)[2]);
            assert(cmd_bytes12(Command::CFilter) != cmd_bytes12(Command::CFCheckpt));
            assert(cmd_bytes12(Command::CFilter)[0] != cmd_bytes12(Command::GetCFHeaders)[0]);
            assert(cmd_bytes12(Command::CFilter) != cmd_bytes12(Command::GetCFHeaders));
            assert(cmd_bytes12(Command::CFilter)[2] != cmd_bytes12(Command::CFHeaders)[2]);
            assert(cmd_bytes12(Command::CFilter) != cmd_bytes12(Command::CFHeaders));
            assert(cmd_bytes12(Command::CFilter)[0] != cmd_bytes12(Command::GetCFilters)[0]);
            assert(cmd_bytes12(Command::CFilter) != cmd_bytes12(Command::GetCFilters));
        },
    }
}

/// The command under which a message is framed and routed.
pub open spec fn cmd_of(m: MsgV) -> Command {
    match m {
        MsgV::Version(_) => Command::Version,
        MsgV::Verack => Command::Verack,
        MsgV::Ping(_) => Command::Ping,
        MsgV::Pong(_) => Command::Pong,
        MsgV::Alert(_) => Command::Alert,
        MsgV::Inv(_) => Command::Inv,
        MsgV::GetData(_) => Command::GetData,
        MsgV::NotFound(_) => Command::NotFound,
        MsgV::Tx(_) => Command::Tx,
        MsgV::Block(_) => Command::Block,
        MsgV::MemPool => Command::MemPool,
        MsgV::GetCFCheckpt(_) => Command::GetCFCheckpt,
        MsgV::CFCheckpt(_) => Command::CFCheckpt,
        MsgV::GetCFHeaders(_) => Command::GetCFHeaders,
        MsgV::CFHeaders(_) => Command::CFHeaders,
        MsgV::GetCFilters(_) => Command::GetCFilters,
        MsgV::CFilter(_) => Command::CFilter,
    }
}

pub fn command_of(m: &NetworkMessage) -> (r: Command)
    ensures
        r == cmd_of(m@),
{
    match m {
        NetworkMessage::Version(_) => Command::Version,
        NetworkMessage::Verack => Command::Verack,
        NetworkMessage::Ping(_) => Command::Ping,
        NetworkMessage::Pong(_) => Command::Pong,
        NetworkMessage::Alert(_) => Command::Alert,
        NetworkMessage::Inv(_) => Command::Inv,
        NetworkMessage::GetData(_) => Command::GetData,
        NetworkMessage::NotFound(_) => Command::NotFound,
        NetworkMessage::Tx(_) => Command::Tx,
        NetworkMessage::Block(_) => Command::Block,
        NetworkMessage::MemPool => Command::MemPool,
        NetworkMessage::GetCFCheckpt(_) => Command::GetCFCheckpt,
        NetworkMessage::CFCheckpt(_) => Command::CFCheckpt,
        NetworkMessage::GetCFHeaders(_) => Command::GetCFHeaders,
        NetworkMessage::CFHeaders(_) => Command::CFHeaders,
        NetworkMessage::GetCFilters(_) => Command::GetCFilters,
        NetworkMessage::CFilter(_) => Command::CFilter,
    }
}

} // verus!
