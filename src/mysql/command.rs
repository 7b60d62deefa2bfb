//! Client commands: the first payload byte names the command, the rest
//! carries its arguments.
use vstd::prelude::*;
use vstd::slice::{slice_subrange, slice_to_vec};
use crate::wire::{le_value, read_u32_le};

verus! {

/// Command code of COM_QUIT.
pub const COM_QUIT: u8 = 1;

/// Command code of COM_QUERY.
pub const COM_QUERY: u8 = 3;

/// Command code of COM_PING.
pub const COM_PING: u8 = 14;

/// Command code of COM_STMT_PREPARE.
pub const COM_STMT_PREPARE: u8 = 22;

/// Command code of COM_STMT_EXECUTE.
pub const COM_STMT_EXECUTE: u8 = 23;

/// Command code of COM_STMT_CLOSE.
pub const COM_STMT_CLOSE: u8 = 25;

/// A decoded client command.
#[derive(Debug)]
pub enum Command {
    Ping,
    Quit,
    /// The query text, as sent.
    Query(Vec<u8>),
    /// The statement text, as sent.
    PrepareStmt(Vec<u8>),
    /// The statement handle.
    CloseStmt(u32),
    /// Statement handle, flags and iteration count.
    ExecuteStmt(u32, u8, u32),
}

/// What a command says, with its text as a sequence of bytes.
pub enum CommandView {
    Ping,
    Quit,
    Query(Seq<u8>),
    PrepareStmt(Seq<u8>),
    CloseStmt(u32),
    ExecuteStmt(u32, u8, u32),
}

impl View for Command {
    type V = CommandView;

    open spec fn view(&self) -> CommandView {
        match self {
            Command::Ping => CommandView::Ping,
            Command::Quit => CommandView::Quit,
            Command::Query(q) => CommandView::Query(q@),
            Command::PrepareStmt(q) => CommandView::PrepareStmt(q@),
            Command::CloseStmt(id) => CommandView::CloseStmt(*id),
            Command::ExecuteStmt(id, flags, n) => CommandView::ExecuteStmt(*id, *flags, *n),
        }
    }
}

/// Why a payload is not a command this server knows.
#[derive(Clone, Copy, Debug, PartialEq, Eq, Structural)]
pub enum CommandError {
    /// The payload is empty.
    Empty,
    /// The command code is not one of the six handled.
    Unknown(u8),
    /// The payload ends before the command's fixed arguments.
    Truncated,
}

/// The command that a payload holds.
pub open spec fn decode_command(d: Seq<u8>) -> Result<CommandView, CommandError> {
    if d.len() == 0 {
        Err(CommandError::Empty)
    } else if d[0] == COM_PING {
        Ok(CommandView::Ping)
    } else if d[0] == COM_QUIT {
        Ok(CommandView::Quit)
    } else if d[0] == COM_QUERY {
        Ok(CommandView::Query(d.drop_first()))
    } else if d[0] == COM_STMT_PREPARE {
        Ok(CommandView::PrepareStmt(d.drop_first()))
    } else if d[0] == COM_STMT_CLOSE {
        if d.len() < 5 {
            Err(CommandError::Truncated)
        } else {
            Ok(CommandView::CloseStmt(le_value(d.subrange(1, 5)) as u32))
        }
    } else if d[0] == COM_STMT_EXECUTE {
        if d.len() < 10 {
            Err(CommandError::Truncated)
        } else {
            Ok(
                CommandView::ExecuteStmt(
                    le_value(d.subrange(1, 5)) as u32,
                    d[5],
                    le_value(d.subrange(6, 10)) as u32,
                ),
            )
        }
    } else {
        Err(CommandError::Unknown(d[0]))
    }
}

impl Command {
    /// Decodes a command payload.
    pub fn parse(data: &[u8]) -> (r: Result<Command, CommandError>)
        ensures
            match r {
                Ok(c) => decode_command(data@) == Ok::<CommandView, CommandError>(c@),
                Err(e) => decode_command(data@) == Err::<CommandView, CommandError>(e),
            },
    {
        if data.len() == 0 {
            return Err(CommandError::Empty);
        }
        let code = data[0];
        if code == COM_PING {
            Ok(Command::Ping)
        } else if code == COM_QUIT {
            Ok(Command::Quit)
        } else if code == COM_QUERY {
            let text = slice_to_vec(slice_subrange(data, 1, data.len()));
            assert(text@ =~= data@.drop_first());
            Ok(Command::Query(text))
        } else if code == COM_STMT_PREPARE {
            let text = slice_to_vec(slice_subrange(data, 1, data.len()));
            assert(text@ =~= data@.drop_first());
            Ok(Command::PrepareStmt(text))
        } else if code == COM_STMT_CLOSE {
            if data.len() < 5 {
                return Err(CommandError::Truncated);
            }
            Ok(Command::CloseStmt(read_u32_le(data, 1)))
        } else if code == COM_STMT_EXECUTE {
            if data.len() < 10 {
                return Err(CommandError::Truncated);
            }
            let stmt_id = read_u32_le(data, 1);
            let flags = data[5];
            let iterations = read_u32_le(data, 6);
            Ok(Command::ExecuteStmt(stmt_id, flags, iterations))
        } else {
            Err(CommandError::Unknown(code))
        }
    }
}

} // verus!
