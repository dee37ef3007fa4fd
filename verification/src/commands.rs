//! The command set and the dispatcher.
//!
//! A parsed command either locks the slot's type, stores a value,
//! compares the stored value against an operand, or reads the slot.
//! [`dispatch`] executes one command against the store and produces
//! exactly one response.  Responses are text, except when a stored
//! double is read back: its decimal rendering needs floating-point
//! arithmetic, which stays outside this library, so the dispatcher
//! hands the caller the bit pattern to render (see
//! [`crate::text::float_display`]).

use vstd::prelude::*;
use vstd::string::StringExecFns;

use crate::db::Database;
use crate::db::Operation;
use crate::text::display_model;
use crate::text::push_char;
use crate::values::SimpleType;
use crate::values::SimpleTypeDef;

verus! {

/// The errors a command line can fail with before it reaches the
/// store: text that matches no recognized command form.
#[derive(Debug, Clone, Copy, PartialEq, Eq, Structural)]
pub enum CommandError {
    ParseError,
}

/// One parsed command.
#[derive(Debug)]
pub enum UselessStatement {
    SetType(SimpleTypeDef),
    SetVar(SimpleType),
    Comparison(SimpleType, Operation),
    Get,
}

/// One response to one command.
#[derive(Debug)]
pub enum Response {
    /// The response line, without its terminating newline.
    Text(String),
    /// A stored double read back: the caller renders this bit pattern
    /// in decimal and wraps it with [`crate::text::float_display`].
    FloatBits(u64),
}

/// The abstract reading of a [`Response`].
pub ghost enum RespModel {
    Text(Seq<char>),
    FloatBits(u64),
}

/// The abstract reading of a [`Response`].
pub open spec fn resp_model(r: Response) -> RespModel {
    match r {
        Response::Text(s) => RespModel::Text(s@),
        Response::FloatBits(b) => RespModel::FloatBits(b),
    }
}

/// Whether the values a command carries are well formed.
pub open spec fn cmd_wf(cmd: UselessStatement) -> bool {
    match cmd {
        UselessStatement::SetVar(v) => v.wf(),
        UselessStatement::Comparison(v, _) => v.wf(),
        _ => true,
    }
}

/// What one command does to the store and what it answers.
pub open spec fn spec_dispatch(db: Database, cmd: UselessStatement) -> (Database, RespModel) {
    match cmd {
        UselessStatement::SetType(def) => (
            Database { t: Some(def), v: None },
            RespModel::Text("ok"@),
        ),
        UselessStatement::SetVar(v) => {
            if db.t == Some(v.otype) {
                (Database { t: db.t, v: Some(v) }, RespModel::Text("ok"@))
            } else {
                (db, RespModel::Text("type_error"@))
            }
        },
        UselessStatement::Comparison(v, op) => (
            db,
            RespModel::Text(if db.compare_spec(v, op) {
                "true"@
            } else {
                "false"@
            }),
        ),
        UselessStatement::Get => (
            db,
            match db.v {
                None => RespModel::Text("none"@),
                Some(val) => {
                    if val.otype == SimpleTypeDef::Float {
                        RespModel::FloatBits(val.float_bits())
                    } else {
                        RespModel::Text(display_model(val))
                    }
                },
            },
        ),
    }
}

/// Executes one command against the store and produces its response.
/// Callers run this under the store's exclusive lock, so one command's
/// read, mutation and answer are atomic against all other sessions.
pub fn dispatch(db: &mut Database, command: UselessStatement) -> (r: Response)
    requires
        old(db).wf(),
        cmd_wf(command),
    ensures
        final (db).wf(),
        *final (db) == spec_dispatch(*old(db), command).0,
        resp_model(r) == spec_dispatch(*old(db), command).1,
{
    match command {
        UselessStatement::SetType(def) => {
            db.set_type(def);
            Response::Text(String::from_str("ok"))
        },
        UselessStatement::SetVar(t) => {
            match db.set(t) {
                Ok(_) => Response::Text(String::from_str("ok")),
                Err(_) => Response::Text(String::from_str("type_error")),
            }
        },
        UselessStatement::Comparison(simple_type, op) => {
            let result = db.compare(simple_type, op);
            if result {
                Response::Text(String::from_str("true"))
            } else {
                Response::Text(String::from_str("false"))
            }
        },
        UselessStatement::Get => {
            match db.get() {
                Some(tmp) => {
                    match tmp.otype {
                        SimpleTypeDef::Float => Response::FloatBits(tmp.decode_float_bits()),
                        _ => Response::Text(tmp.display()),
                    }
                },
                None => Response::Text(String::from_str("none")),
            }
        },
    }
}

/// Answers one line's parse outcome: a command is dispatched, a parse
/// failure is answered with `parse_error` and touches nothing.
pub fn respond(db: &mut Database, parsed: Result<UselessStatement, CommandError>) -> (r: Response)
    requires
        old(db).wf(),
        parsed matches Ok(c) ==> cmd_wf(c),
    ensures
        final (db).wf(),
        parsed matches Err(_) ==> *final (db) == *old(db) && resp_model(r) == RespModel::Text(
            "parse_error"@,
        ),
        parsed matches Ok(c) ==> *final (db) == spec_dispatch(*old(db), c).0 && resp_model(r)
            == spec_dispatch(*old(db), c).1,
{
    match parsed {
        Ok(c) => dispatch(db, c),
        Err(_) => Response::Text(String::from_str("parse_error")),
    }
}

/// Appends the single newline every response is terminated with
/// before transmission.
pub fn terminated(s: String) -> (r: String)
    ensures
        r@ == s@ + seq!['\n'],
{
    let mut s = s;
    push_char(&mut s, '\n');
    s
}

} // verus!
