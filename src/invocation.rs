//! The request taken from the command line, its mode, and the argument list
//! that is handed to the display utility.

use vstd::prelude::*;
use crate::code::{get_vcp_code, resolve};

verus! {

/// The bus selector passed to the display utility.
pub const BUS_FLAG: &'static str = "--bus=6";

/// Why a request cannot be carried out.
#[derive(Clone, Copy, Debug, PartialEq, Eq, Structural)]
pub enum CliError {
    /// More than one of value, up and down was given.
    ConflictingOptions,
    /// The feature identifier matches no resolution rule.
    InvalidCode,
}

/// Whether the feature is read or written.
#[derive(Clone, Copy, Debug, PartialEq, Eq, Structural)]
pub enum Mode {
    Read,
    Write,
}

/// The protocol keyword of a mode.
pub open spec fn mode_keyword(m: Mode) -> Seq<char> {
    match m {
        Mode::Read => "getvcp"@,
        Mode::Write => "setvcp"@,
    }
}

impl Mode {
    /// The keyword that selects this operation in the display utility.
    pub fn keyword(&self) -> (r: String)
        ensures
            r@ == mode_keyword(*self),
    {
        match self {
            Mode::Read => "getvcp".to_owned(),
            Mode::Write => "setvcp".to_owned(),
        }
    }
}

/// A feature to read, or to set (`value`), raise (`up`) or lower (`down`).
pub struct Request {
    pub feature: String,
    pub value: Option<String>,
    pub up: Option<String>,
    pub down: Option<String>,
}

/// How many of the three optional fields are present.
pub open spec fn count_set(value: Option<String>, up: Option<String>, down: Option<String>) -> int {
    (if value is Some { 1int } else { 0 }) + (if up is Some { 1int } else { 0 }) + (if down is Some {
        1int
    } else {
        0
    })
}

impl Request {
    /// At most one of value, up and down is present.
    pub open spec fn wf(&self) -> bool {
        count_set(self.value, self.up, self.down) <= 1
    }

    /// Builds a request, refusing one that sets more than one of value, up and down.
    pub fn new(feature: String, value: Option<String>, up: Option<String>, down: Option<String>) -> (r:
        Result<Request, CliError>)
        ensures
            (r is Ok) <==> count_set(value, up, down) <= 1,
            match r {
                Ok(q) => q.feature == feature && q.value == value && q.up == up && q.down == down
                    && q.wf(),
                Err(e) => e == CliError::ConflictingOptions,
            },
    {
        let n: u8 = (if value.is_some() { 1u8 } else { 0 }) + (if up.is_some() { 1u8 } else { 0 }) + (
        if down.is_some() {
            1u8
        } else {
            0
        });
        if n > 1 {
            Err(CliError::ConflictingOptions)
        } else {
            Ok(Request { feature, value, up, down })
        }
    }
}

/// Write when any of value, up and down is present, else Read.
pub open spec fn mode_of(req: &Request) -> Mode {
    if req.value is Some || req.up is Some || req.down is Some {
        Mode::Write
    } else {
        Mode::Read
    }
}

/// Determines whether the request reads or writes its feature.
pub fn get_mode(req: &Request) -> (r: Mode)
    ensures
        r == mode_of(req),
{
    if req.value.is_some() || req.up.is_some() || req.down.is_some() {
        Mode::Write
    } else {
        Mode::Read
    }
}

/// The arguments after the code: the value, or a sign and the step.
pub open spec fn trailing_args(req: &Request) -> Seq<Seq<char>> {
    match req.value {
        Some(v) => seq![v@],
        None => match req.up {
            Some(u) => seq!["+"@, u@],
            None => match req.down {
                Some(d) => seq!["-"@, d@],
                None => seq![],
            },
        },
    }
}

/// The full argument list for a request whose feature resolved to `code`.
pub open spec fn invocation(bus_flag: Seq<char>, req: &Request, code: Seq<char>) -> Seq<Seq<char>> {
    seq![bus_flag, mode_keyword(mode_of(req)), code] + trailing_args(req)
}

/// Builds the argument list of the display utility for `req`, or reports that
/// its feature resolves to no code.
pub fn build_args(bus_flag: &str, req: &Request) -> (r: Result<Vec<String>, CliError>)
    ensures
        (r is Ok) <==> (resolve(req.feature@) is Some),
        match r {
            Ok(args) => args.deep_view() == invocation(bus_flag@, req, resolve(req.feature@)->0),
            Err(e) => e == CliError::InvalidCode,
        },
{
    let code = match get_vcp_code(req.feature.as_str()) {
        Some(c) => c,
        None => return Err(CliError::InvalidCode),
    };
    let mode = get_mode(req);
    let mut args: Vec<String> = Vec::new();
    args.push(bus_flag.to_owned());
    args.push(mode.keyword());
    args.push(code);
    if let Some(v) = &req.value {
        args.push(v.clone());
    } else if let Some(u) = &req.up {
        args.push("+".to_owned());
        args.push(u.clone());
    } else if let Some(d) = &req.down {
        args.push("-".to_owned());
        args.push(d.clone());
    }
    assert(args.deep_view() =~= invocation(bus_flag@, req, resolve(req.feature@)->0));
    Ok(args)
}

/// For a request with at most one of value, up and down, the mode is Write
/// exactly when one of them is present and Read exactly when none is.
pub proof fn lemma_mode_of_valid_request(req: &Request)
    requires
        req.wf(),
    ensures
        (mode_of(req) == Mode::Write) <==> count_set(req.value, req.up, req.down) == 1,
        (mode_of(req) == Mode::Read) <==> count_set(req.value, req.up, req.down) == 0,
{
}

} // verus!
