use vstd::prelude::*;

verus! {

/// Errors a protocol handler or a connection can signal.
///
/// `Request` marks a malformed payload and carries the offending bytes for
/// diagnostics; `Read` and `Write` mark I/O failures on the connection.
#[derive(Debug, PartialEq)]
pub enum SolutionError {
    Request(Vec<u8>),
    Read,
    Write,
}

/// Server-level error taxonomy.
///
/// `BindFail` is fatal and can only happen at startup; `ReadFail` and
/// `WriteFail` terminate a single connection and leave the server running.
#[derive(Clone, Copy, Debug, PartialEq, Eq, Structural)]
pub enum ServerErrorKind {
    BindFail,
    ReadFail,
    WriteFail,
}

} // verus!
