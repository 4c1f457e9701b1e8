//! The balances RPC helpers: the account-data record the runtime reports,
//! the RPC handle and its error codes, and the builders for the error
//! objects the RPC layer hands its callers.

use vstd::prelude::*;

verus! {

use std::sync::Arc;

/// The balance unit of the runtime.
pub type Balance = u128;

/// Balance information for an account, as the runtime reports it.
#[derive(Clone, Copy, Debug, PartialEq, Eq, Structural)]
pub struct AccountData {
    /// Non-reserved part of the balance; what most operations work with.
    pub free: Balance,
    /// Balance held back by the runtime, spendable only after unreserving.
    pub reserved: Balance,
    /// Amount the free balance may not drop below for any reason but
    /// transaction fees.
    pub misc_frozen: Balance,
    /// Amount the free balance may not drop below to pay transaction fees.
    pub fee_frozen: Balance,
}

/// Error type of this RPC api.
#[derive(Clone, Copy, Debug, PartialEq, Eq, Structural)]
pub enum Error {
    /// The transaction was not decodable.
    DecodeError,
    /// The call to runtime failed.
    RuntimeError,
}

impl From<Error> for i32 {
    /// The error code carried over the wire for each failure category.
    fn from(e: Error) -> (r: i32) {
        match e {
            Error::RuntimeError => 1,
            Error::DecodeError => 2,
        }
    }
}

impl vstd::std_specs::convert::FromSpecImpl<Error> for i32 {
    open spec fn obeys_from_spec() -> bool {
        true
    }

    open spec fn from_spec(e: Error) -> i32 {
        match e {
            Error::RuntimeError => 1,
            Error::DecodeError => 2,
        }
    }
}

/// Provides RPC methods to query and override account balances. The client
/// and the pool are the collaborators every request goes through.
pub struct Balances<C, P> {
    /// Shared reference to the client.
    client: Arc<C>,
    /// Shared reference to the transaction pool.
    pool: Arc<P>,
}

impl<C, P> Balances<C, P> {
    /// Creates a new instance of the balances RPC helper.
    pub fn new(client: Arc<C>, pool: Arc<P>) -> (r: Self) {
        Balances { client, pool }
    }
}

/// The hexadecimal digit for a value below sixteen, lower case.
pub open spec fn hex_char_of(n: u8) -> char {
    if n == 0 {
        '0'
    } else if n == 1 {
        '1'
    } else if n == 2 {
        '2'
    } else if n == 3 {
        '3'
    } else if n == 4 {
        '4'
    } else if n == 5 {
        '5'
    } else if n == 6 {
        '6'
    } else if n == 7 {
        '7'
    } else if n == 8 {
        '8'
    } else if n == 9 {
        '9'
    } else if n == 10 {
        'a'
    } else if n == 11 {
        'b'
    } else if n == 12 {
        'c'
    } else if n == 13 {
        'd'
    } else if n == 14 {
        'e'
    } else {
        'f'
    }
}

/// Lower-case hexadecimal rendering of a byte string: two digits per byte,
/// high nibble first.
pub open spec fn hex_of(b: Seq<u8>) -> Seq<char> {
    Seq::new(
        b.len() * 2,
        |i: int|
            if i % 2 == 0 {
                hex_char_of(b[i / 2] / 16)
            } else {
                hex_char_of(b[i / 2] % 16)
            },
    )
}

/// Relies on hex::encode: lower-case hexadecimal, two digits per byte, high
/// nibble first; the usual `0x` prefix is put in front here.
#[verifier::external_body]
fn to_prefixed_hex(bytes: &[u8]) -> (r: String)
    ensures
        r@ == seq!['0', 'x'] + hex_of(bytes@),
{
    format!("0x{}", hex::encode(bytes))
}

/// An error object as the RPC layer reports it to callers: a code, a
/// message, and optional hex-rendered data.
#[derive(Clone, Debug, PartialEq, Eq)]
pub struct ErrorObject {
    /// Error code of the failure category.
    pub code: i32,
    /// Human-readable description.
    pub message: String,
    /// Attached data, rendered as `0x`-prefixed lower-case hexadecimal.
    pub data: Option<String>,
}

/// Build the error object for a failure, rendering any attached bytes as
/// `0x`-prefixed lower-case hexadecimal.
pub fn err(code: i32, message: String, data: Option<&Vec<u8>>) -> (r: ErrorObject)
    ensures
        r.code == code,
        r.message == message,
        match data {
            Some(bytes) => r.data matches Some(d) && d@ == seq!['0', 'x'] + hex_of(bytes@),
            None => r.data is None,
        },
{
    let rendered: Option<String> = match data {
        Some(bytes) => Some(to_prefixed_hex(bytes.as_slice())),
        None => None,
    };
    ErrorObject { code, message, data: rendered }
}

/// The code jsonrpc reserves for internal errors.
pub const INTERNAL_ERROR_CODE: i32 = -32603;

/// Build the error object for an internal error without data.
pub fn internal_err(message: String) -> (r: ErrorObject)
    ensures
        r.code == INTERNAL_ERROR_CODE,
        r.message == message,
        r.data is None,
{
    err(INTERNAL_ERROR_CODE, message, None)
}

/// Build the error object for an internal error carrying data bytes.
pub fn internal_err_with_data(message: String, data: &Vec<u8>) -> (r: ErrorObject)
    ensures
        r.code == INTERNAL_ERROR_CODE,
        r.message == message,
        r.data matches Some(d) && d@ == seq!['0', 'x'] + hex_of(data@),
{
    err(INTERNAL_ERROR_CODE, message, Some(data))
}

} // verus!
