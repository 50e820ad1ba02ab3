//! The `{code, data}` envelope around every REST response.
use vstd::prelude::*;

use crate::error::ClientError;
use crate::json::{field, get_field, get_u64, json_of, json_u64, parse_json, take_field, Json};

verus! {

pub open spec fn is_success(status: u16) -> bool {
    200 <= status && status < 300
}

/// The code of a well-formed envelope: an object with an unsigned 32-bit
/// `code` and a `data` member.
pub open spec fn envelope_code(j: Json) -> Option<int> {
    match field(j, "code"@) {
        Some(c) => match json_u64(c) {
            Some(n) => if n <= u32::MAX && field(j, "data"@) is Some {
                Some(n)
            } else {
                None
            },
            None => None,
        },
        None => None,
    }
}

/// The outcome of a response: a non-2xx status is a transport error; text
/// that is no envelope is a decode error; code 0 yields `data`; any other
/// code is a remote error.
pub open spec fn response_outcome(status: u16, body: Seq<char>, r: Result<Json, ClientError>) -> bool {
    if !is_success(status) {
        &&& r is Err
        &&& r->Err_0 matches ClientError::Transport { status: s, body: b }
        &&& r->Err_0->Transport_status == status
        &&& r->Err_0->Transport_body@ == body
    } else {
        match json_of(body) {
            None => {
                &&& r is Err
                &&& r->Err_0 is Decode
                &&& r->Err_0->Decode_raw@ == body
            },
            Some(j) => match envelope_code(j) {
                None => {
                    &&& r is Err
                    &&& r->Err_0 is Decode
                    &&& r->Err_0->Decode_raw@ == body
                },
                Some(c) => if c == 0 {
                    &&& r is Ok
                    &&& field(j, "data"@) == Some(r->Ok_0)
                } else {
                    &&& r is Err
                    &&& r->Err_0 is Remote
                    &&& r->Err_0->Remote_code == c
                    &&& r->Err_0->Remote_raw@ == body
                },
            },
        }
    }
}

/// Decodes a response from its status and body text, yielding the `data`
/// member on success.
pub fn handle_response(status: u16, body: String) -> (r: Result<Json, ClientError>)
    ensures
        response_outcome(status, body@, r),
{
    if !(200 <= status && status < 300) {
        return Err(ClientError::Transport { status, body });
    }
    match parse_json(body.as_str()) {
        None => Err(ClientError::Decode { raw: body }),
        Some(j) => {
            let code = match get_field(&j, "code") {
                Some(c) => get_u64(c),
                None => None,
            };
            let has_data = match get_field(&j, "data") {
                Some(_) => true,
                None => false,
            };
            match code {
                Some(c) => {
                    if c > 4294967295u64 || !has_data {
                        Err(ClientError::Decode { raw: body })
                    } else if c == 0 {
                        match take_field(j, "data") {
                            Some(d) => Ok(d),
                            None => Err(ClientError::Decode { raw: body }),
                        }
                    } else {
                        Err(ClientError::Remote { code: c as u32, raw: body })
                    }
                },
                None => Err(ClientError::Decode { raw: body }),
            }
        },
    }
}

} // verus!
