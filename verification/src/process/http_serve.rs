//! The decision of the static file server's request handler.  The server
//! itself — sockets, routing, asynchronous reads — belongs to the caller;
//! this module fixes which status each outcome gets.

use vstd::prelude::*;

verus! {

/// The status code of the file handler's reply: 200 when the path names a
/// readable file, 500 when it names a file that could not be read, 404 when
/// it names no file at all.
pub fn file_response_status(is_file: bool, read_ok: bool) -> (r: u16)
    ensures
        r == (if is_file {
            if read_ok {
                200u16
            } else {
                500u16
            }
        } else {
            404u16
        }),
{
    if is_file {
        if read_ok {
            200
        } else {
            500
        }
    } else {
        404
    }
}

} // verus!
