//! The human-readable lines the relay writes: error bodies and the progress
//! lines streamed back to a sender.  Each builder pins the exact text.

use vstd::prelude::*;
use vstd::string::StringExecFns;

verus! {

/// Body of the rejection of a Service Worker registration.
pub open spec fn service_worker_text() -> Seq<char> {
    "[ERROR] Service Worker registration is rejected.\n"@
}

/// Body of the rejection of a second receiver on `p`.
pub open spec fn another_receiver_text(p: Seq<char>) -> Seq<char> {
    "[ERROR] Another receiver has been connected on '"@ + p + "'.\n"@
}

/// Body of the rejection of a second sender on `p`.
pub open spec fn another_sender_text(p: Seq<char>) -> Seq<char> {
    "[ERROR] Another sender has been connected on '"@ + p + "'.\n"@
}

/// Body of the rejection of a send to the reserved path `p`.
pub open spec fn reserved_path_text(p: Seq<char>) -> Seq<char> {
    "[ERROR] Cannot send to the reserved path '"@ + p + "'. (e.g. '/mypath123')\n"@
}

/// Body of the rejection of a request that carries `Content-Range`;
/// `m` is the method's name.
pub open spec fn content_range_text(m: Seq<char>) -> Seq<char> {
    "[ERROR] Content-Range is not supported for now in "@ + m + "\n"@
}

/// Body of the rejection of an unsupported method named `m`.
pub open spec fn unsupported_method_text(m: Seq<char>) -> Seq<char> {
    "[ERROR] Unsupported method: "@ + m + ".\n"@
}

/// Progress line written to a parked sender.
pub open spec fn waiting_line() -> Seq<char> {
    "[INFO] Waiting for 1 receiver(s)...\n"@
}

/// Progress line written to a parked sender when its receiver arrives.
pub open spec fn receiver_connected_line() -> Seq<char> {
    "[INFO] A receiver was connected.\n"@
}

/// Progress line written to a sender that finds its receiver already parked.
pub open spec fn receiver_was_waiting_line() -> Seq<char> {
    "[INFO] 1 receiver(s) has/have been connected.\n"@
}

/// Progress line written when the transfer of the body begins.
pub open spec fn start_sending_line() -> Seq<char> {
    "[INFO] Start sending to 1 receiver(s)...\n"@
}

/// Progress line written when the sender's body has been fully forwarded.
pub open spec fn sent_line() -> Seq<char> {
    "[INFO] Sent successfully!\n"@
}

pub fn service_worker_msg() -> (r: String)
    ensures
        r@ == service_worker_text(),
{
    String::from_str("[ERROR] Service Worker registration is rejected.\n")
}

pub fn another_receiver_msg(p: &str) -> (r: String)
    ensures
        r@ == another_receiver_text(p@),
{
    String::from_str("[ERROR] Another receiver has been connected on '").concat(p).concat("'.\n")
}

pub fn another_sender_msg(p: &str) -> (r: String)
    ensures
        r@ == another_sender_text(p@),
{
    String::from_str("[ERROR] Another sender has been connected on '").concat(p).concat("'.\n")
}

pub fn reserved_path_msg(p: &str) -> (r: String)
    ensures
        r@ == reserved_path_text(p@),
{
    String::from_str("[ERROR] Cannot send to the reserved path '").concat(p).concat(
        "'. (e.g. '/mypath123')\n",
    )
}

pub fn content_range_msg(m: &str) -> (r: String)
    ensures
        r@ == content_range_text(m@),
{
    String::from_str("[ERROR] Content-Range is not supported for now in ").concat(m).concat("\n")
}

pub fn unsupported_method_msg(m: &str) -> (r: String)
    ensures
        r@ == unsupported_method_text(m@),
{
    String::from_str("[ERROR] Unsupported method: ").concat(m).concat(".\n")
}

pub fn waiting_msg() -> (r: String)
    ensures
        r@ == waiting_line(),
{
    String::from_str("[INFO] Waiting for 1 receiver(s)...\n")
}

pub fn receiver_connected_msg() -> (r: String)
    ensures
        r@ == receiver_connected_line(),
{
    String::from_str("[INFO] A receiver was connected.\n")
}

pub fn receiver_was_waiting_msg() -> (r: String)
    ensures
        r@ == receiver_was_waiting_line(),
{
    String::from_str("[INFO] 1 receiver(s) has/have been connected.\n")
}

pub fn start_sending_msg() -> (r: String)
    ensures
        r@ == start_sending_line(),
{
    String::from_str("[INFO] Start sending to 1 receiver(s)...\n")
}

pub fn sent_msg() -> (r: String)
    ensures
        r@ == sent_line(),
{
    String::from_str("[INFO] Sent successfully!\n")
}

} // verus!
