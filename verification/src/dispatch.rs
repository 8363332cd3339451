//! The print dispatcher: decide what a print request amounts to.
//!
//! Given a base64 payload and an effective configuration, the
//! dispatcher decodes the payload and either reports a simulated
//! print, or hands the decoded bytes and the target address to the
//! caller for a single TCP write.  The library itself never touches
//! the network: a connection can only come of a [`PrintPlan::Send`],
//! and the contracts here pin exactly when one is produced.

use vstd::prelude::*;
use vstd::string::StringExecFns;
use crate::codec::b64_decode;
use crate::codec::b64_decode_of;
use crate::codec::b64_encode;
use crate::config::ConfigModel;
use crate::config::PrinterConfig;
use crate::messages::addr_of;
use crate::messages::connect_err_msg;
use crate::messages::connect_error_message;
use crate::messages::decode_err_msg;
use crate::messages::decode_error_message;
use crate::messages::format_address;
use crate::messages::printed_message;
use crate::messages::printed_msg;
use crate::messages::simulate_message;
use crate::messages::simulate_msg;
use crate::messages::write_err_msg;
use crate::messages::write_error_message;

verus! {

/// What a print request amounts to once the payload is decoded:
/// either a simulated print, already carrying its report, or raw
/// bytes to be written to the printer's address in one blocking write.
pub enum PrintPlan {
    Simulate { count: usize, message: String },
    Send { payload: Vec<u8>, address: String },
}

/// Whether `plan` is the right plan for the decoded bytes under the
/// configuration `c`: in simulate mode, a report of exactly the byte
/// count and no bytes to send; otherwise the bytes verbatim, addressed
/// to `host:port`.
pub open spec fn plan_for(plan: PrintPlan, bytes: Seq<u8>, c: ConfigModel) -> bool {
    if c.simulate {
        (plan matches PrintPlan::Simulate { count, message } && count == bytes.len()
            && message@ == simulate_msg(bytes.len()))
    } else {
        (plan matches PrintPlan::Send { payload, address } && payload@ == bytes && address@
            == addr_of(c.host, c.port))
    }
}

/// Decode the payload and decide what to do with it.
///
/// Succeeds exactly when the payload is valid base64; the error
/// otherwise is the decode failure message, whatever the simulate
/// setting.  A [`PrintPlan::Send`] — the only thing a network
/// connection can come of — is produced exactly for a valid payload
/// with simulate off.
pub fn plan_print(base64_data: &str, config: &PrinterConfig) -> (r: Result<PrintPlan, String>)
    ensures
        (match b64_decode_of(base64_data@) {
            Ok(bytes) => r matches Ok(plan) && plan_for(plan, bytes, config@),
            Err(detail) => r matches Err(m) && m@ == decode_err_msg(detail),
        }),
        r is Ok <==> b64_decode_of(base64_data@) is Ok,
        (r matches Ok(plan) ==> (plan is Send <==> !config@.simulate)),
{
    let bytes = match b64_decode(base64_data) {
        Ok(b) => b,
        Err(detail) => {
            return Err(decode_error_message(detail.as_str()));
        },
    };
    if config.simulate {
        let count = bytes.len();
        let message = simulate_message(count);
        Ok(PrintPlan::Simulate { count, message })
    } else {
        let address = format_address(config.host.as_str(), config.port);
        Ok(PrintPlan::Send { payload: bytes, address })
    }
}

/// Law: a payload encoded to base64 and then planned in simulate mode
/// is reported with exactly the payload's own byte count, and nothing
/// is sent.
pub fn plan_print_of_bytes(payload: &Vec<u8>, config: &PrinterConfig) -> (r: Result<
    PrintPlan,
    String,
>)
    requires
        config@.simulate,
    ensures
        (r matches Ok(plan) && plan matches PrintPlan::Simulate { count, message } && count
            == payload@.len() && message@ == simulate_msg(payload@.len())),
{
    let encoded = b64_encode(payload.as_slice());
    plan_print(encoded.as_str(), config)
}

/// How the single connect-and-write attempt of a [`PrintPlan::Send`]
/// ended; the failure variants carry the underlying cause's text.
pub enum SendOutcome {
    Sent,
    ConnectFailed(String),
    WriteFailed(String),
}

/// Turn the outcome of the write attempt into the dispatcher's report:
/// a printed-bytes message on success, and the matching descriptive
/// error otherwise.
pub fn report_send_outcome(outcome: &SendOutcome, count: usize, address: &str) -> (r: Result<
    String,
    String,
>)
    ensures
        (match *outcome {
            SendOutcome::Sent => r matches Ok(m) && m@ == printed_msg(count as nat, address@),
            SendOutcome::ConnectFailed(cause) => r matches Err(m) && m@ == connect_err_msg(
                address@,
                cause@,
            ),
            SendOutcome::WriteFailed(cause) => r matches Err(m) && m@ == write_err_msg(cause@),
        }),
        r is Ok <==> *outcome is Sent,
{
    match outcome {
        SendOutcome::Sent => Ok(printed_message(count, address)),
        SendOutcome::ConnectFailed(cause) => Err(connect_error_message(address, cause.as_str())),
        SendOutcome::WriteFailed(cause) => Err(write_error_message(cause.as_str())),
    }
}

} // verus!
