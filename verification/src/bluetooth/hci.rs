//! HCI commands to the STM32WB55's M0 coprocessor: the requests sent, and
//! what their answers mean.
use crate::sys;
use bt_hci::param::Status;
use bt_hci::FromHciBytesError;
use vstd::prelude::*;

verus! {

/// bt-hci's HCI status value.
#[verifier::external_type_specification]
#[verifier::external_body]
pub struct ExStatus(bt_hci::param::Status);

/// bt-hci's errors from parsing HCI data: a public enum of two variants
/// without fields, which verified code matches on.
#[verifier::external_type_specification]
pub struct ExFromHciBytesError(bt_hci::FromHciBytesError);

/// The status bt-hci builds from a status code.
pub uninterp spec fn status_of(code: u8) -> Status;

/// `bt_hci::param::Status::new`: the status with code `code`.
#[verifier::external_body]
pub(crate) fn status_new(code: u8) -> (status: Status)
    ensures
        status == status_of(code),
{
    Status::new(code)
}

/// Whether the status with code `code` is `bt_hci::param::Status::SUCCESS`,
/// which bt-hci defines as the status with code 0.
#[verifier::external_body]
pub(crate) fn status_code_is_success(code: u8) -> (success: bool)
    ensures
        success == (code == 0),
{
    Status::new(code) == Status::SUCCESS
}

/// `bt_hci::cmd::Opcode::cmd`: the command field (OCF) of an opcode, its
/// low ten bits.
#[verifier::external_body]
pub(crate) fn opcode_cmd(opcode: u16) -> (ocf: u16)
    ensures
        ocf == opcode & 0x03ff,
{
    bt_hci::cmd::Opcode(opcode).cmd()
}

/// An error of an HCI command.
pub enum HciError {
    /// The coprocessor answered with a status other than success.
    Status(Status),
    /// The answer's size did not match a valid size.
    InvalidSize,
    /// A value of the answer did not match valid values.
    InvalidValue,
}

/// The library's error for a parse error of bt-hci.
pub open spec fn hci_error_from_bytes_error(value: FromHciBytesError) -> HciError {
    match value {
        FromHciBytesError::InvalidSize => HciError::InvalidSize,
        FromHciBytesError::InvalidValue => HciError::InvalidValue,
    }
}

impl From<FromHciBytesError> for HciError {
    fn from(value: FromHciBytesError) -> (error: Self)
        ensures
            error == hci_error_from_bytes_error(value),
    {
        match value {
            FromHciBytesError::InvalidSize => HciError::InvalidSize,
            FromHciBytesError::InvalidValue => HciError::InvalidValue,
        }
    }
}

impl vstd::std_specs::convert::FromSpecImpl<FromHciBytesError> for HciError {
    open spec fn obeys_from_spec() -> bool {
        true
    }

    open spec fn from_spec(value: FromHciBytesError) -> Self {
        hci_error_from_bytes_error(value)
    }
}

/// The opcode group field (OGF) of an opcode: its top six bits.
pub open spec fn opcode_group(opcode: u16) -> u16 {
    opcode >> 10
}

/// The request that sends a command with `opcode` and the parameter bytes
/// `params` to the coprocessor, with room for an answer of `rlen` bytes.
pub fn hci_request_for(opcode: u16, params: Vec<u8>, rlen: i32) -> (request: sys::hci_request)
    requires
        params@.len() <= i32::MAX,
    ensures
        request.ogf == opcode_group(opcode),
        request.ocf == opcode & 0x03ff,
        request.event == 0,
        request.cparam@ == params@,
        request.clen == params@.len(),
        request.rlen == rlen,
{
    let clen = params.len() as i32;
    sys::hci_request { ogf: opcode >> 10, ocf: opcode_cmd(opcode), event: 0, cparam: params, clen, rlen }
}

/// The outcome of a command answered by a Command Status event: the send
/// status first, then the command's status; success only when both are
/// successes.
pub fn async_command_result(send_code: u8, status_code: u8) -> (result: Result<(), Status>)
    ensures
        send_code != 0 ==> result == Err::<(), Status>(status_of(send_code)),
        send_code == 0 && status_code != 0 ==> result == Err::<(), Status>(status_of(status_code)),
        send_code == 0 && status_code == 0 ==> result is Ok,
{
    if !status_code_is_success(send_code) {
        return Err(status_new(send_code));
    }
    if !status_code_is_success(status_code) {
        return Err(status_new(status_code));
    }
    Ok(())
}

/// The outcome of the status of a command answered by a Command Complete
/// event: its return parameters are to be read only after a success.
pub fn sync_command_status(code: u8) -> (result: Result<(), HciError>)
    ensures
        code != 0 ==> (result matches Err(HciError::Status(status)) && status == status_of(code)),
        code == 0 ==> result is Ok,
{
    if !status_code_is_success(code) {
        return Err(HciError::Status(status_new(code)));
    }
    Ok(())
}

/// The group and command fields of an opcode make up the whole opcode: the
/// group in the top six bits, the command in the low ten.
pub proof fn law_opcode_fields(opcode: u16)
    ensures
        (opcode_group(opcode) << 10u16) | (opcode & 0x03ff) == opcode,
{
    assert(((opcode >> 10u16) << 10u16) | (opcode & 0x03ffu16) == opcode) by (bit_vector);
}

} // verus!
