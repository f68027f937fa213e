use vstd::prelude::*;

use crate::auth::{Config, authorize, authorized};
use crate::entry::{
    LogEntry, StorageError, created_non_increasing, has_id, is_listing_of, newest_first,
};
use crate::reader::{ReadPlan, plan_read, select, yield_count};
use crate::request::{GivemeRequest, JsonValue, LogBody, ValidationError, data_ok, validation_message, name_ok, validate_log};
use crate::table::LogTable;
use crate::writer::new_row;

verus! {

pub const STATUS_OK: u16 = 200;

pub const STATUS_BAD_REQUEST: u16 = 400;

pub const STATUS_UNAUTHORIZED: u16 = 401;

pub const STATUS_SERVER_ERROR: u16 = 500;

/// The uniform reply envelope. `status` is also the HTTP status code the
/// reply is sent with, so the two always agree.
pub struct Response {
    pub status: u16,
    pub message: &'static str,
    pub data: Option<Vec<LogEntry>>,
}

/// The envelope for a finished write: 200 "OK", or 500 "Could not log data".
pub fn log_response(outcome: Result<(), StorageError>) -> (r: Response)
    ensures
        outcome is Ok ==> r.status == STATUS_OK && r.message@ == "OK"@,
        outcome is Err ==> r.status == STATUS_SERVER_ERROR && r.message@ == "Could not log data"@,
        r.data is None,
{
    proof {
        reveal_strlit("OK");
        reveal_strlit("Could not log data");
    }
    match outcome {
        Ok(()) => Response { status: STATUS_OK, message: "OK", data: None },
        Err(_) => Response { status: STATUS_SERVER_ERROR, message: "Could not log data", data: None },
    }
}

/// The envelope for a rejected body: 400 with the description of the field.
pub fn invalid_response(e: ValidationError) -> (r: Response)
    ensures
        r.status == STATUS_BAD_REQUEST,
        r.message@ == validation_message(e),
        r.data is None,
{
    Response { status: STATUS_BAD_REQUEST, message: e.message(), data: None }
}

/// The envelope for a read without the right key.
pub fn unauthorized_response() -> (r: Response)
    ensures
        r.status == STATUS_UNAUTHORIZED,
        r.message@ == "Unauthorized"@,
        r.data is None,
{
    proof {
        reveal_strlit("Unauthorized");
    }
    Response { status: STATUS_UNAUTHORIZED, message: "Unauthorized", data: None }
}

/// The first half of a write: validates the body and builds the complete
/// row to store, or the 400 envelope that answers the request.
pub fn log_request(body: LogBody) -> (r: Result<LogEntry, Response>)
    ensures
        r is Ok <==> name_ok(body) && data_ok(body),
        r matches Ok(row) ==> body.name == Some(JsonValue::Text(row.name))
            && body.data == Some(JsonValue::Object(row.data)),
        r matches Err(resp) ==> resp.status == STATUS_BAD_REQUEST && resp.data is None && (
        !name_ok(body) ==> resp.message@ == validation_message(ValidationError::Name)) && (name_ok(body)
            ==> resp.message@ == validation_message(ValidationError::Data)),
{
    match validate_log(body) {
        Ok(cmd) => Ok(new_row(cmd)),
        Err(e) => Err(invalid_response(e)),
    }
}

/// The first half of a read: checks the key and picks the query shape, or
/// gives the 401 envelope, whatever else the request holds.
pub fn giveme_plan(req: GivemeRequest, config: &Config) -> (r: Result<ReadPlan, Response>)
    ensures
        r is Err <==> !authorized(req.key, config.key),
        r matches Err(resp) ==> resp.status == STATUS_UNAUTHORIZED && resp.message@ == "Unauthorized"@
            && resp.data is None,
        r matches Ok(plan) ==> plan == (if req.all == Some(true) {
            ReadPlan::All
        } else {
            ReadPlan::Recent(config.limit)
        }),
{
    let cmd = req.command();
    if !authorize(&cmd.key, &config.key) {
        return Err(unauthorized_response());
    }
    Ok(plan_read(cmd.unbounded, config.limit))
}

/// The second half of a read: lists the rows the store returned newest
/// first under the plan's cap (200 "OK"), or answers 500 "Could not get
/// data". The order and the cap hold whatever order the rows came in.
pub fn giveme_response(rows: Result<Vec<LogEntry>, StorageError>, plan: ReadPlan) -> (r: Response)
    ensures
        rows is Err ==> r.status == STATUS_SERVER_ERROR && r.message@ == "Could not get data"@
            && r.data is None,
        rows matches Ok(v) ==> {
            &&& r.status == STATUS_OK
            &&& r.message@ == "OK"@
            &&& r.data matches Some(d) && {
                &&& exists|full: Seq<LogEntry>|
                    is_listing_of(full, v@) && d@ == full.take(yield_count(plan, v@.len()) as int)
                &&& newest_first(d@)
                &&& created_non_increasing(d@)
                &&& d@.len() == yield_count(plan, v@.len())
                &&& plan matches ReadPlan::Recent(k) ==> d@.len() <= k
                &&& plan == ReadPlan::All ==> is_listing_of(d@, v@)
            }
        },
{
    proof {
        reveal_strlit("OK");
        reveal_strlit("Could not get data");
    }
    match rows {
        Ok(v) => {
            let d = select(&v, plan);
            Response { status: STATUS_OK, message: "OK", data: Some(d) }
        },
        Err(_) => Response { status: STATUS_SERVER_ERROR, message: "Could not get data", data: None },
    }
}

/// A whole write against an in-memory table. A rejected body answers 400
/// and leaves the table as it was; a stored row answers 200; a refused
/// insert answers 500 and leaves the table as it was.
pub fn log_into(table: &mut LogTable, body: LogBody) -> (r: Response)
    requires
        old(table).wf(),
    ensures
        final(table).wf(),
        r.status == STATUS_BAD_REQUEST <==> !(name_ok(body) && data_ok(body)),
        r.status == STATUS_OK || r.status == STATUS_BAD_REQUEST || r.status == STATUS_SERVER_ERROR,
        name_ok(body) && data_ok(body) && old(table)@.len() == 0 ==> r.status == STATUS_OK,
        r.status != STATUS_OK ==> final(table)@ == old(table)@,
        r.status == STATUS_OK ==> r.message@ == "OK"@,
        r.status == STATUS_SERVER_ERROR ==> r.message@ == "Could not log data"@,
        r.status == STATUS_BAD_REQUEST && !name_ok(body) ==> r.message@ == validation_message(
            ValidationError::Name,
        ),
        r.status == STATUS_BAD_REQUEST && name_ok(body) ==> r.message@ == validation_message(
            ValidationError::Data,
        ),
        r.data is None,
        r.status == STATUS_OK ==> {
            &&& !has_id(old(table)@, final(table)@.last().id)
            &&& final(table)@ == old(table)@.push(final(table)@.last())
            &&& body.name == Some(JsonValue::Text(final(table)@.last().name))
            &&& body.data == Some(JsonValue::Object(final(table)@.last().data))
        },
{
    match log_request(body) {
        Ok(row) => {
            let ghost g = row;
            let outcome = table.insert(row);
            proof {
                if outcome is Ok {
                    assert(final(table)@.last() == g);
                }
            }
            log_response(outcome)
        },
        Err(resp) => resp,
    }
}

/// A whole read against an in-memory table. Without the right key the
/// answer is 401 whatever the table holds; with it, 200 and the selected
/// rows, newest first.
pub fn giveme_from(table: &LogTable, req: GivemeRequest, config: &Config) -> (r: Response)
    ensures
        !authorized(req.key, config.key) ==> r.status == STATUS_UNAUTHORIZED && r.message@
            == "Unauthorized"@ && r.data is None,
        authorized(req.key, config.key) ==> {
            let plan = if req.all == Some(true) {
                ReadPlan::All
            } else {
                ReadPlan::Recent(config.limit)
            };
            &&& r.status == STATUS_OK
            &&& r.message@ == "OK"@
            &&& r.data matches Some(d) && {
                &&& exists|full: Seq<LogEntry>|
                    is_listing_of(full, table@) && d@ == full.take(
                        yield_count(plan, table@.len()) as int,
                    )
                &&& newest_first(d@)
                &&& created_non_increasing(d@)
                &&& d@.len() == yield_count(plan, table@.len())
                &&& req.all != Some(true) ==> d@.len() <= config.limit
                &&& plan == ReadPlan::All ==> is_listing_of(d@, table@)
            }
        },
{
    proof {
        reveal_strlit("OK");
    }
    match giveme_plan(req, config) {
        Err(resp) => resp,
        Ok(plan) => {
            let d = table.read(plan);
            Response { status: STATUS_OK, message: "OK", data: Some(d) }
        },
    }
}

} // verus!
