//! Zome function call descriptors.
//!
//! A [`ZomeFnCall`] names the zome and function to run, carries the caller's
//! capability request and the JSON parameters, and holds the process-unique
//! id that pairs its "call started" action with its "call completed" action.

use vstd::prelude::*;

use crate::address::Address;
use crate::cap::{CapabilityRequest, CapabilityRequestModel};
use crate::error::{result_view, ErrorModel, HolochainError};
use crate::json::JsonString;

verus! {

/// Relies on `snowflake::ProcessUniqueId::new` and its `Display` impl: a
/// fresh process-unique id, rendered as text.  Which id comes back depends
/// on process state, so nothing is promised of the result.
#[verifier::external_body]
pub(crate) fn fresh_process_unique_id() -> (r: String) {
    format!("{}", snowflake::ProcessUniqueId::new())
}

/// The mathematical content of a [`ZomeFnCall`].
pub struct ZomeFnCallModel {
    pub id: Seq<char>,
    pub zome_name: Seq<char>,
    pub cap: CapabilityRequestModel,
    pub fn_name: Seq<char>,
    pub parameters: Seq<char>,
}

/// A zome function call descriptor: the addressing key for the completion
/// future and for the signal/return causal pair.
#[derive(Debug)]
pub struct ZomeFnCall {
    pub id: String,
    pub zome_name: String,
    pub cap: CapabilityRequest,
    pub fn_name: String,
    pub parameters: JsonString,
}

impl View for ZomeFnCall {
    type V = ZomeFnCallModel;

    open spec fn view(&self) -> ZomeFnCallModel {
        ZomeFnCallModel {
            id: self.id@,
            zome_name: self.zome_name@,
            cap: self.cap@,
            fn_name: self.fn_name@,
            parameters: self.parameters@,
        }
    }
}

impl Clone for ZomeFnCall {
    fn clone(&self) -> (r: Self)
        ensures
            r == *self,
    {
        ZomeFnCall {
            id: self.id.clone(),
            zome_name: self.zome_name.clone(),
            cap: self.cap.clone(),
            fn_name: self.fn_name.clone(),
            parameters: self.parameters.clone(),
        }
    }
}

impl ZomeFnCall {
    /// Builds a call descriptor with a fresh process-unique id.
    pub fn new(zome: &str, cap: CapabilityRequest, function: &str, parameters: &str) -> (r:
        ZomeFnCall)
        ensures
            r@.zome_name == zome@,
            r@.cap == cap@,
            r@.fn_name == function@,
            r@.parameters == parameters@,
    {
        ZomeFnCall {
            id: fresh_process_unique_id(),
            zome_name: String::from_str(zome),
            cap,
            fn_name: String::from_str(function),
            parameters: JsonString::from(parameters),
        }
    }

    /// The capability token the caller presented.
    pub fn cap_token(&self) -> (r: Address)
        ensures
            r@ == self@.cap.cap_token,
    {
        self.cap.cap_token.clone()
    }
}

/// The mathematical content of an [`ExecuteZomeFnResponse`].
pub struct ExecuteZomeFnResponseModel {
    pub call: ZomeFnCallModel,
    pub result: Result<Seq<char>, ErrorModel>,
}

/// What a finished zome function execution dispatches back into the action
/// stream: the call it answers and the result the sandbox produced.
#[derive(Debug)]
pub struct ExecuteZomeFnResponse {
    call: ZomeFnCall,
    result: Result<JsonString, HolochainError>,
}

impl View for ExecuteZomeFnResponse {
    type V = ExecuteZomeFnResponseModel;

    closed spec fn view(&self) -> ExecuteZomeFnResponseModel {
        ExecuteZomeFnResponseModel { call: self.call@, result: result_view(self.result) }
    }
}

/// Clones an ok/error result of JSON out or an error.
pub fn clone_zome_fn_result(r: &Result<JsonString, HolochainError>) -> (out: Result<
    JsonString,
    HolochainError,
>)
    ensures
        out == *r,
{
    match r {
        Ok(v) => Ok(v.clone()),
        Err(e) => Err(e.clone()),
    }
}

impl Clone for ExecuteZomeFnResponse {
    fn clone(&self) -> (r: Self)
        ensures
            r == *self,
    {
        ExecuteZomeFnResponse {
            call: self.call.clone(),
            result: clone_zome_fn_result(&self.result),
        }
    }
}

impl ExecuteZomeFnResponse {
    /// Packs a call and the result its execution produced.
    pub fn new(call: ZomeFnCall, result: Result<JsonString, HolochainError>) -> (r:
        ExecuteZomeFnResponse)
        ensures
            r@.call == call@,
            r@.result == result_view(result),
    {
        ExecuteZomeFnResponse { call, result }
    }

    /// Read-only access to the call.
    pub fn call(&self) -> (r: ZomeFnCall)
        ensures
            r@ == self@.call,
    {
        self.call.clone()
    }

    /// Read-only access to the result.
    pub fn result(&self) -> (r: Result<JsonString, HolochainError>)
        ensures
            result_view(r) == self@.result,
    {
        clone_zome_fn_result(&self.result)
    }
}

} // verus!
