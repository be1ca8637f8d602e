//! Capability-checked zome function calls.
//!
//! The verifier half checks a signed capability request against on-chain
//! grants; the bridge half validates a call, hands the caller the actions to
//! dispatch, and decides, from each state snapshot, whether the call's
//! completion future is ready.
//!
//! What is signed is base64 of `"<function>:<json-parameters>"`.  Producing
//! and checking the signature itself is the external signing oracle's work;
//! the core carries a deterministic stand-in bound to the signer's address,
//! so that every protocol decision around it is checked.

use vstd::prelude::*;

use base64::Engine;

use vstd::string::StringSliceAdditionalSpecFns;

use crate::address::Address;
use crate::cap::{
    cf_contains, cf_lookup, CapTokenGrant, CapabilityRequest, CapabilityType, GrantModel,
};
use crate::dna::{dna_has_zome, dna_zome, zome_has_function, DnaWasm};
use crate::entry::{EntryContent, EntryContentModel};
use crate::action::{Action, ActionModel};
use crate::error::{result_view, ErrorModel, HolochainError};
use crate::json::JsonString;
use crate::signature::{Provenance, Signature};
use crate::state::{chain_has, chain_lookup, results_has, results_lookup, Context, ContextModel};
use crate::zome_call::{ExecuteZomeFnResponse, ZomeFnCall, ZomeFnCallModel};

verus! {

/// The standard base64 rendering of a byte sequence; what
/// [`base64_encode`] returns.
pub uninterp spec fn base64_of(bytes: Seq<u8>) -> Seq<char>;

/// Relies on base64's `STANDARD` engine `encode`: the standard base64
/// rendering of the input bytes, a function of the bytes alone.
#[verifier::external_body]
fn base64_encode(s: &str) -> (r: String)
    ensures
        r@ == base64_of(s.spec_bytes()),
{
    base64::engine::general_purpose::STANDARD.encode(s.as_bytes())
}

/// What a call request signs over: base64 of `"<function>:<parameters>"`.
pub open spec fn encoded_call_data(function: Seq<char>, parameters: Seq<char>) -> Seq<char> {
    base64_of(vstd::utf8::encode_utf8(function + ":"@ + parameters))
}

/// Encodes a function name and its parameters into the form that capability
/// request signatures cover.
pub fn encode_call_data_for_signing(function: &str, parameters: &JsonString) -> (r: String)
    ensures
        r@ == encoded_call_data(function@, parameters@),
{
    let mut data = String::new();
    data.append(function);
    proof {
        reveal_strlit(":");
    }
    data.append(":");
    data.append(parameters.as_str());
    base64_encode(data.as_str())
}

/// The stand-in signing oracle's signature: deterministic in the signer's
/// address and the signed data.  The real oracle is the external DPKI
/// keystore; the protocol around it is what is verified here.
pub open spec fn mock_signature(signer: Seq<char>, data: Seq<char>) -> Seq<char> {
    "sig:"@ + signer + ":"@ + data
}

/// Signs call data with the stand-in oracle under the agent's own address.
pub fn make_call_sig(context: &Context, function: &str, parameters: &JsonString) -> (r: Signature)
    ensures
        r@ == mock_signature(
            context@.agent_id.pub_sign_key,
            encoded_call_data(function@, parameters@),
        ),
{
    let data = encode_call_data_for_signing(function, parameters);
    let mut sig = String::new();
    proof {
        reveal_strlit("sig:");
        reveal_strlit(":");
    }
    sig.append("sig:");
    sig.append(context.agent_id.pub_sign_key.as_str());
    sig.append(":");
    sig.append(data.as_str());
    Signature::from_string(sig)
}

/// Whether a provenance's signature covers exactly this function and these
/// parameters, as signed by the provenance's claimed source.
pub open spec fn call_sig_valid(
    p: crate::signature::ProvenanceModel,
    function: Seq<char>,
    parameters: Seq<char>,
) -> bool {
    p.signature == mock_signature(p.source, encoded_call_data(function, parameters))
}

/// Checks a capability request signature: true exactly when the signature
/// is the claimed source's signature over this function and parameters.
pub fn verify_call_sig(provenance: &Provenance, function: &str, parameters: &JsonString) -> (r:
    bool)
    ensures
        r == call_sig_valid(provenance@, function@, parameters@),
{
    let data = encode_call_data_for_signing(function, parameters);
    let mut expected = String::new();
    proof {
        reveal_strlit("sig:");
        reveal_strlit(":");
    }
    expected.append("sig:");
    expected.append(provenance.source.0.as_str());
    expected.append(":");
    expected.append(data.as_str());
    provenance.signature.0 == expected
}

/// Creates a capability request for a zome call by signing the function
/// name and parameters as the calling agent.
pub fn make_cap_request_for_call(
    callers_context: &Context,
    cap_token: Address,
    function: &str,
    parameters: &JsonString,
) -> (r: CapabilityRequest)
    ensures
        r@.cap_token == cap_token@,
        r@.provenance.source == callers_context@.agent_id.pub_sign_key,
        r@.provenance.signature == mock_signature(
            callers_context@.agent_id.pub_sign_key,
            encoded_call_data(function@, parameters@),
        ),
{
    let signature = make_call_sig(callers_context, function, parameters);
    CapabilityRequest::new(cap_token, callers_context.agent_id.address(), signature)
}

/// Whether the capability token of a request is the local agent's own
/// public signing key: the self-call bypass's first condition.
pub fn is_token_the_agent(context: &Context, request: &CapabilityRequest) -> (r: bool)
    ensures
        r == (context@.agent_id.pub_sign_key == request@.cap_token),
{
    context.agent_id.pub_sign_key == request.cap_token.0
}

/// The grant stored on the caller-visible chain at an address, if the entry
/// there is a capability grant.
pub open spec fn grant_at(c: ContextModel, address: Seq<char>) -> Option<GrantModel> {
    match c.state {
        Some(state) => if chain_has(state.agent_chain, address) {
            match chain_lookup(state.agent_chain, address).content {
                EntryContentModel::CapTokenGrant(grant) => Some(grant),
                _ => None,
            }
        } else {
            None
        },
        None => None,
    }
}

/// Resolves a grant by token address on the local agent's chain.  Absence
/// (no state, no entry, or an entry of another kind) is `None`, never an
/// error.
pub fn get_grant(context: &Context, address: &Address) -> (r: Option<CapTokenGrant>)
    ensures
        match r {
            Some(grant) => grant_at(context@, address@) == Some(grant@),
            None => grant_at(context@, address@) is None,
        },
{
    match context.state() {
        None => None,
        Some(state) => match state.get_entry_from_agent_chain(address) {
            None => None,
            Some(entry) => match &entry.content {
                EntryContent::CapTokenGrant(grant) => Some(grant.clone()),
                _ => None,
            },
        },
    }
}

/// Whether a function list names the function.
pub open spec fn fn_list_has(functions: Seq<Seq<char>>, fn_name: Seq<char>) -> bool {
    exists|i: int| 0 <= i < functions.len() && functions[i] == fn_name
}

/// Whether an address list names the address.
pub open spec fn address_list_has(addresses: Seq<Seq<char>>, address: Seq<char>) -> bool {
    exists|i: int| 0 <= i < addresses.len() && addresses[i] == address
}

/// The admission predicate of a grant for a call, checked in order:
/// the grant must authorize the call's zome and function, the request's
/// token must equal the grant's token exactly, the provenance signature
/// must cover this function and these parameters, and an `Assigned` grant
/// additionally requires the caller among its assignees.  `Public` and
/// `Transferable` grants admit any caller with a valid signature.
pub open spec fn grant_admits(g: GrantModel, call: ZomeFnCallModel) -> bool {
    &&& cf_contains(g.functions, call.zome_name)
    &&& fn_list_has(cf_lookup(g.functions, call.zome_name), call.fn_name)
    &&& g.id == call.cap.cap_token
    &&& call_sig_valid(call.cap.provenance, call.fn_name, call.parameters)
    &&& (g.cap_type is Assigned ==> (g.assignees matches Some(list) && address_list_has(
        list,
        call.cap.provenance.source,
    )))
}

/// Verifies that a grant admits a call: the capability verifier's core
/// predicate.  Pure; failure surfaces as `false`.
pub fn verify_grant(grant: &CapTokenGrant, fn_call: &ZomeFnCall) -> (r: bool)
    ensures
        r == grant_admits(grant@, fn_call@),
{
    let maybe_zome_grants = grant.functions().get(&fn_call.zome_name);
    let zome_grants = match maybe_zome_grants {
        None => {
            return false;
        },
        Some(functions) => functions,
    };
    if !string_vec_has(zome_grants, &fn_call.fn_name) {
        return false;
    }
    let token = grant.token();
    if !(token.0 == fn_call.cap.cap_token.0) {
        return false;
    }
    if !verify_call_sig(&fn_call.cap.provenance, &fn_call.fn_name, &fn_call.parameters) {
        return false;
    }
    match grant.cap_type() {
        CapabilityType::Public => true,
        CapabilityType::Transferable => true,
        CapabilityType::Assigned => match grant.assignees() {
            Some(list) => address_vec_has(list, &fn_call.cap.provenance.source),
            None => false,
        },
    }
}

/// Whether a vector of strings holds the string.
fn string_vec_has(v: &Vec<String>, s: &String) -> (r: bool)
    ensures
        r == fn_list_has(v.deep_view(), s@),
{
    let n = v.len();
    let mut i: usize = 0;
    while i < n
        invariant
            n == v.len(),
            i <= n,
            forall|j: int| 0 <= j < i ==> v.deep_view()[j] != s@,
        decreases n - i,
    {
        if v[i] == *s {
            assert(v.deep_view()[i as int] == s@);
            return true;
        }
        i = i + 1;
    }
    false
}

/// Whether a vector of addresses holds the address.
fn address_vec_has(v: &Vec<Address>, a: &Address) -> (r: bool)
    ensures
        r == address_list_has(v.deep_view(), a@),
{
    let n = v.len();
    let mut i: usize = 0;
    while i < n
        invariant
            n == v.len(),
            i <= n,
            forall|j: int| 0 <= j < i ==> v.deep_view()[j] != a@,
        decreases n - i,
    {
        if v[i].0 == a.0 {
            assert(v.deep_view()[i as int] == a@);
            return true;
        }
        i = i + 1;
    }
    false
}

/// Whether the chain visible through the context authorizes the call: a
/// grant is looked up at the call's token address and must admit the call.
pub open spec fn check_capability_spec(c: ContextModel, call: ZomeFnCallModel) -> bool {
    match grant_at(c, call.cap.cap_token) {
        Some(grant) => grant_admits(grant, call),
        None => false,
    }
}

/// Checks whether a call is allowable according to the capabilities that
/// have been granted to callers, by looking for a grant entry at the call's
/// token address on the chain.  A missing grant fails the check.
pub fn check_capability(context: &Context, fn_call: &ZomeFnCall) -> (r: bool)
    ensures
        r == check_capability_spec(context@, fn_call@),
{
    let token = fn_call.cap_token();
    match get_grant(context, &token) {
        None => false,
        Some(grant) => verify_grant(&grant, fn_call),
    }
}

/// Whether the call passes authorization: either a chain grant admits it,
/// or the self-call bypass applies — the token is the agent's own public
/// signing key and the provenance signature independently verifies.
pub open spec fn call_authorized(c: ContextModel, call: ZomeFnCallModel) -> bool {
    ||| check_capability_spec(c, call)
    ||| (c.agent_id.pub_sign_key == call.cap.cap_token && call_sig_valid(
        call.cap.provenance,
        call.fn_name,
        call.parameters,
    ))
}

/// What validating a call yields: the DNA name and the zome's code on
/// success, or the exact error for each way the call can be misconfigured
/// or unauthorized.
pub open spec fn validate_call_outcome(c: ContextModel, call: ZomeFnCallModel) -> Result<
    (Seq<char>, Seq<u8>),
    ErrorModel,
> {
    match c.state {
        None => Err(ErrorModel::ErrorGeneric("Context not initialized"@)),
        Some(state) => match state.nucleus.dna {
            None => Err(ErrorModel::DnaMissing),
            Some(dna) => if !dna_has_zome(dna, call.zome_name) {
                Err(ErrorModel::Dna("Zome '"@ + call.zome_name + "' not found"@))
            } else if !zome_has_function(dna_zome(dna, call.zome_name), call.fn_name) {
                Err(
                    ErrorModel::Dna(
                        "Zome function '"@ + call.fn_name + "' not found in Zome '"@
                            + call.zome_name + "'"@,
                    ),
                )
            } else if call_authorized(c, call) {
                Ok((dna.name, dna_zome(dna, call.zome_name).code))
            } else {
                Err(ErrorModel::CapabilityCheckFailed)
            },
        },
    }
}

/// The view of a validation result.
pub open spec fn validate_result_view(r: Result<(String, DnaWasm), HolochainError>) -> Result<
    (Seq<char>, Seq<u8>),
    ErrorModel,
> {
    match r {
        Ok((name, code)) => Ok((name@, code@)),
        Err(e) => Err(e@),
    }
}

/// Validates that a call names an installed DNA, an existing zome and
/// function, and passes authorization; returns the DNA name and the zome's
/// code, or the exact error, before any state mutation.
pub fn validate_call(context: &Context, fn_call: &ZomeFnCall) -> (r: Result<
    (String, DnaWasm),
    HolochainError,
>)
    ensures
        validate_result_view(r) == validate_call_outcome(context@, fn_call@),
{
    let state = match context.state() {
        None => {
            return Err(
                HolochainError::ErrorGeneric(String::from_str("Context not initialized")),
            );
        },
        Some(state) => state,
    };
    let dna = match state.nucleus().dna() {
        None => {
            return Err(HolochainError::DnaMissing);
        },
        Some(dna) => dna,
    };
    let zome = match dna.get_zome(&fn_call.zome_name) {
        None => {
            let mut msg = String::new();
            proof {
                reveal_strlit("Zome '");
                reveal_strlit("' not found");
            }
            msg.append("Zome '");
            msg.append(fn_call.zome_name.as_str());
            msg.append("' not found");
            return Err(HolochainError::Dna(msg));
        },
        Some(zome) => zome,
    };
    if !zome.has_function(&fn_call.fn_name) {
        let mut msg = String::new();
        proof {
            reveal_strlit("Zome function '");
            reveal_strlit("' not found in Zome '");
            reveal_strlit("'");
        }
        msg.append("Zome function '");
        msg.append(fn_call.fn_name.as_str());
        msg.append("' not found in Zome '");
        msg.append(fn_call.zome_name.as_str());
        msg.append("'");
        return Err(HolochainError::Dna(msg));
    }
    let dna_name = dna.name.clone();
    let code = zome.code.clone();
    if check_capability(context, fn_call) || (is_token_the_agent(context, &fn_call.cap)
        && verify_call_sig(&fn_call.cap.provenance, &fn_call.fn_name, &fn_call.parameters)) {
        Ok((dna_name, code))
    } else {
        Err(HolochainError::CapabilityCheckFailed)
    }
}

/// Starts a zome function call: validates it, and on success hands back
/// the announce action to dispatch — `SignalZomeFunctionCall`, observable
/// by listeners before execution begins — together with the DNA name and
/// zome code the worker runs.  Failure returns the validation error before
/// any state mutation.
pub fn start_zome_call(context: &Context, zome_call: &ZomeFnCall) -> (r: Result<
    (Action, (String, DnaWasm)),
    HolochainError,
>)
    ensures
        match r {
            Ok((action, resolved)) => validate_call_outcome(context@, zome_call@) == Ok::<
                _,
                ErrorModel,
            >((resolved.0@, resolved.1@)) && action@ == ActionModel::SignalZomeFunctionCall(
                zome_call@,
            ),
            Err(e) => validate_call_outcome(context@, zome_call@) == Err::<
                (Seq<char>, Seq<u8>),
                _,
            >(e@),
        },
{
    match validate_call(context, zome_call) {
        Ok(resolved) => Ok((Action::SignalZomeFunctionCall(zome_call.clone()), resolved)),
        Err(e) => Err(e),
    }
}

/// Finishes a zome function call: packs the worker's result into the
/// `ReturnZomeFunctionResult` action the worker dispatches into the single
/// serialized action stream.
pub fn finish_zome_call(zome_call: &ZomeFnCall, result: Result<JsonString, HolochainError>) -> (r:
    Action)
    ensures
        r@ matches ActionModel::ReturnZomeFunctionResult(response) && response.call == zome_call@
            && response.result == result_view(result),
{
    Action::ReturnZomeFunctionResult(ExecuteZomeFnResponse::new(zome_call.clone(), result))
}

/// What one poll of the completion future decides.
#[derive(Debug)]
pub enum CallPoll {
    /// The call is resolved: the recorded result, or an infrastructure
    /// error.
    Ready(Result<JsonString, HolochainError>),
    /// No result for this call yet; poll again on the next state change.
    Pending,
}

/// The mathematical content of a [`CallPoll`].
pub enum CallPollModel {
    Ready(Result<Seq<char>, ErrorModel>),
    Pending,
}

impl View for CallPoll {
    type V = CallPollModel;

    open spec fn view(&self) -> CallPollModel {
        match self {
            CallPoll::Ready(result) => CallPollModel::Ready(result_view(*result)),
            CallPoll::Pending => CallPollModel::Pending,
        }
    }
}

/// What polling decides on a snapshot: a closed dispatch channel resolves
/// immediately with its error, regardless of result presence; otherwise a
/// recorded result for the call id resolves with it; otherwise, with no
/// state yet, the state-not-initialized error; otherwise the future stays
/// pending.
pub open spec fn poll_outcome(
    c: ContextModel,
    call: ZomeFnCallModel,
    channel_error: Option<ErrorModel>,
) -> CallPollModel {
    match channel_error {
        Some(e) => CallPollModel::Ready(Err(e)),
        None => match c.state {
            Some(state) => if results_has(state.nucleus.zome_call_results, call.id) {
                CallPollModel::Ready(results_lookup(state.nucleus.zome_call_results, call.id))
            } else {
                CallPollModel::Pending
            },
            None => CallPollModel::Ready(Err(ErrorModel::ErrorGeneric("State not initialized"@))),
        },
    }
}

/// The completion future of one zome function call.  Conceptually
/// re-evaluated on every state mutation: it resolves once the matching
/// result appears in the nucleus, or immediately if the dispatch channel
/// is observed closed.
#[derive(Debug)]
pub struct CallResultFuture {
    /// The reader's context; its state snapshot is refreshed by whoever
    /// drives the future.
    pub context: Context,
    /// The call whose result is awaited.
    pub zome_call: ZomeFnCall,
}

impl CallResultFuture {
    /// One poll: decides from the current snapshot and the observed channel
    /// condition whether the call is resolved.
    pub fn poll_result(&self, channel_error: Option<HolochainError>) -> (r: CallPoll)
        ensures
            r@ == poll_outcome(self.context@, self.zome_call@, option_error_view(channel_error)),
    {
        match channel_error {
            Some(e) => CallPoll::Ready(Err(e)),
            None => match self.context.state() {
                Some(state) => match state.nucleus().zome_call_result(&self.zome_call) {
                    Some(result) => CallPoll::Ready(result),
                    None => CallPoll::Pending,
                },
                None => CallPoll::Ready(
                    Err(HolochainError::ErrorGeneric(String::from_str("State not initialized"))),
                ),
            },
        }
    }
}

/// The view of an optional error.
pub open spec fn option_error_view(e: Option<HolochainError>) -> Option<ErrorModel> {
    match e {
        Some(e) => Some(e@),
        None => None,
    }
}

/// Any grant rejects a call whose token differs from the grant's token,
/// whatever the signature.
pub proof fn lemma_token_mismatch_rejects(g: GrantModel, call: ZomeFnCallModel)
    requires
        g.id != call.cap.cap_token,
    ensures
        !grant_admits(g, call),
{
}

/// A `Public` grant does not read the caller's address: two calls that
/// agree on zome, function, parameters and token — each with a signature
/// valid for its own claimed source — are admitted or rejected together.
pub proof fn lemma_public_grant_ignores_source(
    g: GrantModel,
    call_a: ZomeFnCallModel,
    call_b: ZomeFnCallModel,
)
    requires
        g.cap_type is Public,
        call_a.zome_name == call_b.zome_name,
        call_a.fn_name == call_b.fn_name,
        call_a.parameters == call_b.parameters,
        call_a.cap.cap_token == call_b.cap.cap_token,
        call_sig_valid(call_a.cap.provenance, call_a.fn_name, call_a.parameters),
        call_sig_valid(call_b.cap.provenance, call_b.fn_name, call_b.parameters),
    ensures
        grant_admits(g, call_a) == grant_admits(g, call_b),
{
}

/// An `Assigned` grant admits a call exactly when, beyond the checks every
/// grant makes — zome and function listed, token equal, signature valid —
/// the caller's claimed source stands in the assignee list.  In particular,
/// with assignees `{a}`, a call from `a` passes and an otherwise identical
/// call from `b != a` is rejected.
pub proof fn lemma_assigned_grant_admission(g: GrantModel, call: ZomeFnCallModel)
    requires
        g.cap_type is Assigned,
    ensures
        grant_admits(g, call) <==> {
            &&& cf_contains(g.functions, call.zome_name)
            &&& fn_list_has(cf_lookup(g.functions, call.zome_name), call.fn_name)
            &&& g.id == call.cap.cap_token
            &&& call_sig_valid(call.cap.provenance, call.fn_name, call.parameters)
            &&& (g.assignees matches Some(list) && address_list_has(
                list,
                call.cap.provenance.source,
            ))
        },
{
}

/// The self-call bypass: with the DNA, zome and function present, a call
/// whose token is the agent's own public signing key and whose provenance
/// signature verifies is validated without any grant lookup.
pub proof fn lemma_self_call_bypass(c: ContextModel, call: ZomeFnCallModel)
    requires
        c.state matches Some(state) && state.nucleus.dna matches Some(dna) && dna_has_zome(
            dna,
            call.zome_name,
        ) && zome_has_function(dna_zome(dna, call.zome_name), call.fn_name),
        c.agent_id.pub_sign_key == call.cap.cap_token,
        call_sig_valid(call.cap.provenance, call.fn_name, call.parameters),
    ensures
        validate_call_outcome(c, call) is Ok,
{
}

} // verus!
