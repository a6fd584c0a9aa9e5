//! The boundary calls.
//!
//! Each call checks its arguments in a fixed order, handles first, then the
//! text that has to be parsed, and answers with a status. With the status
//! comes what the caller of these functions has to carry out: a value to
//! build, an object to release, work to schedule. Any status but success
//! comes with nothing to carry out.

use crate::contract::{ContractType, WalletContract};
use crate::endpoint::{is_endpoint, names_endpoint};
use crate::handle::{address_or_null, Handle, NULL};
use crate::key::{
    hex_value, is_curve_point, is_hex, key_of, passed_text, read_public_key, KeyError, PublicKey,
};
use crate::port::{Message, Payload, TonWalletSubscriptionHandler};
use crate::status::ExitCode;
use crate::text::text_of;
use vstd::prelude::*;
use vstd::utf8::{decode_utf8, valid_utf8};

verus! {

/// What the bridge remembers from one call to the next: nothing. Every call
/// is decided by its arguments alone.
#[derive(Copy, Clone, Debug, PartialEq, Eq, Structural)]
pub struct CoreState {}

/// How a runtime is to be built.
#[derive(Copy, Clone, Debug, PartialEq, Eq, Structural)]
pub struct RuntimeParams {
    /// The number of worker threads of the executor.
    pub worker_threads: u32,
}

/// How a transport is to be built.
#[derive(Debug)]
pub struct TransportParams {
    /// The address of the backend, as the bytes of the text that was passed.
    pub url: Vec<u8>,
}

/// The end of a creation call: its status and the handle that is written to
/// the caller's slot, if one is.
#[derive(Copy, Clone, Debug)]
pub struct Created {
    pub code: ExitCode,
    pub handle: Option<Handle>,
}

/// The end of a destruction call: its status and the object to release, if
/// one is released.
#[derive(Copy, Clone, Debug)]
pub struct Deleted {
    pub code: ExitCode,
    pub release: Option<Handle>,
}

/// A delay after which one message is posted.
#[derive(Copy, Clone, Debug, PartialEq, Eq, Structural)]
pub struct Timer {
    pub seconds: u64,
    pub port: i64,
}

/// The end of a call to wait: its status and the timer to schedule, if one is.
#[derive(Copy, Clone, Debug, PartialEq, Eq, Structural)]
pub struct Scheduled {
    pub code: ExitCode,
    pub timer: Option<Timer>,
}

/// A subscription that was accepted and is to be opened in the background.
#[derive(Copy, Clone, Debug)]
pub struct SubscribeRequest {
    /// The transport whose connection the subscription shares.
    pub transport: Handle,
    /// The key of the wallet's owner.
    pub public_key: PublicKey,
    /// The kind of wallet, as the engine takes it.
    pub contract_type: WalletContract,
    /// The receiver of the subscription's notifications.
    pub handler: TonWalletSubscriptionHandler,
    /// The port that the outcome of the request is posted to.
    pub result_port: i64,
}

/// The end of a call to subscribe: its status and the request to schedule, if
/// it was accepted.
#[derive(Copy, Clone, Debug)]
pub struct Subscribing {
    pub code: ExitCode,
    pub request: Option<SubscribeRequest>,
}

impl Timer {
    /// The message that is posted when the delay has passed.
    pub open spec fn completion(self) -> Message {
        Message { port: self.port, payload: Payload::Unit }
    }

    /// The one message that is posted when the delay has passed: a unit value
    /// to the timer's port.
    pub fn elapsed(&self) -> (post: Message)
        ensures
            post == self.completion(),
    {
        Message { port: self.port, payload: Payload::Unit }
    }
}

/// The status of a destruction call on `handle`, where `missing` is the status
/// that reports a null handle of that kind.
pub open spec fn deletion_status(handle: usize, missing: ExitCode) -> ExitCode {
    if handle == NULL {
        missing
    } else {
        ExitCode::Success
    }
}

/// The status of a call to subscribe. The runtime is looked at first, then
/// the transport, then the key.
pub open spec fn subscribe_status(
    runtime: usize,
    gql_transport: usize,
    key: Result<Seq<u8>, KeyError>,
) -> ExitCode {
    if runtime == NULL {
        ExitCode::RuntimeIsNotInitialized
    } else if gql_transport == NULL {
        ExitCode::TransportIsNotInitialized
    } else if key is Err {
        ExitCode::InvalidPublicKey
    } else {
        ExitCode::Success
    }
}

/// The message that ends a subscription request whose outcome is `outcome`,
/// the new subscription or nothing.
pub open spec fn subscription_message(outcome: Option<Handle>, result_port: i64) -> Message {
    Message {
        port: result_port,
        payload: Payload::Subscription {
            code: if outcome is Some {
                ExitCode::Success
            } else {
                ExitCode::FailedToSubscribeToTonWallet
            },
            handle: address_or_null(outcome),
        },
    }
}

/// A subscription on a runtime and a transport that exist, with a key text
/// that is not hexadecimal or whose bytes are no point of the curve, has the
/// status `InvalidPublicKey`. Whatever the handles are, it is not accepted.
pub proof fn unreadable_key_is_rejected(runtime: usize, gql_transport: usize, text: Seq<u8>)
    requires
        !is_hex(text) || !is_curve_point(hex_value(text)),
    ensures
        key_of(Some(text)) is Err,
        subscribe_status(runtime, gql_transport, key_of(Some(text))) != ExitCode::Success,
        runtime != NULL && gql_transport != NULL ==> subscribe_status(
            runtime,
            gql_transport,
            key_of(Some(text)),
        ) == ExitCode::InvalidPublicKey,
{
}

/// A destruction call succeeds exactly on a handle that is not null, and on
/// a null handle its status is the one that reports the missing object.
pub proof fn deletion_succeeds_unless_null(handle: usize, missing: ExitCode)
    requires
        missing != ExitCode::Success,
    ensures
        deletion_status(handle, missing) == ExitCode::Success <==> handle != NULL,
        deletion_status(NULL, missing) == missing,
{
}

/// Ends a destruction call on `handle`: a null handle is reported as
/// `missing`, any other is released.
fn delete(handle: usize, missing: ExitCode) -> (end: Deleted)
    ensures
        end.code == deletion_status(handle, missing),
        end.release is Some <==> handle != NULL,
        end.release matches Some(h) ==> h.address() == handle,
{
    match Handle::from_addr(handle) {
        None => Deleted { code: missing, release: None },
        Some(h) => Deleted { code: ExitCode::Success, release: Some(h) },
    }
}

/// Ends a creation call: what was built is written with success, and where
/// nothing was built the status is `failure`.
fn created(built: Option<Handle>, failure: ExitCode) -> (end: Created)
    ensures
        end.handle == built,
        end.code == if built is Some {
            ExitCode::Success
        } else {
            failure
        },
{
    match built {
        Some(h) => Created { code: ExitCode::Success, handle: Some(h) },
        None => Created { code: failure, handle: None },
    }
}

/// Begins the creation of a runtime whose handle is to be written to `slot`.
///
/// With a null slot the call fails at once. Otherwise the result is the
/// number of worker threads to build the executor with; `runtime_created`
/// ends the call when the build is over.
pub fn create_runtime(params: RuntimeParams, slot: usize) -> (plan: Result<usize, ExitCode>)
    ensures
        slot == NULL ==> plan == Err::<usize, ExitCode>(ExitCode::FailedToCreateRuntime),
        slot != NULL ==> plan == Ok::<usize, ExitCode>(params.worker_threads as usize),
        plan matches Ok(n) ==> n == params.worker_threads,
{
    if slot == NULL {
        return Err(ExitCode::FailedToCreateRuntime);
    }
    Ok(params.worker_threads as usize)
}

/// Ends the creation of a runtime: `built` is the new runtime, or nothing
/// where the executor could not be built.
///
/// A runtime that was built is written to the slot with the status of
/// success. Otherwise the status is `FailedToCreateRuntime` and nothing is
/// written.
pub fn runtime_created(built: Option<Handle>) -> (end: Created)
    ensures
        end.handle == built,
        built is Some ==> end.code == ExitCode::Success,
        built is None ==> end.code == ExitCode::FailedToCreateRuntime,
        end.code == ExitCode::Success <==> end.handle is Some,
{
    created(built, ExitCode::FailedToCreateRuntime)
}

/// Destroys a runtime. A null handle is reported as
/// `RuntimeIsNotInitialized` and nothing is released; any other handle is
/// released.
pub fn delete_runtime(runtime: usize) -> (end: Deleted)
    ensures
        end.code == deletion_status(runtime, ExitCode::RuntimeIsNotInitialized),
        end.release is Some <==> runtime != NULL,
        end.release matches Some(h) ==> h.address() == runtime,
{
    delete(runtime, ExitCode::RuntimeIsNotInitialized)
}

/// Asks for one message to `send_port` after `seconds` seconds.
///
/// With a null runtime the status is `RuntimeIsNotInitialized` and no timer
/// is scheduled. Otherwise exactly one timer is, with the delay and the port
/// that were given.
pub fn wait(runtime: usize, seconds: u32, send_port: i64) -> (end: Scheduled)
    ensures
        runtime == NULL ==> end == (Scheduled {
            code: ExitCode::RuntimeIsNotInitialized,
            timer: None,
        }),
        runtime != NULL ==> end == (Scheduled {
            code: ExitCode::Success,
            timer: Some(Timer { seconds: seconds as u64, port: send_port }),
        }),
{
    if runtime == NULL {
        return Scheduled { code: ExitCode::RuntimeIsNotInitialized, timer: None };
    }
    Scheduled {
        code: ExitCode::Success,
        timer: Some(Timer { seconds: seconds as u64, port: send_port }),
    }
}

/// Begins the creation of a transport.
///
/// The address must be text, and well formed: bytes that are not valid UTF-8,
/// or that do not name a scheme and something behind it, fail at once with
/// `InvalidUrl`. Otherwise the result is the text to open the connection
/// with; `transport_created` ends the call when that was tried.
pub fn create_gql_transport(params: &TransportParams) -> (plan: Result<String, ExitCode>)
    ensures
        plan is Ok <==> valid_utf8(params.url@) && names_endpoint(params.url@),
        plan matches Ok(url) ==> url@ == decode_utf8(params.url@),
        plan matches Err(code) ==> code == ExitCode::InvalidUrl,
{
    let url = match text_of(params.url.as_slice()) {
        Some(url) => url,
        None => {
            return Err(ExitCode::InvalidUrl);
        },
    };
    if !is_endpoint(params.url.as_slice()) {
        return Err(ExitCode::InvalidUrl);
    }
    Ok(url)
}

/// Ends the creation of a transport: `connection` is the new transport, or
/// nothing where no connection could be made for the address.
///
/// A transport that was built is written to the slot with the status of
/// success. Otherwise the status is `InvalidUrl` and nothing is written.
pub fn transport_created(connection: Option<Handle>) -> (end: Created)
    ensures
        end.handle == connection,
        connection is Some ==> end.code == ExitCode::Success,
        connection is None ==> end.code == ExitCode::InvalidUrl,
        end.code == ExitCode::Success <==> end.handle is Some,
{
    created(connection, ExitCode::InvalidUrl)
}

/// Destroys a transport. A null handle is reported as
/// `TransportIsNotInitialized` and nothing is released; any other handle is
/// released.
pub fn delete_gql_transport(gql_transport: usize) -> (end: Deleted)
    ensures
        end.code == deletion_status(gql_transport, ExitCode::TransportIsNotInitialized),
        end.release is Some <==> gql_transport != NULL,
        end.release matches Some(h) ==> h.address() == gql_transport,
{
    delete(gql_transport, ExitCode::TransportIsNotInitialized)
}

/// Decides a subscription on a transport that exists, given what reading the
/// key came to.
///
/// Without a key the status is `InvalidPublicKey` and nothing is scheduled.
/// With one the request is accepted: it holds the transport, the key, the
/// engine's variant of the contract type, an open handler that posts to
/// `subscription_port`, and the port for the outcome.
pub fn accept_subscription(
    transport: Handle,
    key: Result<PublicKey, KeyError>,
    contract_type: ContractType,
    subscription_port: i64,
    result_port: i64,
) -> (end: Subscribing)
    ensures
        key is Err ==> end.code == ExitCode::InvalidPublicKey && end.request is None,
        key is Ok ==> end.code == ExitCode::Success && end.request is Some,
        end.request matches Some(request) ==> {
            &&& request.transport == transport
            &&& key == Ok::<PublicKey, KeyError>(request.public_key)
            &&& request.contract_type == contract_type.engine_variant()
            &&& request.handler.port_of() == subscription_port
            &&& request.handler.is_open()
            &&& request.result_port == result_port
        },
{
    let public_key = match key {
        Ok(key) => key,
        Err(_) => {
            return Subscribing { code: ExitCode::InvalidPublicKey, request: None };
        },
    };
    let contract_type = WalletContract::from(contract_type);
    let handler = TonWalletSubscriptionHandler::new(subscription_port);
    Subscribing {
        code: ExitCode::Success,
        request: Some(SubscribeRequest { transport, public_key, contract_type, handler, result_port }),
    }
}

/// Asks for a subscription to the wallet of a key.
///
/// The status is that of `subscribe_status`: a null runtime, then a null
/// transport, then a key that cannot be read, each end the call with its own
/// status and nothing scheduled. Otherwise the request is accepted: exactly
/// one request is scheduled, and its outcome will be posted to `result_port`.
pub fn subscribe_to_ton_wallet(
    runtime: usize,
    gql_transport: usize,
    public_key: Option<&[u8]>,
    contract_type: ContractType,
    subscription_port: i64,
    result_port: i64,
) -> (end: Subscribing)
    ensures
        end.code == subscribe_status(runtime, gql_transport, key_of(passed_text(public_key))),
        end.request is Some <==> end.code == ExitCode::Success,
        end.request matches Some(request) ==> {
            &&& request.transport.address() == gql_transport
            &&& key_of(passed_text(public_key)) == Ok::<Seq<u8>, KeyError>(request.public_key@)
            &&& request.contract_type == contract_type.engine_variant()
            &&& request.handler.port_of() == subscription_port
            &&& request.handler.is_open()
            &&& request.result_port == result_port
        },
{
    if runtime == NULL {
        return Subscribing { code: ExitCode::RuntimeIsNotInitialized, request: None };
    }
    let transport = match Handle::from_addr(gql_transport) {
        Some(transport) => transport,
        None => {
            return Subscribing { code: ExitCode::TransportIsNotInitialized, request: None };
        },
    };
    let key = read_public_key(public_key);
    accept_subscription(transport, key, contract_type, subscription_port, result_port)
}

/// Ends a subscription request: `outcome` is the new subscription, or
/// nothing where the engine failed to open it.
///
/// The result is the one message that is posted for the request, to its
/// result port: success with the address of the subscription, or
/// `FailedToSubscribeToTonWallet` with a null address.
pub fn subscription_created(outcome: Option<Handle>, result_port: i64) -> (post: Message)
    ensures
        post == subscription_message(outcome, result_port),
        post.port == result_port,
        post.payload matches Payload::Subscription { code, handle } && (code == ExitCode::Success
            <==> handle != NULL) && (code == ExitCode::Success <==> outcome is Some),
{
    match outcome {
        Some(subscription) => Message {
            port: result_port,
            payload: Payload::Subscription {
                code: ExitCode::Success,
                handle: subscription.addr(),
            },
        },
        None => Message {
            port: result_port,
            payload: Payload::Subscription {
                code: ExitCode::FailedToSubscribeToTonWallet,
                handle: NULL,
            },
        },
    }
}

/// Destroys a subscription. A null handle is reported as
/// `SubscriptionIsNotInitialized` and nothing is released; any other handle
/// is released, which ends the subscription's notifications.
pub fn delete_subscription(subscription: usize) -> (end: Deleted)
    ensures
        end.code == deletion_status(subscription, ExitCode::SubscriptionIsNotInitialized),
        end.release is Some <==> subscription != NULL,
        end.release matches Some(h) ==> h.address() == subscription,
{
    delete(subscription, ExitCode::SubscriptionIsNotInitialized)
}

} // verus!
