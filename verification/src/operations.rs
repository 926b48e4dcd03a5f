//! The response side every business operation shares.
//!
//! An operation POSTs its request and branches on the HTTP status: 200
//! selects the success schema, anything else the parallel error schema. The
//! caller always receives both payloads, with the one the status did not
//! select left at its all-default value. When no bearer token could be
//! acquired the gateway is never called; a local pair is synthesized whose
//! error side carries two clock stamps as a pseudo correlation pair and the
//! token failure's text.

use vstd::prelude::*;

use crate::text::{dec_str, fmt_u16};

verus! {

/// A payload with a distinguished all-default value, the shape every
/// response and error schema of the gateway has.
pub trait Payload: Sized {
    /// Whether every field still has its default value.
    spec fn is_empty_payload(&self) -> bool;

    /// The all-default value.
    fn empty_payload() -> (r: Self)
        ensures
            r.is_empty_payload(),
    ;
}

/// An error schema that carries the gateway's correlation triple.
pub trait ErrorPayload: Payload {
    spec fn spec_request_id(&self) -> Option<String>;

    spec fn spec_error_code(&self) -> Option<String>;

    spec fn spec_error_message(&self) -> Option<String>;

    /// The value whose three fields are exactly the given triple.
    fn from_correlation(request_id: String, error_code: String, error_message: String) -> (r: Self)
        ensures
            r.spec_request_id() == Some(request_id),
            r.spec_error_code() == Some(error_code),
            r.spec_error_message() == Some(error_message),
    ;
}

/// What the transport observed after POSTing an operation request: a decoded
/// success body, or the status of a non-200 reply with its decoded error
/// body.
#[derive(Debug, PartialEq)]
pub enum OperationReply<S, E> {
    Success(S),
    Failure(u16, E),
}

/// Whether an HTTP status selects the success schema: only 200 does.
pub fn is_success_status(status: u16) -> (r: bool)
    ensures
        r <==> status == 200,
{
    status == 200
}

/// Pairs the decoded body with the untouched default of the other schema:
/// a success reply leaves the error payload all-default, a failure reply
/// leaves the success payload all-default.
pub fn settle_operation<S: Payload, E: Payload>(reply: OperationReply<S, E>) -> (r: (S, E))
    ensures
        reply matches OperationReply::Success(s) ==> (r.0 == s && r.1.is_empty_payload()),
        reply matches OperationReply::Failure(st, e) ==> (r.0.is_empty_payload() && r.1 == e),
{
    match reply {
        OperationReply::Success(s) => (s, E::empty_payload()),
        OperationReply::Failure(_, e) => (S::empty_payload(), e),
    }
}

/// Relies on chrono's `Local::now` and its strftime formatting to render the
/// current local time as a compact year-to-millisecond stamp. Nothing can be
/// promised of the clock's value.
#[verifier::external_body]
fn now_compact_stamp() -> String {
    chrono::Local::now().format("%Y%m%d%H%M%S%3f").to_string()
}

/// The locally synthesized outcome of an operation whose token acquisition
/// failed: the gateway is not called, the success payload stays all-default,
/// and the error payload carries two clock stamps as a pseudo correlation
/// pair plus the failure's text behind the `"generate oauth: "` marker.
pub fn oauth_failure_pair<S: Payload, E: ErrorPayload>(detail: &str) -> (r: (S, E))
    ensures
        r.0.is_empty_payload(),
        r.1.spec_request_id() is Some,
        r.1.spec_error_code() is Some,
        r.1.spec_error_message() matches Some(m) && m@ == "generate oauth: "@ + detail@,
{
    let stamp_a = now_compact_stamp();
    let stamp_b = now_compact_stamp();
    let message = String::from_str("generate oauth: ").concat(detail);
    (S::empty_payload(), E::from_correlation(stamp_a, stamp_b, message))
}

/// Acknowledgement schema of the URL-registration operation. It doubles as
/// the carrier of locally synthesized failures, as no parallel error schema
/// exists for this operation.
#[derive(Debug, PartialEq)]
pub struct RegisterUrlResponseData {
    pub originator_conversation_id: Option<String>,
    pub conversation_id: Option<String>,
    pub response_description: Option<String>,
}

/// What the transport observed after POSTing a URL registration: a decoded
/// acknowledgement, or the status of a non-200 reply, whose body this
/// operation does not decode.
#[derive(Debug, PartialEq)]
pub enum RegisterUrlReply {
    Success(RegisterUrlResponseData),
    Failure(u16),
}

/// A registration acknowledgement: a decoded body passes through, a non-200
/// status yields a synthesized one carrying two clock stamps and the status
/// code's rendering.
pub fn settle_register_url(reply: RegisterUrlReply) -> (r: RegisterUrlResponseData)
    ensures
        reply matches RegisterUrlReply::Success(d) ==> r == d,
        reply matches RegisterUrlReply::Failure(s) ==> (r.originator_conversation_id is Some
            && r.conversation_id is Some && (r.response_description matches Some(m) && m@
            == dec_str(s as nat))),
{
    match reply {
        RegisterUrlReply::Success(d) => d,
        RegisterUrlReply::Failure(s) => {
            let stamp_a = now_compact_stamp();
            let stamp_b = now_compact_stamp();
            build_register_url_response_data(Some(stamp_a), Some(stamp_b), Some(fmt_u16(s)))
        },
    }
}

/// The registration outcome when token acquisition failed: two clock stamps
/// and the failure's text behind the `"generate oauth: "` marker.
pub fn register_url_token_failure(detail: &str) -> (r: RegisterUrlResponseData)
    ensures
        r.originator_conversation_id is Some,
        r.conversation_id is Some,
        r.response_description matches Some(m) && m@ == "generate oauth: "@ + detail@,
{
    let stamp_a = now_compact_stamp();
    let stamp_b = now_compact_stamp();
    let message = String::from_str("generate oauth: ").concat(detail);
    build_register_url_response_data(Some(stamp_a), Some(stamp_b), Some(message))
}

/// Acknowledgement schema of the business-to-customer operation.
#[derive(Debug, PartialEq)]
pub struct BusinessToCustomerResponseData {
    pub originator_conversation_id: Option<String>,
    pub conversation_id: Option<String>,
    pub response_code: Option<String>,
    pub response_description: Option<String>,
}

/// Error schema of the business-to-customer operation.
#[derive(Debug, PartialEq)]
pub struct BusinessToCustomerErrorResponseData {
    pub request_id: Option<String>,
    pub error_code: Option<String>,
    pub error_message: Option<String>,
}

/// Acknowledgement schema of the customer-to-business payment operation.
#[derive(Debug, PartialEq)]
pub struct CustomerToBusinessPaymentResponseData {
    pub merchant_request_id: Option<String>,
    pub checkout_request_id: Option<String>,
    pub response_code: Option<String>,
    pub response_description: Option<String>,
    pub customer_message: Option<String>,
}

/// Error schema of the customer-to-business payment operation.
#[derive(Debug, PartialEq)]
pub struct CustomerToBusinessPaymentErrorResponseData {
    pub request_id: Option<String>,
    pub error_code: Option<String>,
    pub error_message: Option<String>,
}

/// Acknowledgement schema of the pay-bill operation.
#[derive(Debug, PartialEq)]
pub struct BusinessPayBillResponseData {
    pub originator_conversation_id: Option<String>,
    pub conversation_id: Option<String>,
    pub response_code: Option<String>,
    pub response_description: Option<String>,
}

/// Error schema of the pay-bill operation.
#[derive(Debug, PartialEq)]
pub struct BusinessPayBillErrorResponseData {
    pub request_id: Option<String>,
    pub error_code: Option<String>,
    pub error_message: Option<String>,
}

/// Acknowledgement schema of the buy-goods operation.
#[derive(Debug, PartialEq)]
pub struct BusinessBuyGoodsResponseData {
    pub originator_conversation_id: Option<String>,
    pub conversation_id: Option<String>,
    pub response_code: Option<String>,
    pub response_description: Option<String>,
}

/// Error schema of the buy-goods operation.
#[derive(Debug, PartialEq)]
pub struct BusinessBuyGoodsErrorResponseData {
    pub request_id: Option<String>,
    pub error_code: Option<String>,
    pub error_message: Option<String>,
}

impl Payload for BusinessToCustomerResponseData {
    open spec fn is_empty_payload(&self) -> bool {
        self.originator_conversation_id is None && self.conversation_id is None
            && self.response_code is None && self.response_description is None
    }

    fn empty_payload() -> (r: Self) {
        build_business_to_customer_response_data(None, None, None, None)
    }
}

impl Payload for BusinessToCustomerErrorResponseData {
    open spec fn is_empty_payload(&self) -> bool {
        self.request_id is None && self.error_code is None && self.error_message is None
    }

    fn empty_payload() -> (r: Self) {
        build_business_to_customer_error_response_data(None, None, None)
    }
}

impl ErrorPayload for BusinessToCustomerErrorResponseData {
    open spec fn spec_request_id(&self) -> Option<String> {
        self.request_id
    }

    open spec fn spec_error_code(&self) -> Option<String> {
        self.error_code
    }

    open spec fn spec_error_message(&self) -> Option<String> {
        self.error_message
    }

    fn from_correlation(request_id: String, error_code: String, error_message: String) -> (r: Self) {
        build_business_to_customer_error_response_data(
            Some(request_id),
            Some(error_code),
            Some(error_message),
        )
    }
}

impl Payload for CustomerToBusinessPaymentResponseData {
    open spec fn is_empty_payload(&self) -> bool {
        self.merchant_request_id is None && self.checkout_request_id is None
            && self.response_code is None && self.response_description is None
            && self.customer_message is None
    }

    fn empty_payload() -> (r: Self) {
        build_customer_to_business_payment_response_data(None, None, None, None, None)
    }
}

impl Payload for CustomerToBusinessPaymentErrorResponseData {
    open spec fn is_empty_payload(&self) -> bool {
        self.request_id is None && self.error_code is None && self.error_message is None
    }

    fn empty_payload() -> (r: Self) {
        build_customer_to_business_payment_error_response_data(None, None, None)
    }
}

impl ErrorPayload for CustomerToBusinessPaymentErrorResponseData {
    open spec fn spec_request_id(&self) -> Option<String> {
        self.request_id
    }

    open spec fn spec_error_code(&self) -> Option<String> {
        self.error_code
    }

    open spec fn spec_error_message(&self) -> Option<String> {
        self.error_message
    }

    fn from_correlation(request_id: String, error_code: String, error_message: String) -> (r: Self) {
        build_customer_to_business_payment_error_response_data(
            Some(request_id),
            Some(error_code),
            Some(error_message),
        )
    }
}

impl Payload for BusinessPayBillResponseData {
    open spec fn is_empty_payload(&self) -> bool {
        self.originator_conversation_id is None && self.conversation_id is None
            && self.response_code is None && self.response_description is None
    }

    fn empty_payload() -> (r: Self) {
        build_business_paybill_response_data(None, None, None, None)
    }
}

impl Payload for BusinessPayBillErrorResponseData {
    open spec fn is_empty_payload(&self) -> bool {
        self.request_id is None && self.error_code is None && self.error_message is None
    }

    fn empty_payload() -> (r: Self) {
        build_business_paybill_error_response_data(None, None, None)
    }
}

impl ErrorPayload for BusinessPayBillErrorResponseData {
    open spec fn spec_request_id(&self) -> Option<String> {
        self.request_id
    }

    open spec fn spec_error_code(&self) -> Option<String> {
        self.error_code
    }

    open spec fn spec_error_message(&self) -> Option<String> {
        self.error_message
    }

    fn from_correlation(request_id: String, error_code: String, error_message: String) -> (r: Self) {
        build_business_paybill_error_response_data(
            Some(request_id),
            Some(error_code),
            Some(error_message),
        )
    }
}

impl Payload for BusinessBuyGoodsResponseData {
    open spec fn is_empty_payload(&self) -> bool {
        self.originator_conversation_id is None && self.conversation_id is None
            && self.response_code is None && self.response_description is None
    }

    fn empty_payload() -> (r: Self) {
        build_business_buy_goods_response_data(None, None, None, None)
    }
}

impl Payload for BusinessBuyGoodsErrorResponseData {
    open spec fn is_empty_payload(&self) -> bool {
        self.request_id is None && self.error_code is None && self.error_message is None
    }

    fn empty_payload() -> (r: Self) {
        build_business_buy_goods_error_response_data(None, None, None)
    }
}

impl ErrorPayload for BusinessBuyGoodsErrorResponseData {
    open spec fn spec_request_id(&self) -> Option<String> {
        self.request_id
    }

    open spec fn spec_error_code(&self) -> Option<String> {
        self.error_code
    }

    open spec fn spec_error_message(&self) -> Option<String> {
        self.error_message
    }

    fn from_correlation(request_id: String, error_code: String, error_message: String) -> (r: Self) {
        build_business_buy_goods_error_response_data(
            Some(request_id),
            Some(error_code),
            Some(error_message),
        )
    }
}

/// Assembles a business-to-customer acknowledgement field by field.
pub fn build_business_to_customer_response_data(
    originator_conversation_id: Option<String>,
    conversation_id: Option<String>,
    response_code: Option<String>,
    response_description: Option<String>,
) -> (r: BusinessToCustomerResponseData)
    ensures
        r.originator_conversation_id == originator_conversation_id,
        r.conversation_id == conversation_id,
        r.response_code == response_code,
        r.response_description == response_description,
{
    BusinessToCustomerResponseData {
        originator_conversation_id,
        conversation_id,
        response_code,
        response_description,
    }
}

/// Assembles a business-to-customer error payload field by field.
pub fn build_business_to_customer_error_response_data(
    request_id: Option<String>,
    error_code: Option<String>,
    error_message: Option<String>,
) -> (r: BusinessToCustomerErrorResponseData)
    ensures
        r.request_id == request_id,
        r.error_code == error_code,
        r.error_message == error_message,
{
    BusinessToCustomerErrorResponseData { request_id, error_code, error_message }
}

/// Assembles a customer-to-business acknowledgement field by field.
pub fn build_customer_to_business_payment_response_data(
    merchant_request_id: Option<String>,
    checkout_request_id: Option<String>,
    response_code: Option<String>,
    response_description: Option<String>,
    customer_message: Option<String>,
) -> (r: CustomerToBusinessPaymentResponseData)
    ensures
        r.merchant_request_id == merchant_request_id,
        r.checkout_request_id == checkout_request_id,
        r.response_code == response_code,
        r.response_description == response_description,
        r.customer_message == customer_message,
{
    CustomerToBusinessPaymentResponseData {
        merchant_request_id,
        checkout_request_id,
        response_code,
        response_description,
        customer_message,
    }
}

/// Assembles a customer-to-business error payload field by field.
pub fn build_customer_to_business_payment_error_response_data(
    request_id: Option<String>,
    error_code: Option<String>,
    error_message: Option<String>,
) -> (r: CustomerToBusinessPaymentErrorResponseData)
    ensures
        r.request_id == request_id,
        r.error_code == error_code,
        r.error_message == error_message,
{
    CustomerToBusinessPaymentErrorResponseData { request_id, error_code, error_message }
}

/// Assembles a pay-bill acknowledgement field by field.
pub fn build_business_paybill_response_data(
    originator_conversation_id: Option<String>,
    conversation_id: Option<String>,
    response_code: Option<String>,
    response_description: Option<String>,
) -> (r: BusinessPayBillResponseData)
    ensures
        r.originator_conversation_id == originator_conversation_id,
        r.conversation_id == conversation_id,
        r.response_code == response_code,
        r.response_description == response_description,
{
    BusinessPayBillResponseData {
        originator_conversation_id,
        conversation_id,
        response_code,
        response_description,
    }
}

/// Assembles a pay-bill error payload field by field.
pub fn build_business_paybill_error_response_data(
    request_id: Option<String>,
    error_code: Option<String>,
    error_message: Option<String>,
) -> (r: BusinessPayBillErrorResponseData)
    ensures
        r.request_id == request_id,
        r.error_code == error_code,
        r.error_message == error_message,
{
    BusinessPayBillErrorResponseData { request_id, error_code, error_message }
}

/// Assembles a buy-goods acknowledgement field by field.
pub fn build_business_buy_goods_response_data(
    originator_conversation_id: Option<String>,
    conversation_id: Option<String>,
    response_code: Option<String>,
    response_description: Option<String>,
) -> (r: BusinessBuyGoodsResponseData)
    ensures
        r.originator_conversation_id == originator_conversation_id,
        r.conversation_id == conversation_id,
        r.response_code == response_code,
        r.response_description == response_description,
{
    BusinessBuyGoodsResponseData {
        originator_conversation_id,
        conversation_id,
        response_code,
        response_description,
    }
}

/// Assembles a buy-goods error payload field by field.
pub fn build_business_buy_goods_error_response_data(
    request_id: Option<String>,
    error_code: Option<String>,
    error_message: Option<String>,
) -> (r: BusinessBuyGoodsErrorResponseData)
    ensures
        r.request_id == request_id,
        r.error_code == error_code,
        r.error_message == error_message,
{
    BusinessBuyGoodsErrorResponseData { request_id, error_code, error_message }
}

/// Assembles a registration acknowledgement field by field.
pub fn build_register_url_response_data(
    originator_conversation_id: Option<String>,
    conversation_id: Option<String>,
    response_description: Option<String>,
) -> (r: RegisterUrlResponseData)
    ensures
        r.originator_conversation_id == originator_conversation_id,
        r.conversation_id == conversation_id,
        r.response_description == response_description,
{
    RegisterUrlResponseData { originator_conversation_id, conversation_id, response_description }
}

} // verus!
