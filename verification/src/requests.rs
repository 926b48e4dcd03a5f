//! Typed request input for each business operation and the wire records
//! built from it.
//!
//! An input-details value carries what the caller knows, endpoint URL
//! included; the wire record is the subset the gateway's fixed JSON schema
//! mandates, assembled field by field. Serialization of the wire record and
//! the POST itself happen outside the library.

use vstd::prelude::*;

verus! {

/// Caller input for the register-callback-URL operation.
#[derive(Debug, PartialEq)]
pub struct RegisterUrlInputDetails {
    pub api_url: String,
    pub short_code: String,
    pub response_type: String,
    pub confirmation_url: String,
    pub validation_url: String,
}

/// Wire record of the register-callback-URL operation.
#[derive(Debug, PartialEq)]
pub struct RegisterUrlData {
    pub short_code: String,
    pub response_type: String,
    pub confirmation_url: String,
    pub validation_url: String,
}

/// Caller input for the business-to-customer disbursement.
#[derive(Debug, PartialEq)]
pub struct BusinessToCustomerInputDetails {
    pub api_url: String,
    pub originator_conversation_id: String,
    pub initiator_name: String,
    pub security_credential: String,
    pub command_id: String,
    pub amount: u32,
    pub party_a: u32,
    pub party_b: String,
    pub remarks: String,
    pub queue_time_out_url: String,
    pub result_url: String,
    pub occassion: String,
}

/// Wire record of the business-to-customer disbursement.
#[derive(Debug, PartialEq)]
pub struct BusinessToCustomerData {
    pub originator_conversation_id: String,
    pub initiator_name: String,
    pub security_credential: String,
    pub command_id: String,
    pub amount: u32,
    pub party_a: u32,
    pub party_b: String,
    pub remarks: String,
    pub queue_time_out_url: String,
    pub result_url: String,
    pub occassion: String,
}

/// Caller input for the customer-to-business payment.
#[derive(Debug, PartialEq)]
pub struct CustomerToBusinessPaymentInputDetails {
    pub api_url: String,
    pub business_short_code: String,
    pub password: String,
    pub time_stamp: String,
    pub transaction_type: String,
    pub amount: u32,
    pub party_a: u64,
    pub party_b: u32,
    pub phone_number: u64,
    pub call_back_url: String,
    pub account_reference: String,
    pub transaction_desc: String,
}

/// Wire record of the customer-to-business payment.
#[derive(Debug, PartialEq)]
pub struct CustomerToBusinessPaymentData {
    pub business_short_code: String,
    pub password: String,
    pub timestamp: String,
    pub transaction_type: String,
    pub amount: u32,
    pub party_a: u64,
    pub party_b: u32,
    pub phone_number: u64,
    pub call_back_url: String,
    pub account_reference: String,
    pub transaction_desc: String,
}

/// Caller input for the business pay-bill operation.
#[derive(Debug, PartialEq)]
pub struct BusinessPayBillInputDetails {
    pub api_url: String,
    pub initiator: String,
    pub security_credential: String,
    pub command_id: String,
    pub sender_identifier_type: String,
    pub reciever_identifier_type: String,
    pub amount: u32,
    pub party_a: String,
    pub party_b: String,
    pub account_reference: String,
    pub requester: String,
    pub remarks: String,
    pub queue_time_out_url: String,
    pub result_url: String,
}

/// Wire record of the business pay-bill operation.
#[derive(Debug, PartialEq)]
pub struct BusinessPayBillData {
    pub initiator: String,
    pub security_credential: String,
    pub command_id: String,
    pub sender_identifier_type: String,
    pub reciever_identifier_type: String,
    pub amount: u32,
    pub party_a: String,
    pub party_b: String,
    pub account_reference: String,
    pub requester: String,
    pub remarks: String,
    pub queue_time_out_url: String,
    pub result_url: String,
}

/// Caller input for the business buy-goods operation.
#[derive(Debug, PartialEq)]
pub struct BusinessBuyGoodsInputDetails {
    pub api_url: String,
    pub initiator: String,
    pub security_credential: String,
    pub command_id: String,
    pub sender_identifier_type: String,
    pub reciever_identifier_type: String,
    pub amount: u32,
    pub party_a: String,
    pub party_b: String,
    pub account_reference: String,
    pub requester: String,
    pub remarks: String,
    pub queue_time_out_url: String,
    pub result_url: String,
}

/// Wire record of the business buy-goods operation.
#[derive(Debug, PartialEq)]
pub struct BusinessBuyGoodsData {
    pub initiator: String,
    pub security_credential: String,
    pub command_id: String,
    pub sender_identifier_type: String,
    pub reciever_identifier_type: String,
    pub amount: u32,
    pub party_a: String,
    pub party_b: String,
    pub account_reference: String,
    pub requester: String,
    pub remarks: String,
    pub queue_time_out_url: String,
    pub result_url: String,
}

/// Assembles a registration wire record field by field.
pub fn build_register_url_data(
    short_code: String,
    response_type: String,
    confirmation_url: String,
    validation_url: String,
) -> (r: RegisterUrlData)
    ensures
        r.short_code == short_code,
        r.response_type == response_type,
        r.confirmation_url == confirmation_url,
        r.validation_url == validation_url,
{
    RegisterUrlData { short_code, response_type, confirmation_url, validation_url }
}

/// Assembles a business-to-customer wire record field by field.
pub fn build_business_to_customer_data(
    originator_conversation_id: String,
    initiator_name: String,
    security_credential: String,
    command_id: String,
    amount: u32,
    party_a: u32,
    party_b: String,
    remarks: String,
    queue_time_out_url: String,
    result_url: String,
    occassion: String,
) -> (r: BusinessToCustomerData)
    ensures
        r.originator_conversation_id == originator_conversation_id,
        r.initiator_name == initiator_name,
        r.security_credential == security_credential,
        r.command_id == command_id,
        r.amount == amount,
        r.party_a == party_a,
        r.party_b == party_b,
        r.remarks == remarks,
        r.queue_time_out_url == queue_time_out_url,
        r.result_url == result_url,
        r.occassion == occassion,
{
    BusinessToCustomerData {
        originator_conversation_id,
        initiator_name,
        security_credential,
        command_id,
        amount,
        party_a,
        party_b,
        remarks,
        queue_time_out_url,
        result_url,
        occassion,
    }
}

/// Assembles a customer-to-business wire record field by field.
pub fn build_customer_to_business_data(
    business_short_code: String,
    password: String,
    time_stamp: String,
    transaction_type: String,
    amount: u32,
    party_a: u64,
    party_b: u32,
    phone_number: u64,
    call_back_url: String,
    account_reference: String,
    transaction_desc: String,
) -> (r: CustomerToBusinessPaymentData)
    ensures
        r.business_short_code == business_short_code,
        r.password == password,
        r.timestamp == time_stamp,
        r.transaction_type == transaction_type,
        r.amount == amount,
        r.party_a == party_a,
        r.party_b == party_b,
        r.phone_number == phone_number,
        r.call_back_url == call_back_url,
        r.account_reference == account_reference,
        r.transaction_desc == transaction_desc,
{
    CustomerToBusinessPaymentData {
        business_short_code,
        password,
        timestamp: time_stamp,
        transaction_type,
        amount,
        party_a,
        party_b,
        phone_number,
        call_back_url,
        account_reference,
        transaction_desc,
    }
}

/// Assembles a pay-bill wire record field by field.
pub fn build_business_paybill_data(
    initiator: String,
    security_credential: String,
    command_id: String,
    sender_identifier_type: String,
    reciever_identifier_type: String,
    amount: u32,
    party_a: String,
    party_b: String,
    account_reference: String,
    requester: String,
    remarks: String,
    queue_time_out_url: String,
    result_url: String,
) -> (r: BusinessPayBillData)
    ensures
        r.initiator == initiator,
        r.security_credential == security_credential,
        r.command_id == command_id,
        r.sender_identifier_type == sender_identifier_type,
        r.reciever_identifier_type == reciever_identifier_type,
        r.amount == amount,
        r.party_a == party_a,
        r.party_b == party_b,
        r.account_reference == account_reference,
        r.requester == requester,
        r.remarks == remarks,
        r.queue_time_out_url == queue_time_out_url,
        r.result_url == result_url,
{
    BusinessPayBillData {
        initiator,
        security_credential,
        command_id,
        sender_identifier_type,
        reciever_identifier_type,
        amount,
        party_a,
        party_b,
        account_reference,
        requester,
        remarks,
        queue_time_out_url,
        result_url,
    }
}

/// Assembles a buy-goods wire record field by field.
pub fn build_business_buy_goods_data(
    initiator: String,
    security_credential: String,
    command_id: String,
    sender_identifier_type: String,
    reciever_identifier_type: String,
    amount: u32,
    party_a: String,
    party_b: String,
    account_reference: String,
    requester: String,
    remarks: String,
    queue_time_out_url: String,
    result_url: String,
) -> (r: BusinessBuyGoodsData)
    ensures
        r.initiator == initiator,
        r.security_credential == security_credential,
        r.command_id == command_id,
        r.sender_identifier_type == sender_identifier_type,
        r.reciever_identifier_type == reciever_identifier_type,
        r.amount == amount,
        r.party_a == party_a,
        r.party_b == party_b,
        r.account_reference == account_reference,
        r.requester == requester,
        r.remarks == remarks,
        r.queue_time_out_url == queue_time_out_url,
        r.result_url == result_url,
{
    BusinessBuyGoodsData {
        initiator,
        security_credential,
        command_id,
        sender_identifier_type,
        reciever_identifier_type,
        amount,
        party_a,
        party_b,
        account_reference,
        requester,
        remarks,
        queue_time_out_url,
        result_url,
    }
}

/// The wire record a registration request serializes.
pub fn register_url_data_of(details: &RegisterUrlInputDetails) -> (r: RegisterUrlData)
    ensures
        r.short_code == details.short_code,
        r.response_type == details.response_type,
        r.confirmation_url == details.confirmation_url,
        r.validation_url == details.validation_url,
{
    build_register_url_data(
        details.short_code.clone(),
        details.response_type.clone(),
        details.confirmation_url.clone(),
        details.validation_url.clone(),
    )
}

/// The wire record a business-to-customer request serializes.
pub fn business_to_customer_data_of(details: &BusinessToCustomerInputDetails) -> (r:
    BusinessToCustomerData)
    ensures
        r.originator_conversation_id == details.originator_conversation_id,
        r.initiator_name == details.initiator_name,
        r.security_credential == details.security_credential,
        r.command_id == details.command_id,
        r.amount == details.amount,
        r.party_a == details.party_a,
        r.party_b == details.party_b,
        r.remarks == details.remarks,
        r.queue_time_out_url == details.queue_time_out_url,
        r.result_url == details.result_url,
        r.occassion == details.occassion,
{
    build_business_to_customer_data(
        details.originator_conversation_id.clone(),
        details.initiator_name.clone(),
        details.security_credential.clone(),
        details.command_id.clone(),
        details.amount,
        details.party_a,
        details.party_b.clone(),
        details.remarks.clone(),
        details.queue_time_out_url.clone(),
        details.result_url.clone(),
        details.occassion.clone(),
    )
}

/// The wire record a customer-to-business request serializes.
pub fn customer_to_business_data_of(details: &CustomerToBusinessPaymentInputDetails) -> (r:
    CustomerToBusinessPaymentData)
    ensures
        r.business_short_code == details.business_short_code,
        r.password == details.password,
        r.timestamp == details.time_stamp,
        r.transaction_type == details.transaction_type,
        r.amount == details.amount,
        r.party_a == details.party_a,
        r.party_b == details.party_b,
        r.phone_number == details.phone_number,
        r.call_back_url == details.call_back_url,
        r.account_reference == details.account_reference,
        r.transaction_desc == details.transaction_desc,
{
    build_customer_to_business_data(
        details.business_short_code.clone(),
        details.password.clone(),
        details.time_stamp.clone(),
        details.transaction_type.clone(),
        details.amount,
        details.party_a,
        details.party_b,
        details.phone_number,
        details.call_back_url.clone(),
        details.account_reference.clone(),
        details.transaction_desc.clone(),
    )
}

/// The wire record a pay-bill request serializes.
pub fn business_paybill_data_of(details: &BusinessPayBillInputDetails) -> (r: BusinessPayBillData)
    ensures
        r.initiator == details.initiator,
        r.security_credential == details.security_credential,
        r.command_id == details.command_id,
        r.sender_identifier_type == details.sender_identifier_type,
        r.reciever_identifier_type == details.reciever_identifier_type,
        r.amount == details.amount,
        r.party_a == details.party_a,
        r.party_b == details.party_b,
        r.account_reference == details.account_reference,
        r.requester == details.requester,
        r.remarks == details.remarks,
        r.queue_time_out_url == details.queue_time_out_url,
        r.result_url == details.result_url,
{
    build_business_paybill_data(
        details.initiator.clone(),
        details.security_credential.clone(),
        details.command_id.clone(),
        details.sender_identifier_type.clone(),
        details.reciever_identifier_type.clone(),
        details.amount,
        details.party_a.clone(),
        details.party_b.clone(),
        details.account_reference.clone(),
        details.requester.clone(),
        details.remarks.clone(),
        details.queue_time_out_url.clone(),
        details.result_url.clone(),
    )
}

/// The wire record a buy-goods request serializes.
pub fn business_buy_goods_data_of(details: &BusinessBuyGoodsInputDetails) -> (r:
    BusinessBuyGoodsData)
    ensures
        r.initiator == details.initiator,
        r.security_credential == details.security_credential,
        r.command_id == details.command_id,
        r.sender_identifier_type == details.sender_identifier_type,
        r.reciever_identifier_type == details.reciever_identifier_type,
        r.amount == details.amount,
        r.party_a == details.party_a,
        r.party_b == details.party_b,
        r.account_reference == details.account_reference,
        r.requester == details.requester,
        r.remarks == details.remarks,
        r.queue_time_out_url == details.queue_time_out_url,
        r.result_url == details.result_url,
{
    build_business_buy_goods_data(
        details.initiator.clone(),
        details.security_credential.clone(),
        details.command_id.clone(),
        details.sender_identifier_type.clone(),
        details.reciever_identifier_type.clone(),
        details.amount,
        details.party_a.clone(),
        details.party_b.clone(),
        details.account_reference.clone(),
        details.requester.clone(),
        details.remarks.clone(),
        details.queue_time_out_url.clone(),
        details.result_url.clone(),
    )
}

} // verus!
