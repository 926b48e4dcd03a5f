//! Extraction of named fields from notification payloads.
//!
//! A payload carries an insertion-ordered list of `{key, value}` entries.
//! Keys are matched case-insensitively against the fixed names a given
//! notification is expected to carry; when a name occurs more than once the
//! last entry wins, and a missing or mistyped entry leaves the output field
//! at its default.

use vstd::prelude::*;

use crate::credentials::MpesaGateway;
use crate::text::eq_ignore_ascii_case;
use crate::text::str_eq_ignore_ascii_case;
use crate::values::{
    MixedValue, Numeric, decimal_text_field, decimal_text_of, decimal_text_value, numeric_field,
    numeric_value, text_field, text_value,
};

verus! {

/// One entry of a result-parameter list.
#[derive(Debug, PartialEq)]
pub struct ResultParameterDetails {
    pub key: String,
    pub value: MixedValue,
}

/// The result-parameter list of a notification payload.
#[derive(Debug, PartialEq)]
pub struct ResultParameter {
    pub result_parameter: Vec<ResultParameterDetails>,
}

/// One entry of an item list, as list-shaped payloads carry them.
#[derive(Debug, PartialEq)]
pub struct ItemDetails {
    pub name: String,
    pub value: MixedValue,
}

/// One entry of a reference-item list whose value is always a string.
#[derive(Debug, PartialEq)]
pub struct ReferenceItemDetails {
    pub key: String,
    pub value: String,
}

/// The reference-item list of a pay-bill result notification.
#[derive(Debug, PartialEq)]
pub struct BusinessPayBillReferenceItem {
    pub reference_item: Vec<ResultParameterDetails>,
}

/// The reference-item list of a buy-goods result notification.
#[derive(Debug, PartialEq)]
pub struct BusinessBuyGoodsReferenceItem {
    pub reference_item: Vec<ResultParameterDetails>,
}

/// The single result parameter of a pay-bill timeout notification.
#[derive(Debug, PartialEq)]
pub struct BusinessPayBillFailedResultParameter {
    pub result_parameter: ResultParameterDetails,
}

/// The single result parameter of a buy-goods timeout notification.
#[derive(Debug, PartialEq)]
pub struct BusinessBuyGoodsFailedResultParameter {
    pub result_parameter: ResultParameterDetails,
}

/// The value of the last entry whose key matches `pattern` up to ASCII case,
/// if any: later entries overwrite earlier ones.
pub open spec fn last_param_value(
    entries: Seq<ResultParameterDetails>,
    pattern: Seq<char>,
) -> Option<MixedValue>
    decreases entries.len(),
{
    if entries.len() == 0 {
        None
    } else if eq_ignore_ascii_case(entries.last().key@, pattern) {
        Some(entries.last().value)
    } else {
        last_param_value(entries.drop_last(), pattern)
    }
}

/// As `last_param_value`, for item lists keyed by `name`.
pub open spec fn last_item_value(entries: Seq<ItemDetails>, pattern: Seq<char>) -> Option<
    MixedValue,
>
    decreases entries.len(),
{
    if entries.len() == 0 {
        None
    } else if eq_ignore_ascii_case(entries.last().name@, pattern) {
        Some(entries.last().value)
    } else {
        last_item_value(entries.drop_last(), pattern)
    }
}

proof fn lemma_last_param_step(s: Seq<ResultParameterDetails>, e: ResultParameterDetails)
    ensures
        forall|p: Seq<char>| #[trigger]
            last_param_value(s.push(e), p) == if eq_ignore_ascii_case(e.key@, p) {
                Some(e.value)
            } else {
                last_param_value(s, p)
            },
{
    assert forall|p: Seq<char>| #[trigger]
        last_param_value(s.push(e), p) == if eq_ignore_ascii_case(e.key@, p) {
            Some(e.value)
        } else {
            last_param_value(s, p)
        } by {
        assert(s.push(e).last() == e);
        assert(s.push(e).drop_last() =~= s);
    }
}

proof fn lemma_last_item_step(s: Seq<ItemDetails>, e: ItemDetails)
    ensures
        forall|p: Seq<char>| #[trigger]
            last_item_value(s.push(e), p) == if eq_ignore_ascii_case(e.name@, p) {
                Some(e.value)
            } else {
                last_item_value(s, p)
            },
{
    assert forall|p: Seq<char>| #[trigger]
        last_item_value(s.push(e), p) == if eq_ignore_ascii_case(e.name@, p) {
            Some(e.value)
        } else {
            last_item_value(s, p)
        } by {
        assert(s.push(e).last() == e);
        assert(s.push(e).drop_last() =~= s);
    }
}

/// Fields expected in a business-to-customer result notification.
#[derive(Debug, PartialEq)]
pub struct B2CResultParametersOutputDetails {
    pub transaction_amount: Numeric,
    pub transaction_receipt: String,
    pub b2c_recipient_is_registered_customer: String,
    pub b2c_charges_paid_account_available_funds: Numeric,
    pub receiver_party_public_name: String,
    pub transaction_completed_date_time: String,
    pub b2c_utility_account_available_funds: Numeric,
    pub b2c_working_account_available_funds: Numeric,
}

impl MpesaGateway {
    /// Pulls the business-to-customer result fields out of a payload.
    pub fn get_b2c_result_parameters_output_details(
        &self,
        result_parameters: &ResultParameter,
    ) -> (r: B2CResultParametersOutputDetails)
        ensures
            r.transaction_amount == numeric_field(
                last_param_value(result_parameters.result_parameter@, "TransactionAmount"@),
            ),
            r.transaction_receipt@ == text_field(
                last_param_value(result_parameters.result_parameter@, "TransactionReceipt"@),
            ),
            r.b2c_recipient_is_registered_customer@ == text_field(
                last_param_value(
                    result_parameters.result_parameter@,
                    "B2CRecipientIsRegisteredCustomer"@,
                ),
            ),
            r.b2c_charges_paid_account_available_funds == numeric_field(
                last_param_value(
                    result_parameters.result_parameter@,
                    "B2CChargesPaidAccountAvailableFunds"@,
                ),
            ),
            r.receiver_party_public_name@ == text_field(
                last_param_value(result_parameters.result_parameter@, "ReceiverPartyPublicName"@),
            ),
            r.transaction_completed_date_time@ == text_field(
                last_param_value(
                    result_parameters.result_parameter@,
                    "TransactionCompletedDateTime"@,
                ),
            ),
            r.b2c_utility_account_available_funds == numeric_field(
                last_param_value(
                    result_parameters.result_parameter@,
                    "B2CUtilityAccountAvailableFunds"@,
                ),
            ),
            r.b2c_working_account_available_funds == numeric_field(
                last_param_value(
                    result_parameters.result_parameter@,
                    "B2CWorkingAccountAvailableFunds"@,
                ),
            ),
    {
        let entries = &result_parameters.result_parameter;
        let mut transaction_amount = Numeric::Whole(0);
        let mut transaction_receipt = String::new();
        let mut b2c_recipient_is_registered_customer = String::new();
        let mut b2c_charges_paid_account_available_funds = Numeric::Whole(0);
        let mut receiver_party_public_name = String::new();
        let mut transaction_completed_date_time = String::new();
        let mut b2c_utility_account_available_funds = Numeric::Whole(0);
        let mut b2c_working_account_available_funds = Numeric::Whole(0);
        let n = entries.len();
        proof {
            assert(entries@.take(0) =~= Seq::<ResultParameterDetails>::empty());
        }
        let mut idx: usize = 0;
        while idx < n
            invariant
                n == entries@.len(),
                entries@ == result_parameters.result_parameter@,
                idx <= n,
                transaction_amount == numeric_field(
                    last_param_value(entries@.take(idx as int), "TransactionAmount"@),
                ),
                transaction_receipt@ == text_field(
                    last_param_value(entries@.take(idx as int), "TransactionReceipt"@),
                ),
                b2c_recipient_is_registered_customer@ == text_field(
                    last_param_value(entries@.take(idx as int), "B2CRecipientIsRegisteredCustomer"@),
                ),
                b2c_charges_paid_account_available_funds == numeric_field(
                    last_param_value(entries@.take(idx as int), "B2CChargesPaidAccountAvailableFunds"@),
                ),
                receiver_party_public_name@ == text_field(
                    last_param_value(entries@.take(idx as int), "ReceiverPartyPublicName"@),
                ),
                transaction_completed_date_time@ == text_field(
                    last_param_value(entries@.take(idx as int), "TransactionCompletedDateTime"@),
                ),
                b2c_utility_account_available_funds == numeric_field(
                    last_param_value(entries@.take(idx as int), "B2CUtilityAccountAvailableFunds"@),
                ),
                b2c_working_account_available_funds == numeric_field(
                    last_param_value(entries@.take(idx as int), "B2CWorkingAccountAvailableFunds"@),
                ),
            decreases n - idx,
        {
            let entry = &entries[idx];
            if str_eq_ignore_ascii_case(entry.key.as_str(), "TransactionAmount") {
                transaction_amount = numeric_value(&entry.value);
            }
            if str_eq_ignore_ascii_case(entry.key.as_str(), "TransactionReceipt") {
                transaction_receipt = text_value(&entry.value);
            }
            if str_eq_ignore_ascii_case(entry.key.as_str(), "B2CRecipientIsRegisteredCustomer") {
                b2c_recipient_is_registered_customer = text_value(&entry.value);
            }
            if str_eq_ignore_ascii_case(entry.key.as_str(), "B2CChargesPaidAccountAvailableFunds") {
                b2c_charges_paid_account_available_funds = numeric_value(&entry.value);
            }
            if str_eq_ignore_ascii_case(entry.key.as_str(), "ReceiverPartyPublicName") {
                receiver_party_public_name = text_value(&entry.value);
            }
            if str_eq_ignore_ascii_case(entry.key.as_str(), "TransactionCompletedDateTime") {
                transaction_completed_date_time = text_value(&entry.value);
            }
            if str_eq_ignore_ascii_case(entry.key.as_str(), "B2CUtilityAccountAvailableFunds") {
                b2c_utility_account_available_funds = numeric_value(&entry.value);
            }
            if str_eq_ignore_ascii_case(entry.key.as_str(), "B2CWorkingAccountAvailableFunds") {
                b2c_working_account_available_funds = numeric_value(&entry.value);
            }
            proof {
                assert(entries@.take(idx + 1) =~= entries@.take(idx as int).push(
                    entries@[idx as int],
                ));
                lemma_last_param_step(entries@.take(idx as int), entries@[idx as int]);
            }
            idx += 1;
        }
        proof {
            assert(entries@.take(n as int) =~= entries@);
        }
        B2CResultParametersOutputDetails {
            transaction_amount,
            transaction_receipt,
            b2c_recipient_is_registered_customer,
            b2c_charges_paid_account_available_funds,
            receiver_party_public_name,
            transaction_completed_date_time,
            b2c_utility_account_available_funds,
            b2c_working_account_available_funds,
        }
    }

    /// Pulls the customer-to-business result fields out of a list-shaped
    /// payload; an empty list yields no record at all.
    pub fn get_c2b_payment_result_parameters_output_details(
        &self,
        list_of_items: &Vec<ItemDetails>,
    ) -> (r: Option<C2BPaymentResultParametersOutputDetails>)
        ensures
            r is None <==> list_of_items@.len() == 0,
            r matches Some(out) ==> {
                &&& out.amount == numeric_field(last_item_value(list_of_items@, "Amount"@))
                &&& out.mpesa_receipt_number@ == text_field(
                    last_item_value(list_of_items@, "MpesaReceiptNumber"@),
                )
                &&& out.transaction_date@ == decimal_text_field(
                    last_item_value(list_of_items@, "TransactionDate"@),
                )
                &&& out.phone_number@ == decimal_text_field(
                    last_item_value(list_of_items@, "PhoneNumber"@),
                )
            },
    {
        if list_of_items.len() == 0 {
            return None;
        }
        let mut amount = Numeric::Whole(0);
        let mut mpesa_receipt_number = String::new();
        let mut transaction_date = String::new();
        let mut phone_number = String::new();
        let n = list_of_items.len();
        proof {
            assert(list_of_items@.take(0) =~= Seq::<ItemDetails>::empty());
        }
        let mut idx: usize = 0;
        while idx < n
            invariant
                n == list_of_items@.len(),
                idx <= n,
                amount == numeric_field(last_item_value(list_of_items@.take(idx as int), "Amount"@)),
                mpesa_receipt_number@ == text_field(
                    last_item_value(list_of_items@.take(idx as int), "MpesaReceiptNumber"@),
                ),
                transaction_date@ == decimal_text_field(
                    last_item_value(list_of_items@.take(idx as int), "TransactionDate"@),
                ),
                phone_number@ == decimal_text_field(
                    last_item_value(list_of_items@.take(idx as int), "PhoneNumber"@),
                ),
            decreases n - idx,
        {
            let item = &list_of_items[idx];
            if str_eq_ignore_ascii_case(item.name.as_str(), "Amount") {
                amount = numeric_value(&item.value);
            }
            if str_eq_ignore_ascii_case(item.name.as_str(), "MpesaReceiptNumber") {
                mpesa_receipt_number = text_value(&item.value);
            }
            if str_eq_ignore_ascii_case(item.name.as_str(), "TransactionDate") {
                transaction_date = decimal_text_value(&item.value);
            }
            if str_eq_ignore_ascii_case(item.name.as_str(), "PhoneNumber") {
                phone_number = decimal_text_value(&item.value);
            }
            proof {
                assert(list_of_items@.take(idx + 1) =~= list_of_items@.take(idx as int).push(
                    list_of_items@[idx as int],
                ));
                lemma_last_item_step(list_of_items@.take(idx as int), list_of_items@[idx as int]);
            }
            idx += 1;
        }
        proof {
            assert(list_of_items@.take(n as int) =~= list_of_items@);
        }
        Some(
            C2BPaymentResultParametersOutputDetails {
                amount,
                mpesa_receipt_number,
                transaction_date,
                phone_number,
            },
        )
    }

    /// Pulls the pay-bill result fields out of a payload.
    pub fn get_business_paybill_result_parameters_output_details(
        &self,
        result_parameters: &ResultParameter,
    ) -> (r: BusinessPayBillResultParametersOutputDetails)
        ensures
            business_result_fields_match(
                result_parameters.result_parameter@,
                r.debit_account_balance@,
                r.amount@,
                r.debit_party_affected_account_balance@,
                r.trans_completed_time@,
                r.debit_party_charges@,
                r.receiver_party_public_name@,
                r.currency@,
                r.initiator_account_current_balance@,
            ),
    {
        let f = collect_business_result_fields(&result_parameters.result_parameter);
        BusinessPayBillResultParametersOutputDetails {
            debit_account_balance: f.debit_account_balance,
            amount: f.amount,
            debit_party_affected_account_balance: f.debit_party_affected_account_balance,
            trans_completed_time: f.trans_completed_time,
            debit_party_charges: f.debit_party_charges,
            receiver_party_public_name: f.receiver_party_public_name,
            currency: f.currency,
            initiator_account_current_balance: f.initiator_account_current_balance,
        }
    }

    /// Pulls the buy-goods result fields out of a payload; the schema is the
    /// same as the pay-bill one.
    pub fn get_business_buy_goods_result_parameters_output_details(
        &self,
        result_parameters: &ResultParameter,
    ) -> (r: BusinessBuyGoodsResultParametersOutputDetails)
        ensures
            business_result_fields_match(
                result_parameters.result_parameter@,
                r.debit_account_balance@,
                r.amount@,
                r.debit_party_affected_account_balance@,
                r.trans_completed_time@,
                r.debit_party_charges@,
                r.receiver_party_public_name@,
                r.currency@,
                r.initiator_account_current_balance@,
            ),
    {
        let f = collect_business_result_fields(&result_parameters.result_parameter);
        BusinessBuyGoodsResultParametersOutputDetails {
            debit_account_balance: f.debit_account_balance,
            amount: f.amount,
            debit_party_affected_account_balance: f.debit_party_affected_account_balance,
            trans_completed_time: f.trans_completed_time,
            debit_party_charges: f.debit_party_charges,
            receiver_party_public_name: f.receiver_party_public_name,
            currency: f.currency,
            initiator_account_current_balance: f.initiator_account_current_balance,
        }
    }

    /// Pulls the two reference fields out of a pay-bill result notification.
    pub fn get_business_paybill_Reference_item_output_details(
        &self,
        reference_data: &BusinessPayBillReferenceItem,
    ) -> (r: BusinessPayBillReferenceItemOutputDetails)
        ensures
            r.bill_reference_number@ == text_field(
                last_param_value(reference_data.reference_item@, "BillReferenceNumber"@),
            ),
            r.queue_timeout_url@ == text_field(
                last_param_value(reference_data.reference_item@, "QueueTimeoutURL"@),
            ),
    {
        let f = collect_reference_item_fields(&reference_data.reference_item);
        BusinessPayBillReferenceItemOutputDetails {
            bill_reference_number: f.0,
            queue_timeout_url: f.1,
        }
    }

    /// Pulls the two reference fields out of a buy-goods result notification.
    pub fn get_business_buy_goods_reference_item_output_details(
        &self,
        reference_data: &BusinessBuyGoodsReferenceItem,
    ) -> (r: BusinessBuyGoodsReferenceItemOutputDetails)
        ensures
            r.bill_reference_number@ == text_field(
                last_param_value(reference_data.reference_item@, "BillReferenceNumber"@),
            ),
            r.queue_timeout_url@ == text_field(
                last_param_value(reference_data.reference_item@, "QueueTimeoutURL"@),
            ),
    {
        let f = collect_reference_item_fields(&reference_data.reference_item);
        BusinessBuyGoodsReferenceItemOutputDetails {
            bill_reference_number: f.0,
            queue_timeout_url: f.1,
        }
    }

    /// Pulls the two timeout fields out of a pay-bill timeout notification.
    pub fn get_business_paybill_timeout_parameters_output_details(
        &self,
        result_parameter: &BusinessPayBillFailedResultParameter,
        reference_data: &ReferenceItemDetails,
    ) -> (r: BusinessPayBillTimeoutParametersOutputDetails)
        ensures
            r.bo_completed_time@ == timeout_completed_time(result_parameter.result_parameter),
            r.queue_timeout_url@ == timeout_queue_url(*reference_data),
    {
        let f = collect_timeout_fields(&result_parameter.result_parameter, reference_data);
        BusinessPayBillTimeoutParametersOutputDetails {
            bo_completed_time: f.0,
            queue_timeout_url: f.1,
        }
    }

    /// Pulls the two timeout fields out of a buy-goods timeout notification.
    pub fn get_business_buy_goods_timeout_parameters_output_details(
        &self,
        result_parameter: &BusinessBuyGoodsFailedResultParameter,
        reference_data: &ReferenceItemDetails,
    ) -> (r: BusinessBuyGoodsTimeoutParametersOutputDetails)
        ensures
            r.bo_completed_time@ == timeout_completed_time(result_parameter.result_parameter),
            r.queue_timeout_url@ == timeout_queue_url(*reference_data),
    {
        let f = collect_timeout_fields(&result_parameter.result_parameter, reference_data);
        BusinessBuyGoodsTimeoutParametersOutputDetails {
            bo_completed_time: f.0,
            queue_timeout_url: f.1,
        }
    }
}

/// Fields expected in a customer-to-business result notification.
#[derive(Debug, PartialEq)]
pub struct C2BPaymentResultParametersOutputDetails {
    pub amount: Numeric,
    pub mpesa_receipt_number: String,
    pub transaction_date: String,
    pub phone_number: String,
}

/// Fields expected in a pay-bill result notification.
#[derive(Debug, PartialEq)]
pub struct BusinessPayBillResultParametersOutputDetails {
    pub debit_account_balance: String,
    pub amount: String,
    pub debit_party_affected_account_balance: String,
    pub trans_completed_time: String,
    pub debit_party_charges: String,
    pub receiver_party_public_name: String,
    pub currency: String,
    pub initiator_account_current_balance: String,
}

/// Fields expected in a buy-goods result notification.
#[derive(Debug, PartialEq)]
pub struct BusinessBuyGoodsResultParametersOutputDetails {
    pub debit_account_balance: String,
    pub amount: String,
    pub debit_party_affected_account_balance: String,
    pub trans_completed_time: String,
    pub debit_party_charges: String,
    pub receiver_party_public_name: String,
    pub currency: String,
    pub initiator_account_current_balance: String,
}

/// Reference fields of a pay-bill result notification.
#[derive(Debug, PartialEq)]
pub struct BusinessPayBillReferenceItemOutputDetails {
    pub bill_reference_number: String,
    pub queue_timeout_url: String,
}

/// Reference fields of a buy-goods result notification.
#[derive(Debug, PartialEq)]
pub struct BusinessBuyGoodsReferenceItemOutputDetails {
    pub bill_reference_number: String,
    pub queue_timeout_url: String,
}

/// Timeout fields of a pay-bill timeout notification.
#[derive(Debug, PartialEq)]
pub struct BusinessPayBillTimeoutParametersOutputDetails {
    pub bo_completed_time: String,
    pub queue_timeout_url: String,
}

/// Timeout fields of a buy-goods timeout notification.
#[derive(Debug, PartialEq)]
pub struct BusinessBuyGoodsTimeoutParametersOutputDetails {
    pub bo_completed_time: String,
    pub queue_timeout_url: String,
}

/// The eight fields that pay-bill and buy-goods results share, each read as
/// a string from the last entry whose key matches the expected name.
pub open spec fn business_result_fields_match(
    entries: Seq<ResultParameterDetails>,
    debit_account_balance: Seq<char>,
    amount: Seq<char>,
    debit_party_affected_account_balance: Seq<char>,
    trans_completed_time: Seq<char>,
    debit_party_charges: Seq<char>,
    receiver_party_public_name: Seq<char>,
    currency: Seq<char>,
    initiator_account_current_balance: Seq<char>,
) -> bool {
    &&& debit_account_balance == text_field(last_param_value(entries, "DebitAccountBalance"@))
    &&& amount == text_field(last_param_value(entries, "Amount"@))
    &&& debit_party_affected_account_balance == text_field(
        last_param_value(entries, "DebitPartyAffectedAccountBalance"@),
    )
    &&& trans_completed_time == text_field(last_param_value(entries, "TransCompletedTime"@))
    &&& debit_party_charges == text_field(last_param_value(entries, "DebitPartyCharges"@))
    &&& receiver_party_public_name == text_field(
        last_param_value(entries, "ReceiverPartyPublicName"@),
    )
    &&& currency == text_field(last_param_value(entries, "Currency"@))
    &&& initiator_account_current_balance == text_field(
        last_param_value(entries, "InitiatorAccountCurrentBalance"@),
    )
}

/// The working record a shared result-field sweep fills.
struct BusinessResultFields {
    debit_account_balance: String,
    amount: String,
    debit_party_affected_account_balance: String,
    trans_completed_time: String,
    debit_party_charges: String,
    receiver_party_public_name: String,
    currency: String,
    initiator_account_current_balance: String,
}

fn collect_business_result_fields(entries: &Vec<ResultParameterDetails>) -> (r:
    BusinessResultFields)
    ensures
        business_result_fields_match(
            entries@,
            r.debit_account_balance@,
            r.amount@,
            r.debit_party_affected_account_balance@,
            r.trans_completed_time@,
            r.debit_party_charges@,
            r.receiver_party_public_name@,
            r.currency@,
            r.initiator_account_current_balance@,
        ),
{
    let mut debit_account_balance = String::new();
    let mut amount = String::new();
    let mut debit_party_affected_account_balance = String::new();
    let mut trans_completed_time = String::new();
    let mut debit_party_charges = String::new();
    let mut receiver_party_public_name = String::new();
    let mut currency = String::new();
    let mut initiator_account_current_balance = String::new();
    let n = entries.len();
    proof {
        assert(entries@.take(0) =~= Seq::<ResultParameterDetails>::empty());
    }
    let mut idx: usize = 0;
    while idx < n
        invariant
            n == entries@.len(),
            idx <= n,
            business_result_fields_match(
                entries@.take(idx as int),
                debit_account_balance@,
                amount@,
                debit_party_affected_account_balance@,
                trans_completed_time@,
                debit_party_charges@,
                receiver_party_public_name@,
                currency@,
                initiator_account_current_balance@,
            ),
        decreases n - idx,
    {
        let entry = &entries[idx];
        if str_eq_ignore_ascii_case(entry.key.as_str(), "DebitAccountBalance") {
            debit_account_balance = text_value(&entry.value);
        }
        if str_eq_ignore_ascii_case(entry.key.as_str(), "Amount") {
            amount = text_value(&entry.value);
        }
        if str_eq_ignore_ascii_case(entry.key.as_str(), "DebitPartyAffectedAccountBalance") {
            debit_party_affected_account_balance = text_value(&entry.value);
        }
        if str_eq_ignore_ascii_case(entry.key.as_str(), "TransCompletedTime") {
            trans_completed_time = text_value(&entry.value);
        }
        if str_eq_ignore_ascii_case(entry.key.as_str(), "DebitPartyCharges") {
            debit_party_charges = text_value(&entry.value);
        }
        if str_eq_ignore_ascii_case(entry.key.as_str(), "ReceiverPartyPublicName") {
            receiver_party_public_name = text_value(&entry.value);
        }
        if str_eq_ignore_ascii_case(entry.key.as_str(), "Currency") {
            currency = text_value(&entry.value);
        }
        if str_eq_ignore_ascii_case(entry.key.as_str(), "InitiatorAccountCurrentBalance") {
            initiator_account_current_balance = text_value(&entry.value);
        }
        proof {
            assert(entries@.take(idx + 1) =~= entries@.take(idx as int).push(
                entries@[idx as int],
            ));
            lemma_last_param_step(entries@.take(idx as int), entries@[idx as int]);
        }
        idx += 1;
    }
    proof {
        assert(entries@.take(n as int) =~= entries@);
    }
    BusinessResultFields {
        debit_account_balance,
        amount,
        debit_party_affected_account_balance,
        trans_completed_time,
        debit_party_charges,
        receiver_party_public_name,
        currency,
        initiator_account_current_balance,
    }
}

fn collect_reference_item_fields(entries: &Vec<ResultParameterDetails>) -> (r: (String, String))
    ensures
        r.0@ == text_field(last_param_value(entries@, "BillReferenceNumber"@)),
        r.1@ == text_field(last_param_value(entries@, "QueueTimeoutURL"@)),
{
    let mut bill_reference_number = String::new();
    let mut queue_timeout_url = String::new();
    let n = entries.len();
    proof {
        assert(entries@.take(0) =~= Seq::<ResultParameterDetails>::empty());
    }
    let mut idx: usize = 0;
    while idx < n
        invariant
            n == entries@.len(),
            idx <= n,
            bill_reference_number@ == text_field(
                last_param_value(entries@.take(idx as int), "BillReferenceNumber"@),
            ),
            queue_timeout_url@ == text_field(
                last_param_value(entries@.take(idx as int), "QueueTimeoutURL"@),
            ),
        decreases n - idx,
    {
        let entry = &entries[idx];
        if str_eq_ignore_ascii_case(entry.key.as_str(), "BillReferenceNumber") {
            bill_reference_number = text_value(&entry.value);
        }
        if str_eq_ignore_ascii_case(entry.key.as_str(), "QueueTimeoutURL") {
            queue_timeout_url = text_value(&entry.value);
        }
        proof {
            assert(entries@.take(idx + 1) =~= entries@.take(idx as int).push(
                entries@[idx as int],
            ));
            lemma_last_param_step(entries@.take(idx as int), entries@[idx as int]);
        }
        idx += 1;
    }
    proof {
        assert(entries@.take(n as int) =~= entries@);
    }
    (bill_reference_number, queue_timeout_url)
}

/// The completed-time field of a timeout notification: the rendering of a
/// non-integral number under the expected key, and empty otherwise.
pub open spec fn timeout_completed_time(entry: ResultParameterDetails) -> Seq<char> {
    if eq_ignore_ascii_case(entry.key@, "BOCompletedTime"@) {
        decimal_text_of(entry.value)
    } else {
        Seq::<char>::empty()
    }
}

/// The queue-timeout URL of a timeout notification: the reference value
/// under the expected key, and empty otherwise.
pub open spec fn timeout_queue_url(entry: ReferenceItemDetails) -> Seq<char> {
    if eq_ignore_ascii_case(entry.key@, "QueueTimeoutURL"@) {
        entry.value@
    } else {
        Seq::<char>::empty()
    }
}

fn collect_timeout_fields(result_parameter: &ResultParameterDetails, reference_data:
    &ReferenceItemDetails) -> (r: (String, String))
    ensures
        r.0@ == timeout_completed_time(*result_parameter),
        r.1@ == timeout_queue_url(*reference_data),
{
    let bo_completed_time = if str_eq_ignore_ascii_case(
        result_parameter.key.as_str(),
        "BOCompletedTime",
    ) {
        decimal_text_value(&result_parameter.value)
    } else {
        String::new()
    };
    let queue_timeout_url = if str_eq_ignore_ascii_case(
        reference_data.key.as_str(),
        "QueueTimeoutURL",
    ) {
        reference_data.value.clone()
    } else {
        String::new()
    };
    (bo_completed_time, queue_timeout_url)
}

} // verus!
