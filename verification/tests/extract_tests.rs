use mpesa_gateway::credentials::MpesaGateway;
use mpesa_gateway::extract::{
    BusinessBuyGoodsFailedResultParameter, BusinessBuyGoodsReferenceItem,
    BusinessPayBillFailedResultParameter, BusinessPayBillReferenceItem, ItemDetails,
    ReferenceItemDetails, ResultParameter, ResultParameterDetails,
};
use mpesa_gateway::values::{MixedValue, Numeric};

fn gateway() -> MpesaGateway {
    MpesaGateway::new(
        String::from("abc"),
        String::from("xyz"),
        String::from("https://example.invalid/token"),
    )
    .unwrap()
}

fn param(key: &str, value: MixedValue) -> ResultParameterDetails {
    ResultParameterDetails { key: String::from(key), value }
}

fn item(name: &str, value: MixedValue) -> ItemDetails {
    ItemDetails { name: String::from(name), value }
}

fn numeric_as_f32(n: &Numeric) -> f32 {
    match n {
        Numeric::Whole(i) => *i as f32,
        Numeric::Decimal(d) => d.parse().unwrap_or(0.0),
    }
}

#[test]
fn b2c_amount_from_integer_value() {
    let rp = ResultParameter {
        result_parameter: vec![param("TransactionAmount", MixedValue::Whole(500))],
    };
    let out = gateway().get_b2c_result_parameters_output_details(&rp);
    assert_eq!(out.transaction_amount, Numeric::Whole(500));
    assert_eq!(numeric_as_f32(&out.transaction_amount), 500.0);
}

#[test]
fn b2c_amount_from_string_value_coerces_to_zero() {
    let rp = ResultParameter {
        result_parameter: vec![param("TransactionAmount", MixedValue::Text(String::from("oops")))],
    };
    let out = gateway().get_b2c_result_parameters_output_details(&rp);
    assert_eq!(out.transaction_amount, Numeric::Whole(0));
    assert_eq!(numeric_as_f32(&out.transaction_amount), 0.0);
}

#[test]
fn b2c_amount_from_decimal_value() {
    let rp = ResultParameter {
        result_parameter: vec![param(
            "TransactionAmount",
            MixedValue::Decimal(String::from("12.5")),
        )],
    };
    let out = gateway().get_b2c_result_parameters_output_details(&rp);
    assert_eq!(out.transaction_amount, Numeric::Decimal(String::from("12.5")));
    assert_eq!(numeric_as_f32(&out.transaction_amount), 12.5);
}

#[test]
fn b2c_keys_match_case_insensitively() {
    let rp = ResultParameter {
        result_parameter: vec![
            param("TRANSACTIONAMOUNT", MixedValue::Whole(77)),
            param("transactionreceipt", MixedValue::Text(String::from("R77"))),
        ],
    };
    let out = gateway().get_b2c_result_parameters_output_details(&rp);
    assert_eq!(out.transaction_amount, Numeric::Whole(77));
    assert_eq!(out.transaction_receipt, "R77");
}

#[test]
fn b2c_last_entry_wins() {
    let rp = ResultParameter {
        result_parameter: vec![
            param("TransactionAmount", MixedValue::Whole(1)),
            param("TransactionAmount", MixedValue::Whole(2)),
        ],
    };
    let out = gateway().get_b2c_result_parameters_output_details(&rp);
    assert_eq!(out.transaction_amount, Numeric::Whole(2));
}

#[test]
fn b2c_missing_keys_leave_defaults() {
    let rp = ResultParameter { result_parameter: vec![] };
    let out = gateway().get_b2c_result_parameters_output_details(&rp);
    assert_eq!(out.transaction_amount, Numeric::Whole(0));
    assert_eq!(out.transaction_receipt, "");
    assert_eq!(out.b2c_recipient_is_registered_customer, "");
    assert_eq!(out.b2c_charges_paid_account_available_funds, Numeric::Whole(0));
    assert_eq!(out.receiver_party_public_name, "");
    assert_eq!(out.transaction_completed_date_time, "");
    assert_eq!(out.b2c_utility_account_available_funds, Numeric::Whole(0));
    assert_eq!(out.b2c_working_account_available_funds, Numeric::Whole(0));
}

#[test]
fn b2c_string_field_rejects_numeric_value() {
    let rp = ResultParameter {
        result_parameter: vec![param("TransactionReceipt", MixedValue::Whole(9))],
    };
    let out = gateway().get_b2c_result_parameters_output_details(&rp);
    assert_eq!(out.transaction_receipt, "");
}

#[test]
fn b2c_full_notification() {
    let rp = ResultParameter {
        result_parameter: vec![
            param("TransactionAmount", MixedValue::Whole(2500)),
            param("TransactionReceipt", MixedValue::Text(String::from("RCPT001"))),
            param("B2CRecipientIsRegisteredCustomer", MixedValue::Text(String::from("Y"))),
            param("B2CChargesPaidAccountAvailableFunds", MixedValue::Decimal(String::from("0.5"))),
            param("ReceiverPartyPublicName", MixedValue::Text(String::from("254708 - John"))),
            param("TransactionCompletedDateTime", MixedValue::Text(String::from("10.10.2023"))),
            param("B2CUtilityAccountAvailableFunds", MixedValue::Whole(100)),
            param("B2CWorkingAccountAvailableFunds", MixedValue::Decimal(String::from("9.25"))),
        ],
    };
    let out = gateway().get_b2c_result_parameters_output_details(&rp);
    assert_eq!(out.transaction_amount, Numeric::Whole(2500));
    assert_eq!(out.transaction_receipt, "RCPT001");
    assert_eq!(out.b2c_recipient_is_registered_customer, "Y");
    assert_eq!(
        out.b2c_charges_paid_account_available_funds,
        Numeric::Decimal(String::from("0.5"))
    );
    assert_eq!(out.receiver_party_public_name, "254708 - John");
    assert_eq!(out.transaction_completed_date_time, "10.10.2023");
    assert_eq!(out.b2c_utility_account_available_funds, Numeric::Whole(100));
    assert_eq!(
        out.b2c_working_account_available_funds,
        Numeric::Decimal(String::from("9.25"))
    );
}

#[test]
fn c2b_empty_list_yields_no_record() {
    let out = gateway().get_c2b_payment_result_parameters_output_details(&vec![]);
    assert!(out.is_none());
}

#[test]
fn c2b_fields_are_extracted() {
    let items = vec![
        item("Amount", MixedValue::Whole(250)),
        item("MpesaReceiptNumber", MixedValue::Text(String::from("NLJ7RT61SV"))),
        item("TransactionDate", MixedValue::Decimal(String::from("20231010101010"))),
        item("PhoneNumber", MixedValue::Decimal(String::from("254708374149"))),
    ];
    let out = gateway().get_c2b_payment_result_parameters_output_details(&items).unwrap();
    assert_eq!(out.amount, Numeric::Whole(250));
    assert_eq!(out.mpesa_receipt_number, "NLJ7RT61SV");
    assert_eq!(out.transaction_date, "20231010101010");
    assert_eq!(out.phone_number, "254708374149");
}

#[test]
fn c2b_mistyped_fields_leave_defaults() {
    let items = vec![
        item("Amount", MixedValue::Text(String::from("oops"))),
        item("MpesaReceiptNumber", MixedValue::Whole(5)),
        item("TransactionDate", MixedValue::Text(String::from("noon"))),
        item("PhoneNumber", MixedValue::Whole(254708374149)),
    ];
    let out = gateway().get_c2b_payment_result_parameters_output_details(&items).unwrap();
    assert_eq!(out.amount, Numeric::Whole(0));
    assert_eq!(out.mpesa_receipt_number, "");
    assert_eq!(out.transaction_date, "");
    assert_eq!(out.phone_number, "");
}

#[test]
fn paybill_result_fields_are_strings() {
    let rp = ResultParameter {
        result_parameter: vec![
            param("DebitAccountBalance", MixedValue::Text(String::from("balance 100"))),
            param("Amount", MixedValue::Text(String::from("1500.00"))),
            param("TransCompletedTime", MixedValue::Text(String::from("20231010"))),
            param("Currency", MixedValue::Text(String::from("KES"))),
        ],
    };
    let out = gateway().get_business_paybill_result_parameters_output_details(&rp);
    assert_eq!(out.debit_account_balance, "balance 100");
    assert_eq!(out.amount, "1500.00");
    assert_eq!(out.trans_completed_time, "20231010");
    assert_eq!(out.currency, "KES");
    assert_eq!(out.debit_party_charges, "");
    assert_eq!(out.receiver_party_public_name, "");
    assert_eq!(out.debit_party_affected_account_balance, "");
    assert_eq!(out.initiator_account_current_balance, "");
}

#[test]
fn paybill_result_numeric_value_reads_as_empty() {
    let rp = ResultParameter {
        result_parameter: vec![param("Amount", MixedValue::Whole(1500))],
    };
    let out = gateway().get_business_paybill_result_parameters_output_details(&rp);
    assert_eq!(out.amount, "");
}

#[test]
fn buy_goods_result_fields_are_strings() {
    let rp = ResultParameter {
        result_parameter: vec![
            param("ReceiverPartyPublicName", MixedValue::Text(String::from("555 - Shop"))),
            param("InitiatorAccountCurrentBalance", MixedValue::Text(String::from("42"))),
        ],
    };
    let out = gateway().get_business_buy_goods_result_parameters_output_details(&rp);
    assert_eq!(out.receiver_party_public_name, "555 - Shop");
    assert_eq!(out.initiator_account_current_balance, "42");
    assert_eq!(out.amount, "");
}

#[test]
fn paybill_reference_items_are_extracted() {
    let reference = BusinessPayBillReferenceItem {
        reference_item: vec![
            param("BillReferenceNumber", MixedValue::Text(String::from("INV-77"))),
            param("QueueTimeoutURL", MixedValue::Text(String::from("https://cb/timeout"))),
        ],
    };
    let out = gateway().get_business_paybill_Reference_item_output_details(&reference);
    assert_eq!(out.bill_reference_number, "INV-77");
    assert_eq!(out.queue_timeout_url, "https://cb/timeout");
}

#[test]
fn buy_goods_reference_items_are_extracted() {
    let reference = BusinessBuyGoodsReferenceItem {
        reference_item: vec![param("BillReferenceNumber", MixedValue::Text(String::from("PO-3")))],
    };
    let out = gateway().get_business_buy_goods_reference_item_output_details(&reference);
    assert_eq!(out.bill_reference_number, "PO-3");
    assert_eq!(out.queue_timeout_url, "");
}

#[test]
fn paybill_timeout_fields_are_extracted() {
    let failed = BusinessPayBillFailedResultParameter {
        result_parameter: param(
            "BOCompletedTime",
            MixedValue::Decimal(String::from("20231010101010.123")),
        ),
    };
    let reference = ReferenceItemDetails {
        key: String::from("QueueTimeoutURL"),
        value: String::from("https://cb/timeout"),
    };
    let out = gateway().get_business_paybill_timeout_parameters_output_details(&failed, &reference);
    assert_eq!(out.bo_completed_time, "20231010101010.123");
    assert_eq!(out.queue_timeout_url, "https://cb/timeout");
}

#[test]
fn paybill_timeout_integral_time_reads_as_empty() {
    let failed = BusinessPayBillFailedResultParameter {
        result_parameter: param("BOCompletedTime", MixedValue::Whole(20231010101010)),
    };
    let reference = ReferenceItemDetails {
        key: String::from("Other"),
        value: String::from("https://cb/timeout"),
    };
    let out = gateway().get_business_paybill_timeout_parameters_output_details(&failed, &reference);
    assert_eq!(out.bo_completed_time, "");
    assert_eq!(out.queue_timeout_url, "");
}

#[test]
fn buy_goods_timeout_fields_are_extracted() {
    let failed = BusinessBuyGoodsFailedResultParameter {
        result_parameter: param(
            "bocompletedtime",
            MixedValue::Decimal(String::from("20231010.5")),
        ),
    };
    let reference = ReferenceItemDetails {
        key: String::from("queuetimeouturl"),
        value: String::from("https://cb/t"),
    };
    let out =
        gateway().get_business_buy_goods_timeout_parameters_output_details(&failed, &reference);
    assert_eq!(out.bo_completed_time, "20231010.5");
    assert_eq!(out.queue_timeout_url, "https://cb/t");
}
