//! Rows of the decider's tables, as the storage layer reads them.
use vstd::prelude::*;

verus! {

#[derive(Debug, Clone)]
pub struct CardInfo {
    pub card_isin: String,
    pub card_switch_provider: String,
    pub card_type: Option<String>,
    pub card_sub_type: Option<String>,
    pub card_sub_type_category: Option<String>,
    pub card_issuer_country: Option<String>,
    pub country_code: Option<String>,
    pub extended_card_type: Option<String>,
}

#[derive(Debug, Clone)]
pub struct Feature {
    pub id: i64,
    pub enabled: bool,
    pub name: String,
    pub merchant_id: Option<String>,
}

#[derive(Debug, Clone)]
pub struct GatewayBankEmiSupport {
    pub id: i64,
    pub gateway: String,
    pub bank: String,
    pub juspay_bank_code_id: Option<i64>,
    pub scope: Option<String>,
}

#[derive(Debug, Clone)]
pub struct GatewayCardInfo {
    pub id: i64,
    pub isin: Option<String>,
    pub gateway: Option<String>,
    pub card_issuer_bank_name: Option<String>,
    pub auth_type: Option<String>,
    pub juspay_bank_code_id: Option<i64>,
    pub disabled: Option<bool>,
    pub validation_type: Option<String>,
    pub payment_method_type: Option<String>,
}

#[derive(Debug, Clone)]
pub struct JuspayBankCode {
    pub id: i64,
    pub bank_code: String,
    pub bank_name: String,
}

#[derive(Debug, Clone)]
pub struct MerchantGatewayAccount {
    pub id: i64,
    pub account_details: String,
    pub gateway: String,
    pub merchant_id: String,
    pub payment_methods: Option<String>,
    pub supported_payment_flows: Option<String>,
    pub disabled: Option<bool>,
    pub reference_id: Option<String>,
    pub supported_currencies: Option<String>,
    pub gateway_identifier: Option<String>,
    pub gateway_type: Option<String>,
    pub supported_txn_type: Option<String>,
}

#[derive(Debug, Clone)]
pub struct MerchantGatewayAccountSubInfo {
    pub id: i64,
    pub merchant_gateway_account_id: i64,
    pub sub_info_type: String,
    pub sub_id_type: String,
    pub juspay_sub_account_id: String,
    pub gateway_sub_account_id: String,
    pub disabled: bool,
}

#[derive(Debug, Clone)]
pub struct MerchantIframePreferences {
    pub id: i64,
    pub merchant_id: String,
    pub dynamic_switching_enabled: Option<bool>,
    pub isin_routing_enabled: Option<bool>,
    pub issuer_routing_enabled: Option<bool>,
    pub txn_failure_gateway_penalty: Option<bool>,
    pub card_brand_routing_enabled: Option<bool>,
}

#[derive(Debug, Clone)]
pub struct ServiceConfiguration {
    pub id: i64,
    pub name: String,
    pub value: Option<String>,
    pub new_value: Option<String>,
    pub previous_value: Option<String>,
    pub new_value_status: Option<String>,
}

#[derive(Debug, Clone)]
pub struct TenantConfig {
    pub id: String,
    pub _type: String,
    pub module_key: String,
    pub module_name: String,
    pub tenant_account_id: String,
    pub config_value: String,
    pub filter_dimension: Option<String>,
    pub filter_group_id: Option<String>,
    pub status: String,
    pub country_code_alpha3: Option<String>,
}

#[derive(Debug, Clone)]
pub struct TxnOffer {
    pub id: i64,
    pub version: i64,
    pub discount_amount: i64,
    pub offer_id: String,
    pub signature: String,
    pub txn_detail_id: i64,
}

#[derive(Debug, Clone)]
pub struct UserEligibilityInfo {
    pub id: String,
    pub flow_type: String,
    pub identifier_name: String,
    pub identifier_value: String,
    pub provider_name: String,
    pub disabled: Option<bool>,
}

} // verus!
