//! Shared vocabulary of the gateway decider.
use vstd::prelude::*;
use std::collections::HashMap;

verus! {

pub type Gateway = String;
pub type GatewayList = Vec<Gateway>;
pub type RedisKey = String;

/// The filters that narrow the functional gateways, in the order the decider runs them.
#[derive(Debug, Clone, Copy, PartialEq, Eq, Structural)]
pub enum DeciderFilterName {
    GetFunctionalGateways,
    FilterFunctionalGatewaysForCurrency,
    FilterBySurcharge,
    FilterFunctionalGatewaysForBrand,
    FilterFunctionalGatewaysForAuthType,
    FilterFunctionalGatewaysForValidationType,
    FilterFunctionalGatewaysForEmi,
    FilterFunctionalGatewaysForTxnOfferDetails,
    FilterFunctionalGatewaysForPaymentMethod,
    FilterFunctionalGatewaysForTokenProvider,
    FilterFunctionalGatewaysForTxnOfferInfo,
    FilterFunctionalGatewaysForWallet,
    FilterFunctionalGatewaysForNbOnly,
    FilterFunctionalGatewaysForConsumerFinance,
    FilterFunctionalGatewaysForUpi,
    FilterFunctionalGatewaysForTxnType,
    FilterFunctionalGatewaysForTxnDetailType,
    FilterFunctionalGatewaysForReward,
    FilterFunctionalGatewaysForCash,
    FilterFunctionalGatewaysForSplitSettlement,
    FilterFunctionalGateways,
    FinalFunctionalGateways,
    FilterByPriorityLogic,
    PreferredGateway,
    FilterEnforcement,
    GatewayPriorityList,
    FilterFunctionalGatewaysForMerchantRequiredFlow,
    FilterGatewaysForMGASelectionIntegrity,
    FilterGatewaysForEMITenureSpecficGatewayCreds,
    FilterFunctionalGatewaysForReversePennyDrop,
    FilterFunctionalGatewaysForOTM,
}

/// The scoring stages of the decider.
#[derive(Debug, Clone, Copy, PartialEq, Eq, Structural)]
pub enum DeciderScoringName {
    UpdateScoreForIssuer,
    UpdateScoreForIsin,
    UpdateScoreForCardBrand,
    UpdateScoreWithHealth,
    UpdateScoreIfLastTxnFailure,
    UpdateScoreForOutage,
    ScoringByGatewayScoreBasedOnGlobalSuccessRate,
    UpdateGatewayScoreBasedOnSuccessRate,
    FinalScoring,
    GetScoreWithPriority,
    GetCachedScoresBasedOnSuccessRate,
    GetCachedScoresBasedOnSrV3,
}

/// Which routing flow a score update was made for, and in which direction.
#[derive(Debug, Clone, Copy, PartialEq, Eq, Structural)]
pub enum DetailedGatewayScoringType {
    ELIMINATION_PENALISE,
    ELIMINATION_REWARD,
    SRV2_PENALISE,
    SRV2_REWARD,
    SRV3_PENALISE,
    SRV3_REWARD,
}

#[derive(Debug, Clone, Copy, PartialEq, Eq, Structural)]
pub enum RoutingFlowType {
    ELIMINATION_FLOW,
    SRV2_FLOW,
    SRV3_FLOW,
}

#[derive(Debug, Clone, Copy, PartialEq, Eq, Structural)]
pub enum ScoreUpdateStatus {
    PENALISED,
    REWARDED,
    NOT_INITIATED,
}

#[derive(Debug, Clone)]
pub struct GatewayScoringTypeLogData {
    pub dateCreated: String,
    pub score_type: DetailedGatewayScoringType,
}

#[derive(Debug, Clone)]
pub struct DeciderApproachLogData {
    pub decided_gateway: Option<Gateway>,
    pub routing_approach: GatewayDeciderApproach,
    pub gateway_before_downtime_evaluation: Option<Gateway>,
    pub elimination_level_info: String,
    pub isPrimary_approach: Option<bool>,
    pub functional_gateways_before_scoring_flow: Vec<Gateway>,
    pub experimentTag: Option<String>,
    pub dateCreated: String,
}

/// What the decider stored about a transaction for the score producers.
#[derive(Debug, Clone)]
pub struct GatewayScoringData {
    pub merchantId: String,
    pub paymentMethodType: String,
    pub paymentMethod: String,
    pub orderType: String,
    pub cardType: Option<String>,
    pub bankCode: Option<String>,
    pub authType: Option<String>,
    pub paymentSource: Option<String>,
    pub isPaymentSourceEnabledForSrRouting: bool,
    pub isAuthLevelEnabledForSrRouting: bool,
    pub isBankLevelEnabledForSrRouting: bool,
    pub isGriEnabledForElimination: bool,
    pub isGriEnabledForSrRouting: bool,
}

#[derive(Debug, Clone)]
pub struct MetricsStreamKeyShard(pub String, pub i32);

#[derive(Debug, Clone)]
pub struct MetricsStreamKey(pub String);

/// The kinds of gateway score kept in the cache.
#[derive(Debug, Clone, Copy, PartialEq, Eq, Structural)]
pub enum ScoreKeyType {
    ELIMINATION_GLOBAL_KEY,
    ELIMINATION_MERCHANT_KEY,
    OUTAGE_GLOBAL_KEY,
    OUTAGE_MERCHANT_KEY,
    SR_V2_KEY,
    SR_V3_KEY,
}

/// How the decided gateway was chosen.
#[derive(Debug, Clone, Copy, PartialEq, Eq, Structural)]
pub enum GatewayDeciderApproach {
    SR_SELECTION,
    SR_SELECTION_V2_ROUTING,
    SR_SELECTION_V3_ROUTING,
    PRIORITY_LOGIC,
    DEFAULT,
    NONE,
    MERCHANT_PREFERENCE,
    PL_ALL_DOWNTIME_ROUTING,
    PL_DOWNTIME_ROUTING,
    PL_GLOBAL_DOWNTIME_ROUTING,
    SR_V2_ALL_DOWNTIME_ROUTING,
    SR_V2_DOWNTIME_ROUTING,
    SR_V2_GLOBAL_DOWNTIME_ROUTING,
    SR_V2_HEDGING,
    SR_V2_ALL_DOWNTIME_HEDGING,
    SR_V2_DOWNTIME_HEDGING,
    SR_V2_GLOBAL_DOWNTIME_HEDGING,
    SR_V3_ALL_DOWNTIME_ROUTING,
    SR_V3_DOWNTIME_ROUTING,
    SR_V3_GLOBAL_DOWNTIME_ROUTING,
    SR_V3_HEDGING,
    SR_V3_ALL_DOWNTIME_HEDGING,
    SR_V3_DOWNTIME_HEDGING,
    SR_V3_GLOBAL_DOWNTIME_HEDGING,
}

#[derive(Debug, Clone, Copy, PartialEq, Eq, Structural)]
pub enum DownTime {
    ALL_DOWNTIME,
    GLOBAL_DOWNTIME,
    DOWNTIME,
    NO_DOWNTIME,
}

#[derive(Debug, Clone, Copy, PartialEq, Eq, Structural)]
pub enum ResetApproach {
    ELIMINATION_RESET,
    SRV2_RESET,
    SRV3_RESET,
    NO_RESET,
    SRV2_ELIMINATION_RESET,
    SRV3_ELIMINATION_RESET,
}

#[derive(Debug, Clone)]
pub struct ApiMerchantAccount {
    pub id: i64,
    pub merchantId: String,
    pub city: Option<String>,
    pub officeLine2: Option<String>,
    pub officeLine1: Option<String>,
    pub merchantZip: Option<String>,
    pub contactPersonPrimary: Option<String>,
    pub mobile: Option<String>,
    pub country: Option<String>,
    pub website: Option<String>,
    pub contactPersonEmail: Option<String>,
    pub resellerId: Option<String>,
    pub enableSendingCardIsin: Option<bool>,
    pub returnUrl: Option<String>,
    pub merchantName: Option<String>,
    pub realModeOnly: bool,
    pub autoRefundConflictTransactions: Option<bool>,
    pub autoRefundMultipleChargedTransactions: bool,
    pub autoRefundConflictThresholdInMins: Option<i32>,
    pub enableSaveCardBeforeAuth: Option<bool>,
    pub webHookAPIVersion: Option<String>,
    pub webHookURL: Option<String>,
    pub lockerId: Option<String>,
    pub gatewayDecidedByHealthEnabled: Option<bool>,
    pub gatewayPriority: Option<String>,
    pub gatewayPriorityLogic: String,
    pub useCodeForGatewayPriority: bool,
    pub enableTransactionFilter: Option<bool>,
    pub enabledInstantRefund: bool,
    pub cardEncodingKey: Option<String>,
    pub shouldAddSurcharge: Option<bool>,
    pub enableGatewayReferenceIdBasedRouting: Option<bool>,
    pub enableSuccessRateBasedGatewayElimination: bool,
    pub gatewaySuccessRateBasedDeciderInput: String,
    pub gatewaySuccessRateBasedOutageInput: String,
    pub secondaryMerchantAccountId: Option<i64>,
    pub internalHashKey: Option<String>,
    pub tokenLockerId: Option<String>,
    pub executeMandateAutoRetryEnabled: Option<bool>,
    pub autoRevokeMandate: Option<bool>,
    pub mandateRetryConfig: Option<String>,
    pub fingerprintOnTokenize: Option<bool>,
    pub mustUseGivenOrderIdForTxn: Option<bool>,
    pub externalMetadata: Option<String>,
    pub internalMetadata: Option<String>,
    pub userId: Option<i64>,
    pub installmentEnabled: Option<bool>,
    pub basiliskKeyId: Option<String>,
    pub encryptionKeyIds: Option<String>,
    pub tenantAccountId: Option<String>,
    pub priorityLogicConfig: Option<String>,
}

/// The gateways left after one filter, recorded for debugging.
#[derive(Debug, Clone)]
pub struct DebugFilterEntry {
    pub filterName: String,
    pub gateways: Vec<Gateway>,
}

pub type DebugFilterList = Vec<DebugFilterEntry>;

#[derive(Debug, Clone)]
pub struct OrderTokenResp {
    pub client_auth_token: Option<String>,
    pub client_auth_token_expiry: Option<String>,
}

#[derive(Debug, Clone)]
pub struct Offers {
    pub offers: Vec<Option<Offer>>,
}

#[derive(Debug, Clone)]
pub struct Offer {
    pub offer_id: String,
    pub status: String,
    pub error_code: Option<String>,
    pub error_message: Option<String>,
}

#[derive(Debug, Clone)]
pub struct EmiType;

#[derive(Debug, Clone)]
pub struct ValidationType;

/// What the merchant's priority logic produced.
#[derive(Debug, Clone)]
pub struct GatewayPriorityLogicOutput {
    pub isEnforcement: bool,
    pub gws: Vec<Gateway>,
    pub priorityLogicTag: Option<String>,
    pub gatewayReferenceIds: HashMap<String, String>,
    pub primaryLogic: Option<PriorityLogicData>,
    pub fallbackLogic: Option<PriorityLogicData>,
}

#[derive(Debug, Clone)]
pub struct PriorityLogicData {
    pub name: Option<String>,
    pub status: Status,
    pub failureReason: PriorityLogicFailure,
}

#[derive(Debug, Clone)]
pub struct PriorityLogicFailure;

#[derive(Debug, Clone)]
pub struct Status;

#[derive(Debug, Clone)]
pub struct Dimension;

#[derive(Debug, Clone)]
pub struct GatewayDetails {
    pub success_txn_count: i64,
    pub total_txn_count: i64,
    pub gateway_name: String,
}

#[derive(Debug, Clone)]
pub struct SuccessRateData {
    pub successTxnCount: i64,
    pub totalTxn: i64,
}

#[derive(Debug, Clone)]
pub struct PaymentFlowInfoInInternalTrackingInfo {
    pub paymentFlowInfo: PaymentFlowInfo,
}

#[derive(Debug, Clone)]
pub struct PaymentFlowInfo {
    pub paymentFlows: Vec<String>,
}

#[derive(Debug, Clone)]
pub struct JuspayBankCodeInternalMetadata {
    pub juspayBankCode: Option<String>,
}

#[derive(Debug, Clone)]
pub struct GatewayInfo {
    pub name: String,
    pub offer_code: Option<String>,
}

#[derive(Debug, Clone)]
pub struct GatewayRule {
    pub force_routing: Option<bool>,
    pub gateway_info: Vec<GatewayInfo>,
}

/// How far down the payment dimensions a success-rate configuration is matched:
/// payment method type alone, with the payment method, or with the transaction's
/// object type as well.
#[derive(Debug, Clone, Copy, PartialEq, Eq, Structural)]
pub enum FilterLevel {
    TxnObjectType,
    PaymentMethod,
    PaymentMethodType,
}

#[derive(Debug, Clone)]
pub struct ConfigSource;

#[derive(Debug, Clone)]
pub struct BooleanOrString;

#[derive(Debug, Clone)]
pub struct EMIAccountDetails {
    pub emiTenure: Option<i32>,
    pub isEmi: Option<BooleanOrString>,
}

} // verus!
