//! The transaction vocabulary of the score feedback consumer.
use vstd::prelude::*;
use crate::text::{str_eq, str_to_uppercase, uppercase, is_ascii_upper_text};

verus! {

#[derive(Debug, Clone, Copy, PartialEq, Eq, Structural)]
pub enum MandateTxnType {
    REGISTER,
    REGISTER_AND_DEBIT,
    DEFAULT,
}

#[derive(Debug, Clone, Copy, PartialEq, Eq, Structural)]
pub enum TxnObjectType {
    MANDATE_REGISTER,
    MANDATE_PAYMENT,
    ORDER_PAYMENT,
    EMANDATE_REGISTER,
    EMANDATE_PAYMENT,
    TPV_PAYMENT,
    PARTIAL_CAPTURE,
    PARTIAL_VOID,
    TPV_EMANDATE_REGISTER,
    TPV_MANDATE_REGISTER,
    TPV_EMANDATE_PAYMENT,
    TPV_MANDATE_PAYMENT,
    VAN_PAYMENT,
    MOTO_PAYMENT,
}

#[derive(Debug, Clone, Copy, PartialEq, Eq, Structural)]
pub enum TxnStatus {
    STARTED,
    AUTHENTICATION_FAILED,
    JUSPAY_DECLINED,
    PENDING_VBV,
    VBV_SUCCESSFUL,
    AUTHORIZED,
    AUTHORIZATION_FAILED,
    CHARGED,
    AUTHORIZING,
    COD_INITIATED,
    VOIDED,
    VOID_INITIATED,
    NOP,
    CAPTURE_INITIATED,
    CAPTURE_FAILED,
    VOID_FAILED,
    AUTO_REFUNDED,
    PARTIAL_CHARGED,
    PENDING,
    FAILURE,
    TO_BE_CHARGED,
    MERCHANT_VOIDED,
}

#[derive(Debug, Clone, Copy, PartialEq, Eq, Structural)]
pub enum ScoringDimension {
    FIRST,
    SECOND,
    THIRD,
    FOURTH,
}

#[derive(Debug, Clone, Copy, PartialEq, Eq, Structural)]
pub enum KeyType {
    Global,
    Merchant,
}

#[derive(Debug, Clone, Copy, PartialEq, Eq, Structural)]
pub enum ScoreType {
    Gateway,
    Outage,
}

/// One entry of the SR v3 moving window when debug mode is on.
#[derive(Debug, Clone)]
pub struct SrV3DebugBlock {
    pub txn_uuid: String,
    pub order_id: String,
    pub date_created: String,
    pub current_time: String,
    pub txn_status: String,
}

/// The payment method types that transactions carry; any other text is kept as `UNKNOWN`.
#[derive(Debug, Clone)]
pub enum PaymentMethodType {
    WALLET,
    UPI,
    NB,
    CARD,
    PAYLATER,
    CONSUMER_FINANCE,
    REWARD,
    CASH,
    AADHAAR,
    PAPERNACH,
    PAN,
    MERCHANT_CONTAINER,
    Virtual_Account,
    OTC,
    RTP,
    CRYPTO,
    CARD_QR,
    UNKNOWN(String),
}

/// The text that [`defaultEnumEncodeT`] writes for a payment method type.
pub open spec fn payment_method_type_text(p: PaymentMethodType) -> Seq<char> {
    match p {
        PaymentMethodType::WALLET => "WALLET"@,
        PaymentMethodType::UPI => "UPI"@,
        PaymentMethodType::NB => "NB"@,
        PaymentMethodType::CARD => "CARD"@,
        PaymentMethodType::PAYLATER => "PAYLATER"@,
        PaymentMethodType::CONSUMER_FINANCE => "CONSUMER_FINANCE"@,
        PaymentMethodType::REWARD => "REWARD"@,
        PaymentMethodType::CASH => "CASH"@,
        PaymentMethodType::AADHAAR => "AADHAAR"@,
        PaymentMethodType::PAPERNACH => "PAPERNACH"@,
        PaymentMethodType::PAN => "PAN"@,
        PaymentMethodType::MERCHANT_CONTAINER => "MERCHANT_CONTAINER"@,
        PaymentMethodType::Virtual_Account => "VIRTUAL_ACCOUNT"@,
        PaymentMethodType::OTC => "OTC"@,
        PaymentMethodType::RTP => "RTP"@,
        PaymentMethodType::CRYPTO => "CRYPTO"@,
        PaymentMethodType::CARD_QR => "CARD_QR"@,
        PaymentMethodType::UNKNOWN(t) => t@,
    }
}

/// Writes a payment method type as the text the services exchange.
pub fn defaultEnumEncodeT(p: PaymentMethodType) -> (res: String)
    ensures
        res@ == payment_method_type_text(p),
{
    match p {
        PaymentMethodType::WALLET => String::from_str("WALLET"),
        PaymentMethodType::UPI => String::from_str("UPI"),
        PaymentMethodType::NB => String::from_str("NB"),
        PaymentMethodType::CARD => String::from_str("CARD"),
        PaymentMethodType::PAYLATER => String::from_str("PAYLATER"),
        PaymentMethodType::CONSUMER_FINANCE => String::from_str("CONSUMER_FINANCE"),
        PaymentMethodType::REWARD => String::from_str("REWARD"),
        PaymentMethodType::CASH => String::from_str("CASH"),
        PaymentMethodType::AADHAAR => String::from_str("AADHAAR"),
        PaymentMethodType::PAPERNACH => String::from_str("PAPERNACH"),
        PaymentMethodType::PAN => String::from_str("PAN"),
        PaymentMethodType::MERCHANT_CONTAINER => String::from_str("MERCHANT_CONTAINER"),
        PaymentMethodType::Virtual_Account => String::from_str("VIRTUAL_ACCOUNT"),
        PaymentMethodType::OTC => String::from_str("OTC"),
        PaymentMethodType::RTP => String::from_str("RTP"),
        PaymentMethodType::CRYPTO => String::from_str("CRYPTO"),
        PaymentMethodType::CARD_QR => String::from_str("CARD_QR"),
        PaymentMethodType::UNKNOWN(txt) => txt,
    }
}


impl PaymentMethodType {
    /// A copy of the value.
    pub fn copied(&self) -> (res: PaymentMethodType)
        ensures
            res == *self,
    {
        match self {
            PaymentMethodType::WALLET => PaymentMethodType::WALLET,
            PaymentMethodType::UPI => PaymentMethodType::UPI,
            PaymentMethodType::NB => PaymentMethodType::NB,
            PaymentMethodType::CARD => PaymentMethodType::CARD,
            PaymentMethodType::PAYLATER => PaymentMethodType::PAYLATER,
            PaymentMethodType::CONSUMER_FINANCE => PaymentMethodType::CONSUMER_FINANCE,
            PaymentMethodType::REWARD => PaymentMethodType::REWARD,
            PaymentMethodType::CASH => PaymentMethodType::CASH,
            PaymentMethodType::AADHAAR => PaymentMethodType::AADHAAR,
            PaymentMethodType::PAPERNACH => PaymentMethodType::PAPERNACH,
            PaymentMethodType::PAN => PaymentMethodType::PAN,
            PaymentMethodType::MERCHANT_CONTAINER => PaymentMethodType::MERCHANT_CONTAINER,
            PaymentMethodType::Virtual_Account => PaymentMethodType::Virtual_Account,
            PaymentMethodType::OTC => PaymentMethodType::OTC,
            PaymentMethodType::RTP => PaymentMethodType::RTP,
            PaymentMethodType::CRYPTO => PaymentMethodType::CRYPTO,
            PaymentMethodType::CARD_QR => PaymentMethodType::CARD_QR,
            PaymentMethodType::UNKNOWN(t) => PaymentMethodType::UNKNOWN(t.clone()),
        }
    }
}

/// `u` is the text of one of the named payment method types.
pub open spec fn is_known_payment_method_type_text(u: Seq<char>) -> bool {
    ||| u == "WALLET"@
    ||| u == "UPI"@
    ||| u == "NB"@
    ||| u == "CARD"@
    ||| u == "PAYLATER"@
    ||| u == "CONSUMER_FINANCE"@
    ||| u == "REWARD"@
    ||| u == "CASH"@
    ||| u == "AADHAAR"@
    ||| u == "PAPERNACH"@
    ||| u == "PAN"@
    ||| u == "MERCHANT_CONTAINER"@
    ||| u == "VIRTUAL_ACCOUNT"@
    ||| u == "OTC"@
    ||| u == "RTP"@
    ||| u == "CRYPTO"@
    ||| u == "CARD_QR"@
}

/// Reads a payment method type from text, ignoring case: the uppercased text is
/// matched against the names, and kept as `UNKNOWN` when it is none of them.
pub fn defaultEnumDecodeT(s: &str) -> (res: PaymentMethodType)
    ensures
        payment_method_type_text(res) == str_to_uppercase(s@),
        is_ascii_upper_text(s@) ==> payment_method_type_text(res) == s@,
        res is UNKNOWN <==> !is_known_payment_method_type_text(str_to_uppercase(s@)),
{
    let u = uppercase(s);
    if str_eq(u.as_str(), "WALLET") {
        return PaymentMethodType::WALLET;
    }
    if str_eq(u.as_str(), "UPI") {
        return PaymentMethodType::UPI;
    }
    if str_eq(u.as_str(), "NB") {
        return PaymentMethodType::NB;
    }
    if str_eq(u.as_str(), "CARD") {
        return PaymentMethodType::CARD;
    }
    if str_eq(u.as_str(), "PAYLATER") {
        return PaymentMethodType::PAYLATER;
    }
    if str_eq(u.as_str(), "CONSUMER_FINANCE") {
        return PaymentMethodType::CONSUMER_FINANCE;
    }
    if str_eq(u.as_str(), "REWARD") {
        return PaymentMethodType::REWARD;
    }
    if str_eq(u.as_str(), "CASH") {
        return PaymentMethodType::CASH;
    }
    if str_eq(u.as_str(), "AADHAAR") {
        return PaymentMethodType::AADHAAR;
    }
    if str_eq(u.as_str(), "PAPERNACH") {
        return PaymentMethodType::PAPERNACH;
    }
    if str_eq(u.as_str(), "PAN") {
        return PaymentMethodType::PAN;
    }
    if str_eq(u.as_str(), "MERCHANT_CONTAINER") {
        return PaymentMethodType::MERCHANT_CONTAINER;
    }
    if str_eq(u.as_str(), "VIRTUAL_ACCOUNT") {
        return PaymentMethodType::Virtual_Account;
    }
    if str_eq(u.as_str(), "OTC") {
        return PaymentMethodType::OTC;
    }
    if str_eq(u.as_str(), "RTP") {
        return PaymentMethodType::RTP;
    }
    if str_eq(u.as_str(), "CRYPTO") {
        return PaymentMethodType::CRYPTO;
    }
    if str_eq(u.as_str(), "CARD_QR") {
        return PaymentMethodType::CARD_QR;
    }
    PaymentMethodType::UNKNOWN(u)
}


/// Distinct named payment method types are written as distinct texts.
pub proof fn lemma_payment_method_type_text_injective(p: PaymentMethodType, q: PaymentMethodType)
    requires
        !(p is UNKNOWN),
        !(q is UNKNOWN),
        payment_method_type_text(p) == payment_method_type_text(q),
    ensures
        p == q,
{
    reveal_strlit("WALLET");
    reveal_strlit("UPI");
    reveal_strlit("NB");
    reveal_strlit("CARD");
    reveal_strlit("PAYLATER");
    reveal_strlit("CONSUMER_FINANCE");
    reveal_strlit("REWARD");
    reveal_strlit("CASH");
    reveal_strlit("AADHAAR");
    reveal_strlit("PAPERNACH");
    reveal_strlit("PAN");
    reveal_strlit("MERCHANT_CONTAINER");
    reveal_strlit("VIRTUAL_ACCOUNT");
    reveal_strlit("OTC");
    reveal_strlit("RTP");
    reveal_strlit("CRYPTO");
    reveal_strlit("CARD_QR");
    match p {
        PaymentMethodType::WALLET => {
            assert(q is WALLET) by {
                match q {
                    PaymentMethodType::WALLET => {}
                    PaymentMethodType::UPI => { assert("UPI"@.len() != "WALLET"@.len()); }
                    PaymentMethodType::NB => { assert("NB"@.len() != "WALLET"@.len()); }
                    PaymentMethodType::CARD => { assert("CARD"@.len() != "WALLET"@.len()); }
                    PaymentMethodType::PAYLATER => { assert("PAYLATER"@.len() != "WALLET"@.len()); }
                    PaymentMethodType::CONSUMER_FINANCE => { assert("CONSUMER_FINANCE"@.len() != "WALLET"@.len()); }
                    PaymentMethodType::REWARD => { assert("REWARD"@[0] != "WALLET"@[0]); }
                    PaymentMethodType::CASH => { assert("CASH"@.len() != "WALLET"@.len()); }
                    PaymentMethodType::AADHAAR => { assert("AADHAAR"@.len() != "WALLET"@.len()); }
                    PaymentMethodType::PAPERNACH => { assert("PAPERNACH"@.len() != "WALLET"@.len()); }
                    PaymentMethodType::PAN => { assert("PAN"@.len() != "WALLET"@.len()); }
                    PaymentMethodType::MERCHANT_CONTAINER => { assert("MERCHANT_CONTAINER"@.len() != "WALLET"@.len()); }
                    PaymentMethodType::Virtual_Account => { assert("VIRTUAL_ACCOUNT"@.len() != "WALLET"@.len()); }
                    PaymentMethodType::OTC => { assert("OTC"@.len() != "WALLET"@.len()); }
                    PaymentMethodType::RTP => { assert("RTP"@.len() != "WALLET"@.len()); }
                    PaymentMethodType::CRYPTO => { assert("CRYPTO"@[0] != "WALLET"@[0]); }
                    PaymentMethodType::CARD_QR => { assert("CARD_QR"@.len() != "WALLET"@.len()); }
                    PaymentMethodType::UNKNOWN(_) => {}
                }
            }
        },
        PaymentMethodType::UPI => {
            assert(q is UPI) by {
                match q {
                    PaymentMethodType::WALLET => { assert("WALLET"@.len() != "UPI"@.len()); }
                    PaymentMethodType::UPI => {}
                    PaymentMethodType::NB => { assert("NB"@.len() != "UPI"@.len()); }
                    PaymentMethodType::CARD => { assert("CARD"@.len() != "UPI"@.len()); }
                    PaymentMethodType::PAYLATER => { assert("PAYLATER"@.len() != "UPI"@.len()); }
                    PaymentMethodType::CONSUMER_FINANCE => { assert("CONSUMER_FINANCE"@.len() != "UPI"@.len()); }
                    PaymentMethodType::REWARD => { assert("REWARD"@.len() != "UPI"@.len()); }
                    PaymentMethodType::CASH => { assert("CASH"@.len() != "UPI"@.len()); }
                    PaymentMethodType::AADHAAR => { assert("AADHAAR"@.len() != "UPI"@.len()); }
                    PaymentMethodType::PAPERNACH => { assert("PAPERNACH"@.len() != "UPI"@.len()); }
                    PaymentMethodType::PAN => { assert("PAN"@[0] != "UPI"@[0]); }
                    PaymentMethodType::MERCHANT_CONTAINER => { assert("MERCHANT_CONTAINER"@.len() != "UPI"@.len()); }
                    PaymentMethodType::Virtual_Account => { assert("VIRTUAL_ACCOUNT"@.len() != "UPI"@.len()); }
                    PaymentMethodType::OTC => { assert("OTC"@[0] != "UPI"@[0]); }
                    PaymentMethodType::RTP => { assert("RTP"@[0] != "UPI"@[0]); }
                    PaymentMethodType::CRYPTO => { assert("CRYPTO"@.len() != "UPI"@.len()); }
                    PaymentMethodType::CARD_QR => { assert("CARD_QR"@.len() != "UPI"@.len()); }
                    PaymentMethodType::UNKNOWN(_) => {}
                }
            }
        },
        PaymentMethodType::NB => {
            assert(q is NB) by {
                match q {
                    PaymentMethodType::WALLET => { assert("WALLET"@.len() != "NB"@.len()); }
                    PaymentMethodType::UPI => { assert("UPI"@.len() != "NB"@.len()); }
                    PaymentMethodType::NB => {}
                    PaymentMethodType::CARD => { assert("CARD"@.len() != "NB"@.len()); }
                    PaymentMethodType::PAYLATER => { assert("PAYLATER"@.len() != "NB"@.len()); }
                    PaymentMethodType::CONSUMER_FINANCE => { assert("CONSUMER_FINANCE"@.len() != "NB"@.len()); }
                    PaymentMethodType::REWARD => { assert("REWARD"@.len() != "NB"@.len()); }
                    PaymentMethodType::CASH => { assert("CASH"@.len() != "NB"@.len()); }
                    PaymentMethodType::AADHAAR => { assert("AADHAAR"@.len() != "NB"@.len()); }
                    PaymentMethodType::PAPERNACH => { assert("PAPERNACH"@.len() != "NB"@.len()); }
                    PaymentMethodType::PAN => { assert("PAN"@.len() != "NB"@.len()); }
                    PaymentMethodType::MERCHANT_CONTAINER => { assert("MERCHANT_CONTAINER"@.len() != "NB"@.len()); }
                    PaymentMethodType::Virtual_Account => { assert("VIRTUAL_ACCOUNT"@.len() != "NB"@.len()); }
                    PaymentMethodType::OTC => { assert("OTC"@.len() != "NB"@.len()); }
                    PaymentMethodType::RTP => { assert("RTP"@.len() != "NB"@.len()); }
                    PaymentMethodType::CRYPTO => { assert("CRYPTO"@.len() != "NB"@.len()); }
                    PaymentMethodType::CARD_QR => { assert("CARD_QR"@.len() != "NB"@.len()); }
                    PaymentMethodType::UNKNOWN(_) => {}
                }
            }
        },
        PaymentMethodType::CARD => {
            assert(q is CARD) by {
                match q {
                    PaymentMethodType::WALLET => { assert("WALLET"@.len() != "CARD"@.len()); }
                    PaymentMethodType::UPI => { assert("UPI"@.len() != "CARD"@.len()); }
                    PaymentMethodType::NB => { assert("NB"@.len() != "CARD"@.len()); }
                    PaymentMethodType::CARD => {}
                    PaymentMethodType::PAYLATER => { assert("PAYLATER"@.len() != "CARD"@.len()); }
                    PaymentMethodType::CONSUMER_FINANCE => { assert("CONSUMER_FINANCE"@.len() != "CARD"@.len()); }
                    PaymentMethodType::REWARD => { assert("REWARD"@.len() != "CARD"@.len()); }
                    PaymentMethodType::CASH => { assert("CASH"@[2] != "CARD"@[2]); }
                    PaymentMethodType::AADHAAR => { assert("AADHAAR"@.len() != "CARD"@.len()); }
                    PaymentMethodType::PAPERNACH => { assert("PAPERNACH"@.len() != "CARD"@.len()); }
                    PaymentMethodType::PAN => { assert("PAN"@.len() != "CARD"@.len()); }
                    PaymentMethodType::MERCHANT_CONTAINER => { assert("MERCHANT_CONTAINER"@.len() != "CARD"@.len()); }
                    PaymentMethodType::Virtual_Account => { assert("VIRTUAL_ACCOUNT"@.len() != "CARD"@.len()); }
                    PaymentMethodType::OTC => { assert("OTC"@.len() != "CARD"@.len()); }
                    PaymentMethodType::RTP => { assert("RTP"@.len() != "CARD"@.len()); }
                    PaymentMethodType::CRYPTO => { assert("CRYPTO"@.len() != "CARD"@.len()); }
                    PaymentMethodType::CARD_QR => { assert("CARD_QR"@.len() != "CARD"@.len()); }
                    PaymentMethodType::UNKNOWN(_) => {}
                }
            }
        },
        PaymentMethodType::PAYLATER => {
            assert(q is PAYLATER) by {
                match q {
                    PaymentMethodType::WALLET => { assert("WALLET"@.len() != "PAYLATER"@.len()); }
                    PaymentMethodType::UPI => { assert("UPI"@.len() != "PAYLATER"@.len()); }
                    PaymentMethodType::NB => { assert("NB"@.len() != "PAYLATER"@.len()); }
                    PaymentMethodType::CARD => { assert("CARD"@.len() != "PAYLATER"@.len()); }
                    PaymentMethodType::PAYLATER => {}
                    PaymentMethodType::CONSUMER_FINANCE => { assert("CONSUMER_FINANCE"@.len() != "PAYLATER"@.len()); }
                    PaymentMethodType::REWARD => { assert("REWARD"@.len() != "PAYLATER"@.len()); }
                    PaymentMethodType::CASH => { assert("CASH"@.len() != "PAYLATER"@.len()); }
                    PaymentMethodType::AADHAAR => { assert("AADHAAR"@.len() != "PAYLATER"@.len()); }
                    PaymentMethodType::PAPERNACH => { assert("PAPERNACH"@.len() != "PAYLATER"@.len()); }
                    PaymentMethodType::PAN => { assert("PAN"@.len() != "PAYLATER"@.len()); }
                    PaymentMethodType::MERCHANT_CONTAINER => { assert("MERCHANT_CONTAINER"@.len() != "PAYLATER"@.len()); }
                    PaymentMethodType::Virtual_Account => { assert("VIRTUAL_ACCOUNT"@.len() != "PAYLATER"@.len()); }
                    PaymentMethodType::OTC => { assert("OTC"@.len() != "PAYLATER"@.len()); }
                    PaymentMethodType::RTP => { assert("RTP"@.len() != "PAYLATER"@.len()); }
                    PaymentMethodType::CRYPTO => { assert("CRYPTO"@.len() != "PAYLATER"@.len()); }
                    PaymentMethodType::CARD_QR => { assert("CARD_QR"@.len() != "PAYLATER"@.len()); }
                    PaymentMethodType::UNKNOWN(_) => {}
                }
            }
        },
        PaymentMethodType::CONSUMER_FINANCE => {
            assert(q is CONSUMER_FINANCE) by {
                match q {
                    PaymentMethodType::WALLET => { assert("WALLET"@.len() != "CONSUMER_FINANCE"@.len()); }
                    PaymentMethodType::UPI => { assert("UPI"@.len() != "CONSUMER_FINANCE"@.len()); }
                    PaymentMethodType::NB => { assert("NB"@.len() != "CONSUMER_FINANCE"@.len()); }
                    PaymentMethodType::CARD => { assert("CARD"@.len() != "CONSUMER_FINANCE"@.len()); }
                    PaymentMethodType::PAYLATER => { assert("PAYLATER"@.len() != "CONSUMER_FINANCE"@.len()); }
                    PaymentMethodType::CONSUMER_FINANCE => {}
                    PaymentMethodType::REWARD => { assert("REWARD"@.len() != "CONSUMER_FINANCE"@.len()); }
                    PaymentMethodType::CASH => { assert("CASH"@.len() != "CONSUMER_FINANCE"@.len()); }
                    PaymentMethodType::AADHAAR => { assert("AADHAAR"@.len() != "CONSUMER_FINANCE"@.len()); }
                    PaymentMethodType::PAPERNACH => { assert("PAPERNACH"@.len() != "CONSUMER_FINANCE"@.len()); }
                    PaymentMethodType::PAN => { assert("PAN"@.len() != "CONSUMER_FINANCE"@.len()); }
                    PaymentMethodType::MERCHANT_CONTAINER => { assert("MERCHANT_CONTAINER"@.len() != "CONSUMER_FINANCE"@.len()); }
                    PaymentMethodType::Virtual_Account => { assert("VIRTUAL_ACCOUNT"@.len() != "CONSUMER_FINANCE"@.len()); }
                    PaymentMethodType::OTC => { assert("OTC"@.len() != "CONSUMER_FINANCE"@.len()); }
                    PaymentMethodType::RTP => { assert("RTP"@.len() != "CONSUMER_FINANCE"@.len()); }
                    PaymentMethodType::CRYPTO => { assert("CRYPTO"@.len() != "CONSUMER_FINANCE"@.len()); }
                    PaymentMethodType::CARD_QR => { assert("CARD_QR"@.len() != "CONSUMER_FINANCE"@.len()); }
                    PaymentMethodType::UNKNOWN(_) => {}
                }
            }
        },
        PaymentMethodType::REWARD => {
            assert(q is REWARD) by {
                match q {
                    PaymentMethodType::WALLET => { assert("WALLET"@[0] != "REWARD"@[0]); }
                    PaymentMethodType::UPI => { assert("UPI"@.len() != "REWARD"@.len()); }
                    PaymentMethodType::NB => { assert("NB"@.len() != "REWARD"@.len()); }
                    PaymentMethodType::CARD => { assert("CARD"@.len() != "REWARD"@.len()); }
                    PaymentMethodType::PAYLATER => { assert("PAYLATER"@.len() != "REWARD"@.len()); }
                    PaymentMethodType::CONSUMER_FINANCE => { assert("CONSUMER_FINANCE"@.len() != "REWARD"@.len()); }
                    PaymentMethodType::REWARD => {}
                    PaymentMethodType::CASH => { assert("CASH"@.len() != "REWARD"@.len()); }
                    PaymentMethodType::AADHAAR => { assert("AADHAAR"@.len() != "REWARD"@.len()); }
                    PaymentMethodType::PAPERNACH => { assert("PAPERNACH"@.len() != "REWARD"@.len()); }
                    PaymentMethodType::PAN => { assert("PAN"@.len() != "REWARD"@.len()); }
                    PaymentMethodType::MERCHANT_CONTAINER => { assert("MERCHANT_CONTAINER"@.len() != "REWARD"@.len()); }
                    PaymentMethodType::Virtual_Account => { assert("VIRTUAL_ACCOUNT"@.len() != "REWARD"@.len()); }
                    PaymentMethodType::OTC => { assert("OTC"@.len() != "REWARD"@.len()); }
                    PaymentMethodType::RTP => { assert("RTP"@.len() != "REWARD"@.len()); }
                    PaymentMethodType::CRYPTO => { assert("CRYPTO"@[0] != "REWARD"@[0]); }
                    PaymentMethodType::CARD_QR => { assert("CARD_QR"@.len() != "REWARD"@.len()); }
                    PaymentMethodType::UNKNOWN(_) => {}
                }
            }
        },
        PaymentMethodType::CASH => {
            assert(q is CASH) by {
                match q {
                    PaymentMethodType::WALLET => { assert("WALLET"@.len() != "CASH"@.len()); }
                    PaymentMethodType::UPI => { assert("UPI"@.len() != "CASH"@.len()); }
                    PaymentMethodType::NB => { assert("NB"@.len() != "CASH"@.len()); }
                    PaymentMethodType::CARD => { assert("CARD"@[2] != "CASH"@[2]); }
                    PaymentMethodType::PAYLATER => { assert("PAYLATER"@.len() != "CASH"@.len()); }
                    PaymentMethodType::CONSUMER_FINANCE => { assert("CONSUMER_FINANCE"@.len() != "CASH"@.len()); }
                    PaymentMethodType::REWARD => { assert("REWARD"@.len() != "CASH"@.len()); }
                    PaymentMethodType::CASH => {}
                    PaymentMethodType::AADHAAR => { assert("AADHAAR"@.len() != "CASH"@.len()); }
                    PaymentMethodType::PAPERNACH => { assert("PAPERNACH"@.len() != "CASH"@.len()); }
                    PaymentMethodType::PAN => { assert("PAN"@.len() != "CASH"@.len()); }
                    PaymentMethodType::MERCHANT_CONTAINER => { assert("MERCHANT_CONTAINER"@.len() != "CASH"@.len()); }
                    PaymentMethodType::Virtual_Account => { assert("VIRTUAL_ACCOUNT"@.len() != "CASH"@.len()); }
                    PaymentMethodType::OTC => { assert("OTC"@.len() != "CASH"@.len()); }
                    PaymentMethodType::RTP => { assert("RTP"@.len() != "CASH"@.len()); }
                    PaymentMethodType::CRYPTO => { assert("CRYPTO"@.len() != "CASH"@.len()); }
                    PaymentMethodType::CARD_QR => { assert("CARD_QR"@.len() != "CASH"@.len()); }
                    PaymentMethodType::UNKNOWN(_) => {}
                }
            }
        },
        PaymentMethodType::AADHAAR => {
            assert(q is AADHAAR) by {
                match q {
                    PaymentMethodType::WALLET => { assert("WALLET"@.len() != "AADHAAR"@.len()); }
                    PaymentMethodType::UPI => { assert("UPI"@.len() != "AADHAAR"@.len()); }
                    PaymentMethodType::NB => { assert("NB"@.len() != "AADHAAR"@.len()); }
                    PaymentMethodType::CARD => { assert("CARD"@.len() != "AADHAAR"@.len()); }
                    PaymentMethodType::PAYLATER => { assert("PAYLATER"@.len() != "AADHAAR"@.len()); }
                    PaymentMethodType::CONSUMER_FINANCE => { assert("CONSUMER_FINANCE"@.len() != "AADHAAR"@.len()); }
                    PaymentMethodType::REWARD => { assert("REWARD"@.len() != "AADHAAR"@.len()); }
                    PaymentMethodType::CASH => { assert("CASH"@.len() != "AADHAAR"@.len()); }
                    PaymentMethodType::AADHAAR => {}
                    PaymentMethodType::PAPERNACH => { assert("PAPERNACH"@.len() != "AADHAAR"@.len()); }
                    PaymentMethodType::PAN => { assert("PAN"@.len() != "AADHAAR"@.len()); }
                    PaymentMethodType::MERCHANT_CONTAINER => { assert("MERCHANT_CONTAINER"@.len() != "AADHAAR"@.len()); }
                    PaymentMethodType::Virtual_Account => { assert("VIRTUAL_ACCOUNT"@.len() != "AADHAAR"@.len()); }
                    PaymentMethodType::OTC => { assert("OTC"@.len() != "AADHAAR"@.len()); }
                    PaymentMethodType::RTP => { assert("RTP"@.len() != "AADHAAR"@.len()); }
                    PaymentMethodType::CRYPTO => { assert("CRYPTO"@.len() != "AADHAAR"@.len()); }
                    PaymentMethodType::CARD_QR => { assert("CARD_QR"@[0] != "AADHAAR"@[0]); }
                    PaymentMethodType::UNKNOWN(_) => {}
                }
            }
        },
        PaymentMethodType::PAPERNACH => {
            assert(q is PAPERNACH) by {
                match q {
                    PaymentMethodType::WALLET => { assert("WALLET"@.len() != "PAPERNACH"@.len()); }
                    PaymentMethodType::UPI => { assert("UPI"@.len() != "PAPERNACH"@.len()); }
                    PaymentMethodType::NB => { assert("NB"@.len() != "PAPERNACH"@.len()); }
                    PaymentMethodType::CARD => { assert("CARD"@.len() != "PAPERNACH"@.len()); }
                    PaymentMethodType::PAYLATER => { assert("PAYLATER"@.len() != "PAPERNACH"@.len()); }
                    PaymentMethodType::CONSUMER_FINANCE => { assert("CONSUMER_FINANCE"@.len() != "PAPERNACH"@.len()); }
                    PaymentMethodType::REWARD => { assert("REWARD"@.len() != "PAPERNACH"@.len()); }
                    PaymentMethodType::CASH => { assert("CASH"@.len() != "PAPERNACH"@.len()); }
                    PaymentMethodType::AADHAAR => { assert("AADHAAR"@.len() != "PAPERNACH"@.len()); }
                    PaymentMethodType::PAPERNACH => {}
                    PaymentMethodType::PAN => { assert("PAN"@.len() != "PAPERNACH"@.len()); }
                    PaymentMethodType::MERCHANT_CONTAINER => { assert("MERCHANT_CONTAINER"@.len() != "PAPERNACH"@.len()); }
                    PaymentMethodType::Virtual_Account => { assert("VIRTUAL_ACCOUNT"@.len() != "PAPERNACH"@.len()); }
                    PaymentMethodType::OTC => { assert("OTC"@.len() != "PAPERNACH"@.len()); }
                    PaymentMethodType::RTP => { assert("RTP"@.len() != "PAPERNACH"@.len()); }
                    PaymentMethodType::CRYPTO => { assert("CRYPTO"@.len() != "PAPERNACH"@.len()); }
                    PaymentMethodType::CARD_QR => { assert("CARD_QR"@.len() != "PAPERNACH"@.len()); }
                    PaymentMethodType::UNKNOWN(_) => {}
                }
            }
        },
        PaymentMethodType::PAN => {
            assert(q is PAN) by {
                match q {
                    PaymentMethodType::WALLET => { assert("WALLET"@.len() != "PAN"@.len()); }
                    PaymentMethodType::UPI => { assert("UPI"@[0] != "PAN"@[0]); }
                    PaymentMethodType::NB => { assert("NB"@.len() != "PAN"@.len()); }
                    PaymentMethodType::CARD => { assert("CARD"@.len() != "PAN"@.len()); }
                    PaymentMethodType::PAYLATER => { assert("PAYLATER"@.len() != "PAN"@.len()); }
                    PaymentMethodType::CONSUMER_FINANCE => { assert("CONSUMER_FINANCE"@.len() != "PAN"@.len()); }
                    PaymentMethodType::REWARD => { assert("REWARD"@.len() != "PAN"@.len()); }
                    PaymentMethodType::CASH => { assert("CASH"@.len() != "PAN"@.len()); }
                    PaymentMethodType::AADHAAR => { assert("AADHAAR"@.len() != "PAN"@.len()); }
                    PaymentMethodType::PAPERNACH => { assert("PAPERNACH"@.len() != "PAN"@.len()); }
                    PaymentMethodType::PAN => {}
                    PaymentMethodType::MERCHANT_CONTAINER => { assert("MERCHANT_CONTAINER"@.len() != "PAN"@.len()); }
                    PaymentMethodType::Virtual_Account => { assert("VIRTUAL_ACCOUNT"@.len() != "PAN"@.len()); }
                    PaymentMethodType::OTC => { assert("OTC"@[0] != "PAN"@[0]); }
                    PaymentMethodType::RTP => { assert("RTP"@[0] != "PAN"@[0]); }
                    PaymentMethodType::CRYPTO => { assert("CRYPTO"@.len() != "PAN"@.len()); }
                    PaymentMethodType::CARD_QR => { assert("CARD_QR"@.len() != "PAN"@.len()); }
                    PaymentMethodType::UNKNOWN(_) => {}
                }
            }
        },
        PaymentMethodType::MERCHANT_CONTAINER => {
            assert(q is MERCHANT_CONTAINER) by {
                match q {
                    PaymentMethodType::WALLET => { assert("WALLET"@.len() != "MERCHANT_CONTAINER"@.len()); }
                    PaymentMethodType::UPI => { assert("UPI"@.len() != "MERCHANT_CONTAINER"@.len()); }
                    PaymentMethodType::NB => { assert("NB"@.len() != "MERCHANT_CONTAINER"@.len()); }
                    PaymentMethodType::CARD => { assert("CARD"@.len() != "MERCHANT_CONTAINER"@.len()); }
                    PaymentMethodType::PAYLATER => { assert("PAYLATER"@.len() != "MERCHANT_CONTAINER"@.len()); }
                    PaymentMethodType::CONSUMER_FINANCE => { assert("CONSUMER_FINANCE"@.len() != "MERCHANT_CONTAINER"@.len()); }
                    PaymentMethodType::REWARD => { assert("REWARD"@.len() != "MERCHANT_CONTAINER"@.len()); }
                    PaymentMethodType::CASH => { assert("CASH"@.len() != "MERCHANT_CONTAINER"@.len()); }
                    PaymentMethodType::AADHAAR => { assert("AADHAAR"@.len() != "MERCHANT_CONTAINER"@.len()); }
                    PaymentMethodType::PAPERNACH => { assert("PAPERNACH"@.len() != "MERCHANT_CONTAINER"@.len()); }
                    PaymentMethodType::PAN => { assert("PAN"@.len() != "MERCHANT_CONTAINER"@.len()); }
                    PaymentMethodType::MERCHANT_CONTAINER => {}
                    PaymentMethodType::Virtual_Account => { assert("VIRTUAL_ACCOUNT"@.len() != "MERCHANT_CONTAINER"@.len()); }
                    PaymentMethodType::OTC => { assert("OTC"@.len() != "MERCHANT_CONTAINER"@.len()); }
                    PaymentMethodType::RTP => { assert("RTP"@.len() != "MERCHANT_CONTAINER"@.len()); }
                    PaymentMethodType::CRYPTO => { assert("CRYPTO"@.len() != "MERCHANT_CONTAINER"@.len()); }
                    PaymentMethodType::CARD_QR => { assert("CARD_QR"@.len() != "MERCHANT_CONTAINER"@.len()); }
                    PaymentMethodType::UNKNOWN(_) => {}
                }
            }
        },
        PaymentMethodType::Virtual_Account => {
            assert(q is Virtual_Account) by {
                match q {
                    PaymentMethodType::WALLET => { assert("WALLET"@.len() != "VIRTUAL_ACCOUNT"@.len()); }
                    PaymentMethodType::UPI => { assert("UPI"@.len() != "VIRTUAL_ACCOUNT"@.len()); }
                    PaymentMethodType::NB => { assert("NB"@.len() != "VIRTUAL_ACCOUNT"@.len()); }
                    PaymentMethodType::CARD => { assert("CARD"@.len() != "VIRTUAL_ACCOUNT"@.len()); }
                    PaymentMethodType::PAYLATER => { assert("PAYLATER"@.len() != "VIRTUAL_ACCOUNT"@.len()); }
                    PaymentMethodType::CONSUMER_FINANCE => { assert("CONSUMER_FINANCE"@.len() != "VIRTUAL_ACCOUNT"@.len()); }
                    PaymentMethodType::REWARD => { assert("REWARD"@.len() != "VIRTUAL_ACCOUNT"@.len()); }
                    PaymentMethodType::CASH => { assert("CASH"@.len() != "VIRTUAL_ACCOUNT"@.len()); }
                    PaymentMethodType::AADHAAR => { assert("AADHAAR"@.len() != "VIRTUAL_ACCOUNT"@.len()); }
                    PaymentMethodType::PAPERNACH => { assert("PAPERNACH"@.len() != "VIRTUAL_ACCOUNT"@.len()); }
                    PaymentMethodType::PAN => { assert("PAN"@.len() != "VIRTUAL_ACCOUNT"@.len()); }
                    PaymentMethodType::MERCHANT_CONTAINER => { assert("MERCHANT_CONTAINER"@.len() != "VIRTUAL_ACCOUNT"@.len()); }
                    PaymentMethodType::Virtual_Account => {}
                    PaymentMethodType::OTC => { assert("OTC"@.len() != "VIRTUAL_ACCOUNT"@.len()); }
                    PaymentMethodType::RTP => { assert("RTP"@.len() != "VIRTUAL_ACCOUNT"@.len()); }
                    PaymentMethodType::CRYPTO => { assert("CRYPTO"@.len() != "VIRTUAL_ACCOUNT"@.len()); }
                    PaymentMethodType::CARD_QR => { assert("CARD_QR"@.len() != "VIRTUAL_ACCOUNT"@.len()); }
                    PaymentMethodType::UNKNOWN(_) => {}
                }
            }
        },
        PaymentMethodType::OTC => {
            assert(q is OTC) by {
                match q {
                    PaymentMethodType::WALLET => { assert("WALLET"@.len() != "OTC"@.len()); }
                    PaymentMethodType::UPI => { assert("UPI"@[0] != "OTC"@[0]); }
                    PaymentMethodType::NB => { assert("NB"@.len() != "OTC"@.len()); }
                    PaymentMethodType::CARD => { assert("CARD"@.len() != "OTC"@.len()); }
                    PaymentMethodType::PAYLATER => { assert("PAYLATER"@.len() != "OTC"@.len()); }
                    PaymentMethodType::CONSUMER_FINANCE => { assert("CONSUMER_FINANCE"@.len() != "OTC"@.len()); }
                    PaymentMethodType::REWARD => { assert("REWARD"@.len() != "OTC"@.len()); }
                    PaymentMethodType::CASH => { assert("CASH"@.len() != "OTC"@.len()); }
                    PaymentMethodType::AADHAAR => { assert("AADHAAR"@.len() != "OTC"@.len()); }
                    PaymentMethodType::PAPERNACH => { assert("PAPERNACH"@.len() != "OTC"@.len()); }
                    PaymentMethodType::PAN => { assert("PAN"@[0] != "OTC"@[0]); }
                    PaymentMethodType::MERCHANT_CONTAINER => { assert("MERCHANT_CONTAINER"@.len() != "OTC"@.len()); }
                    PaymentMethodType::Virtual_Account => { assert("VIRTUAL_ACCOUNT"@.len() != "OTC"@.len()); }
                    PaymentMethodType::OTC => {}
                    PaymentMethodType::RTP => { assert("RTP"@[0] != "OTC"@[0]); }
                    PaymentMethodType::CRYPTO => { assert("CRYPTO"@.len() != "OTC"@.len()); }
                    PaymentMethodType::CARD_QR => { assert("CARD_QR"@.len() != "OTC"@.len()); }
                    PaymentMethodType::UNKNOWN(_) => {}
                }
            }
        },
        PaymentMethodType::RTP => {
            assert(q is RTP) by {
                match q {
                    PaymentMethodType::WALLET => { assert("WALLET"@.len() != "RTP"@.len()); }
                    PaymentMethodType::UPI => { assert("UPI"@[0] != "RTP"@[0]); }
                    PaymentMethodType::NB => { assert("NB"@.len() != "RTP"@.len()); }
                    PaymentMethodType::CARD => { assert("CARD"@.len() != "RTP"@.len()); }
                    PaymentMethodType::PAYLATER => { assert("PAYLATER"@.len() != "RTP"@.len()); }
                    PaymentMethodType::CONSUMER_FINANCE => { assert("CONSUMER_FINANCE"@.len() != "RTP"@.len()); }
                    PaymentMethodType::REWARD => { assert("REWARD"@.len() != "RTP"@.len()); }
                    PaymentMethodType::CASH => { assert("CASH"@.len() != "RTP"@.len()); }
                    PaymentMethodType::AADHAAR => { assert("AADHAAR"@.len() != "RTP"@.len()); }
                    PaymentMethodType::PAPERNACH => { assert("PAPERNACH"@.len() != "RTP"@.len()); }
                    PaymentMethodType::PAN => { assert("PAN"@[0] != "RTP"@[0]); }
                    PaymentMethodType::MERCHANT_CONTAINER => { assert("MERCHANT_CONTAINER"@.len() != "RTP"@.len()); }
                    PaymentMethodType::Virtual_Account => { assert("VIRTUAL_ACCOUNT"@.len() != "RTP"@.len()); }
                    PaymentMethodType::OTC => { assert("OTC"@[0] != "RTP"@[0]); }
                    PaymentMethodType::RTP => {}
                    PaymentMethodType::CRYPTO => { assert("CRYPTO"@.len() != "RTP"@.len()); }
                    PaymentMethodType::CARD_QR => { assert("CARD_QR"@.len() != "RTP"@.len()); }
                    PaymentMethodType::UNKNOWN(_) => {}
                }
            }
        },
        PaymentMethodType::CRYPTO => {
            assert(q is CRYPTO) by {
                match q {
                    PaymentMethodType::WALLET => { assert("WALLET"@[0] != "CRYPTO"@[0]); }
                    PaymentMethodType::UPI => { assert("UPI"@.len() != "CRYPTO"@.len()); }
                    PaymentMethodType::NB => { assert("NB"@.len() != "CRYPTO"@.len()); }
                    PaymentMethodType::CARD => { assert("CARD"@.len() != "CRYPTO"@.len()); }
                    PaymentMethodType::PAYLATER => { assert("PAYLATER"@.len() != "CRYPTO"@.len()); }
                    PaymentMethodType::CONSUMER_FINANCE => { assert("CONSUMER_FINANCE"@.len() != "CRYPTO"@.len()); }
                    PaymentMethodType::REWARD => { assert("REWARD"@[0] != "CRYPTO"@[0]); }
                    PaymentMethodType::CASH => { assert("CASH"@.len() != "CRYPTO"@.len()); }
                    PaymentMethodType::AADHAAR => { assert("AADHAAR"@.len() != "CRYPTO"@.len()); }
                    PaymentMethodType::PAPERNACH => { assert("PAPERNACH"@.len() != "CRYPTO"@.len()); }
                    PaymentMethodType::PAN => { assert("PAN"@.len() != "CRYPTO"@.len()); }
                    PaymentMethodType::MERCHANT_CONTAINER => { assert("MERCHANT_CONTAINER"@.len() != "CRYPTO"@.len()); }
                    PaymentMethodType::Virtual_Account => { assert("VIRTUAL_ACCOUNT"@.len() != "CRYPTO"@.len()); }
                    PaymentMethodType::OTC => { assert("OTC"@.len() != "CRYPTO"@.len()); }
                    PaymentMethodType::RTP => { assert("RTP"@.len() != "CRYPTO"@.len()); }
                    PaymentMethodType::CRYPTO => {}
                    PaymentMethodType::CARD_QR => { assert("CARD_QR"@.len() != "CRYPTO"@.len()); }
                    PaymentMethodType::UNKNOWN(_) => {}
                }
            }
        },
        PaymentMethodType::CARD_QR => {
            assert(q is CARD_QR) by {
                match q {
                    PaymentMethodType::WALLET => { assert("WALLET"@.len() != "CARD_QR"@.len()); }
                    PaymentMethodType::UPI => { assert("UPI"@.len() != "CARD_QR"@.len()); }
                    PaymentMethodType::NB => { assert("NB"@.len() != "CARD_QR"@.len()); }
                    PaymentMethodType::CARD => { assert("CARD"@.len() != "CARD_QR"@.len()); }
                    PaymentMethodType::PAYLATER => { assert("PAYLATER"@.len() != "CARD_QR"@.len()); }
                    PaymentMethodType::CONSUMER_FINANCE => { assert("CONSUMER_FINANCE"@.len() != "CARD_QR"@.len()); }
                    PaymentMethodType::REWARD => { assert("REWARD"@.len() != "CARD_QR"@.len()); }
                    PaymentMethodType::CASH => { assert("CASH"@.len() != "CARD_QR"@.len()); }
                    PaymentMethodType::AADHAAR => { assert("AADHAAR"@[0] != "CARD_QR"@[0]); }
                    PaymentMethodType::PAPERNACH => { assert("PAPERNACH"@.len() != "CARD_QR"@.len()); }
                    PaymentMethodType::PAN => { assert("PAN"@.len() != "CARD_QR"@.len()); }
                    PaymentMethodType::MERCHANT_CONTAINER => { assert("MERCHANT_CONTAINER"@.len() != "CARD_QR"@.len()); }
                    PaymentMethodType::Virtual_Account => { assert("VIRTUAL_ACCOUNT"@.len() != "CARD_QR"@.len()); }
                    PaymentMethodType::OTC => { assert("OTC"@.len() != "CARD_QR"@.len()); }
                    PaymentMethodType::RTP => { assert("RTP"@.len() != "CARD_QR"@.len()); }
                    PaymentMethodType::CRYPTO => { assert("CRYPTO"@.len() != "CARD_QR"@.len()); }
                    PaymentMethodType::CARD_QR => {}
                    PaymentMethodType::UNKNOWN(_) => {}
                }
            }
        },
        PaymentMethodType::UNKNOWN(_) => {},
    }
}

/// The names of the named payment method types are ASCII uppercase text.
pub proof fn lemma_payment_method_type_names_ascii_upper(p: PaymentMethodType)
    requires
        !(p is UNKNOWN),
    ensures
        is_ascii_upper_text(payment_method_type_text(p)),
{
    reveal_strlit("WALLET");
    reveal_strlit("UPI");
    reveal_strlit("NB");
    reveal_strlit("CARD");
    reveal_strlit("PAYLATER");
    reveal_strlit("CONSUMER_FINANCE");
    reveal_strlit("REWARD");
    reveal_strlit("CASH");
    reveal_strlit("AADHAAR");
    reveal_strlit("PAPERNACH");
    reveal_strlit("PAN");
    reveal_strlit("MERCHANT_CONTAINER");
    reveal_strlit("VIRTUAL_ACCOUNT");
    reveal_strlit("OTC");
    reveal_strlit("RTP");
    reveal_strlit("CRYPTO");
    reveal_strlit("CARD_QR");
}

/// Reading back the text that [`defaultEnumEncodeT`] wrote for a named payment method
/// type gives that type again: `r` is any result that [`defaultEnumDecodeT`]'s contract
/// admits for that text.
pub proof fn lemma_decode_encode_roundtrip(p: PaymentMethodType, r: PaymentMethodType)
    requires
        !(p is UNKNOWN),
        payment_method_type_text(r) == str_to_uppercase(payment_method_type_text(p)),
        is_ascii_upper_text(payment_method_type_text(p)) ==> payment_method_type_text(r) == payment_method_type_text(p),
        r is UNKNOWN <==> !is_known_payment_method_type_text(str_to_uppercase(payment_method_type_text(p))),
    ensures
        r == p,
{
    lemma_payment_method_type_names_ascii_upper(p);
    assert(is_known_payment_method_type_text(payment_method_type_text(p)));
    lemma_payment_method_type_text_injective(p, r);
}

/// Writing out what [`defaultEnumDecodeT`] read from `s` gives `s` in uppercase: `r` is
/// any result its contract admits for `s`, and `w` what [`defaultEnumEncodeT`]'s
/// contract admits for `r`.
pub proof fn lemma_encode_decode_uppercases(s: Seq<char>, r: PaymentMethodType, w: Seq<char>)
    requires
        payment_method_type_text(r) == str_to_uppercase(s),
        w == payment_method_type_text(r),
    ensures
        w == str_to_uppercase(s),
{
}

} // verus!
