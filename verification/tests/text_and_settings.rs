use open_router::decider::env_vars::{
    euler_endpoint, euler_prod_internal_endpoint, is_passed_gpm, merchant_disabled_for_sodexo_duplicate_check,
    number_of_streams_for_routing_metrics,
};
use open_router::decider::runner::{merchantGatewayPriorityList, trim};
use open_router::generics::{to_optional, MeshError};
use open_router::text::{
    cat, cat3, clone_opt, contains_str_pattern, lex_less, opt_is, parse_i32, split_on_char, str_eq, string_or,
    string_or_empty,
};

fn s(x: &str) -> String {
    x.to_string()
}

#[test]
fn parse_i32_reads_signed_decimals() {
    assert_eq!(parse_i32("123"), Some(123));
    assert_eq!(parse_i32("-5"), Some(-5));
    assert_eq!(parse_i32("+7"), Some(7));
    assert_eq!(parse_i32("2147483647"), Some(i32::MAX));
    assert_eq!(parse_i32("-2147483648"), Some(i32::MIN));
}

#[test]
fn parse_i32_rejects_other_text() {
    assert_eq!(parse_i32(""), None);
    assert_eq!(parse_i32("-"), None);
    assert_eq!(parse_i32("12a"), None);
    assert_eq!(parse_i32(" 1"), None);
    assert_eq!(parse_i32("2147483648"), None);
    assert_eq!(parse_i32("-2147483649"), None);
}

#[test]
fn split_keeps_empty_pieces() {
    assert_eq!(split_on_char("a,,b", ','), vec![s("a"), s(""), s("b")]);
    assert_eq!(split_on_char("", ','), vec![s("")]);
    assert_eq!(split_on_char(",", ','), vec![s(""), s("")]);
}

#[test]
fn joining_split_pieces_restores_the_text() {
    for text in ["m1,m2,,m3", "", ",", "abc", "a,b,"] {
        let pieces = split_on_char(text, ',');
        assert_eq!(pieces.join(","), text);
        assert!(pieces.iter().all(|p| !p.contains(',')));
    }
}

#[test]
fn lex_less_orders_like_string() {
    let words = ["", "a", "ab", "b", "B", "PAYU", "PAYTM", "razorpay"];
    for a in words {
        for b in words {
            assert_eq!(lex_less(a, b), a < b, "{} {}", a, b);
        }
    }
}

#[test]
fn string_helpers() {
    assert!(str_eq("abc", "abc"));
    assert!(!str_eq("abc", "abd"));
    assert!(contains_str_pattern("SR_SELECTION_V3_ROUTING", "V3"));
    assert!(!contains_str_pattern("SR_SELECTION_V2_ROUTING", "V3"));
    assert!(contains_str_pattern("x", ""));
    assert_eq!(cat("ab", "cd"), "abcd");
    assert_eq!(cat3("a", "b", "c"), "abc");
    assert_eq!(string_or(&None, "card"), "card");
    assert_eq!(string_or(&Some(s("x")), "card"), "x");
    assert_eq!(string_or_empty(&None), "");
    assert_eq!(clone_opt(&Some(s("y"))), Some(s("y")));
    assert!(opt_is(&Some(s("UPI")), "UPI"));
    assert!(!opt_is(&None, "UPI"));
}

#[test]
fn trim_removes_white_space_at_both_ends() {
    assert_eq!(trim("  PAYU \t"), "PAYU");
    assert_eq!(trim(" ICICI"), "ICICI");
    assert!(open_router::feedback::utils::char_is_whitespace('\u{85}'));
    assert!(!open_router::feedback::utils::char_is_whitespace('\u{200b}'));
    assert_eq!(trim("a b"), "a b");
    assert_eq!(trim("   "), "");
    assert_eq!(trim(""), "");
    assert_eq!(trim("\u{3000}x\n"), "x");
}

#[test]
fn merchant_priority_text_becomes_a_list() {
    assert_eq!(merchantGatewayPriorityList(&None), Vec::<String>::new());
    assert_eq!(merchantGatewayPriorityList(&Some(s(""))), Vec::<String>::new());
    assert_eq!(
        merchantGatewayPriorityList(&Some(s(" PAYU, RAZORPAY ,, ,HDFC"))),
        vec![s("PAYU"), s("RAZORPAY"), s("HDFC")]
    );
}

#[test]
fn priority_list_never_holds_an_empty_gateway() {
    let out = merchantGatewayPriorityList(&Some(s(",, a ,\t,b,")));
    assert_eq!(out, vec![s("a"), s("b")]);
    assert!(out.iter().all(|g| !g.is_empty()));
}

#[test]
fn endpoints_fall_back_in_order() {
    assert_eq!(euler_prod_internal_endpoint(None), "http://euler.prod.internal.mum.juspay.net");
    assert_eq!(euler_prod_internal_endpoint(Some(s("http://x"))), "http://x");
    assert_eq!(euler_endpoint(Some(s("http://a")), Some(s("http://b"))), "http://a");
    assert_eq!(euler_endpoint(None, Some(s("http://b"))), "http://b");
    assert_eq!(euler_endpoint(None, None), "http://euler.prod.internal.mum.juspay.net");
}

#[test]
fn settings_read_from_text() {
    assert_eq!(is_passed_gpm(Some(s("true"))), Some(s("true")));
    assert_eq!(is_passed_gpm(None), None);
    assert_eq!(number_of_streams_for_routing_metrics(None), 1024);
    assert_eq!(number_of_streams_for_routing_metrics(Some(s("16"))), 16);
    assert_eq!(merchant_disabled_for_sodexo_duplicate_check(Some(s("m1,m2"))), vec![s("m1"), s("m2")]);
    assert_eq!(merchant_disabled_for_sodexo_duplicate_check(None), Vec::<String>::new());
}

#[test]
fn not_found_becomes_an_empty_lookup() {
    assert_eq!(to_optional(Ok::<i32, MeshError>(3)), Ok(Some(3)));
    assert_eq!(to_optional(Err::<i32, MeshError>(MeshError::NotFound)), Ok(None));
    assert_eq!(to_optional(Err::<i32, MeshError>(MeshError::Others)), Err(MeshError::Others));
    assert_eq!(to_optional(Err::<i32, MeshError>(MeshError::UniqueViolation)), Err(MeshError::UniqueViolation));
}

#[test]
fn storage_error_messages() {
    assert_eq!(MeshError::NotFound.message(), "The requested resource was not found in the database");
    assert_eq!(MeshError::DatabaseConnectionError.message(), "An error occurred when obtaining database connection");
    assert_eq!(MeshError::UniqueViolation.message(), "A unique constraint violation occurred");
    assert_eq!(MeshError::NoFieldsToUpdate.message(), "No fields were provided to be updated");
    assert_eq!(MeshError::QueryGenerationFailed.message(), "An error occurred when generating typed SQL query");
    assert_eq!(MeshError::Others.message(), "An unknown error occurred");
}

#[test]
fn trimming_twice_is_trimming_once() {
    for text in ["  a b  ", "\t\n", "x", "", " \u{2003}y\u{2003} "] {
        let once = trim(text);
        assert_eq!(trim(&once), once);
    }
}

#[test]
fn card_details_for_priority_logic() {
    assert_eq!(open_router::decider::runner::cardBin("4111111111111111"), "411111");
    assert_eq!(open_router::decider::runner::cardBin("4111"), "4111");
    let cat = open_router::decider::runner::cardSubTypeCategory;
    assert_eq!(cat(true, &Some(s("business")), &None), Some(s("BUSINESS")));
    assert_eq!(cat(true, &None, &Some(s("Corporate Gold"))), Some(s("CORPORATE")));
    assert_eq!(cat(true, &None, &Some(s("Small Business"))), Some(s("CORPORATE")));
    assert_eq!(cat(true, &None, &Some(s("Platinum"))), Some(s("RETAIL")));
    assert_eq!(cat(true, &None, &Some(s(""))), None);
    assert_eq!(cat(true, &None, &None), None);
    assert_eq!(cat(false, &Some(s("retail")), &None), None);
}
