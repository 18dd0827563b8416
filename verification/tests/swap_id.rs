use euclid::error::ContractError;
use euclid::swap::parse_swap_id;
use euclid::swap::SwapExtractedId;

// Name isn't being printed, but is useful as a title for each test case
#[allow(dead_code)]
struct TestGetSwapExtractedId {
    name: &'static str,
    id: &'static str,
    expected_error: Option<ContractError>,
    expected_result: Option<SwapExtractedId>,
}

#[test]
fn test_parse_swap_id() {
    let test_cases = vec![
        TestGetSwapExtractedId {
            name: "ID with sender and count",
            id: "eucl-10",
            expected_error: None,
            expected_result: Some(SwapExtractedId {
                sender: "eucl".to_string(),
                index: 10_u128,
            }),
        },
        // Not having a sender does not error
        TestGetSwapExtractedId {
            name: "ID with empty sender",
            id: "-10",
            expected_error: None,
            expected_result: Some(SwapExtractedId {
                sender: "".to_string(),
                index: 10_u128,
            }),
        },
        // Not having a count results in an error
        TestGetSwapExtractedId {
            name: "ID with empty count",
            id: "eucl-",
            expected_error: Some(ContractError::InvalidChainId {}),
            expected_result: Some(SwapExtractedId {
                sender: "".to_string(),
                index: 10_u128,
            }),
        },
    ];

    for test in test_cases {
        let res = parse_swap_id(test.id);

        if let Some(_err) = test.expected_error {
            assert!(res.is_err());
            continue;
        } else {
            assert_eq!(res.unwrap(), test.expected_result.unwrap())
        }
    }
}

#[test]
fn swap_id_counter_forms() {
    assert_eq!(
        parse_swap_id("a-+7"),
        Ok(SwapExtractedId { sender: "a".to_string(), index: 7 })
    );
    assert_eq!(
        parse_swap_id("a-12-rest"),
        Ok(SwapExtractedId { sender: "a".to_string(), index: 12 })
    );
    assert_eq!(
        parse_swap_id("é-340282366920938463463374607431768211455"),
        Ok(SwapExtractedId { sender: "é".to_string(), index: u128::MAX })
    );
    assert_eq!(
        parse_swap_id("a-340282366920938463463374607431768211456"),
        Err(ContractError::InvalidSwapId)
    );
    assert_eq!(parse_swap_id("a-1x"), Err(ContractError::InvalidSwapId));
    assert_eq!(parse_swap_id("a-+"), Err(ContractError::InvalidSwapId));
    assert_eq!(parse_swap_id("a--3"), Err(ContractError::InvalidSwapId));
}
