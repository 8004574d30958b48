use minecraft_utils::compute_pattern_hash;
use minecraft_utils::BlockedServers;

/// The demonstration blocklist: `*.example.com`, `192.0.*` and `127.0.0.1`,
/// each stored as the lowercase hex SHA-1 digest of the pattern.
fn example_servers() -> BlockedServers {
    BlockedServers {
        hashes: vec![
            // *.example.com
            String::from("8c7122d652cb7be22d1986f1f30b07fd5108d9c0"),
            // 192.0.*
            String::from("8c15fb642b3e8f58480df51798382f1016e748eb"),
            // 127.0.0.1
            String::from("4b84b15bff6ee5796152495a230e45e3d7e947d9"),
        ],
    }
}

#[test]
fn worked_example() {
    let blocked = example_servers();
    assert!(blocked.is_blocked("127.0.0.1"));
    assert_eq!(
        blocked.find_blocked_pattern("mc.example.com"),
        Some(String::from("*.example.com"))
    );
    assert_eq!(
        blocked.find_blocked_pattern("192.0.2.235"),
        Some(String::from("192.0.*"))
    );
    assert_eq!(
        blocked.find_blocked_pattern("127.0.0.1"),
        Some(String::from("127.0.0.1"))
    );
    assert_eq!(blocked.find_blocked_pattern("127.0.0.2"), None);
}

#[test]
fn pattern_hash_is_lowercase_hex_sha1() {
    assert_eq!(
        compute_pattern_hash("*.example.com"),
        "8c7122d652cb7be22d1986f1f30b07fd5108d9c0"
    );
    assert_eq!(
        compute_pattern_hash("127.0.0.1"),
        "4b84b15bff6ee5796152495a230e45e3d7e947d9"
    );
}

#[test]
fn pattern_blocked_membership() {
    let blocked = example_servers();
    assert!(blocked.is_pattern_blocked("*.example.com"));
    assert!(!blocked.is_pattern_blocked("example.com"));
}

#[test]
fn comparison_is_case_sensitive() {
    // An entry stored as uppercase hex never matches: the set has to be
    // normalized to lowercase at load time.
    let blocked = BlockedServers {
        hashes: vec![String::from("8C7122D652CB7BE22D1986F1F30B07FD5108D9C0")],
    };
    assert!(!blocked.is_pattern_blocked("*.example.com"));
    assert!(!blocked.is_blocked("mc.example.com"));
}

#[test]
fn exact_match_wins_over_generalization() {
    // Both the verbatim address and a wildcard covering it are listed: the
    // verbatim address is returned.
    let blocked = BlockedServers {
        hashes: vec![
            // *.example.com
            String::from("8c7122d652cb7be22d1986f1f30b07fd5108d9c0"),
            // mc.example.com
            String::from("5303a76c19617a55ae2c2102319038f225fcc328"),
        ],
    };
    assert_eq!(
        blocked.find_blocked_pattern("mc.example.com"),
        Some(String::from("mc.example.com"))
    );
}

#[test]
fn more_specific_suffix_wins() {
    // With both *.example.com and *.com listed, the longer suffix is found
    // first, never *.com.
    let blocked = BlockedServers {
        hashes: vec![
            // *.com
            String::from("69120e54f25786e49950f8ddedb41f26964f1a75"),
            // *.example.com
            String::from("8c7122d652cb7be22d1986f1f30b07fd5108d9c0"),
        ],
    };
    assert_eq!(
        blocked.find_blocked_pattern("mc.example.com"),
        Some(String::from("*.example.com"))
    );
}

#[test]
fn least_specific_suffix_still_found() {
    let blocked = BlockedServers {
        hashes: vec![
            // *.com
            String::from("69120e54f25786e49950f8ddedb41f26964f1a75"),
        ],
    };
    assert_eq!(
        blocked.find_blocked_pattern("mc.example.com"),
        Some(String::from("*.com"))
    );
}

#[test]
fn ipv4_prefix_generalization() {
    // Only 192.0.* is listed; querying a full address under it finds the
    // prefix pattern.
    let blocked = BlockedServers {
        hashes: vec![
            // 192.0.*
            String::from("8c15fb642b3e8f58480df51798382f1016e748eb"),
        ],
    };
    assert_eq!(
        blocked.find_blocked_pattern("192.0.2.235"),
        Some(String::from("192.0.*"))
    );
}

#[test]
fn ipv4_most_specific_prefix_wins() {
    let blocked = BlockedServers {
        hashes: vec![
            // 192.0.*
            String::from("8c15fb642b3e8f58480df51798382f1016e748eb"),
            // 192.0.2.*
            String::from("c2dbaca5497c1143b5592446300eb26b1b19e415"),
        ],
    };
    assert_eq!(
        blocked.find_blocked_pattern("192.0.2.235"),
        Some(String::from("192.0.2.*"))
    );
}

#[test]
fn ipv4_addresses_generalize_by_prefix_only() {
    // An address classified as IPv4 is generalized by dropping trailing
    // octets; hostname-style suffix patterns are never tried for it.
    let suffix_only = BlockedServers {
        hashes: vec![
            // *.2.3.4
            String::from("ab58c8c4695f3f43cf5519dd71eb9cf43a315c9e"),
        ],
    };
    assert_eq!(suffix_only.find_blocked_pattern("1.2.3.4"), None);
    let prefix = BlockedServers {
        hashes: vec![
            // 1.2.3.*
            String::from("c0f5a2808e7f63e0cc63e0d374a1a4a711c818c1"),
        ],
    };
    assert_eq!(
        prefix.find_blocked_pattern("1.2.3.4"),
        Some(String::from("1.2.3.*"))
    );
}

#[test]
fn numeric_labels_with_leading_zeros_classify_as_ipv4() {
    // The classifier is deliberately naive: leading zeros are accepted, so
    // this address takes the prefix-generalization route.
    let blocked = BlockedServers {
        hashes: vec![
            // 010.0.*
            String::from("e67a0391e2e47f0c80c65da3ff45c482c00b3485"),
        ],
    };
    assert_eq!(
        blocked.find_blocked_pattern("010.0.0.1"),
        Some(String::from("010.0.*"))
    );
}

#[test]
fn no_match_returns_none() {
    let blocked = example_servers();
    assert_eq!(blocked.find_blocked_pattern("mc.example.org"), None);
    assert!(!blocked.is_blocked("mc.example.org"));
}

#[test]
fn is_blocked_agrees_with_find_blocked_pattern() {
    let blocked = example_servers();
    for address in [
        "mc.example.com",
        "mc.example.org",
        "192.0.2.235",
        "127.0.0.1",
        "127.0.0.2",
        "",
        "localhost",
    ] {
        assert_eq!(
            blocked.is_blocked(address),
            blocked.find_blocked_pattern(address).is_some()
        );
    }
}

#[test]
fn repeated_queries_agree() {
    let blocked = example_servers();
    for address in ["mc.example.com", "192.0.2.235", "127.0.0.2"] {
        let first = blocked.find_blocked_pattern(address);
        let second = blocked.find_blocked_pattern(address);
        assert_eq!(first, second);
    }
}

#[test]
fn empty_hash_set_blocks_nothing() {
    let blocked = BlockedServers { hashes: vec![] };
    assert_eq!(blocked.find_blocked_pattern("mc.example.com"), None);
    assert_eq!(blocked.find_blocked_pattern("192.0.2.235"), None);
}

#[test]
fn empty_address_tests_only_the_verbatim_candidate() {
    // The split of "" is one empty part, so only the empty address itself is
    // a candidate.
    let blocked = BlockedServers {
        hashes: vec![
            // the empty pattern
            String::from("da39a3ee5e6b4b0d3255bfef95601890afd80709"),
        ],
    };
    assert_eq!(blocked.find_blocked_pattern(""), Some(String::from("")));
    let none = BlockedServers { hashes: vec![] };
    assert_eq!(none.find_blocked_pattern(""), None);
}

#[test]
fn single_part_address_has_no_generalizations() {
    let blocked = BlockedServers {
        hashes: vec![
            // a
            String::from("86f7e437faa5a7fce15d1ddcb9eaeaea377667b8"),
        ],
    };
    assert_eq!(blocked.find_blocked_pattern("a"), Some(String::from("a")));
    assert_eq!(blocked.find_blocked_pattern("b"), None);
}
