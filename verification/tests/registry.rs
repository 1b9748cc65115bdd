use usioption::{CollaboratorCall, DecimalError, OptionError, OptionKind, UsiOptions};

const DECLARATION: &str = "option name Byoyomi_Margin type spin    default 500 min 0 max 9223372036854775807
option name Clear_Hash type button
option name Eval_Dir type string  default eval/20190617
option name Eval_Hash type spin    default 256 min 1 max 1048576
option name Minimum_Thinking_Time type spin    default 20 min 0 max 5000
option name MultiPV type spin    default 1 min 1 max 500
option name Slow_Mover type spin    default 84 min 10 max 1000
option name Threads type spin    default 1 min 1 max 8192
option name Time_Margin type spin    default 500 min 0 max 9223372036854775807
option name USI_Hash type spin    default 256 min 1 max 1048576
option name USI_Ponder type check   default true";

const SPINS: [(&str, i64, i64, i64); 8] = [
    ("Byoyomi_Margin", 500, 0, i64::MAX),
    ("Eval_Hash", 256, 1, 1048576),
    ("Minimum_Thinking_Time", 20, 0, 5000),
    ("MultiPV", 1, 1, 500),
    ("Slow_Mover", 84, 10, 1000),
    ("Threads", 1, 1, 8192),
    ("Time_Margin", 500, 0, i64::MAX),
    ("USI_Hash", 256, 1, 1048576),
];

/// Everything that can be read from a registry.
fn snapshot(options: &UsiOptions) -> (Vec<i64>, String, bool, String) {
    let spins = SPINS.iter().map(|(key, _, _, _)| options.get_i64(key)).collect();
    (
        spins,
        options.get_string("Eval_Dir"),
        options.get_bool("USI_Ponder"),
        options.to_usi_string(),
    )
}

#[test]
fn fresh_registry_holds_the_catalog_defaults() {
    let options = UsiOptions::new();
    for (key, default, _, _) in SPINS {
        assert_eq!(options.kind(key), Some(OptionKind::Spin), "{}", key);
        assert_eq!(options.get_i64(key), default, "{}", key);
    }
    assert_eq!(options.kind("Eval_Dir"), Some(OptionKind::StringOption));
    assert_eq!(options.get_string("Eval_Dir"), "eval/20190617");
    assert_eq!(options.kind("USI_Ponder"), Some(OptionKind::Check));
    assert!(options.get_bool("USI_Ponder"));
    assert_eq!(options.kind("Clear_Hash"), Some(OptionKind::Button));
}

#[test]
fn key_constants_name_the_catalog() {
    assert_eq!(UsiOptions::BYOYOMI_MARGIN, "Byoyomi_Margin");
    assert_eq!(UsiOptions::CLEAR_HASH, "Clear_Hash");
    assert_eq!(UsiOptions::EVAL_DIR, "Eval_Dir");
    assert_eq!(UsiOptions::EVAL_HASH, "Eval_Hash");
    assert_eq!(UsiOptions::MINIMUM_THINKING_TIME, "Minimum_Thinking_Time");
    assert_eq!(UsiOptions::MULTI_PV, "MultiPV");
    assert_eq!(UsiOptions::SLOW_MOVER, "Slow_Mover");
    assert_eq!(UsiOptions::THREADS, "Threads");
    assert_eq!(UsiOptions::TIME_MARGIN, "Time_Margin");
    assert_eq!(UsiOptions::USI_HASH, "USI_Hash");
    assert_eq!(UsiOptions::USI_PONDER, "USI_Ponder");
}

#[test]
fn kind_of_an_unknown_key_is_none() {
    let options = UsiOptions::new();
    assert_eq!(options.kind("Hash"), None);
    assert_eq!(options.kind(""), None);
    assert_eq!(options.kind("threads"), None);
    assert_eq!(options.kind("Threads "), None);
    assert_eq!(options.kind("Threadsé"), None);
}

#[test]
fn scenario_of_a_session() {
    let mut options = UsiOptions::new();
    let mut is_ready = true;
    assert_eq!(options.get_i64("Threads"), 1);

    assert_eq!(
        options.set("Threads", "4", &mut is_ready),
        Ok(Some(CollaboratorCall::ResizeThreadPool(4)))
    );
    assert_eq!(options.get_i64("Threads"), 4);

    assert_eq!(
        options.set("Eval_Hash", "99999999", &mut is_ready),
        Ok(Some(CollaboratorCall::ResizeEvalHash(1048576)))
    );
    assert_eq!(options.get_i64("Eval_Hash"), 1048576);

    assert_eq!(
        options.set("USI_Ponder", "maybe", &mut is_ready),
        Err(OptionError::IllegalValue)
    );
    assert!(options.get_bool("USI_Ponder"));

    let before = snapshot(&options);
    assert_eq!(options.push_button("MultiPV"), Err(OptionError::NotButton));
    assert_eq!(snapshot(&options), before);
    assert!(is_ready);
}

#[test]
fn set_clamps_every_spin_to_its_bounds() {
    for (key, _, min, max) in SPINS {
        let inputs = [
            i64::MIN,
            -1,
            0,
            1,
            9,
            10,
            11,
            499,
            500,
            501,
            1000,
            1001,
            4999,
            5000,
            5001,
            8192,
            8193,
            1048575,
            1048576,
            1048577,
            i64::MAX - 1,
            i64::MAX,
        ];
        for n in inputs {
            let mut options = UsiOptions::new();
            let mut is_ready = true;
            let result = options.set(key, &n.to_string(), &mut is_ready);
            assert!(result.is_ok(), "{} {}", key, n);
            assert_eq!(options.get_i64(key), n.clamp(min, max), "{} {}", key, n);
            assert!(is_ready);
        }
    }
}

#[test]
fn set_spin_accepts_a_plus_sign_and_leading_zeros() {
    let mut options = UsiOptions::new();
    let mut is_ready = true;
    assert_eq!(options.set("MultiPV", "+7", &mut is_ready), Ok(None));
    assert_eq!(options.get_i64("MultiPV"), 7);
    assert_eq!(options.set("MultiPV", "0042", &mut is_ready), Ok(None));
    assert_eq!(options.get_i64("MultiPV"), 42);
    assert_eq!(options.set("MultiPV", "-3", &mut is_ready), Ok(None));
    assert_eq!(options.get_i64("MultiPV"), 1);
}

#[test]
fn set_spin_turns_down_what_is_no_integer() {
    let cases = [
        ("", DecimalError::Empty),
        ("+", DecimalError::InvalidDigit),
        ("-", DecimalError::InvalidDigit),
        ("abc", DecimalError::InvalidDigit),
        ("12 ", DecimalError::InvalidDigit),
        (" 12", DecimalError::InvalidDigit),
        ("1_000", DecimalError::InvalidDigit),
        ("1.5", DecimalError::InvalidDigit),
        ("٣", DecimalError::InvalidDigit),
        ("9223372036854775808", DecimalError::PosOverflow),
        ("-9223372036854775809", DecimalError::NegOverflow),
    ];
    for (text, kind) in cases {
        let mut options = UsiOptions::new();
        let mut is_ready = true;
        options.set("Slow_Mover", "100", &mut is_ready).unwrap();
        let before = snapshot(&options);
        assert_eq!(
            options.set("Slow_Mover", text, &mut is_ready),
            Err(OptionError::NotInteger(kind)),
            "{:?}",
            text
        );
        assert_eq!(snapshot(&options), before, "{:?}", text);
        assert!(is_ready);
    }
}

#[test]
fn set_dispatches_for_three_spins_only() {
    let mut options = UsiOptions::new();
    let mut is_ready = true;
    assert_eq!(
        options.set("Eval_Hash", "512", &mut is_ready),
        Ok(Some(CollaboratorCall::ResizeEvalHash(512)))
    );
    assert_eq!(
        options.set("Threads", "8", &mut is_ready),
        Ok(Some(CollaboratorCall::ResizeThreadPool(8)))
    );
    assert_eq!(
        options.set("USI_Hash", "1024", &mut is_ready),
        Ok(Some(CollaboratorCall::ResizeResultCache(1024)))
    );
    for key in [
        "Byoyomi_Margin",
        "Minimum_Thinking_Time",
        "MultiPV",
        "Slow_Mover",
        "Time_Margin",
    ] {
        assert_eq!(options.set(key, "100", &mut is_ready), Ok(None), "{}", key);
        assert_eq!(options.get_i64(key), 100, "{}", key);
    }
    assert_eq!(options.set("USI_Ponder", "false", &mut is_ready), Ok(None));
    assert!(is_ready);
}

#[test]
fn set_dispatches_the_clamped_value() {
    let mut options = UsiOptions::new();
    let mut is_ready = true;
    assert_eq!(
        options.set("Threads", "0", &mut is_ready),
        Ok(Some(CollaboratorCall::ResizeThreadPool(1)))
    );
    assert_eq!(
        options.set("Threads", "100000", &mut is_ready),
        Ok(Some(CollaboratorCall::ResizeThreadPool(8192)))
    );
    assert_eq!(
        options.set("USI_Hash", "-5", &mut is_ready),
        Ok(Some(CollaboratorCall::ResizeResultCache(1)))
    );
    assert_eq!(
        options.set("Eval_Hash", "1048577", &mut is_ready),
        Ok(Some(CollaboratorCall::ResizeEvalHash(1048576)))
    );
}

#[test]
fn set_threads_resizes_the_pool_to_each_value_in_range() {
    for n in [1usize, 2, 3, 64, 4096, 8191, 8192] {
        let mut options = UsiOptions::new();
        let mut is_ready = true;
        assert_eq!(
            options.set("Threads", &n.to_string(), &mut is_ready),
            Ok(Some(CollaboratorCall::ResizeThreadPool(n)))
        );
        assert_eq!(options.get_i64("Threads"), n as i64);
    }
}

#[test]
fn set_string_takes_any_text() {
    let mut options = UsiOptions::new();
    let mut is_ready = false;
    for text in ["eval/other", "", "with space", "日本語", "true", "12"] {
        assert_eq!(options.set("Eval_Dir", text, &mut is_ready), Ok(None));
        assert_eq!(options.get_string("Eval_Dir"), text);
    }
}

#[test]
fn set_eval_dir_clears_the_ready_flag() {
    let mut options = UsiOptions::new();
    let mut is_ready = true;
    assert_eq!(options.set("Eval_Dir", "eval/new", &mut is_ready), Ok(None));
    assert!(!is_ready);
    assert_eq!(options.set("Eval_Dir", "eval/newer", &mut is_ready), Ok(None));
    assert!(!is_ready);
}

#[test]
fn set_of_another_option_keeps_the_ready_flag() {
    for ready in [true, false] {
        let mut options = UsiOptions::new();
        let mut is_ready = ready;
        options.set("Threads", "2", &mut is_ready).unwrap();
        options.set("USI_Ponder", "false", &mut is_ready).unwrap();
        options.set("Slow_Mover", "x", &mut is_ready).unwrap_err();
        options.set("Clear_Hash", "", &mut is_ready).unwrap_err();
        options.set("Eval_dir", "eval/new", &mut is_ready).unwrap_err();
        assert_eq!(is_ready, ready);
    }
}

#[test]
fn set_check_takes_true_and_false() {
    let mut options = UsiOptions::new();
    let mut is_ready = true;
    assert_eq!(options.set("USI_Ponder", "false", &mut is_ready), Ok(None));
    assert!(!options.get_bool("USI_Ponder"));
    assert_eq!(options.set("USI_Ponder", "true", &mut is_ready), Ok(None));
    assert!(options.get_bool("USI_Ponder"));
}

#[test]
fn set_check_turns_down_every_other_token() {
    for current in ["true", "false"] {
        for text in [
            "maybe", "", "True", "FALSE", "1", "0", "yes", "true ", " false", "truee", "tru",
            "fals", "trüe",
        ] {
            let mut options = UsiOptions::new();
            let mut is_ready = true;
            options.set("USI_Ponder", current, &mut is_ready).unwrap();
            let before = snapshot(&options);
            assert_eq!(
                options.set("USI_Ponder", text, &mut is_ready),
                Err(OptionError::IllegalValue),
                "{:?}",
                text
            );
            assert_eq!(options.get_bool("USI_Ponder"), current == "true");
            assert_eq!(snapshot(&options), before);
        }
    }
}

#[test]
fn set_of_a_button_is_turned_down() {
    let mut options = UsiOptions::new();
    let mut is_ready = true;
    let before = snapshot(&options);
    assert_eq!(
        options.set("Clear_Hash", "true", &mut is_ready),
        Err(OptionError::IsButton)
    );
    assert_eq!(options.set("Clear_Hash", "", &mut is_ready), Err(OptionError::IsButton));
    assert_eq!(snapshot(&options), before);
    assert!(is_ready);
}

#[test]
fn unknown_key_changes_nothing() {
    let mut options = UsiOptions::new();
    let mut is_ready = true;
    options.set("Threads", "16", &mut is_ready).unwrap();
    options.set("USI_Ponder", "false", &mut is_ready).unwrap();
    let before = snapshot(&options);
    let keys = [
        "Hash",
        "",
        "threads",
        "Threads ",
        "USI_Hash2",
        "Eval",
        "Clear_Hash\n",
        "Ｔhreads",
    ];
    for key in keys {
        for text in ["1", "true", ""] {
            assert_eq!(
                options.set(key, text, &mut is_ready),
                Err(OptionError::IllegalName),
                "{:?}",
                key
            );
        }
        assert_eq!(options.push_button(key), Err(OptionError::IllegalName), "{:?}", key);
        assert_eq!(snapshot(&options), before, "{:?}", key);
        assert!(is_ready);
    }
}

#[test]
fn push_clear_hash_clears_the_result_cache() {
    let options = UsiOptions::new();
    let before = snapshot(&options);
    assert_eq!(options.push_button("Clear_Hash"), Ok(CollaboratorCall::ClearResultCache));
    assert_eq!(snapshot(&options), before);
}

#[test]
fn push_of_what_is_no_button_is_turned_down() {
    let options = UsiOptions::new();
    let before = snapshot(&options);
    for key in [
        "Byoyomi_Margin",
        "Eval_Dir",
        "Eval_Hash",
        "Minimum_Thinking_Time",
        "MultiPV",
        "Slow_Mover",
        "Threads",
        "Time_Margin",
        "USI_Hash",
        "USI_Ponder",
    ] {
        assert_eq!(options.push_button(key), Err(OptionError::NotButton), "{}", key);
    }
    assert_eq!(snapshot(&options), before);
}

#[test]
fn declaration_of_a_fresh_registry() {
    assert_eq!(UsiOptions::new().to_usi_string(), DECLARATION);
}

#[test]
fn declaration_has_one_line_for_each_option_in_key_order() {
    let text = UsiOptions::new().to_usi_string();
    assert!(!text.ends_with('\n'));
    let lines: Vec<&str> = text.split('\n').collect();
    assert_eq!(lines.len(), 11);
    let keys: Vec<&str> = lines
        .iter()
        .map(|line| {
            let rest = line.strip_prefix("option name ").unwrap();
            &rest[..rest.find(" type ").unwrap()]
        })
        .collect();
    let mut sorted = keys.clone();
    sorted.sort_unstable();
    sorted.dedup();
    assert_eq!(keys, sorted);
    let options = UsiOptions::new();
    for key in keys {
        assert!(options.kind(key).is_some(), "{}", key);
    }
    let mut sorted_lines = lines.clone();
    sorted_lines.sort_unstable();
    assert_eq!(lines, sorted_lines);
}

#[test]
fn declaration_does_not_show_current_values() {
    let mut options = UsiOptions::new();
    let mut is_ready = true;
    options.set("Threads", "32", &mut is_ready).unwrap();
    options.set("Byoyomi_Margin", "0", &mut is_ready).unwrap();
    options.set("Eval_Dir", "elsewhere", &mut is_ready).unwrap();
    options.set("USI_Ponder", "false", &mut is_ready).unwrap();
    assert_eq!(options.to_usi_string(), DECLARATION);
}

#[test]
fn clone_holds_the_same_values_and_changes_apart() {
    let mut options = UsiOptions::new();
    let mut is_ready = true;
    options.set("Threads", "12", &mut is_ready).unwrap();
    options.set("Eval_Dir", "eval/a", &mut is_ready).unwrap();
    let mut copy = options.clone();
    assert_eq!(snapshot(&copy), snapshot(&options));
    copy.set("Threads", "3", &mut is_ready).unwrap();
    copy.set("Eval_Dir", "eval/b", &mut is_ready).unwrap();
    assert_eq!(options.get_i64("Threads"), 12);
    assert_eq!(options.get_string("Eval_Dir"), "eval/a");
    assert_eq!(copy.get_i64("Threads"), 3);
    assert_eq!(copy.get_string("Eval_Dir"), "eval/b");
}
