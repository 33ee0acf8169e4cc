use er_performance_tweaks::config::{load_config, parse_config, Config};
use er_performance_tweaks::text::{parse_u64, to_chars, to_text, trim};

fn chars(text: &str) -> Vec<char> {
    text.chars().collect()
}

#[test]
fn missing_file_gives_every_default() {
    let config = load_config(None);
    assert!(config.enable_logging);
    assert_eq!(config.init_delay, 3);
    assert!(config.smart_wait);
    assert_eq!(config.priority_level, 1);
    assert!(config.bypass_core0);
    assert!(config.prefer_pcores);
    assert!(config.high_precision_timer);
    assert_eq!(config.mmcss_profile, "Pro Audio");
    assert_eq!(config.window_title, "");
    assert!(config.optimize_working_set);
    assert!(config.disable_throttling);
    assert!(config.prevent_sleep);
    assert_eq!(config, Config::default());
}

#[test]
fn empty_text_gives_every_default() {
    assert_eq!(parse_config(""), Config::default());
    assert_eq!(load_config(Some("")), Config::default());
    assert_eq!(parse_config("\n\n  \n"), Config::default());
}

#[test]
fn every_key_is_read() {
    let text = "EnableLogging=false\nInitDelay=7\nSmartWait=false\nPriorityLevel=3\n\
                BypassCore0=false\nPreferPCores=false\nHighPrecisionTimer=false\n\
                MMCSSProfile=Games\nWindowTitle=My Window\nOptimizeWorkingSet=false\n\
                DisableThrottling=false\nPreventSleep=false\n";
    let config = parse_config(text);
    let expected = Config {
        enable_logging: false,
        init_delay: 7,
        smart_wait: false,
        priority_level: 3,
        bypass_core0: false,
        prefer_pcores: false,
        high_precision_timer: false,
        mmcss_profile: String::from("Games"),
        window_title: String::from("My Window"),
        optimize_working_set: false,
        disable_throttling: false,
        prevent_sleep: false,
    };
    assert_eq!(config, expected);
}

#[test]
fn comments_and_white_space_are_dropped() {
    let text = "; a comment line\n  PriorityLevel  =  2   ; high\r\n\tInitDelay=10;PriorityLevel=0\n";
    let config = parse_config(text);
    assert_eq!(config.priority_level, 2);
    assert_eq!(config.init_delay, 10);
}

#[test]
fn unicode_white_space_is_trimmed() {
    let config = parse_config("\u{3000}PriorityLevel\u{A0}=\u{2003}3\u{85}\n");
    assert_eq!(config.priority_level, 3);
}

#[test]
fn unknown_keys_and_lines_without_equals_change_nothing() {
    let text = "Nonsense=1\njust words\nprioritylevel=3\n=5\n[Section]\n";
    assert_eq!(parse_config(text), Config::default());
}

#[test]
fn malformed_numbers_keep_the_default() {
    assert_eq!(parse_config("InitDelay=abc").init_delay, 3);
    assert_eq!(parse_config("InitDelay=").init_delay, 3);
    assert_eq!(parse_config("InitDelay=-1").init_delay, 3);
    assert_eq!(parse_config("InitDelay=1.5").init_delay, 3);
    assert_eq!(parse_config("InitDelay=+").init_delay, 3);
    assert_eq!(parse_config("InitDelay=1 2").init_delay, 3);
    assert_eq!(parse_config("PriorityLevel=two").priority_level, 1);
    assert_eq!(parse_config("PriorityLevel=4294967296").priority_level, 1);
    assert_eq!(parse_config("InitDelay=18446744073709551616").init_delay, 3);
    assert_eq!(parse_config("InitDelay=99999999999999999999999999").init_delay, 3);
}

#[test]
fn well_formed_numbers_are_taken() {
    assert_eq!(parse_config("InitDelay=0").init_delay, 0);
    assert_eq!(parse_config("InitDelay=+12").init_delay, 12);
    assert_eq!(parse_config("InitDelay=007").init_delay, 7);
    assert_eq!(parse_config("InitDelay=18446744073709551615").init_delay, u64::MAX);
    assert_eq!(parse_config("PriorityLevel=4294967295").priority_level, u32::MAX);
    assert_eq!(parse_config("PriorityLevel=0").priority_level, 0);
}

#[test]
fn malformed_toggles_keep_the_default() {
    assert!(parse_config("SmartWait=yes").smart_wait);
    assert!(parse_config("SmartWait=0").smart_wait);
    assert!(parse_config("SmartWait=").smart_wait);
    assert!(parse_config("SmartWait=truee").smart_wait);
    assert!(parse_config("SmartWait=fals").smart_wait);
}

#[test]
fn toggles_read_true_and_false_in_any_case() {
    assert!(!parse_config("SmartWait=false").smart_wait);
    assert!(!parse_config("SmartWait=FALSE").smart_wait);
    assert!(!parse_config("SmartWait=False").smart_wait);
    assert!(parse_config("SmartWait=false\nSmartWait=TRUE").smart_wait);
    assert!(parse_config("SmartWait=false\nSmartWait=tRuE").smart_wait);
}

#[test]
fn a_malformed_value_leaves_what_an_earlier_line_set() {
    assert_eq!(parse_config("PriorityLevel=3\nPriorityLevel=x").priority_level, 3);
    assert!(!parse_config("PreventSleep=false\nPreventSleep=maybe").prevent_sleep);
}

#[test]
fn later_lines_win() {
    assert_eq!(parse_config("PriorityLevel=3\nPriorityLevel=2").priority_level, 2);
}

#[test]
fn string_values_keep_inner_spaces_and_later_equals_signs() {
    let config = parse_config("WindowTitle =  ELDEN RING = NIGHTREIGN  \nMMCSSProfile=Pro Audio");
    assert_eq!(config.window_title, "ELDEN RING = NIGHTREIGN");
    assert_eq!(config.mmcss_profile, "Pro Audio");
    assert_eq!(parse_config("WindowTitle=").window_title, "");
    assert_eq!(parse_config("MMCSSProfile=").mmcss_profile, "");
}

#[test]
fn last_line_needs_no_line_end() {
    assert_eq!(parse_config("InitDelay=1\nPriorityLevel=2").priority_level, 2);
}

#[test]
fn set_gives_one_option_a_value() {
    let mut config = Config::default();
    config.set(&chars("InitDelay"), &chars("42"));
    assert_eq!(config.init_delay, 42);
    config.set(&chars("Unknown"), &chars("42"));
    config.read_line(&chars(" BypassCore0 = false ; off"));
    assert!(!config.bypass_core0);
    let mut expected = Config::default();
    expected.init_delay = 42;
    expected.bypass_core0 = false;
    assert_eq!(config, expected);
}

#[test]
fn text_and_characters_convert_both_ways() {
    assert_eq!(to_chars("a™b"), vec!['a', '™', 'b']);
    assert_eq!(to_text(&['a', '™', 'b']), "a™b");
    assert_eq!(to_text(&[]), "");
    assert_eq!(trim(&chars("  a b \t")), &['a', ' ', 'b'][..]);
    assert_eq!(trim(&chars(" \t ")), &[][..]);
}

#[test]
fn numbers_parse_exactly() {
    assert_eq!(parse_u64(&chars("0")), Some(0));
    assert_eq!(parse_u64(&chars("40000")), Some(40000));
    assert_eq!(parse_u64(&chars("+5")), Some(5));
    assert_eq!(parse_u64(&chars("18446744073709551615")), Some(u64::MAX));
    assert_eq!(parse_u64(&chars("18446744073709551616")), None);
    assert_eq!(parse_u64(&chars("")), None);
    assert_eq!(parse_u64(&chars("+")), None);
    assert_eq!(parse_u64(&chars("++1")), None);
    assert_eq!(parse_u64(&chars("12a")), None);
    assert_eq!(parse_u64(&chars("٣")), None);
}
