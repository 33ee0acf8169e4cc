//! The options that steer the agent.

use vstd::prelude::*;
use crate::text::{
    after, before, is_word, lemma_find_from_bounds, number_up_to, occurs, parse_u64, split_at_char,
    to_chars, to_text, trim, trimmed,
};

verus! {

/// A snapshot of the options, taken once before the agent starts.
#[derive(Debug, PartialEq, Eq)]
pub struct Config {
    /// Whether the completion signal, the closing line and the tone, is
    /// given at the end of the pipeline. The lines of the steps are
    /// written either way.
    pub enable_logging: bool,
    /// Seconds to wait before tuning where the smart wait is off.
    pub init_delay: u64,
    /// Whether to wait for the target's window before tuning.
    pub smart_wait: bool,
    /// Priority level: 0 normal, 1 above normal, 2 high, 3 realtime.
    pub priority_level: u32,
    /// Whether to keep the process off the first logical processor.
    pub bypass_core0: bool,
    /// Whether performance cores are preferred; no step reads it.
    pub prefer_pcores: bool,
    /// Whether to ask for the high-precision timer.
    pub high_precision_timer: bool,
    /// Profile name for the multimedia class scheduler.
    pub mmcss_profile: String,
    /// Window title to look for first; empty where there is none.
    pub window_title: String,
    /// Whether to raise the working-set bounds.
    pub optimize_working_set: bool,
    /// Whether to switch power throttling off.
    pub disable_throttling: bool,
    /// Whether to keep system and display awake.
    pub prevent_sleep: bool,
}

/// A configuration as contracts see it: every option, with the text of
/// the two that are strings.
pub struct Options {
    pub enable_logging: bool,
    pub init_delay: u64,
    pub smart_wait: bool,
    pub priority_level: u32,
    pub bypass_core0: bool,
    pub prefer_pcores: bool,
    pub high_precision_timer: bool,
    pub mmcss_profile: Seq<char>,
    pub window_title: Seq<char>,
    pub optimize_working_set: bool,
    pub disable_throttling: bool,
    pub prevent_sleep: bool,
}

impl View for Config {
    type V = Options;

    open spec fn view(&self) -> Options {
        Options {
            enable_logging: self.enable_logging,
            init_delay: self.init_delay,
            smart_wait: self.smart_wait,
            priority_level: self.priority_level,
            bypass_core0: self.bypass_core0,
            prefer_pcores: self.prefer_pcores,
            high_precision_timer: self.high_precision_timer,
            mmcss_profile: self.mmcss_profile@,
            window_title: self.window_title@,
            optimize_working_set: self.optimize_working_set,
            disable_throttling: self.disable_throttling,
            prevent_sleep: self.prevent_sleep,
        }
    }
}

/// The documented default of every option: every toggle on, a delay of
/// three seconds, priority level 1, the profile "Pro Audio", no custom
/// window title.
pub open spec fn default_options() -> Options {
    Options {
        enable_logging: true,
        init_delay: 3,
        smart_wait: true,
        priority_level: 1,
        bypass_core0: true,
        prefer_pcores: true,
        high_precision_timer: true,
        mmcss_profile: "Pro Audio"@,
        window_title: Seq::empty(),
        optimize_working_set: true,
        disable_throttling: true,
        prevent_sleep: true,
    }
}

impl Default for Config {
    /// The configuration in force where no option is given.
    fn default() -> (config: Self)
        ensures
            config@ == default_options(),
    {
        Config {
            enable_logging: true,
            init_delay: 3,
            smart_wait: true,
            priority_level: 1,
            bypass_core0: true,
            prefer_pcores: true,
            high_precision_timer: true,
            mmcss_profile: String::from_str("Pro Audio"),
            window_title: String::new(),
            optimize_working_set: true,
            disable_throttling: true,
            prevent_sleep: true,
        }
    }
}

impl Clone for Config {
    fn clone(&self) -> (copy: Self)
        ensures
            copy == *self,
    {
        Config {
            enable_logging: self.enable_logging,
            init_delay: self.init_delay,
            smart_wait: self.smart_wait,
            priority_level: self.priority_level,
            bypass_core0: self.bypass_core0,
            prefer_pcores: self.prefer_pcores,
            high_precision_timer: self.high_precision_timer,
            mmcss_profile: self.mmcss_profile.clone(),
            window_title: self.window_title.clone(),
            optimize_working_set: self.optimize_working_set,
            disable_throttling: self.disable_throttling,
            prevent_sleep: self.prevent_sleep,
        }
    }
}

/// Whether a value spells "true", in upper or lower case.
pub open spec fn is_true_word(s: Seq<char>) -> bool {
    &&& s.len() == 4
    &&& (s[0] == 't' || s[0] == 'T')
    &&& (s[1] == 'r' || s[1] == 'R')
    &&& (s[2] == 'u' || s[2] == 'U')
    &&& (s[3] == 'e' || s[3] == 'E')
}

/// Whether a value spells "false", in upper or lower case.
pub open spec fn is_false_word(s: Seq<char>) -> bool {
    &&& s.len() == 5
    &&& (s[0] == 'f' || s[0] == 'F')
    &&& (s[1] == 'a' || s[1] == 'A')
    &&& (s[2] == 'l' || s[2] == 'L')
    &&& (s[3] == 's' || s[3] == 'S')
    &&& (s[4] == 'e' || s[4] == 'E')
}

/// The toggle that a value sets: on for "true", off for "false", and as
/// it stood for anything else.
pub open spec fn flag_of(val: Seq<char>, current: bool) -> bool {
    if is_true_word(val) {
        true
    } else if is_false_word(val) {
        false
    } else {
        current
    }
}

/// The number that a value sets: the number it writes, where it writes
/// one that fits, and the number that stood there for anything else.
pub open spec fn count_of(val: Seq<char>, max: nat, current: nat) -> nat {
    match number_up_to(val, max) {
        Some(n) => n,
        None => current,
    }
}

/// The options after one key is given one value. A key that names no
/// option changes nothing, and neither does a toggle or a number whose
/// value is malformed.
pub open spec fn assign(o: Options, key: Seq<char>, val: Seq<char>) -> Options {
    if key == "EnableLogging"@ {
        Options { enable_logging: flag_of(val, o.enable_logging), ..o }
    } else if key == "InitDelay"@ {
        Options { init_delay: count_of(val, u64::MAX as nat, o.init_delay as nat) as u64, ..o }
    } else if key == "SmartWait"@ {
        Options { smart_wait: flag_of(val, o.smart_wait), ..o }
    } else if key == "PriorityLevel"@ {
        Options {
            priority_level: count_of(val, u32::MAX as nat, o.priority_level as nat) as u32,
            ..o
        }
    } else if key == "BypassCore0"@ {
        Options { bypass_core0: flag_of(val, o.bypass_core0), ..o }
    } else if key == "PreferPCores"@ {
        Options { prefer_pcores: flag_of(val, o.prefer_pcores), ..o }
    } else if key == "HighPrecisionTimer"@ {
        Options { high_precision_timer: flag_of(val, o.high_precision_timer), ..o }
    } else if key == "MMCSSProfile"@ {
        Options { mmcss_profile: val, ..o }
    } else if key == "WindowTitle"@ {
        Options { window_title: val, ..o }
    } else if key == "OptimizeWorkingSet"@ {
        Options { optimize_working_set: flag_of(val, o.optimize_working_set), ..o }
    } else if key == "DisableThrottling"@ {
        Options { disable_throttling: flag_of(val, o.disable_throttling), ..o }
    } else if key == "PreventSleep"@ {
        Options { prevent_sleep: flag_of(val, o.prevent_sleep), ..o }
    } else {
        o
    }
}

/// The options after one line. What follows the first `;` is a comment.
/// What is left is trimmed; where it is empty or holds no `=`, the line
/// changes nothing. Else what stands before the first `=` is the key and
/// what stands after it the value, both trimmed.
pub open spec fn apply_line(o: Options, line: Seq<char>) -> Options {
    let code = trimmed(before(line, ';'));
    if code.len() == 0 || !occurs(code, '=') {
        o
    } else {
        assign(o, trimmed(before(code, '=')), trimmed(after(code, '=')))
    }
}

/// The options after every line of a text, the first line first.
pub open spec fn apply_lines(o: Options, text: Seq<char>) -> Options
    decreases text.len(),
{
    if occurs(text, '\n') {
        proof {
            lemma_find_from_bounds(text, '\n', 0);
        }
        apply_lines(apply_line(o, before(text, '\n')), after(text, '\n'))
    } else {
        apply_line(o, text)
    }
}

/// The options that a configuration text gives: the defaults, changed by
/// each of its lines in turn.
pub open spec fn parse_of(text: Seq<char>) -> Options {
    apply_lines(default_options(), text)
}

fn read_flag(val: &[char], current: bool) -> (flag: bool)
    ensures
        flag == flag_of(val@, current),
{
    if val.len() == 4 && (val[0] == 't' || val[0] == 'T') && (val[1] == 'r' || val[1] == 'R') && (
    val[2] == 'u' || val[2] == 'U') && (val[3] == 'e' || val[3] == 'E') {
        true
    } else if val.len() == 5 && (val[0] == 'f' || val[0] == 'F') && (val[1] == 'a' || val[1]
        == 'A') && (val[2] == 'l' || val[2] == 'L') && (val[3] == 's' || val[3] == 'S') && (val[4]
        == 'e' || val[4] == 'E') {
        false
    } else {
        current
    }
}

impl Config {
    /// Gives one option a value, by the key that names it in a
    /// configuration text.
    pub fn set(&mut self, key: &[char], val: &[char])
        ensures
            final(self)@ == assign(old(self)@, key@, val@),
    {
        if is_word(key, "EnableLogging") {
            self.enable_logging = read_flag(val, self.enable_logging);
        } else if is_word(key, "InitDelay") {
            match parse_u64(val) {
                Some(n) => {
                    self.init_delay = n;
                },
                None => {},
            }
        } else if is_word(key, "SmartWait") {
            self.smart_wait = read_flag(val, self.smart_wait);
        } else if is_word(key, "PriorityLevel") {
            match parse_u64(val) {
                Some(n) => {
                    if n <= 0xFFFF_FFFF {
                        self.priority_level = n as u32;
                    }
                },
                None => {},
            }
        } else if is_word(key, "BypassCore0") {
            self.bypass_core0 = read_flag(val, self.bypass_core0);
        } else if is_word(key, "PreferPCores") {
            self.prefer_pcores = read_flag(val, self.prefer_pcores);
        } else if is_word(key, "HighPrecisionTimer") {
            self.high_precision_timer = read_flag(val, self.high_precision_timer);
        } else if is_word(key, "MMCSSProfile") {
            self.mmcss_profile = to_text(val);
        } else if is_word(key, "WindowTitle") {
            self.window_title = to_text(val);
        } else if is_word(key, "OptimizeWorkingSet") {
            self.optimize_working_set = read_flag(val, self.optimize_working_set);
        } else if is_word(key, "DisableThrottling") {
            self.disable_throttling = read_flag(val, self.disable_throttling);
        } else if is_word(key, "PreventSleep") {
            self.prevent_sleep = read_flag(val, self.prevent_sleep);
        }
    }

    /// Reads one line of a configuration text.
    pub fn read_line(&mut self, line: &[char])
        ensures
            final(self)@ == apply_line(old(self)@, line@),
    {
        let (uncommented, _) = split_at_char(line, ';');
        let code = trim(uncommented);
        if code.len() == 0 {
            return ;
        }
        let (key, rest) = split_at_char(code, '=');
        match rest {
            Some(val) => {
                self.set(trim(key), trim(val));
            },
            None => {},
        }
    }
}

/// Reads a configuration text: the defaults, changed by each line of the
/// text in turn.
pub fn parse_config(content: &str) -> (config: Config)
    ensures
        config@ == parse_of(content@),
{
    let chars = to_chars(content);
    let mut config = Config::default();
    let mut rest: &[char] = chars.as_slice();
    loop
        invariant
            apply_lines(config@, rest@) == parse_of(content@),
        decreases rest@.len(),
    {
        let (line, more) = split_at_char(rest, '\n');
        config.read_line(line);
        proof {
            lemma_find_from_bounds(rest@, '\n', 0);
        }
        match more {
            Some(lines) => {
                rest = lines;
            },
            None => {
                assert(line@ =~= rest@);
                return config;
            },
        }
    }
}

/// The configuration for what the configuration file holds, `None` where
/// the file cannot be read: every default then stands.
pub fn load_config(content: Option<&str>) -> (config: Config)
    ensures
        config@ == match content {
            Some(text) => parse_of(text@),
            None => default_options(),
        },
{
    match content {
        Some(text) => parse_config(text),
        None => Config::default(),
    }
}

} // verus!
