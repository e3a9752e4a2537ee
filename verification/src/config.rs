//! The reminder's configuration: the texts it rotates through, how often a
//! toast is shown and for how long, its colors, and the rules a configuration
//! has to satisfy before the service accepts it.

use vstd::prelude::*;
use vstd::string::StrSliceExecFns;

verus! {

/// How the next title and content are chosen.
#[derive(Debug, Clone, Copy, PartialEq, Eq, Structural)]
pub enum ContentSwitchMode {
    Random,
    Sequential,
}

/// The edge of the screen a toast slides in from.
#[derive(Debug, Clone, Copy, PartialEq, Eq, Structural)]
pub enum ToastDirection {
    Top,
    Bottom,
    Left,
    Right,
}

impl ToastDirection {
    /// The word that stands for the direction in a message to the overlay.
    pub open spec fn name(self) -> Seq<char> {
        match self {
            ToastDirection::Top => "top"@,
            ToastDirection::Bottom => "bottom"@,
            ToastDirection::Left => "left"@,
            ToastDirection::Right => "right"@,
        }
    }

    pub fn wire_name(&self) -> (r: &'static str)
        ensures
            r@ == self.name(),
    {
        match self {
            ToastDirection::Top => "top",
            ToastDirection::Bottom => "bottom",
            ToastDirection::Left => "left",
            ToastDirection::Right => "right",
        }
    }
}

#[derive(Debug, Clone)]
pub struct AppConfig {
    pub version: String,
}

#[derive(Debug, Clone)]
pub struct ToasterConfig {
    pub titles: Vec<String>,
    pub contents: Vec<String>,
    /// Minutes between two toasts.
    pub interval_time: u32,
    /// Seconds a toast stays on screen.
    pub duration: u32,
    pub color_1: String,
    pub color_2: String,
    pub text_color: String,
    pub content_switch_mode: ContentSwitchMode,
    pub toast_direction: ToastDirection,
    pub enable_sound: bool,
    /// Identifier of the cached sound file.
    pub sound_file_id: Option<String>,
    /// Name of the sound file as the user picked it, for display.
    pub sound_file_name: Option<String>,
}

#[derive(Debug, Clone)]
pub struct Config {
    pub app: AppConfig,
    pub toaster: ToasterConfig,
}

pub const MIN_INTERVAL_MINUTES: u32 = 1;

pub const MAX_INTERVAL_MINUTES: u32 = 1440;

pub const MIN_DURATION_SECONDS: u32 = 1;

pub const MAX_DURATION_SECONDS: u32 = 60;

/// Whether `c` is one of `0-9`, `a-f`, `A-F`.
pub open spec fn is_hex_digit(c: char) -> bool {
    ('0' <= c && c <= '9') || ('a' <= c && c <= 'f') || ('A' <= c && c <= 'F')
}

/// The number a hexadecimal digit stands for.
pub open spec fn hex_digit_value(c: char) -> int
    recommends
        is_hex_digit(c),
{
    if '0' <= c && c <= '9' {
        c as int - '0' as int
    } else if 'a' <= c && c <= 'f' {
        c as int - 'a' as int + 10
    } else {
        c as int - 'A' as int + 10
    }
}

/// A color is written as `#` followed by exactly six hexadecimal digits.
pub open spec fn is_hex_color(s: Seq<char>) -> bool {
    &&& s.len() == 7
    &&& s[0] == '#'
    &&& forall|i: int| 1 <= i < 7 ==> is_hex_digit(#[trigger] s[i])
}

pub open spec fn interval_in_range(minutes: u32) -> bool {
    MIN_INTERVAL_MINUTES <= minutes <= MAX_INTERVAL_MINUTES
}

pub open spec fn duration_in_range(seconds: u32) -> bool {
    MIN_DURATION_SECONDS <= seconds <= MAX_DURATION_SECONDS
}

impl Config {
    /// The message of the first rule that the configuration breaks, in the
    /// order in which the rules are checked; `None` when it breaks none.
    pub open spec fn validation_error(&self) -> Option<Seq<char>> {
        if self.toaster.titles@.len() == 0 {
            Some("At least one title is required"@)
        } else if self.toaster.contents@.len() == 0 {
            Some("At least one content is required"@)
        } else if !interval_in_range(self.toaster.interval_time) {
            Some("Interval time must be between 1 and 1440 minutes"@)
        } else if !duration_in_range(self.toaster.duration) {
            Some("Toast duration must be between 1 and 60 seconds"@)
        } else if !is_hex_color(self.toaster.color_1@) {
            Some("Invalid hex color format for color_1"@)
        } else if !is_hex_color(self.toaster.color_2@) {
            Some("Invalid hex color format for color_2"@)
        } else if !is_hex_color(self.toaster.text_color@) {
            Some("Invalid hex color format for text_color"@)
        } else {
            None
        }
    }

    /// A configuration is valid when it names at least one title and one
    /// content, its interval and duration lie in their ranges, and its three
    /// colors are well formed.
    pub open spec fn is_valid(&self) -> bool {
        &&& self.toaster.titles@.len() > 0
        &&& self.toaster.contents@.len() > 0
        &&& interval_in_range(self.toaster.interval_time)
        &&& duration_in_range(self.toaster.duration)
        &&& is_hex_color(self.toaster.color_1@)
        &&& is_hex_color(self.toaster.color_2@)
        &&& is_hex_color(self.toaster.text_color@)
    }

    /// The configuration the program starts from when it finds none.
    pub open spec fn is_default(&self) -> bool {
        &&& self.app.version@ == "0.0.1"@
        &&& self.toaster.titles@.len() == 2
        &&& self.toaster.titles@[0]@ == "提醒标题1"@
        &&& self.toaster.titles@[1]@ == "提醒标题2"@
        &&& self.toaster.contents@.len() == 2
        &&& self.toaster.contents@[0]@ == "提醒内容1"@
        &&& self.toaster.contents@[1]@ == "提醒内容2"@
        &&& self.toaster.interval_time == 5
        &&& self.toaster.duration == 5
        &&& self.toaster.color_1@ == "#FF6B6B"@
        &&& self.toaster.color_2@ == "#4ECDC4"@
        &&& self.toaster.text_color@ == "#FFFFFF"@
        &&& self.toaster.content_switch_mode == ContentSwitchMode::Random
        &&& self.toaster.toast_direction == ToastDirection::Top
        &&& !self.toaster.enable_sound
        &&& self.toaster.sound_file_id is None
        &&& self.toaster.sound_file_name is None
    }

    /// Checks the rules in a fixed order and reports the first one broken.
    pub fn validate(&self) -> (r: Result<(), String>)
        ensures
            r is Ok <==> self.is_valid(),
            match r {
                Ok(_) => self.validation_error() is None,
                Err(message) => self.validation_error() == Some(message@),
            },
    {
        if self.toaster.titles.len() == 0 {
            return Err("At least one title is required".to_owned());
        }
        if self.toaster.contents.len() == 0 {
            return Err("At least one content is required".to_owned());
        }
        if self.toaster.interval_time < MIN_INTERVAL_MINUTES || self.toaster.interval_time
            > MAX_INTERVAL_MINUTES {
            return Err("Interval time must be between 1 and 1440 minutes".to_owned());
        }
        if self.toaster.duration < MIN_DURATION_SECONDS || self.toaster.duration
            > MAX_DURATION_SECONDS {
            return Err("Toast duration must be between 1 and 60 seconds".to_owned());
        }
        if !is_valid_hex_color(self.toaster.color_1.as_str()) {
            return Err("Invalid hex color format for color_1".to_owned());
        }
        if !is_valid_hex_color(self.toaster.color_2.as_str()) {
            return Err("Invalid hex color format for color_2".to_owned());
        }
        if !is_valid_hex_color(self.toaster.text_color.as_str()) {
            return Err("Invalid hex color format for text_color".to_owned());
        }
        Ok(())
    }

    /// Decides which configuration the program runs with, given what was
    /// read from the configuration file (`None` when the file could not be
    /// read or understood). A valid configuration is kept as it is; anything
    /// else is replaced by the default one, and the flag then says that the
    /// default is to be written back to the file.
    pub fn load_or_create_default(loaded: Option<Config>) -> (r: (Config, bool))
        ensures
            match loaded {
                Some(config) if config.is_valid() => r.0 == config && !r.1,
                _ => r.0.is_default() && r.1,
            },
    {
        match loaded {
            Some(config) => {
                if config.validate().is_ok() {
                    (config, false)
                } else {
                    (Config::default(), true)
                }
            },
            None => (Config::default(), true),
        }
    }
}

impl Default for Config {
    fn default() -> (r: Config)
        ensures
            r.is_default(),
    {
        let mut titles: Vec<String> = Vec::new();
        titles.push("提醒标题1".to_owned());
        titles.push("提醒标题2".to_owned());
        let mut contents: Vec<String> = Vec::new();
        contents.push("提醒内容1".to_owned());
        contents.push("提醒内容2".to_owned());
        Config {
            app: AppConfig { version: "0.0.1".to_owned() },
            toaster: ToasterConfig {
                titles,
                contents,
                interval_time: 5,
                duration: 5,
                color_1: "#FF6B6B".to_owned(),
                color_2: "#4ECDC4".to_owned(),
                text_color: "#FFFFFF".to_owned(),
                content_switch_mode: ContentSwitchMode::Random,
                toast_direction: ToastDirection::Top,
                enable_sound: false,
                sound_file_id: None,
                sound_file_name: None,
            },
        }
    }
}

/// The default configuration passes validation, so it can always be saved.
pub proof fn lemma_default_is_valid(config: Config)
    requires
        config.is_default(),
    ensures
        config.is_valid(),
        config.validation_error() is None,
{
    reveal_strlit("#FF6B6B");
    reveal_strlit("#4ECDC4");
    reveal_strlit("#FFFFFF");
}

fn hex_digit(c: char) -> (r: bool)
    ensures
        r == is_hex_digit(c),
{
    (c >= '0' && c <= '9') || (c >= 'a' && c <= 'f') || (c >= 'A' && c <= 'F')
}

pub fn is_valid_hex_color(color: &str) -> (r: bool)
    ensures
        r == is_hex_color(color@),
{
    if color.unicode_len() != 7 {
        return false;
    }
    if color.get_char(0) != '#' {
        return false;
    }
    let mut i: usize = 1;
    while i < 7
        invariant
            1 <= i <= 7,
            color@.len() == 7,
            forall|j: int| 1 <= j < i ==> is_hex_digit(#[trigger] color@[j]),
        decreases 7 - i,
    {
        if !hex_digit(color.get_char(i)) {
            return false;
        }
        i = i + 1;
    }
    true
}

/// The color shown for a text that is no color.
pub open spec fn fallback_rgb() -> (u8, u8, u8) {
    (255u8, 107u8, 107u8)
}

/// The number that two characters stand for as one byte in hexadecimal:
/// two digits, or a `+` and one digit.
pub open spec fn hex_pair_value(high: char, low: char) -> Option<int> {
    if is_hex_digit(high) && is_hex_digit(low) {
        Some(16 * hex_digit_value(high) + hex_digit_value(low))
    } else if high == '+' && is_hex_digit(low) {
        Some(hex_digit_value(low))
    } else {
        None
    }
}

/// The red, green and blue of a color text: `#` and three bytes in
/// hexadecimal. A text of another form stands for the fallback color.
pub open spec fn rgb_of(s: Seq<char>) -> (u8, u8, u8) {
    if s.len() == 7 && s[0] == '#' && hex_pair_value(s[1], s[2]) is Some && hex_pair_value(
        s[3],
        s[4],
    ) is Some && hex_pair_value(s[5], s[6]) is Some {
        (
            hex_pair_value(s[1], s[2])->0 as u8,
            hex_pair_value(s[3], s[4])->0 as u8,
            hex_pair_value(s[5], s[6])->0 as u8,
        )
    } else {
        fallback_rgb()
    }
}

/// The upper-case hexadecimal digit for a number below 16.
pub open spec fn upper_hex_char(d: int) -> char {
    if d == 0 {
        '0'
    } else if d == 1 {
        '1'
    } else if d == 2 {
        '2'
    } else if d == 3 {
        '3'
    } else if d == 4 {
        '4'
    } else if d == 5 {
        '5'
    } else if d == 6 {
        '6'
    } else if d == 7 {
        '7'
    } else if d == 8 {
        '8'
    } else if d == 9 {
        '9'
    } else if d == 10 {
        'A'
    } else if d == 11 {
        'B'
    } else if d == 12 {
        'C'
    } else if d == 13 {
        'D'
    } else if d == 14 {
        'E'
    } else {
        'F'
    }
}

/// A color as text: `#` and the three bytes, each as two upper-case
/// hexadecimal digits.
pub open spec fn hex_of(r: u8, g: u8, b: u8) -> Seq<char> {
    seq![
        '#',
        upper_hex_char(r as int / 16),
        upper_hex_char(r as int % 16),
        upper_hex_char(g as int / 16),
        upper_hex_char(g as int % 16),
        upper_hex_char(b as int / 16),
        upper_hex_char(b as int % 16),
    ]
}

fn hex_value(c: char) -> (r: u8)
    requires
        is_hex_digit(c),
    ensures
        r == hex_digit_value(c),
        r < 16,
{
    if c >= '0' && c <= '9' {
        (c as u32 - '0' as u32) as u8
    } else if c >= 'a' && c <= 'f' {
        (c as u32 - 'a' as u32 + 10) as u8
    } else {
        (c as u32 - 'A' as u32 + 10) as u8
    }
}

fn hex_pair(high: char, low: char) -> (r: Option<u8>)
    ensures
        match r {
            Some(v) => hex_pair_value(high, low) == Some(v as int),
            None => hex_pair_value(high, low) is None,
        },
{
    if !hex_digit(low) {
        None
    } else if hex_digit(high) {
        Some(16 * hex_value(high) + hex_value(low))
    } else if high == '+' {
        Some(hex_value(low))
    } else {
        None
    }
}

/// Reads the red, green and blue of a color text; a text that is no color
/// gives the fallback color.
pub fn hex_to_rgb(hex: &str) -> (r: (u8, u8, u8))
    ensures
        r == rgb_of(hex@),
{
    let fallback: (u8, u8, u8) = (255, 107, 107);
    if hex.unicode_len() != 7 || hex.get_char(0) != '#' {
        return fallback;
    }
    let red = hex_pair(hex.get_char(1), hex.get_char(2));
    let green = hex_pair(hex.get_char(3), hex.get_char(4));
    let blue = hex_pair(hex.get_char(5), hex.get_char(6));
    match (red, green, blue) {
        (Some(r), Some(g), Some(b)) => (r, g, b),
        _ => fallback,
    }
}

fn upper_hex_text(d: u8) -> (r: &'static str)
    requires
        d < 16,
    ensures
        r@ == seq![upper_hex_char(d as int)],
{
    proof {
        reveal_strlit("0");
        reveal_strlit("1");
        reveal_strlit("2");
        reveal_strlit("3");
        reveal_strlit("4");
        reveal_strlit("5");
        reveal_strlit("6");
        reveal_strlit("7");
        reveal_strlit("8");
        reveal_strlit("9");
        reveal_strlit("A");
        reveal_strlit("B");
        reveal_strlit("C");
        reveal_strlit("D");
        reveal_strlit("E");
        reveal_strlit("F");
    }
    let r = if d == 0 {
        "0"
    } else if d == 1 {
        "1"
    } else if d == 2 {
        "2"
    } else if d == 3 {
        "3"
    } else if d == 4 {
        "4"
    } else if d == 5 {
        "5"
    } else if d == 6 {
        "6"
    } else if d == 7 {
        "7"
    } else if d == 8 {
        "8"
    } else if d == 9 {
        "9"
    } else if d == 10 {
        "A"
    } else if d == 11 {
        "B"
    } else if d == 12 {
        "C"
    } else if d == 13 {
        "D"
    } else if d == 14 {
        "E"
    } else {
        "F"
    };
    r
}

/// Writes a color as text.
pub fn rgb_to_hex(r: u8, g: u8, b: u8) -> (hex: String)
    ensures
        hex@ == hex_of(r, g, b),
{
    proof {
        reveal_strlit("#");
    }
    let mut hex = "#".to_owned();
    hex.append(upper_hex_text(r / 16));
    hex.append(upper_hex_text(r % 16));
    hex.append(upper_hex_text(g / 16));
    hex.append(upper_hex_text(g % 16));
    hex.append(upper_hex_text(b / 16));
    hex.append(upper_hex_text(b % 16));
    hex
}

/// A color written as text is a well-formed color, and reading the text
/// gives the color back.
pub proof fn lemma_hex_round_trip(r: u8, g: u8, b: u8)
    ensures
        is_hex_color(hex_of(r, g, b)),
        rgb_of(hex_of(r, g, b)) == (r, g, b),
{
    let s = hex_of(r, g, b);
    lemma_upper_hex_char(r as int / 16);
    lemma_upper_hex_char(r as int % 16);
    lemma_upper_hex_char(g as int / 16);
    lemma_upper_hex_char(g as int % 16);
    lemma_upper_hex_char(b as int / 16);
    lemma_upper_hex_char(b as int % 16);
    assert forall|i: int| 1 <= i < 7 implies is_hex_digit(#[trigger] s[i]) by {}
}

proof fn lemma_upper_hex_char(d: int)
    requires
        0 <= d < 16,
    ensures
        is_hex_digit(upper_hex_char(d)),
        hex_digit_value(upper_hex_char(d)) == d,
{
}

/// Every well-formed color is read as the three bytes that its digits
/// spell; none of them falls back.
pub proof fn lemma_valid_color_is_read(s: Seq<char>)
    requires
        is_hex_color(s),
    ensures
        rgb_of(s) == (
            (16 * hex_digit_value(s[1]) + hex_digit_value(s[2])) as u8,
            (16 * hex_digit_value(s[3]) + hex_digit_value(s[4])) as u8,
            (16 * hex_digit_value(s[5]) + hex_digit_value(s[6])) as u8,
        ),
{
    assert(is_hex_digit(s[1]) && is_hex_digit(s[2]) && is_hex_digit(s[3]) && is_hex_digit(s[4])
        && is_hex_digit(s[5]) && is_hex_digit(s[6]));
}

} // verus!
