//! What the viewer is started with, and how the command line changes it.

use crate::camera::Mode;
use crate::color::BackgroundColor;
use vstd::prelude::*;
use vstd::string::*;

verus! {

/// How much of the user interface is shown.
#[derive(Clone, Copy, Debug, PartialEq, Eq, Structural)]
pub enum UIVisibility {
    Hidden,
    Stats,
    All,
}

impl UIVisibility {
    /// The setting that follows `self` when the user steps through them:
    /// nothing, then the statistics, then everything, then nothing again.
    pub open spec fn successor(self) -> UIVisibility {
        match self {
            UIVisibility::Hidden => UIVisibility::Stats,
            UIVisibility::Stats => UIVisibility::All,
            UIVisibility::All => UIVisibility::Hidden,
        }
    }

    pub fn next(self) -> (following: UIVisibility)
        ensures
            following == self.successor(),
    {
        match self {
            UIVisibility::Hidden => UIVisibility::Stats,
            UIVisibility::Stats => UIVisibility::All,
            UIVisibility::All => UIVisibility::Hidden,
        }
    }
}

/// Stepping three times through the settings leads back to the start.
pub proof fn lemma_visibility_cycle(visibility: UIVisibility)
    ensures
        visibility.successor().successor().successor() == visibility,
        visibility.successor() != visibility,
{
}

/// Where the scene comes from.
#[derive(Debug)]
pub enum SVGPath {
    /// The scene that ships with the viewer.
    Default,
    /// A named resource.
    Resource(String),
    /// A file.
    Path(String),
}

/// An `SVGPath` with its texts as sequences of characters.
pub enum SVGPathView {
    Default,
    Resource(Seq<char>),
    Path(Seq<char>),
}

impl View for SVGPath {
    type V = SVGPathView;

    open spec fn view(&self) -> SVGPathView {
        match self {
            SVGPath::Default => SVGPathView::Default,
            SVGPath::Resource(name) => SVGPathView::Resource(name@),
            SVGPath::Path(path) => SVGPathView::Path(path@),
        }
    }
}

impl Clone for SVGPath {
    fn clone(&self) -> (copy: SVGPath)
        ensures
            copy@ == self@,
    {
        match self {
            SVGPath::Default => SVGPath::Default,
            SVGPath::Resource(name) => SVGPath::Resource(name.clone()),
            SVGPath::Path(path) => SVGPath::Path(path.clone()),
        }
    }
}

/// The settings that the viewer starts with.
#[derive(Debug)]
pub struct Options {
    /// The number of worker threads; the host decides where there is none.
    pub jobs: Option<usize>,
    pub mode: Mode,
    pub input_path: SVGPath,
    pub ui: UIVisibility,
    pub background_color: BackgroundColor,
}

/// The settings as values.
pub struct OptionsView {
    pub jobs: Option<usize>,
    pub mode: Mode,
    pub input_path: SVGPathView,
    pub ui: UIVisibility,
    pub background_color: BackgroundColor,
}

impl View for Options {
    type V = OptionsView;

    open spec fn view(&self) -> OptionsView {
        OptionsView {
            jobs: self.jobs,
            mode: self.mode,
            input_path: self.input_path@,
            ui: self.ui,
            background_color: self.background_color,
        }
    }
}

impl Clone for Options {
    fn clone(&self) -> (copy: Options)
        ensures
            copy@ == self@,
    {
        Options {
            jobs: self.jobs,
            mode: self.mode,
            input_path: self.input_path.clone(),
            ui: self.ui,
            background_color: self.background_color,
        }
    }
}

impl OptionsView {
    /// The settings of a viewer that was started without arguments.
    pub open spec fn initial() -> OptionsView {
        OptionsView {
            jobs: None,
            mode: Mode::TwoD,
            input_path: SVGPathView::Default,
            ui: UIVisibility::All,
            background_color: BackgroundColor::Light,
        }
    }

    /// The settings after the arguments in `line` were applied.
    pub open spec fn overridden_by(self, line: CommandLineView) -> OptionsView {
        OptionsView {
            jobs: match line.jobs {
                Some(text) => parse_count(encode_text(text)),
                None => self.jobs,
            },
            mode: if line.three_d {
                Mode::ThreeD
            } else if line.vr {
                Mode::VR
            } else {
                self.mode
            },
            input_path: match line.input {
                Some(path) => SVGPathView::Path(path),
                None => self.input_path,
            },
            ui: match line.ui {
                Some(text) => ui_named(text),
                None => self.ui,
            },
            background_color: match line.background {
                Some(text) => background_named(text),
                None => self.background_color,
            },
        }
    }
}

impl Default for Options {
    fn default() -> (options: Options)
        ensures
            options@ == OptionsView::initial(),
    {
        Options {
            jobs: None,
            mode: Mode::TwoD,
            input_path: SVGPath::Default,
            ui: UIVisibility::All,
            background_color: BackgroundColor::Light,
        }
    }
}

/// What the command line gave: for each argument that takes a value the text
/// that came with it, for each switch whether it was there.
#[derive(Debug)]
pub struct CommandLine {
    pub jobs: Option<String>,
    pub three_d: bool,
    pub vr: bool,
    pub ui: Option<String>,
    pub background: Option<String>,
    pub input: Option<String>,
}

/// A `CommandLine` with its texts as sequences of characters.
pub struct CommandLineView {
    pub jobs: Option<Seq<char>>,
    pub three_d: bool,
    pub vr: bool,
    pub ui: Option<Seq<char>>,
    pub background: Option<Seq<char>>,
    pub input: Option<Seq<char>>,
}

/// The text of an argument, where it was given.
pub open spec fn text_of(argument: Option<String>) -> Option<Seq<char>> {
    match argument {
        Some(text) => Some(text@),
        None => None,
    }
}

impl View for CommandLine {
    type V = CommandLineView;

    open spec fn view(&self) -> CommandLineView {
        CommandLineView {
            jobs: text_of(self.jobs),
            three_d: self.three_d,
            vr: self.vr,
            ui: text_of(self.ui),
            background: text_of(self.background),
            input: text_of(self.input),
        }
    }
}

/// The bytes that a text is stored as.
pub open spec fn encode_text(text: Seq<char>) -> Seq<u8> {
    vstd::utf8::encode_utf8(text)
}

/// The visibility that an argument names; anything but the two names that
/// are told apart shows everything.
pub open spec fn ui_named(text: Seq<char>) -> UIVisibility {
    if text == "none"@ {
        UIVisibility::Hidden
    } else if text == "stats"@ {
        UIVisibility::Stats
    } else {
        UIVisibility::All
    }
}

/// The backdrop that an argument names; anything but the two names that are
/// told apart is transparent.
pub open spec fn background_named(text: Seq<char>) -> BackgroundColor {
    if text == "light"@ {
        BackgroundColor::Light
    } else if text == "dark"@ {
        BackgroundColor::Dark
    } else {
        BackgroundColor::Transparent
    }
}

/// Whether `byte` is one of the ten decimal digits.
pub open spec fn is_digit(byte: u8) -> bool {
    0x30 <= byte <= 0x39
}

/// Whether `bytes` holds decimal digits and nothing else.
pub open spec fn all_digits(bytes: Seq<u8>) -> bool {
    forall|i: int| 0 <= i < bytes.len() ==> is_digit(#[trigger] bytes[i])
}

/// The number that a run of decimal digits stands for.
pub open spec fn digits_value(bytes: Seq<u8>) -> nat
    decreases bytes.len(),
{
    if bytes.len() == 0 {
        0
    } else {
        (digits_value(bytes.drop_last()) * 10 + (bytes.last() - 0x30)) as nat
    }
}

/// The digits of a count: the text without the plus sign that may lead it.
pub open spec fn count_digits(bytes: Seq<u8>) -> Seq<u8> {
    if bytes.len() > 0 && bytes[0] == 0x2b {
        bytes.skip(1)
    } else {
        bytes
    }
}

/// The count that a text stands for: decimal digits, at least one, after an
/// optional plus sign, with a value that a `usize` can hold. Nothing else
/// is a count, neither blanks nor a minus sign.
pub open spec fn parse_count(bytes: Seq<u8>) -> Option<usize> {
    let digits = count_digits(bytes);
    if digits.len() > 0 && all_digits(digits) && digits_value(digits) <= usize::MAX {
        Some(digits_value(digits) as usize)
    } else {
        None
    }
}

/// The value of a run of digits does not shrink when digits are added.
proof fn lemma_digits_value_grows(bytes: Seq<u8>, n: int)
    requires
        all_digits(bytes),
        0 <= n <= bytes.len(),
    ensures
        digits_value(bytes.take(n)) <= digits_value(bytes),
    decreases bytes.len() - n,
{
    if n == bytes.len() {
        assert(bytes.take(n) =~= bytes);
    } else {
        lemma_digits_value_grows(bytes, n + 1);
        assert(bytes.take(n + 1).drop_last() =~= bytes.take(n));
        assert(is_digit(bytes.take(n + 1).last()));
    }
}

/// Reads a count of worker threads.
pub fn parse_jobs(text: &str) -> (count: Option<usize>)
    ensures
        count == parse_count(encode_text(text@)),
{
    let bytes = text.as_bytes();
    let length: usize = bytes.len();
    let start: usize = if length > 0 && bytes[0] == 0x2b {
        1
    } else {
        0
    };
    let ghost digits = count_digits(bytes@);
    assert(digits =~= bytes@.skip(start as int));
    if start == length {
        return None;
    }
    let mut value: usize = 0;
    let mut i: usize = start;
    while i < length
        invariant
            start <= i <= length,
            length == bytes@.len(),
            bytes@ == encode_text(text@),
            digits == count_digits(bytes@),
            digits == bytes@.skip(start as int),
            all_digits(digits.take(i - start)),
            value == digits_value(digits.take(i - start)),
        decreases length - i,
    {
        let byte: u8 = bytes[i];
        if byte < 0x30 || byte > 0x39 {
            assert(!is_digit(digits[i - start]));
            return None;
        }
        let ghost longer = digits.take(i - start + 1);
        assert(longer.drop_last() =~= digits.take(i - start));
        assert(longer.last() == byte);
        assert(all_digits(longer)) by {
            assert forall|k: int| 0 <= k < longer.len() implies is_digit(#[trigger] longer[k]) by {
                if k < longer.len() - 1 {
                    assert(longer[k] == digits.take(i - start)[k]);
                }
            }
        }
        let next: Option<usize> = match value.checked_mul(10) {
            Some(tens) => tens.checked_add((byte - 0x30) as usize),
            None => None,
        };
        match next {
            Some(sum) => {
                value = sum;
            },
            None => {
                proof {
                    assert(digits_value(longer) > usize::MAX);
                    if all_digits(digits) {
                        lemma_digits_value_grows(digits, i - start + 1);
                    }
                }
                return None;
            },
        }
        i += 1;
    }
    assert(digits.take(i - start) =~= digits);
    Some(value)
}

/// Reads the visibility that an argument names.
fn ui_from_name(text: &String) -> (ui: UIVisibility)
    ensures
        ui == ui_named(text@),
{
    let none = String::from_str("none");
    let stats = String::from_str("stats");
    if *text == none {
        UIVisibility::Hidden
    } else if *text == stats {
        UIVisibility::Stats
    } else {
        UIVisibility::All
    }
}

/// Reads the backdrop that an argument names.
fn background_from_name(text: &String) -> (background: BackgroundColor)
    ensures
        background == background_named(text@),
{
    let light = String::from_str("light");
    let dark = String::from_str("dark");
    if *text == light {
        BackgroundColor::Light
    } else if *text == dark {
        BackgroundColor::Dark
    } else {
        BackgroundColor::Transparent
    }
}

impl Options {
    /// Applies what the command line gave. An argument that was not given
    /// leaves its setting alone; a thread count that cannot be read leaves
    /// the choice to the host.
    pub fn command_line_overrides(&mut self, line: &CommandLine)
        ensures
            final(self)@ == old(self)@.overridden_by(line@),
    {
        match &line.jobs {
            Some(text) => {
                self.jobs = parse_jobs(text.as_str());
            },
            None => {},
        }
        if line.three_d {
            self.mode = Mode::ThreeD;
        } else if line.vr {
            self.mode = Mode::VR;
        }
        match &line.ui {
            Some(text) => {
                self.ui = ui_from_name(text);
            },
            None => {},
        }
        match &line.background {
            Some(text) => {
                self.background_color = background_from_name(text);
            },
            None => {},
        }
        match &line.input {
            Some(path) => {
                self.input_path = SVGPath::Path(path.clone());
            },
            None => {},
        }
    }
}

} // verus!
