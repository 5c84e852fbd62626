use crate::decimal::{decimal, decimal_string, push_decimal};
use vstd::prelude::*;

verus! {

/// An ANSI select-graphic-rendition code: a foreground or background colour, or a text effect.
#[allow(non_camel_case_types)]
#[derive(Clone, Copy, Debug, PartialEq, Eq, Structural)]
pub enum StyleCode {
    black,
    red,
    green,
    yellow,
    blue,
    magenta,
    cyan,
    white,
    bright_black,
    bright_red,
    bright_green,
    bright_yellow,
    bright_blue,
    bright_magenta,
    bright_cyan,
    bright_white,
    bg_black,
    bg_red,
    bg_green,
    bg_yellow,
    bg_blue,
    bg_magenta,
    bg_cyan,
    bg_white,
    bg_bright_black,
    bg_bright_red,
    bg_bright_green,
    bg_bright_yellow,
    bg_bright_blue,
    bg_bright_magenta,
    bg_bright_cyan,
    bg_bright_white,
    bold,
    italic,
    underline,
    strikethrough,
}

impl StyleCode {
    /// The numeric code sent to the terminal.
    pub open spec fn spec_code(self) -> u8 {
        match self {
            StyleCode::black => 30,
            StyleCode::red => 31,
            StyleCode::green => 32,
            StyleCode::yellow => 33,
            StyleCode::blue => 34,
            StyleCode::magenta => 35,
            StyleCode::cyan => 36,
            StyleCode::white => 37,
            StyleCode::bright_black => 90,
            StyleCode::bright_red => 91,
            StyleCode::bright_green => 92,
            StyleCode::bright_yellow => 93,
            StyleCode::bright_blue => 94,
            StyleCode::bright_magenta => 95,
            StyleCode::bright_cyan => 96,
            StyleCode::bright_white => 97,
            StyleCode::bg_black => 40,
            StyleCode::bg_red => 41,
            StyleCode::bg_green => 42,
            StyleCode::bg_yellow => 43,
            StyleCode::bg_blue => 44,
            StyleCode::bg_magenta => 45,
            StyleCode::bg_cyan => 46,
            StyleCode::bg_white => 47,
            StyleCode::bg_bright_black => 100,
            StyleCode::bg_bright_red => 101,
            StyleCode::bg_bright_green => 102,
            StyleCode::bg_bright_yellow => 103,
            StyleCode::bg_bright_blue => 104,
            StyleCode::bg_bright_magenta => 105,
            StyleCode::bg_bright_cyan => 106,
            StyleCode::bg_bright_white => 107,
            StyleCode::bold => 1,
            StyleCode::italic => 3,
            StyleCode::underline => 4,
            StyleCode::strikethrough => 9,
        }
    }

    pub fn code(&self) -> (r: u8)
        ensures
            r == self.spec_code(),
    {
        match self {
            StyleCode::black => 30,
            StyleCode::red => 31,
            StyleCode::green => 32,
            StyleCode::yellow => 33,
            StyleCode::blue => 34,
            StyleCode::magenta => 35,
            StyleCode::cyan => 36,
            StyleCode::white => 37,
            StyleCode::bright_black => 90,
            StyleCode::bright_red => 91,
            StyleCode::bright_green => 92,
            StyleCode::bright_yellow => 93,
            StyleCode::bright_blue => 94,
            StyleCode::bright_magenta => 95,
            StyleCode::bright_cyan => 96,
            StyleCode::bright_white => 97,
            StyleCode::bg_black => 40,
            StyleCode::bg_red => 41,
            StyleCode::bg_green => 42,
            StyleCode::bg_yellow => 43,
            StyleCode::bg_blue => 44,
            StyleCode::bg_magenta => 45,
            StyleCode::bg_cyan => 46,
            StyleCode::bg_white => 47,
            StyleCode::bg_bright_black => 100,
            StyleCode::bg_bright_red => 101,
            StyleCode::bg_bright_green => 102,
            StyleCode::bg_bright_yellow => 103,
            StyleCode::bg_bright_blue => 104,
            StyleCode::bg_bright_magenta => 105,
            StyleCode::bg_bright_cyan => 106,
            StyleCode::bg_bright_white => 107,
            StyleCode::bold => 1,
            StyleCode::italic => 3,
            StyleCode::underline => 4,
            StyleCode::strikethrough => 9,
        }
    }
}

/// `text` wrapped in the escape sequence that selects `code` and the one that resets it.
pub open spec fn ansi_styled(code: u8, text: Seq<char>) -> Seq<char> {
    "\x1b["@ + decimal(code as nat) + "m"@ + text + "\x1b[0m"@
}

/// Text together with the style code it is shown with.
pub struct Style {
    text: String,
    code: u8,
}

impl View for Style {
    type V = Seq<char>;

    /// What the styled text renders as.
    closed spec fn view(&self) -> Seq<char> {
        ansi_styled(self.code, self.text@)
    }
}

impl Style {
    /// Renders the text between the style's escape sequence and the reset sequence.
    pub fn to_string(&self) -> (r: String)
        ensures
            r@ == self@,
    {
        let mut s = "\x1b[".to_string();
        push_decimal(&mut s, self.code as u64);
        s.append("m");
        s.append(self.text.as_str());
        s.append("\x1b[0m");
        s
    }
}

/// Values that can be wrapped in a style.
pub trait GeneratedTextStyling: Sized {
    /// The characters the value is shown as.
    spec fn shown(&self) -> Seq<char>;

    fn style(self, style_code: StyleCode) -> (r: Style)
        ensures
            r@ == ansi_styled(style_code.spec_code(), self.shown()),
    ;
}

/// One shorthand per style code.
pub trait TextStyling: GeneratedTextStyling {
    fn black(self) -> (r: Style)
        ensures
            r@ == ansi_styled(30, self.shown()),
    {
        self.style(StyleCode::black)
    }

    fn red(self) -> (r: Style)
        ensures
            r@ == ansi_styled(31, self.shown()),
    {
        self.style(StyleCode::red)
    }

    fn green(self) -> (r: Style)
        ensures
            r@ == ansi_styled(32, self.shown()),
    {
        self.style(StyleCode::green)
    }

    fn yellow(self) -> (r: Style)
        ensures
            r@ == ansi_styled(33, self.shown()),
    {
        self.style(StyleCode::yellow)
    }

    fn blue(self) -> (r: Style)
        ensures
            r@ == ansi_styled(34, self.shown()),
    {
        self.style(StyleCode::blue)
    }

    fn magenta(self) -> (r: Style)
        ensures
            r@ == ansi_styled(35, self.shown()),
    {
        self.style(StyleCode::magenta)
    }

    fn cyan(self) -> (r: Style)
        ensures
            r@ == ansi_styled(36, self.shown()),
    {
        self.style(StyleCode::cyan)
    }

    fn white(self) -> (r: Style)
        ensures
            r@ == ansi_styled(37, self.shown()),
    {
        self.style(StyleCode::white)
    }

    fn bright_black(self) -> (r: Style)
        ensures
            r@ == ansi_styled(90, self.shown()),
    {
        self.style(StyleCode::bright_black)
    }

    fn bright_red(self) -> (r: Style)
        ensures
            r@ == ansi_styled(91, self.shown()),
    {
        self.style(StyleCode::bright_red)
    }

    fn bright_green(self) -> (r: Style)
        ensures
            r@ == ansi_styled(92, self.shown()),
    {
        self.style(StyleCode::bright_green)
    }

    fn bright_yellow(self) -> (r: Style)
        ensures
            r@ == ansi_styled(93, self.shown()),
    {
        self.style(StyleCode::bright_yellow)
    }

    fn bright_blue(self) -> (r: Style)
        ensures
            r@ == ansi_styled(94, self.shown()),
    {
        self.style(StyleCode::bright_blue)
    }

    fn bright_magenta(self) -> (r: Style)
        ensures
            r@ == ansi_styled(95, self.shown()),
    {
        self.style(StyleCode::bright_magenta)
    }

    fn bright_cyan(self) -> (r: Style)
        ensures
            r@ == ansi_styled(96, self.shown()),
    {
        self.style(StyleCode::bright_cyan)
    }

    fn bright_white(self) -> (r: Style)
        ensures
            r@ == ansi_styled(97, self.shown()),
    {
        self.style(StyleCode::bright_white)
    }

    fn bg_black(self) -> (r: Style)
        ensures
            r@ == ansi_styled(40, self.shown()),
    {
        self.style(StyleCode::bg_black)
    }

    fn bg_red(self) -> (r: Style)
        ensures
            r@ == ansi_styled(41, self.shown()),
    {
        self.style(StyleCode::bg_red)
    }

    fn bg_green(self) -> (r: Style)
        ensures
            r@ == ansi_styled(42, self.shown()),
    {
        self.style(StyleCode::bg_green)
    }

    fn bg_yellow(self) -> (r: Style)
        ensures
            r@ == ansi_styled(43, self.shown()),
    {
        self.style(StyleCode::bg_yellow)
    }

    fn bg_blue(self) -> (r: Style)
        ensures
            r@ == ansi_styled(44, self.shown()),
    {
        self.style(StyleCode::bg_blue)
    }

    fn bg_magenta(self) -> (r: Style)
        ensures
            r@ == ansi_styled(45, self.shown()),
    {
        self.style(StyleCode::bg_magenta)
    }

    fn bg_cyan(self) -> (r: Style)
        ensures
            r@ == ansi_styled(46, self.shown()),
    {
        self.style(StyleCode::bg_cyan)
    }

    fn bg_white(self) -> (r: Style)
        ensures
            r@ == ansi_styled(47, self.shown()),
    {
        self.style(StyleCode::bg_white)
    }

    fn bg_bright_black(self) -> (r: Style)
        ensures
            r@ == ansi_styled(100, self.shown()),
    {
        self.style(StyleCode::bg_bright_black)
    }

    fn bg_bright_red(self) -> (r: Style)
        ensures
            r@ == ansi_styled(101, self.shown()),
    {
        self.style(StyleCode::bg_bright_red)
    }

    fn bg_bright_green(self) -> (r: Style)
        ensures
            r@ == ansi_styled(102, self.shown()),
    {
        self.style(StyleCode::bg_bright_green)
    }

    fn bg_bright_yellow(self) -> (r: Style)
        ensures
            r@ == ansi_styled(103, self.shown()),
    {
        self.style(StyleCode::bg_bright_yellow)
    }

    fn bg_bright_blue(self) -> (r: Style)
        ensures
            r@ == ansi_styled(104, self.shown()),
    {
        self.style(StyleCode::bg_bright_blue)
    }

    fn bg_bright_magenta(self) -> (r: Style)
        ensures
            r@ == ansi_styled(105, self.shown()),
    {
        self.style(StyleCode::bg_bright_magenta)
    }

    fn bg_bright_cyan(self) -> (r: Style)
        ensures
            r@ == ansi_styled(106, self.shown()),
    {
        self.style(StyleCode::bg_bright_cyan)
    }

    fn bg_bright_white(self) -> (r: Style)
        ensures
            r@ == ansi_styled(107, self.shown()),
    {
        self.style(StyleCode::bg_bright_white)
    }

    fn bold(self) -> (r: Style)
        ensures
            r@ == ansi_styled(1, self.shown()),
    {
        self.style(StyleCode::bold)
    }

    fn italic(self) -> (r: Style)
        ensures
            r@ == ansi_styled(3, self.shown()),
    {
        self.style(StyleCode::italic)
    }

    fn underline(self) -> (r: Style)
        ensures
            r@ == ansi_styled(4, self.shown()),
    {
        self.style(StyleCode::underline)
    }

    fn strikethrough(self) -> (r: Style)
        ensures
            r@ == ansi_styled(9, self.shown()),
    {
        self.style(StyleCode::strikethrough)
    }
}

impl<'a> GeneratedTextStyling for &'a str {
    open spec fn shown(&self) -> Seq<char> {
        (*self)@
    }

    fn style(self, style_code: StyleCode) -> (r: Style) {
        Style { text: self.to_string(), code: style_code.code() }
    }
}

impl GeneratedTextStyling for String {
    open spec fn shown(&self) -> Seq<char> {
        self@
    }

    fn style(self, style_code: StyleCode) -> (r: Style) {
        Style { text: self, code: style_code.code() }
    }
}

impl GeneratedTextStyling for u32 {
    open spec fn shown(&self) -> Seq<char> {
        decimal(*self as nat)
    }

    fn style(self, style_code: StyleCode) -> (r: Style) {
        Style { text: decimal_string(self as u64), code: style_code.code() }
    }
}

impl GeneratedTextStyling for Style {
    open spec fn shown(&self) -> Seq<char> {
        self@
    }

    fn style(self, style_code: StyleCode) -> (r: Style) {
        Style { text: self.to_string(), code: style_code.code() }
    }
}

impl<'a> TextStyling for &'a str {}

impl TextStyling for String {}

impl TextStyling for u32 {}

impl TextStyling for Style {}

} // verus!
