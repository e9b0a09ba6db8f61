//! Modal message dialogs.
use vstd::prelude::*;

verus! {

/// The buttons a dialog shows.
#[derive(Debug, Clone, Copy, PartialEq, Eq, Hash)]
pub enum Button {
    OkOnly,
    OkCancel,
    AbortRetryIgnore,
    YesNoCancel,
    YesNo,
    RetryCancel,
    CancalRetryContinue,
    Help,
}

/// The platform's flag bits of a `Button`.
pub open spec fn button_code(v: Button) -> u32 {
    match v {
        Button::OkOnly => 0x0,
        Button::OkCancel => 0x1,
        Button::AbortRetryIgnore => 0x2,
        Button::YesNoCancel => 0x3,
        Button::YesNo => 0x4,
        Button::RetryCancel => 0x5,
        Button::CancalRetryContinue => 0x6,
        Button::Help => 0x4000,
    }
}

impl Button {
    /// The platform's flag bits of this value.
    pub fn code(self) -> (r: u32)
        ensures
            r == button_code(self),
    {
        match self {
            Button::OkOnly => 0x0,
            Button::OkCancel => 0x1,
            Button::AbortRetryIgnore => 0x2,
            Button::YesNoCancel => 0x3,
            Button::YesNo => 0x4,
            Button::RetryCancel => 0x5,
            Button::CancalRetryContinue => 0x6,
            Button::Help => 0x4000,
        }
    }
}

/// The kind of message a dialog shows, which picks its icon.
#[derive(Debug, Clone, Copy, PartialEq, Eq, Hash)]
pub enum DialogType {
    Error,
    Question,
    Warning,
    Information,
}

/// The platform's flag bits of a `DialogType`.
pub open spec fn dialog_type_code(v: DialogType) -> u32 {
    match v {
        DialogType::Error => 0x10,
        DialogType::Question => 0x20,
        DialogType::Warning => 0x30,
        DialogType::Information => 0x40,
    }
}

impl DialogType {
    /// The platform's flag bits of this value.
    pub fn code(self) -> (r: u32)
        ensures
            r == dialog_type_code(self),
    {
        match self {
            DialogType::Error => 0x10,
            DialogType::Question => 0x20,
            DialogType::Warning => 0x30,
            DialogType::Information => 0x40,
        }
    }
}

/// Which button of a dialog is the default.
#[derive(Debug, Clone, Copy, PartialEq, Eq, Hash)]
pub enum DefaultButton {
    FirstButton,
    SecondButton,
    ThirdButton,
    FourthButton,
}

/// The platform's flag bits of a `DefaultButton`.
pub open spec fn default_button_code(v: DefaultButton) -> u32 {
    match v {
        DefaultButton::FirstButton => 0x0,
        DefaultButton::SecondButton => 0x100,
        DefaultButton::ThirdButton => 0x200,
        DefaultButton::FourthButton => 0x300,
    }
}

impl DefaultButton {
    /// The platform's flag bits of this value.
    pub fn code(self) -> (r: u32)
        ensures
            r == default_button_code(self),
    {
        match self {
            DefaultButton::FirstButton => 0x0,
            DefaultButton::SecondButton => 0x100,
            DefaultButton::ThirdButton => 0x200,
            DefaultButton::FourthButton => 0x300,
        }
    }
}

/// What a dialog blocks while it is shown.
#[derive(Debug, Clone, Copy, PartialEq, Eq, Hash)]
pub enum Modal {
    App,
    System,
    Task,
}

/// The platform's flag bits of a `Modal`.
pub open spec fn modal_code(v: Modal) -> u32 {
    match v {
        Modal::App => 0x0,
        Modal::System => 0x1000,
        Modal::Task => 0x2000,
    }
}

impl Modal {
    /// The platform's flag bits of this value.
    pub fn code(self) -> (r: u32)
        ensures
            r == modal_code(self),
    {
        match self {
            Modal::App => 0x0,
            Modal::System => 0x1000,
            Modal::Task => 0x2000,
        }
    }
}

/// Further options of a dialog.
#[derive(Debug, Clone, Copy, PartialEq, Eq, Hash)]
pub enum DialogOption {
    TopMost,
    Foreground,
    RightAlign,
    RtlReading,
    ServiceNotification,
    DefaultDesktopOnly,
}

/// The platform's flag bits of a `DialogOption`.
pub open spec fn option_code(v: DialogOption) -> u32 {
    match v {
        DialogOption::TopMost => 0x40000,
        DialogOption::Foreground => 0x10000,
        DialogOption::RightAlign => 0x80000,
        DialogOption::RtlReading => 0x100000,
        DialogOption::ServiceNotification => 0x200000,
        DialogOption::DefaultDesktopOnly => 0x20000,
    }
}

impl DialogOption {
    /// The platform's flag bits of this value.
    pub fn code(self) -> (r: u32)
        ensures
            r == option_code(self),
    {
        match self {
            DialogOption::TopMost => 0x40000,
            DialogOption::Foreground => 0x10000,
            DialogOption::RightAlign => 0x80000,
            DialogOption::RtlReading => 0x100000,
            DialogOption::ServiceNotification => 0x200000,
            DialogOption::DefaultDesktopOnly => 0x20000,
        }
    }
}

/// The button a user closed a dialog with.
#[derive(Debug, Clone, Copy, PartialEq, Eq, Hash)]
pub enum DialogResult {
    OkClicked,
    Cancel,
    Abort,
    Retry,
    Ignore,
    Yes,
    No,
    RetryAgain,
    Continue,
}

/// The button that the platform's answer `code` names, if any.
pub open spec fn result_of_code(code: i32) -> Option<DialogResult> {
    match code {
        1 => Some(DialogResult::OkClicked),
        2 => Some(DialogResult::Cancel),
        3 => Some(DialogResult::Abort),
        4 => Some(DialogResult::Retry),
        5 => Some(DialogResult::Ignore),
        6 => Some(DialogResult::Yes),
        7 => Some(DialogResult::No),
        10 => Some(DialogResult::RetryAgain),
        11 => Some(DialogResult::Continue),
        _ => None,
    }
}

/// The button that the platform's answer `code` names, if any.
pub fn dialog_result(code: i32) -> (r: Option<DialogResult>)
    ensures
        r == result_of_code(code),
{
    match code {
        1 => Some(DialogResult::OkClicked),
        2 => Some(DialogResult::Cancel),
        3 => Some(DialogResult::Abort),
        4 => Some(DialogResult::Retry),
        5 => Some(DialogResult::Ignore),
        6 => Some(DialogResult::Yes),
        7 => Some(DialogResult::No),
        10 => Some(DialogResult::RetryAgain),
        11 => Some(DialogResult::Continue),
        _ => None,
    }
}

/// A modal message dialog to show.
pub struct Dialog {
    hwnd: usize,
    title: String,
    message: String,
    utype: u32,
    lang_id: u16,
}

impl Dialog {
    pub closed spec fn spec_title(&self) -> Seq<char> {
        self.title@
    }

    pub closed spec fn spec_message(&self) -> Seq<char> {
        self.message@
    }

    pub closed spec fn spec_utype(&self) -> u32 {
        self.utype
    }

    pub closed spec fn spec_owner(&self) -> usize {
        self.hwnd
    }

    pub closed spec fn spec_lang_id(&self) -> u16 {
        self.lang_id
    }

    /// A dialog of kind `type_` with empty title and message, no owner
    /// window and the default language.
    pub fn new(type_: DialogType) -> (r: Self)
        ensures
            r.spec_title() == Seq::<char>::empty(),
            r.spec_message() == Seq::<char>::empty(),
            r.spec_utype() == dialog_type_code(type_),
            r.spec_owner() == 0,
            r.spec_lang_id() == 0,
    {
        Self {
            hwnd: 0,
            title: String::new(),
            message: String::new(),
            utype: type_.code(),
            lang_id: 0,
        }
    }

    /// Sets the text of the title bar.
    pub fn title(self, title: &str) -> (r: Self)
        ensures
            r.spec_title() == title@,
            r.spec_message() == self.spec_message(),
            r.spec_utype() == self.spec_utype(),
    {
        let mut d = self;
        d.title = title.to_owned();
        d
    }

    /// Sets the message.
    pub fn message(self, message: &str) -> (r: Self)
        ensures
            r.spec_message() == message@,
            r.spec_title() == self.spec_title(),
            r.spec_utype() == self.spec_utype(),
    {
        let mut d = self;
        d.message = message.to_owned();
        d
    }

    /// Adds the buttons to show.
    pub fn buttons(self, buttons: Button) -> (r: Self)
        ensures
            r.spec_utype() == self.spec_utype() | button_code(buttons),
            r.spec_title() == self.spec_title(),
            r.spec_message() == self.spec_message(),
    {
        let mut d = self;
        d.utype = d.utype | buttons.code();
        d
    }

    /// Picks the default button.
    pub fn default_button(self, default_button: DefaultButton) -> (r: Self)
        ensures
            r.spec_utype() == self.spec_utype() | default_button_code(default_button),
            r.spec_title() == self.spec_title(),
            r.spec_message() == self.spec_message(),
    {
        let mut d = self;
        d.utype = d.utype | default_button.code();
        d
    }

    /// Picks what the dialog blocks.
    pub fn modal(self, modal: Modal) -> (r: Self)
        ensures
            r.spec_utype() == self.spec_utype() | modal_code(modal),
            r.spec_title() == self.spec_title(),
            r.spec_message() == self.spec_message(),
    {
        let mut d = self;
        d.utype = d.utype | modal.code();
        d
    }

    /// Adds a further option.
    pub fn set(self, options: DialogOption) -> (r: Self)
        ensures
            r.spec_utype() == self.spec_utype() | option_code(options),
            r.spec_title() == self.spec_title(),
            r.spec_message() == self.spec_message(),
    {
        let mut d = self;
        d.utype = d.utype | options.code();
        d
    }

    pub fn title_text(&self) -> (r: &str)
        ensures
            r@ == self.spec_title(),
    {
        self.title.as_str()
    }

    pub fn message_text(&self) -> (r: &str)
        ensures
            r@ == self.spec_message(),
    {
        self.message.as_str()
    }

    /// The flag bits the dialog is shown with.
    pub fn utype(&self) -> (r: u32)
        ensures
            r == self.spec_utype(),
    {
        self.utype
    }

    /// The native handle of the owner window (0 for none).
    pub fn owner(&self) -> (r: usize)
        ensures
            r == self.spec_owner(),
    {
        self.hwnd
    }

    pub fn lang_id(&self) -> (r: u16)
        ensures
            r == self.spec_lang_id(),
    {
        self.lang_id
    }
}

} // verus!
