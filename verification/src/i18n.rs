//! Translation tables and the inline keyboards offered to the user.

use vstd::prelude::*;

use crate::session::Language;
use crate::strutil::str_eq;

verus! {

/// The set of prompt strings, one per language.
pub struct Translations {
    pub welcome: &'static str,
    pub choose_action: &'static str,
    pub choose_language: &'static str,
    pub order_btn: &'static str,
    pub test_btn: &'static str,
    pub order_task: &'static str,
    pub order_contacts: &'static str,
    pub test_channel: &'static str,
    pub test_contacts: &'static str,
    pub order_saved: &'static str,
    pub test_registered: &'static str,
    pub write_start: &'static str,
    pub lang_changed: &'static str,
}

/// The full translation table, one row per language.
pub open spec fn spec_translations(lang: Language) -> Translations {
    match lang {
        Language::En => Translations {
            welcome: "Welcome!",
            choose_action: "Choose an action:",
            choose_language: "Select language:",
            order_btn: "📝 Make order",
            test_btn: "📋 Sign up for tests",
            order_task: "Describe your order:",
            order_contacts: "Enter your contacts:",
            test_channel: "Enter your channel link:",
            test_contacts: "Enter your contacts:",
            order_saved: "✅ Order saved! We will contact you.",
            test_registered: "✅ You are signed up for tests!",
            write_start: "Write /start",
            lang_changed: "✅ Language changed!",
        },
        Language::Ru => Translations {
            welcome: "Добро пожаловать!",
            choose_action: "Выберите действие:",
            choose_language: "Выберите язык:",
            order_btn: "📝 Сделать заказ",
            test_btn: "📋 Записаться на тесты",
            order_task: "Опишите ваш заказ:",
            order_contacts: "Введите ваши контакты:",
            test_channel: "Введите ссылку на ваш канал:",
            test_contacts: "Введите ваши контакты:",
            order_saved: "✅ Заказ сохранён! Мы свяжемся с вами.",
            test_registered: "✅ Вы записаны на тесты!",
            write_start: "Напишите /start",
            lang_changed: "✅ Язык изменён!",
        },
    }
}

/// The language a stored language code denotes: `"en"` is the alternate
/// language, anything else falls back to the default.
pub open spec fn spec_language_of_code(code: Seq<char>) -> Language {
    if code == "en"@ {
        Language::En
    } else {
        Language::Ru
    }
}

impl Language {
    /// The code under which the language is persisted.
    pub open spec fn spec_code(self) -> &'static str {
        match self {
            Language::Ru => "ru",
            Language::En => "en",
        }
    }

    /// Encodes the language as its persistence code.
    pub fn code(self) -> (c: &'static str)
        ensures
            c == self.spec_code(),
    {
        match self {
            Language::Ru => "ru",
            Language::En => "en",
        }
    }

    /// Decodes a persistence code; unknown codes fall back to the default.
    pub fn from_code(code: &str) -> (l: Language)
        ensures
            l == spec_language_of_code(code@),
    {
        if str_eq(code, "en") {
            Language::En
        } else {
            Language::Ru
        }
    }
}

/// Returns the translation row for the given language.
pub fn translations(lang: Language) -> (r: Translations)
    ensures
        r == spec_translations(lang),
{
    match lang {
        Language::En => Translations {
            welcome: "Welcome!",
            choose_action: "Choose an action:",
            choose_language: "Select language:",
            order_btn: "📝 Make order",
            test_btn: "📋 Sign up for tests",
            order_task: "Describe your order:",
            order_contacts: "Enter your contacts:",
            test_channel: "Enter your channel link:",
            test_contacts: "Enter your contacts:",
            order_saved: "✅ Order saved! We will contact you.",
            test_registered: "✅ You are signed up for tests!",
            write_start: "Write /start",
            lang_changed: "✅ Language changed!",
        },
        Language::Ru => Translations {
            welcome: "Добро пожаловать!",
            choose_action: "Выберите действие:",
            choose_language: "Выберите язык:",
            order_btn: "📝 Сделать заказ",
            test_btn: "📋 Записаться на тесты",
            order_task: "Опишите ваш заказ:",
            order_contacts: "Введите ваши контакты:",
            test_channel: "Введите ссылку на ваш канал:",
            test_contacts: "Введите ваши контакты:",
            order_saved: "✅ Заказ сохранён! Мы свяжемся с вами.",
            test_registered: "✅ Вы записаны на тесты!",
            write_start: "Напишите /start",
            lang_changed: "✅ Язык изменён!",
        },
    }
}

/// Returns the translation row for a stored language code.
pub fn t(lang: &str) -> (r: Translations)
    ensures
        r == spec_translations(spec_language_of_code(lang@)),
{
    translations(Language::from_code(lang))
}

/// Returns the display name of the language a stored code denotes.
pub fn lang_name(lang: &str) -> (r: &'static str)
    ensures
        spec_language_of_code(lang@) == Language::En ==> r == "English",
        spec_language_of_code(lang@) == Language::Ru ==> r == "Русский",
{
    if str_eq(lang, "en") {
        "English"
    } else {
        "Русский"
    }
}

/// One inline button: a visible label and the callback payload a press
/// sends back.
#[derive(Clone, Copy, Debug, PartialEq, Eq)]
pub struct Button {
    pub label: &'static str,
    pub callback: &'static str,
}

/// An inline keyboard: rows of buttons attached to a message.
#[derive(Clone, Debug, PartialEq, Eq)]
pub struct Keyboard {
    pub rows: Vec<Vec<Button>>,
}

/// Which keyboard a prompt carries. The engine decides the kind; the
/// concrete `Keyboard` is built from the kind and the user's language.
#[derive(Clone, Copy, Debug, PartialEq, Eq, Structural)]
pub enum KeyboardKind {
    NoKeyboard,
    LanguageChoice,
    MainMenu,
}

/// Builds the language-selection keyboard: one row, one button per
/// language, each carrying its `lang_*` callback payload.
pub fn lang_keyboard() -> (k: Keyboard)
    ensures
        k.rows@.len() == 1,
        k.rows@[0]@.len() == 2,
        k.rows@[0]@[0].label@ == "🇷🇺 Русский"@,
        k.rows@[0]@[0].callback@ == "lang_ru"@,
        k.rows@[0]@[1].label@ == "🇬🇧 English"@,
        k.rows@[0]@[1].callback@ == "lang_en"@,
{
    let row: Vec<Button> = vec![
        Button { label: "🇷🇺 Русский", callback: "lang_ru" },
        Button { label: "🇬🇧 English", callback: "lang_en" },
    ];
    Keyboard { rows: vec![row] }
}

/// Builds the main menu keyboard for a stored language code: one row with
/// the order button and the test-signup button, labelled in that language.
pub fn main_menu(lang: &str) -> (k: Keyboard)
    ensures
        k.rows@.len() == 1,
        k.rows@[0]@.len() == 2,
        k.rows@[0]@[0].label == spec_translations(spec_language_of_code(lang@)).order_btn,
        k.rows@[0]@[0].callback@ == "menu_order"@,
        k.rows@[0]@[1].label == spec_translations(spec_language_of_code(lang@)).test_btn,
        k.rows@[0]@[1].callback@ == "menu_test"@,
{
    let tr = t(lang);
    let row: Vec<Button> = vec![
        Button { label: tr.order_btn, callback: "menu_order" },
        Button { label: tr.test_btn, callback: "menu_test" },
    ];
    Keyboard { rows: vec![row] }
}

/// Builds the concrete keyboard a kind denotes, in the given language.
pub fn keyboard_for(kind: KeyboardKind, lang: Language) -> (k: Option<Keyboard>)
    ensures
        kind == KeyboardKind::NoKeyboard <==> k is None,
{
    match kind {
        KeyboardKind::NoKeyboard => None,
        KeyboardKind::LanguageChoice => Some(lang_keyboard()),
        KeyboardKind::MainMenu => Some(main_menu(lang.code())),
    }
}

} // verus!
