//! The conversation session engine: one inbound event and the user's
//! current session decide the next state, at most one record write and at
//! most one render, exactly as the dialogue table says.

use vstd::prelude::*;

use crate::i18n::KeyboardKind;
use crate::session::Language;
use crate::session::SessionState;
use crate::strutil::str_eq;

verus! {

/// One inbound occurrence from the chat platform.
pub enum Event {
    /// A text message typed by the user.
    Message {
        /// The sending user.
        user: i64,
        /// Platform identifier of the incoming message, used to delete it.
        message_id: i64,
        /// The user's account name, empty when the account has none.
        username: String,
        /// The user's display name.
        display_name: String,
        /// The message text.
        text: String,
    },
    /// A button press on an inline keyboard.
    Callback {
        /// The pressing user.
        user: i64,
        /// Platform identifier of the callback, used to acknowledge it.
        id: String,
        /// The payload of the pressed button.
        data: String,
    },
}

impl Event {
    /// The user the event came from.
    pub open spec fn spec_user(self) -> i64 {
        match self {
            Event::Message { user, .. } => user,
            Event::Callback { user, .. } => user,
        }
    }

    /// Returns the user the event came from.
    pub fn user(&self) -> (u: i64)
        ensures
            u == self.spec_user(),
    {
        match self {
            Event::Message { user, .. } => *user,
            Event::Callback { user, .. } => *user,
        }
    }
}

/// The prompt a render shows, named independently of language.
#[derive(Clone, Copy, Debug, PartialEq, Eq, Structural)]
pub enum Prompt {
    Welcome,
    ChooseAction,
    ChooseLanguage,
    OrderTask,
    OrderContacts,
    TestChannel,
    TestContacts,
    OrderSaved,
    TestRegistered,
    WriteStart,
    LangChanged,
}

impl Prompt {
    /// The string this prompt renders as under the given translation row.
    pub open spec fn spec_text(self, tr: crate::i18n::Translations) -> &'static str {
        match self {
            Prompt::Welcome => tr.welcome,
            Prompt::ChooseAction => tr.choose_action,
            Prompt::ChooseLanguage => tr.choose_language,
            Prompt::OrderTask => tr.order_task,
            Prompt::OrderContacts => tr.order_contacts,
            Prompt::TestChannel => tr.test_channel,
            Prompt::TestContacts => tr.test_contacts,
            Prompt::OrderSaved => tr.order_saved,
            Prompt::TestRegistered => tr.test_registered,
            Prompt::WriteStart => tr.write_start,
            Prompt::LangChanged => tr.lang_changed,
        }
    }

    /// Picks this prompt's string out of a translation row.
    pub fn text(self, tr: &crate::i18n::Translations) -> (s: &'static str)
        ensures
            s == self.spec_text(*tr),
    {
        match self {
            Prompt::Welcome => tr.welcome,
            Prompt::ChooseAction => tr.choose_action,
            Prompt::ChooseLanguage => tr.choose_language,
            Prompt::OrderTask => tr.order_task,
            Prompt::OrderContacts => tr.order_contacts,
            Prompt::TestChannel => tr.test_channel,
            Prompt::TestContacts => tr.test_contacts,
            Prompt::OrderSaved => tr.order_saved,
            Prompt::TestRegistered => tr.test_registered,
            Prompt::WriteStart => tr.write_start,
            Prompt::LangChanged => tr.lang_changed,
        }
    }
}

/// A logical asset shown with a prompt, named independently of storage.
#[derive(Clone, Copy, Debug, PartialEq, Eq, Structural)]
pub enum AssetId {
    Start,
    OrderTaskImage,
    OrderContactsImage,
    TestChannelImage,
    TestContactsImage,
}

impl AssetId {
    /// The logical name the asset is cached under.
    pub open spec fn spec_name(self) -> &'static str {
        match self {
            AssetId::Start => "start",
            AssetId::OrderTaskImage => "task",
            AssetId::OrderContactsImage => "contacts",
            AssetId::TestChannelImage => "channel",
            AssetId::TestContactsImage => "test_contacts",
        }
    }

    /// The repository subfolder the asset's file lies in; empty for the
    /// repository root.
    pub open spec fn spec_subfolder(self) -> &'static str {
        match self {
            AssetId::Start => "",
            AssetId::OrderTaskImage => "order",
            AssetId::OrderContactsImage => "order",
            AssetId::TestChannelImage => "test",
            AssetId::TestContactsImage => "test",
        }
    }

    /// Returns the logical name the asset is cached under.
    pub fn name(self) -> (n: &'static str)
        ensures
            n == self.spec_name(),
    {
        match self {
            AssetId::Start => "start",
            AssetId::OrderTaskImage => "task",
            AssetId::OrderContactsImage => "contacts",
            AssetId::TestChannelImage => "channel",
            AssetId::TestContactsImage => "test_contacts",
        }
    }

    /// Returns the subfolder the asset's file lies in.
    pub fn subfolder(self) -> (s: &'static str)
        ensures
            s == self.spec_subfolder(),
    {
        match self {
            AssetId::Start => "",
            AssetId::OrderTaskImage => "order",
            AssetId::OrderContactsImage => "order",
            AssetId::TestChannelImage => "test",
            AssetId::TestContactsImage => "test",
        }
    }
}

/// The one business-record write a transition performs, if any.
pub enum RecordAction {
    /// No record is touched.
    NoRecord,
    /// A new order is created with the supplied task text and empty
    /// contacts.
    CreateOrder { text: String },
    /// The user's most recent order gets this contact string.
    UpdateLatestOrderContacts { contacts: String },
}

/// The one render a transition performs, if any.
pub enum RenderAction {
    /// Nothing is shown.
    NoRender,
    /// A plain text prompt with an optional keyboard.
    RenderText { prompt: Prompt, keyboard: KeyboardKind },
    /// A cached image with a caption and an optional keyboard.
    RenderImage { asset: AssetId, caption: Prompt, keyboard: KeyboardKind },
}

/// Everything one event makes the bot do. The engine is purely reactive:
/// at most one state write, at most one record write, at most one render.
pub struct Outcome {
    /// The dialogue state after the event; equals the old state unless
    /// `write_state` holds.
    pub next_state: SessionState,
    /// Whether the session row's state is written.
    pub write_state: bool,
    /// The language to persist, if the event picked one.
    pub set_language: Option<Language>,
    /// The business-record write of this transition.
    pub record: RecordAction,
    /// The render of this transition.
    pub render: RenderAction,
    /// Whether the user's incoming message is deleted from the chat
    /// surface; display hygiene, done for every text message.
    pub delete_incoming: bool,
    /// Whether the callback must be acknowledged; done for every callback.
    pub answer_callback: bool,
}

/// An outcome that does nothing beyond the per-kind hygiene steps.
pub open spec fn spec_noop_outcome(state: SessionState, is_message: bool) -> Outcome {
    Outcome {
        next_state: state,
        write_state: false,
        set_language: None,
        record: RecordAction::NoRecord,
        render: RenderAction::NoRender,
        delete_incoming: is_message,
        answer_callback: !is_message,
    }
}

/// The dialogue table: what a text message makes of the session.
pub open spec fn spec_step_message(
    state: SessionState,
    language: Option<Language>,
    text: Seq<char>,
    owned_text: String,
) -> Outcome {
    match state {
        SessionState::LanguageSelect => spec_noop_outcome(state, true),
        SessionState::Idle => if text == "/start"@ {
            if language is None {
                Outcome {
                    next_state: SessionState::LanguageSelect,
                    write_state: true,
                    set_language: None,
                    record: RecordAction::NoRecord,
                    render: RenderAction::RenderText {
                        prompt: Prompt::ChooseLanguage,
                        keyboard: KeyboardKind::LanguageChoice,
                    },
                    delete_incoming: true,
                    answer_callback: false,
                }
            } else {
                Outcome {
                    next_state: SessionState::Idle,
                    write_state: false,
                    set_language: None,
                    record: RecordAction::NoRecord,
                    render: RenderAction::RenderImage {
                        asset: AssetId::Start,
                        caption: Prompt::Welcome,
                        keyboard: KeyboardKind::MainMenu,
                    },
                    delete_incoming: true,
                    answer_callback: false,
                }
            }
        } else if text == "/menu"@ {
            Outcome {
                next_state: SessionState::Idle,
                write_state: false,
                set_language: None,
                record: RecordAction::NoRecord,
                render: RenderAction::RenderImage {
                    asset: AssetId::Start,
                    caption: Prompt::ChooseAction,
                    keyboard: KeyboardKind::MainMenu,
                },
                delete_incoming: true,
                answer_callback: false,
            }
        } else if text == "/lang"@ {
            Outcome {
                next_state: SessionState::LanguageSelect,
                write_state: true,
                set_language: None,
                record: RecordAction::NoRecord,
                render: RenderAction::RenderText {
                    prompt: Prompt::ChooseLanguage,
                    keyboard: KeyboardKind::LanguageChoice,
                },
                delete_incoming: true,
                answer_callback: false,
            }
        } else {
            Outcome {
                next_state: SessionState::Idle,
                write_state: false,
                set_language: None,
                record: RecordAction::NoRecord,
                render: RenderAction::RenderText {
                    prompt: Prompt::WriteStart,
                    keyboard: KeyboardKind::NoKeyboard,
                },
                delete_incoming: true,
                answer_callback: false,
            }
        },
        SessionState::AwaitingOrderTask => Outcome {
            next_state: SessionState::AwaitingOrderContacts,
            write_state: true,
            set_language: None,
            record: RecordAction::CreateOrder { text: owned_text },
            render: RenderAction::RenderImage {
                asset: AssetId::OrderContactsImage,
                caption: Prompt::OrderContacts,
                keyboard: KeyboardKind::NoKeyboard,
            },
            delete_incoming: true,
            answer_callback: false,
        },
        SessionState::AwaitingOrderContacts => Outcome {
            next_state: SessionState::Idle,
            write_state: true,
            set_language: None,
            record: RecordAction::UpdateLatestOrderContacts { contacts: owned_text },
            render: RenderAction::RenderText {
                prompt: Prompt::OrderSaved,
                keyboard: KeyboardKind::NoKeyboard,
            },
            delete_incoming: true,
            answer_callback: false,
        },
        SessionState::AwaitingTestChannel => Outcome {
            next_state: SessionState::AwaitingTestContacts,
            write_state: true,
            set_language: None,
            record: RecordAction::NoRecord,
            render: RenderAction::RenderImage {
                asset: AssetId::TestContactsImage,
                caption: Prompt::TestContacts,
                keyboard: KeyboardKind::NoKeyboard,
            },
            delete_incoming: true,
            answer_callback: false,
        },
        SessionState::AwaitingTestContacts => Outcome {
            next_state: SessionState::Idle,
            write_state: true,
            set_language: None,
            record: RecordAction::NoRecord,
            render: RenderAction::RenderText {
                prompt: Prompt::TestRegistered,
                keyboard: KeyboardKind::NoKeyboard,
            },
            delete_incoming: true,
            answer_callback: false,
        },
    }
}

/// The dialogue table: what a button press makes of the session.
pub open spec fn spec_step_callback(state: SessionState, data: Seq<char>) -> Outcome {
    match state {
        SessionState::Idle => if data == "menu_order"@ {
            Outcome {
                next_state: SessionState::AwaitingOrderTask,
                write_state: true,
                set_language: None,
                record: RecordAction::NoRecord,
                render: RenderAction::RenderImage {
                    asset: AssetId::OrderTaskImage,
                    caption: Prompt::OrderTask,
                    keyboard: KeyboardKind::NoKeyboard,
                },
                delete_incoming: false,
                answer_callback: true,
            }
        } else if data == "menu_test"@ {
            Outcome {
                next_state: SessionState::AwaitingTestChannel,
                write_state: true,
                set_language: None,
                record: RecordAction::NoRecord,
                render: RenderAction::RenderImage {
                    asset: AssetId::TestChannelImage,
                    caption: Prompt::TestChannel,
                    keyboard: KeyboardKind::NoKeyboard,
                },
                delete_incoming: false,
                answer_callback: true,
            }
        } else {
            spec_noop_outcome(state, false)
        },
        SessionState::LanguageSelect => if data == "lang_ru"@ {
            Outcome {
                next_state: SessionState::Idle,
                write_state: true,
                set_language: Some(Language::Ru),
                record: RecordAction::NoRecord,
                render: RenderAction::RenderText {
                    prompt: Prompt::LangChanged,
                    keyboard: KeyboardKind::MainMenu,
                },
                delete_incoming: false,
                answer_callback: true,
            }
        } else if data == "lang_en"@ {
            Outcome {
                next_state: SessionState::Idle,
                write_state: true,
                set_language: Some(Language::En),
                record: RecordAction::NoRecord,
                render: RenderAction::RenderText {
                    prompt: Prompt::LangChanged,
                    keyboard: KeyboardKind::MainMenu,
                },
                delete_incoming: false,
                answer_callback: true,
            }
        } else {
            spec_noop_outcome(state, false)
        },
        _ => spec_noop_outcome(state, false),
    }
}

/// The dialogue table as one function of session and event. Every listed
/// (state, input) pair maps to its next state and side effects; every
/// unlisted pair maps to a no-op.
pub open spec fn spec_step(
    state: SessionState,
    language: Option<Language>,
    event: Event,
) -> Outcome {
    match event {
        Event::Message { text, .. } => spec_step_message(state, language, text@, text),
        Event::Callback { data, .. } => spec_step_callback(state, data@),
    }
}

/// Decides what one event makes the bot do. The result is exactly the
/// dialogue table's row for the current state and input: the engine is
/// deterministic, and unlisted pairs change nothing and write nothing.
pub fn step(state: SessionState, language: Option<Language>, event: &Event) -> (r: Outcome)
    ensures
        r == spec_step(state, language, *event),
{
    match event {
        Event::Message { text, .. } => {
            match state {
                SessionState::LanguageSelect => noop_outcome(state, true),
                SessionState::Idle => {
                    if str_eq(text.as_str(), "/start") {
                        if language.is_none() {
                            Outcome {
                                next_state: SessionState::LanguageSelect,
                                write_state: true,
                                set_language: None,
                                record: RecordAction::NoRecord,
                                render: RenderAction::RenderText {
                                    prompt: Prompt::ChooseLanguage,
                                    keyboard: KeyboardKind::LanguageChoice,
                                },
                                delete_incoming: true,
                                answer_callback: false,
                            }
                        } else {
                            Outcome {
                                next_state: SessionState::Idle,
                                write_state: false,
                                set_language: None,
                                record: RecordAction::NoRecord,
                                render: RenderAction::RenderImage {
                                    asset: AssetId::Start,
                                    caption: Prompt::Welcome,
                                    keyboard: KeyboardKind::MainMenu,
                                },
                                delete_incoming: true,
                                answer_callback: false,
                            }
                        }
                    } else if str_eq(text.as_str(), "/menu") {
                        Outcome {
                            next_state: SessionState::Idle,
                            write_state: false,
                            set_language: None,
                            record: RecordAction::NoRecord,
                            render: RenderAction::RenderImage {
                                asset: AssetId::Start,
                                caption: Prompt::ChooseAction,
                                keyboard: KeyboardKind::MainMenu,
                            },
                            delete_incoming: true,
                            answer_callback: false,
                        }
                    } else if str_eq(text.as_str(), "/lang") {
                        Outcome {
                            next_state: SessionState::LanguageSelect,
                            write_state: true,
                            set_language: None,
                            record: RecordAction::NoRecord,
                            render: RenderAction::RenderText {
                                prompt: Prompt::ChooseLanguage,
                                keyboard: KeyboardKind::LanguageChoice,
                            },
                            delete_incoming: true,
                            answer_callback: false,
                        }
                    } else {
                        Outcome {
                            next_state: SessionState::Idle,
                            write_state: false,
                            set_language: None,
                            record: RecordAction::NoRecord,
                            render: RenderAction::RenderText {
                                prompt: Prompt::WriteStart,
                                keyboard: KeyboardKind::NoKeyboard,
                            },
                            delete_incoming: true,
                            answer_callback: false,
                        }
                    }
                },
                SessionState::AwaitingOrderTask => Outcome {
                    next_state: SessionState::AwaitingOrderContacts,
                    write_state: true,
                    set_language: None,
                    record: RecordAction::CreateOrder { text: text.clone() },
                    render: RenderAction::RenderImage {
                        asset: AssetId::OrderContactsImage,
                        caption: Prompt::OrderContacts,
                        keyboard: KeyboardKind::NoKeyboard,
                    },
                    delete_incoming: true,
                    answer_callback: false,
                },
                SessionState::AwaitingOrderContacts => Outcome {
                    next_state: SessionState::Idle,
                    write_state: true,
                    set_language: None,
                    record: RecordAction::UpdateLatestOrderContacts { contacts: text.clone() },
                    render: RenderAction::RenderText {
                        prompt: Prompt::OrderSaved,
                        keyboard: KeyboardKind::NoKeyboard,
                    },
                    delete_incoming: true,
                    answer_callback: false,
                },
                SessionState::AwaitingTestChannel => Outcome {
                    next_state: SessionState::AwaitingTestContacts,
                    write_state: true,
                    set_language: None,
                    record: RecordAction::NoRecord,
                    render: RenderAction::RenderImage {
                        asset: AssetId::TestContactsImage,
                        caption: Prompt::TestContacts,
                        keyboard: KeyboardKind::NoKeyboard,
                    },
                    delete_incoming: true,
                    answer_callback: false,
                },
                SessionState::AwaitingTestContacts => Outcome {
                    next_state: SessionState::Idle,
                    write_state: true,
                    set_language: None,
                    record: RecordAction::NoRecord,
                    render: RenderAction::RenderText {
                        prompt: Prompt::TestRegistered,
                        keyboard: KeyboardKind::NoKeyboard,
                    },
                    delete_incoming: true,
                    answer_callback: false,
                },
            }
        },
        Event::Callback { data, .. } => {
            match state {
                SessionState::Idle => {
                    if str_eq(data.as_str(), "menu_order") {
                        Outcome {
                            next_state: SessionState::AwaitingOrderTask,
                            write_state: true,
                            set_language: None,
                            record: RecordAction::NoRecord,
                            render: RenderAction::RenderImage {
                                asset: AssetId::OrderTaskImage,
                                caption: Prompt::OrderTask,
                                keyboard: KeyboardKind::NoKeyboard,
                            },
                            delete_incoming: false,
                            answer_callback: true,
                        }
                    } else if str_eq(data.as_str(), "menu_test") {
                        Outcome {
                            next_state: SessionState::AwaitingTestChannel,
                            write_state: true,
                            set_language: None,
                            record: RecordAction::NoRecord,
                            render: RenderAction::RenderImage {
                                asset: AssetId::TestChannelImage,
                                caption: Prompt::TestChannel,
                                keyboard: KeyboardKind::NoKeyboard,
                            },
                            delete_incoming: false,
                            answer_callback: true,
                        }
                    } else {
                        noop_outcome(state, false)
                    }
                },
                SessionState::LanguageSelect => {
                    if str_eq(data.as_str(), "lang_ru") {
                        Outcome {
                            next_state: SessionState::Idle,
                            write_state: true,
                            set_language: Some(Language::Ru),
                            record: RecordAction::NoRecord,
                            render: RenderAction::RenderText {
                                prompt: Prompt::LangChanged,
                                keyboard: KeyboardKind::MainMenu,
                            },
                            delete_incoming: false,
                            answer_callback: true,
                        }
                    } else if str_eq(data.as_str(), "lang_en") {
                        Outcome {
                            next_state: SessionState::Idle,
                            write_state: true,
                            set_language: Some(Language::En),
                            record: RecordAction::NoRecord,
                            render: RenderAction::RenderText {
                                prompt: Prompt::LangChanged,
                                keyboard: KeyboardKind::MainMenu,
                            },
                            delete_incoming: false,
                            answer_callback: true,
                        }
                    } else {
                        noop_outcome(state, false)
                    }
                },
                _ => noop_outcome(state, false),
            }
        },
    }
}

/// Builds the outcome of an unlisted (state, input) pair.
fn noop_outcome(state: SessionState, is_message: bool) -> (r: Outcome)
    ensures
        r == spec_noop_outcome(state, is_message),
{
    Outcome {
        next_state: state,
        write_state: false,
        set_language: None,
        record: RecordAction::NoRecord,
        render: RenderAction::NoRender,
        delete_incoming: is_message,
        answer_callback: !is_message,
    }
}

/// Unlisted (state, input) pairs are no-ops: a button press whose payload
/// is not the menu or language choice offered in the current state leaves
/// the state unchanged and writes nothing, and so does any text typed
/// while the language prompt is up.
pub proof fn lemma_unlisted_pairs_are_noops(
    state: SessionState,
    language: Option<Language>,
    event: Event,
)
    requires
        match event {
            Event::Message { .. } => state == SessionState::LanguageSelect,
            Event::Callback { data, .. } => {
                &&& data@ != "menu_order"@
                &&& data@ != "menu_test"@
                &&& data@ != "lang_ru"@
                &&& data@ != "lang_en"@
            },
        },
    ensures
        spec_step(state, language, event) == spec_noop_outcome(
            state,
            event is Message,
        ),
{
}

} // verus!
