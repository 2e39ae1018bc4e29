//! The bot as one system: stores, chat platform and asset repository,
//! driven one event at a time. `handle_event` is the whole reaction to
//! one inbound event — the dialogue step, the one record write, the one
//! render, and the display hygiene — and equals its mathematical model
//! exactly.

use vstd::prelude::*;

use crate::engine::Event;
use crate::engine::Outcome;
use crate::engine::RecordAction;
use crate::engine::RenderAction;
use crate::engine::spec_step;
use crate::engine::step;
use crate::i18n::spec_translations;
use crate::i18n::translations;
use crate::image_cache::AssetCacheStore;
use crate::image_cache::AssetRepo;
use crate::image_cache::CacheEntryModel;
use crate::image_cache::FileModel;
use crate::image_cache::spec_resolve;
use crate::message_control::send_smart;
use crate::message_control::send_smart_with_image;
use crate::message_control::spec_message_inv;
use crate::message_control::spec_send_smart_messages;
use crate::orders::OrderModel;
use crate::orders::OrderStore;
use crate::orders::spec_latest_order_index;
use crate::orders::spec_update_latest_contacts;
use crate::platform::ChatPlatform;
use crate::platform::MessageModel;
use crate::platform::PlatformModel;
use crate::session::Language;
use crate::session::Session;
use crate::session::SessionState;
use crate::session::spec_session_of;
use crate::store::SessionStore;

verus! {

/// Everything the bot owns or observes, as one value.
pub struct World {
    pub sessions: SessionStore,
    pub orders: OrderStore,
    pub cache: AssetCacheStore,
    pub repo: AssetRepo,
    pub platform: ChatPlatform,
}

/// The mathematical value of a [`World`].
pub struct WorldModel {
    pub sessions: Map<i64, Session>,
    pub orders: Seq<OrderModel>,
    pub cache: Seq<CacheEntryModel>,
    pub repo: Seq<FileModel>,
    pub messages: Seq<MessageModel>,
    pub next_message_id: i64,
    pub uploads: u64,
    pub next_file_id: i64,
}

impl View for World {
    type V = WorldModel;

    open spec fn view(&self) -> WorldModel {
        WorldModel {
            sessions: self.sessions@,
            orders: self.orders@,
            cache: self.cache@,
            repo: self.repo@,
            messages: self.platform@.messages,
            next_message_id: self.platform@.next_message_id,
            uploads: self.platform@.uploads,
            next_file_id: self.platform@.next_file_id,
        }
    }
}

/// The user name an event carries; a button press carries none.
pub open spec fn spec_event_username(event: Event) -> Seq<char> {
    match event {
        Event::Message { username, .. } => username@,
        Event::Callback { .. } => ""@,
    }
}

/// The display name an event carries; a button press carries none.
pub open spec fn spec_event_display_name(event: Event) -> Seq<char> {
    match event {
        Event::Message { display_name, .. } => display_name@,
        Event::Callback { .. } => ""@,
    }
}

/// The text an event carries; a button press carries none.
pub open spec fn spec_event_text(event: Event) -> Seq<char> {
    match event {
        Event::Message { text, .. } => text@,
        Event::Callback { .. } => ""@,
    }
}

/// The chat-surface identifier of an incoming message; a button press has
/// none.
pub open spec fn spec_event_message_id(event: Event) -> i64 {
    match event {
        Event::Message { message_id, .. } => message_id,
        Event::Callback { .. } => 0,
    }
}

/// The order list after the one record write of a transition.
pub open spec fn spec_apply_record(
    orders: Seq<OrderModel>,
    user: i64,
    event: Event,
    action: RecordAction,
    now: i64,
) -> Seq<OrderModel> {
    match action {
        RecordAction::NoRecord => orders,
        RecordAction::CreateOrder { text } => orders.push(
            OrderModel {
                id: (orders.len() + 1) as i64,
                user_id: user,
                username: spec_event_username(event),
                name: spec_event_display_name(event),
                contacts: ""@,
                text: text@,
                created_at: now,
            },
        ),
        RecordAction::UpdateLatestOrderContacts { contacts } => spec_update_latest_contacts(
            orders,
            user,
            contacts@,
        ),
    }
}

/// The session map after the language write of a transition, if any.
pub open spec fn spec_apply_language(
    sessions: Map<i64, Session>,
    user: i64,
    set_language: Option<Language>,
) -> Map<i64, Session> {
    match set_language {
        None => sessions,
        Some(l) => sessions.insert(
            user,
            Session {
                state: spec_session_of(sessions, user).state,
                language: Some(l),
                last_message_id: spec_session_of(sessions, user).last_message_id,
            },
        ),
    }
}

/// The session map after the state write of a transition, if any.
pub open spec fn spec_apply_state(
    sessions: Map<i64, Session>,
    user: i64,
    outcome: Outcome,
) -> Map<i64, Session> {
    if outcome.write_state {
        sessions.insert(
            user,
            Session {
                state: outcome.next_state,
                language: spec_session_of(sessions, user).language,
                last_message_id: spec_session_of(sessions, user).last_message_id,
            },
        )
    } else {
        sessions
    }
}

/// What one render changes: the session map (the recorded message), the
/// cache store, and the platform.
pub struct RenderEffect {
    pub sessions: Map<i64, Session>,
    pub cache: Seq<CacheEntryModel>,
    pub messages: Seq<MessageModel>,
    pub next_message_id: i64,
    pub uploads: u64,
    pub next_file_id: i64,
}

/// The session map after a send recorded the new message for the user.
pub open spec fn spec_record_sent(
    sessions: Map<i64, Session>,
    user: i64,
    id: i64,
) -> Map<i64, Session> {
    sessions.insert(
        user,
        Session {
            state: spec_session_of(sessions, user).state,
            language: spec_session_of(sessions, user).language,
            last_message_id: Some(id),
        },
    )
}

/// The render of a transition, against the model: a text prompt runs the
/// smart-send protocol; an image prompt first resolves its asset through
/// the cache and falls back to the plain caption when the asset's file is
/// missing. Prompts are worded in the user's effective language.
pub open spec fn spec_apply_render(
    sessions: Map<i64, Session>,
    cache: Seq<CacheEntryModel>,
    repo: Seq<FileModel>,
    platform: PlatformModel,
    user: i64,
    render: RenderAction,
) -> RenderEffect {
    match render {
        RenderAction::NoRender => RenderEffect {
            sessions: sessions,
            cache: cache,
            messages: platform.messages,
            next_message_id: platform.next_message_id,
            uploads: platform.uploads,
            next_file_id: platform.next_file_id,
        },
        RenderAction::RenderText { prompt, keyboard } => {
            let lang = spec_session_of(sessions, user).spec_effective_language();
            let text = prompt.spec_text(spec_translations(lang))@;
            RenderEffect {
                sessions: spec_record_sent(sessions, user, platform.next_message_id),
                cache: cache,
                messages: spec_send_smart_messages(sessions, platform, user, text, None, keyboard),
                next_message_id: (platform.next_message_id + 1) as i64,
                uploads: platform.uploads,
                next_file_id: platform.next_file_id,
            }
        },
        RenderAction::RenderImage { asset, caption, keyboard } => {
            let lang = spec_session_of(sessions, user).spec_effective_language();
            let text = caption.spec_text(spec_translations(lang))@;
            let m = spec_resolve(
                cache,
                repo,
                platform.uploads,
                platform.next_file_id,
                asset.spec_subfolder()@,
                asset.spec_name()@,
            );
            RenderEffect {
                sessions: spec_record_sent(sessions, user, platform.next_message_id),
                cache: m.cache,
                messages: spec_send_smart_messages(
                    sessions,
                    platform,
                    user,
                    text,
                    m.result,
                    keyboard,
                ),
                next_message_id: (platform.next_message_id + 1) as i64,
                uploads: m.uploads,
                next_file_id: m.next_file_id,
            }
        },
    }
}

/// The whole reaction to one event: the dialogue table decides, the one
/// record write and the session writes happen, the prompt is rendered
/// under the single-visible-message discipline, and an incoming text
/// message is deleted from the chat surface.
pub open spec fn spec_handle_event(w: WorldModel, event: Event, now: i64) -> WorldModel {
    let user = event.spec_user();
    let session = spec_session_of(w.sessions, user);
    let outcome = spec_step(session.state, session.language, event);
    let orders = spec_apply_record(w.orders, user, event, outcome.record, now);
    let sessions_lang = spec_apply_language(w.sessions, user, outcome.set_language);
    let sessions_state = spec_apply_state(sessions_lang, user, outcome);
    let effect = spec_apply_render(
        sessions_state,
        w.cache,
        w.repo,
        PlatformModel {
            messages: w.messages,
            next_message_id: w.next_message_id,
            uploads: w.uploads,
            next_file_id: w.next_file_id,
        },
        user,
        outcome.render,
    );
    let messages = if outcome.delete_incoming {
        effect.messages.filter(
            |m: MessageModel| !(m.user == user && m.id == spec_event_message_id(event)),
        )
    } else {
        effect.messages
    };
    WorldModel {
        sessions: effect.sessions,
        orders: orders,
        cache: effect.cache,
        repo: w.repo,
        messages: messages,
        next_message_id: effect.next_message_id,
        uploads: effect.uploads,
        next_file_id: effect.next_file_id,
    }
}

impl World {
    /// The system's standing invariants: the display discipline holds,
    /// order identifiers are serial, and the cache has one entry per name.
    pub open spec fn wf(self) -> bool {
        &&& spec_message_inv(self@.sessions, self@.messages)
        &&& self.orders.wf()
        &&& self.cache.wf()
    }

    /// A fresh world over a given asset repository: no sessions, no
    /// orders, nothing cached, an empty chat surface.
    pub fn new(repo: AssetRepo) -> (w: World)
        ensures
            w@.sessions == Map::<i64, Session>::empty(),
            w@.orders == Seq::<OrderModel>::empty(),
            w@.cache == Seq::<CacheEntryModel>::empty(),
            w@.repo == repo@,
            w@.messages == Seq::<MessageModel>::empty(),
            w@.next_message_id == 1,
            w@.uploads == 0,
            w@.next_file_id == 1,
            w.wf(),
    {
        World {
            sessions: SessionStore::new(),
            orders: OrderStore::new(),
            cache: AssetCacheStore::new(),
            repo: repo,
            platform: ChatPlatform::new(),
        }
    }

    /// Reacts to one inbound event, exactly as the model says.
    #[verifier::rlimit(100)]
    pub fn handle_event(&mut self, event: &Event, now: i64)
        requires
            old(self).wf(),
            old(self)@.next_message_id < 0x7fff_ffff_ffff_ffff,
            old(self)@.next_file_id < 0x7fff_ffff_ffff_ffff,
            old(self)@.uploads < 0xffff_ffff_ffff_ffff,
            old(self)@.orders.len() + 1 < 0x7fff_ffff_ffff_ffff,
        ensures
            final(self)@ == spec_handle_event(old(self)@, *event, now),
            final(self).wf(),
    {
        let user = event.user();
        let session = self.sessions.get(user);
        let outcome = step(session.state, session.language, event);

        match &outcome.record {
            RecordAction::NoRecord => {},
            RecordAction::CreateOrder { text } => {
                let (username, display_name) = match event {
                    Event::Message { username, display_name, .. } => (
                        username.as_str(),
                        display_name.as_str(),
                    ),
                    Event::Callback { .. } => ("", ""),
                };
                self.orders.create_order(user, username, display_name, "", text.as_str(), now);
            },
            RecordAction::UpdateLatestOrderContacts { contacts } => {
                self.orders.update_latest_contacts(user, contacts.as_str());
            },
        }

        match outcome.set_language {
            Some(l) => self.sessions.set_language(user, l),
            None => {},
        }
        if outcome.write_state {
            self.sessions.set_state(user, outcome.next_state);
        }

        let ghost sessions_after_writes = self.sessions@;
        match outcome.render {
            RenderAction::NoRender => {},
            RenderAction::RenderText { prompt, keyboard } => {
                let lang = self.sessions.get(user).effective_language();
                let tr = translations(lang);
                let text = prompt.text(&tr);
                send_smart(&mut self.sessions, &mut self.platform, user, text, keyboard, None);
            },
            RenderAction::RenderImage { asset, caption, keyboard } => {
                let lang = self.sessions.get(user).effective_language();
                let tr = translations(lang);
                let text = caption.text(&tr);
                let sent = send_smart_with_image(
                    &mut self.sessions,
                    &mut self.platform,
                    &mut self.cache,
                    &self.repo,
                    user,
                    asset.subfolder(),
                    asset.name(),
                    text,
                    keyboard,
                );
                match sent {
                    Ok(_) => {},
                    Err(_) => {
                        send_smart(
                            &mut self.sessions,
                            &mut self.platform,
                            user,
                            text,
                            keyboard,
                            None,
                        );
                    },
                }
            },
        }

        if outcome.delete_incoming {
            let ghost msgs_before_delete = self.platform@.messages;
            let ghost sessions_final = self.sessions@;
            let message_id = match event {
                Event::Message { message_id, .. } => *message_id,
                Event::Callback { .. } => 0,
            };
            self.platform.delete_message(user, message_id);
            proof {
                let pred = |m: MessageModel| !(m.user == user && m.id == message_id);
                crate::message_control::lemma_filter_subset(msgs_before_delete, pred);
                let remaining = msgs_before_delete.filter(pred);
                assert forall|j: int|
                    0 <= j < remaining.len() && (#[trigger] remaining[j]).from_bot implies
                    spec_session_of(sessions_final, remaining[j].user).last_message_id == Some(
                    remaining[j].id,
                ) by {
                    let k = choose|k: int|
                        0 <= k < msgs_before_delete.len() && msgs_before_delete[k] == remaining[j];
                }
            }
        }
    }
}

/// A user's chosen language outlasts every event that is not that user's
/// own language pick: only a language-choice button press, made by the
/// user while the language prompt is up, changes what the session stores,
/// and renders always word their prompts in the stored language.
pub proof fn lemma_language_persists(w: WorldModel, event: Event, now: i64, u: i64)
    requires
        match event {
            Event::Callback { user, data, .. } => !(user == u && spec_session_of(
                w.sessions,
                u,
            ).state == SessionState::LanguageSelect && (data@ == "lang_ru"@ || data@
                == "lang_en"@)),
            Event::Message { .. } => true,
        },
    ensures
        spec_session_of(spec_handle_event(w, event, now).sessions, u).language == spec_session_of(
            w.sessions,
            u,
        ).language,
{
}

/// Picking the alternate language from the language prompt persists it
/// and answers in it: the session moves to `Idle` with the alternate
/// language stored, and the message now shown to the user is the
/// language-changed confirmation worded in the alternate language.
pub proof fn lemma_language_choice_applies(
    w: WorldModel,
    user: i64,
    id: String,
    data: String,
    now: i64,
)
    requires
        spec_session_of(w.sessions, user).state == SessionState::LanguageSelect,
        data@ == "lang_en"@,
    ensures
        ({
            let w1 = spec_handle_event(
                w,
                Event::Callback { user: user, id: id, data: data },
                now,
            );
            &&& spec_session_of(w1.sessions, user).language == Some(Language::En)
            &&& spec_session_of(w1.sessions, user).state == SessionState::Idle
            &&& w1.messages.len() > 0
            &&& w1.messages.last().user == user
            &&& w1.messages.last().from_bot
            &&& w1.messages.last().text == spec_translations(Language::En).lang_changed@
        }),
{
    reveal_strlit("lang_ru");
    reveal_strlit("lang_en");
    assert("lang_ru"@.len() == 7);
    assert("lang_en"@.len() == 7);
    assert("lang_ru"@[5] == 'r');
    assert("lang_en"@[5] == 'e');
    assert(data@ != "lang_ru"@);
}

/// Business-record continuity: from `AwaitingOrderTask`, a task text
/// followed by a contacts text from the same user creates exactly one
/// order — its task field is the first input, its contacts field the
/// second — leaves every earlier order untouched, and returns the session
/// to `Idle`.
pub proof fn lemma_order_record_continuity(
    w: WorldModel,
    user: i64,
    e1: Event,
    e2: Event,
    now1: i64,
    now2: i64,
)
    requires
        spec_session_of(w.sessions, user).state == SessionState::AwaitingOrderTask,
        e1 is Message,
        e1.spec_user() == user,
        e2 is Message,
        e2.spec_user() == user,
        w.orders.len() + 1 < 0x7fff_ffff_ffff_ffff,
    ensures
        ({
            let w1 = spec_handle_event(w, e1, now1);
            let w2 = spec_handle_event(w1, e2, now2);
            &&& w2.orders.len() == w.orders.len() + 1
            &&& forall|i: int| 0 <= i < w.orders.len() ==> w2.orders[i] == w.orders[i]
            &&& w2.orders.last() == (OrderModel {
                id: (w.orders.len() + 1) as i64,
                user_id: user,
                username: spec_event_username(e1),
                name: spec_event_display_name(e1),
                contacts: spec_event_text(e2),
                text: spec_event_text(e1),
                created_at: now1,
            })
            &&& spec_session_of(w2.sessions, user).state == SessionState::Idle
        }),
{
    let w1 = spec_handle_event(w, e1, now1);
    let created = OrderModel {
        id: (w.orders.len() + 1) as i64,
        user_id: user,
        username: spec_event_username(e1),
        name: spec_event_display_name(e1),
        contacts: ""@,
        text: spec_event_text(e1),
        created_at: now1,
    };
    assert(w1.orders == w.orders.push(created));
    assert(spec_session_of(w1.sessions, user).state == SessionState::AwaitingOrderContacts);
    let w2 = spec_handle_event(w1, e2, now2);
    assert(w1.orders.last().user_id == user);
    assert(spec_latest_order_index(w1.orders, user) == Some(w.orders.len() as int));
    assert(w2.orders == w1.orders.update(
        w.orders.len() as int,
        OrderModel {
            id: created.id,
            user_id: created.user_id,
            username: created.username,
            name: created.name,
            contacts: spec_event_text(e2),
            text: created.text,
            created_at: created.created_at,
        },
    ));
}

} // verus!
